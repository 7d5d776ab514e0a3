//! Verified core of an embedded browsing session.
//!
//! A `Session` binds a host-provided rendering surface, gates every operation
//! on a strict lifecycle, and drives a back/forward navigation history with
//! cancellation of superseded loads. Actual content loading, host window
//! queries and event plumbing are external collaborators: the session only
//! decides which transitions are valid and which load requests to issue.

pub mod errors;
pub mod history;
pub mod session;

pub use errors::NavError;
pub use history::LoadCommand;
pub use history::LoadOutcome;
pub use history::LoadPhase;
pub use history::NavigationController;
pub use session::InitOutcome;
pub use session::LifecycleState;
pub use session::Session;
pub use session::SurfaceHandle;
pub use session::Viewport;
