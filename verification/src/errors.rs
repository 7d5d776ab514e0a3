//! Error kinds surfaced synchronously by session and navigation operations.

use vstd::prelude::*;

verus! {

/// Why a session or navigation operation was refused.
#[derive(Debug, Clone, Copy, PartialEq, Eq, Structural)]
pub enum NavError {
    /// No rendering surface matched the identifier given at creation.
    SurfaceNotFound,
    /// The host environment could not be queried during initialization.
    HostUnavailable,
    /// A navigation command was issued before the session reached `Ready`.
    NotInitialized,
    /// Back, forward or reload was issued with no eligible history entry.
    NoHistory,
}

} // verus!
