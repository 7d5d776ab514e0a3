//! Session lifecycle: surface binding, initialization gating, and the
//! navigation commands exposed to the caller.
//!
//! A session is created bound to a rendering surface, becomes usable only
//! once initialized against the host environment, and from then on forwards
//! validated navigation commands to its [`NavigationController`]. The host
//! lookup and viewport query themselves are I/O performed by the embedding
//! layer, which hands their plain results to the functions here.

use vstd::prelude::*;

verus! {

use crate::errors::NavError;
use crate::history::navigated_to;
use crate::history::reloaded;
use crate::history::went_back;
use crate::history::went_forward;
use crate::history::LoadCommand;
use crate::history::LoadOutcome;
use crate::history::LoadPhase;
use crate::history::NavigationController;

/// Everything of a session except its navigation state is unchanged.
pub open spec fn frame_except_nav(pre: Session, post: Session) -> bool {
    &&& post.surface == pre.surface
    &&& post.lifecycle == pre.lifecycle
    &&& post.width == pre.width
    &&& post.height == pre.height
}

/// Setup progress of a session. Transitions only move forward, except that
/// `Failed` is reachable from any state on an unrecoverable setup error.
#[derive(Debug, Clone, Copy, PartialEq, Eq, Structural)]
pub enum LifecycleState {
    /// Created, not yet initialized against the host environment.
    Uninitialized,
    /// Initialization has started and awaits the host's response.
    Initializing,
    /// Fully set up; navigation commands are accepted.
    Ready,
    /// Setup failed; every further operation is refused.
    Failed,
}

/// Handle to the host-owned rendering surface the session draws into. The
/// session owns the handle, never the surface's pixels.
pub struct SurfaceHandle {
    /// Identifier under which the host resolved the surface.
    pub id: String,
}

/// Viewport dimensions in device pixels, as reported by the host.
#[derive(Debug, Clone, Copy, PartialEq, Eq, Structural)]
pub struct Viewport {
    /// Width in device pixels.
    pub width: u32,
    /// Height in device pixels.
    pub height: u32,
}

/// What `initialize` did, so the embedding layer knows whether host event
/// subscriptions still have to be registered.
#[derive(Debug, Clone, Copy, PartialEq, Eq, Structural)]
pub enum InitOutcome {
    /// The session just became ready; listeners must be registered once.
    Initialized,
    /// The session was already ready; nothing was done and no listener may
    /// be registered again.
    AlreadyReady,
}

/// One embedded browsing context: a rendering surface, the lifecycle gating
/// every operation, the surface dimensions, and the navigation history.
pub struct Session {
    /// The bound rendering surface; set at creation, never reassigned.
    pub surface: SurfaceHandle,
    /// Setup progress; navigation requires `Ready`.
    pub lifecycle: LifecycleState,
    /// Current surface width in device pixels.
    pub width: u32,
    /// Current surface height in device pixels.
    pub height: u32,
    /// Back/forward history and current-load state.
    pub nav: NavigationController,
}

impl Session {
    /// Structural invariant of the whole session.
    pub open spec fn wf(&self) -> bool {
        self.nav.wf()
    }

    /// Whether navigation commands are currently accepted.
    pub open spec fn is_ready(&self) -> bool {
        self.lifecycle == LifecycleState::Ready
    }

    /// Create a session bound to the surface the host resolved, if it
    /// resolved one. The embedding layer performs the lookup exactly once
    /// and passes its result; no surface means `SurfaceNotFound`.
    pub fn create(resolved: Option<SurfaceHandle>) -> (r: Result<Session, NavError>)
        ensures
            (resolved is None) ==> r == Err::<Session, NavError>(NavError::SurfaceNotFound),
            (resolved is Some) ==> (r matches Ok(s)
                && s.wf()
                && s.surface == resolved->0
                && s.lifecycle == LifecycleState::Uninitialized
                && s.width == 0
                && s.height == 0
                && s.nav.urls() == Seq::<Seq<char>>::empty()
                && s.nav.cursor == 0
                && s.nav.next_seq == 1
                && (s.nav.spec_pending() is None)),
    {
        match resolved {
            None => Err(NavError::SurfaceNotFound),
            Some(surface) => {
                let nav = NavigationController::new();
                proof {
                    assert(nav.urls() =~= Seq::<Seq<char>>::empty());
                }
                Ok(
                    Session {
                        surface,
                        lifecycle: LifecycleState::Uninitialized,
                        width: 0,
                        height: 0,
                        nav,
                    },
                )
            },
        }
    }

    /// Apply the host's viewport answer and finish setup. `viewport` is the
    /// result of the embedding layer's host query: `None` when the host
    /// could not be reached, which fails the session for good. Calling this
    /// on an already-ready session is a no-op that returns success.
    pub fn initialize(&mut self, viewport: Option<Viewport>) -> (r: Result<InitOutcome, NavError>)
        requires
            old(self).wf(),
        ensures
            final(self).wf(),
            final(self).surface == old(self).surface,
            final(self).nav == old(self).nav,
            old(self).is_ready() ==> r == Ok::<InitOutcome, NavError>(InitOutcome::AlreadyReady)
                && *final(self) == *old(self),
            old(self).lifecycle == LifecycleState::Failed ==> r == Err::<InitOutcome, NavError>(
                NavError::NotInitialized,
            ) && *final(self) == *old(self),
            (old(self).lifecycle == LifecycleState::Uninitialized || old(self).lifecycle
                == LifecycleState::Initializing) ==> match viewport {
                Some(v) => {
                    &&& r == Ok::<InitOutcome, NavError>(InitOutcome::Initialized)
                    &&& final(self).lifecycle == LifecycleState::Ready
                    &&& final(self).width == v.width
                    &&& final(self).height == v.height
                },
                None => {
                    &&& r == Err::<InitOutcome, NavError>(NavError::HostUnavailable)
                    &&& final(self).lifecycle == LifecycleState::Failed
                    &&& final(self).width == old(self).width
                    &&& final(self).height == old(self).height
                },
            },
    {
        match self.lifecycle {
            LifecycleState::Ready => Ok(InitOutcome::AlreadyReady),
            LifecycleState::Failed => Err(NavError::NotInitialized),
            _ => {
                self.lifecycle = LifecycleState::Initializing;
                match viewport {
                    Some(v) => {
                        self.width = v.width;
                        self.height = v.height;
                        self.lifecycle = LifecycleState::Ready;
                        Ok(InitOutcome::Initialized)
                    },
                    None => {
                        self.lifecycle = LifecycleState::Failed;
                        Err(NavError::HostUnavailable)
                    },
                }
            },
        }
    }

    /// Apply a resize notification from the host. Dimensions change only
    /// while the session is ready (listeners exist only then); any other
    /// state ignores the event.
    pub fn handle_resize(&mut self, width: u32, height: u32)
        requires
            old(self).wf(),
        ensures
            final(self).wf(),
            old(self).is_ready() ==> *final(self) == (Session { width, height, ..*old(self) }),
            !old(self).is_ready() ==> *final(self) == *old(self),
    {
        if let LifecycleState::Ready = self.lifecycle {
            self.width = width;
            self.height = height;
        }
    }

    /// Whether the session is ready for navigation commands.
    pub fn ready(&self) -> (b: bool)
        ensures
            b == self.is_ready(),
    {
        match self.lifecycle {
            LifecycleState::Ready => true,
            _ => false,
        }
    }

    /// Visit `url`, always legal while ready: any pending load is cancelled,
    /// forward entries are discarded, and a fresh load for `url` is issued.
    /// Before the session is ready the command fails with `NotInitialized`
    /// and changes nothing.
    pub fn navigate(&mut self, url: &str) -> (r: Result<LoadCommand, NavError>)
        requires
            old(self).wf(),
            old(self).nav.next_seq < u64::MAX,
        ensures
            final(self).wf(),
            !old(self).is_ready() ==> r == Err::<LoadCommand, NavError>(NavError::NotInitialized)
                && *final(self) == *old(self),
            old(self).is_ready() ==> (r matches Ok(cmd) && frame_except_nav(
                *old(self),
                *final(self),
            ) && navigated_to(old(self).nav, final(self).nav, url@, cmd)),
    {
        if !self.ready() {
            return Err(NavError::NotInitialized);
        }
        Ok(self.nav.navigate(url))
    }

    /// Move one history entry back and load it, cancelling any pending
    /// load. Fails with `NotInitialized` before the session is ready and
    /// with `NoHistory` when no entry precedes the cursor; a failed command
    /// changes nothing.
    pub fn go_back(&mut self) -> (r: Result<LoadCommand, NavError>)
        requires
            old(self).wf(),
            old(self).nav.next_seq < u64::MAX,
        ensures
            final(self).wf(),
            !old(self).is_ready() ==> r == Err::<LoadCommand, NavError>(NavError::NotInitialized)
                && *final(self) == *old(self),
            old(self).is_ready() && !old(self).nav.can_go_back() ==> r == Err::<
                LoadCommand,
                NavError,
            >(NavError::NoHistory) && *final(self) == *old(self),
            old(self).is_ready() && old(self).nav.can_go_back() ==> (r matches Ok(cmd)
                && frame_except_nav(*old(self), *final(self)) && went_back(
                old(self).nav,
                final(self).nav,
                cmd,
            )),
    {
        if !self.ready() {
            return Err(NavError::NotInitialized);
        }
        self.nav.go_back()
    }

    /// Move one history entry forward and load it, cancelling any pending
    /// load. Fails with `NotInitialized` before the session is ready and
    /// with `NoHistory` when no entry follows the cursor; a failed command
    /// changes nothing.
    pub fn go_forward(&mut self) -> (r: Result<LoadCommand, NavError>)
        requires
            old(self).wf(),
            old(self).nav.next_seq < u64::MAX,
        ensures
            final(self).wf(),
            !old(self).is_ready() ==> r == Err::<LoadCommand, NavError>(NavError::NotInitialized)
                && *final(self) == *old(self),
            old(self).is_ready() && !old(self).nav.can_go_forward() ==> r == Err::<
                LoadCommand,
                NavError,
            >(NavError::NoHistory) && *final(self) == *old(self),
            old(self).is_ready() && old(self).nav.can_go_forward() ==> (r matches Ok(cmd)
                && frame_except_nav(*old(self), *final(self)) && went_forward(
                old(self).nav,
                final(self).nav,
                cmd,
            )),
    {
        if !self.ready() {
            return Err(NavError::NotInitialized);
        }
        self.nav.go_forward()
    }

    /// Re-issue a load for the current entry without touching the stack,
    /// cancelling any pending load. Fails with `NotInitialized` before the
    /// session is ready and with `NoHistory` on an empty history; a failed
    /// command changes nothing.
    pub fn reload(&mut self) -> (r: Result<LoadCommand, NavError>)
        requires
            old(self).wf(),
            old(self).nav.next_seq < u64::MAX,
        ensures
            final(self).wf(),
            !old(self).is_ready() ==> r == Err::<LoadCommand, NavError>(NavError::NotInitialized)
                && *final(self) == *old(self),
            old(self).is_ready() && !old(self).nav.can_reload() ==> r == Err::<
                LoadCommand,
                NavError,
            >(NavError::NoHistory) && *final(self) == *old(self),
            old(self).is_ready() && old(self).nav.can_reload() ==> (r matches Ok(cmd)
                && frame_except_nav(*old(self), *final(self)) && reloaded(
                old(self).nav,
                final(self).nav,
                cmd,
            )),
    {
        if !self.ready() {
            return Err(NavError::NotInitialized);
        }
        self.nav.reload()
    }

    /// Cancel the pending load, if any, returning its sequence number; with
    /// no load pending it succeeds and changes nothing. Fails only with
    /// `NotInitialized` before the session is ready.
    pub fn stop(&mut self) -> (r: Result<Option<u64>, NavError>)
        requires
            old(self).wf(),
        ensures
            final(self).wf(),
            !old(self).is_ready() ==> r == Err::<Option<u64>, NavError>(NavError::NotInitialized)
                && *final(self) == *old(self),
            old(self).is_ready() ==> r == Ok::<Option<u64>, NavError>(old(self).nav.spec_pending())
                && frame_except_nav(*old(self), *final(self)),
            old(self).is_ready() && (old(self).nav.spec_pending() is Some) ==> final(self).nav == (
            NavigationController { phase: LoadPhase::Idle, ..old(self).nav }),
            old(self).is_ready() && (old(self).nav.spec_pending() is None) ==> *final(self) == *old(
                self,
            ),
    {
        if !self.ready() {
            return Err(NavError::NotInitialized);
        }
        Ok(self.nav.stop())
    }

    /// Apply a load completion `(seq, outcome)` delivered by the external
    /// loading engine. Only the pending load's own sequence number is
    /// honored; a stale completion is dropped and changes nothing, so each
    /// navigation command has at most one observable outcome.
    pub fn complete_load(&mut self, seq: u64, outcome: LoadOutcome) -> (honored: bool)
        requires
            old(self).wf(),
        ensures
            final(self).wf(),
            frame_except_nav(*old(self), *final(self)),
            honored == (old(self).nav.spec_pending() == Some(seq)),
            !honored ==> *final(self) == *old(self),
            honored ==> final(self).nav == (NavigationController {
                phase: match outcome {
                    LoadOutcome::Success => LoadPhase::Idle,
                    LoadOutcome::Failure => LoadPhase::Failed,
                },
                ..old(self).nav
            }),
    {
        self.nav.complete_load(seq, outcome)
    }
}

} // verus!
