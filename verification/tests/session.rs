//! Session lifecycle behaviour: creation, initialization gating, resize,
//! and the end-to-end navigation scenarios.

use verso_session::InitOutcome;
use verso_session::LifecycleState;
use verso_session::LoadOutcome;
use verso_session::LoadPhase;
use verso_session::NavError;
use verso_session::Session;
use verso_session::SurfaceHandle;
use verso_session::Viewport;

fn surface(id: &str) -> SurfaceHandle {
    SurfaceHandle { id: id.to_string() }
}

fn ready_session() -> Session {
    let mut s = Session::create(Some(surface("c1"))).unwrap();
    s.initialize(Some(Viewport { width: 800, height: 600 })).unwrap();
    s
}

#[test]
fn create_binds_surface_uninitialized() {
    let s = Session::create(Some(surface("c1"))).unwrap();
    assert_eq!(s.surface.id, "c1");
    assert_eq!(s.lifecycle, LifecycleState::Uninitialized);
    assert_eq!(s.width, 0);
    assert_eq!(s.height, 0);
    assert!(s.nav.entries.is_empty());
    assert_eq!(s.nav.cursor, 0);
    assert_eq!(s.nav.phase, LoadPhase::Idle);
}

#[test]
fn create_without_surface_fails() {
    let r = Session::create(None);
    assert!(matches!(r, Err(NavError::SurfaceNotFound)));
}

#[test]
fn initialize_applies_viewport_and_becomes_ready() {
    let mut s = Session::create(Some(surface("c1"))).unwrap();
    let r = s.initialize(Some(Viewport { width: 1024, height: 768 }));
    assert_eq!(r, Ok(InitOutcome::Initialized));
    assert_eq!(s.lifecycle, LifecycleState::Ready);
    assert_eq!(s.width, 1024);
    assert_eq!(s.height, 768);
}

#[test]
fn initialize_on_ready_session_is_noop() {
    let mut s = ready_session();
    let r = s.initialize(Some(Viewport { width: 1, height: 1 }));
    assert_eq!(r, Ok(InitOutcome::AlreadyReady));
    assert_eq!(s.width, 800);
    assert_eq!(s.height, 600);
    assert_eq!(s.lifecycle, LifecycleState::Ready);
}

#[test]
fn initialize_without_host_fails_session() {
    let mut s = Session::create(Some(surface("c1"))).unwrap();
    let r = s.initialize(None);
    assert_eq!(r, Err(NavError::HostUnavailable));
    assert_eq!(s.lifecycle, LifecycleState::Failed);
    let again = s.initialize(Some(Viewport { width: 800, height: 600 }));
    assert_eq!(again, Err(NavError::NotInitialized));
    assert_eq!(s.lifecycle, LifecycleState::Failed);
}

#[test]
fn commands_before_ready_fail_and_change_nothing() {
    let mut s = Session::create(Some(surface("c1"))).unwrap();
    assert!(matches!(s.navigate("https://a"), Err(NavError::NotInitialized)));
    assert!(matches!(s.go_back(), Err(NavError::NotInitialized)));
    assert!(matches!(s.go_forward(), Err(NavError::NotInitialized)));
    assert!(matches!(s.reload(), Err(NavError::NotInitialized)));
    assert!(matches!(s.stop(), Err(NavError::NotInitialized)));
    assert!(s.nav.entries.is_empty());
    assert_eq!(s.nav.cursor, 0);
    assert_eq!(s.nav.next_seq, 1);
    assert_eq!(s.nav.phase, LoadPhase::Idle);
    assert_eq!(s.lifecycle, LifecycleState::Uninitialized);
}

#[test]
fn commands_on_failed_session_fail_and_change_nothing() {
    let mut s = Session::create(Some(surface("c1"))).unwrap();
    s.initialize(None).unwrap_err();
    assert!(matches!(s.navigate("https://a"), Err(NavError::NotInitialized)));
    assert!(matches!(s.reload(), Err(NavError::NotInitialized)));
    assert!(s.nav.entries.is_empty());
    assert_eq!(s.nav.cursor, 0);
}

#[test]
fn resize_applies_only_when_ready() {
    let mut s = Session::create(Some(surface("c1"))).unwrap();
    s.handle_resize(500, 400);
    assert_eq!(s.width, 0);
    assert_eq!(s.height, 0);
    s.initialize(Some(Viewport { width: 800, height: 600 })).unwrap();
    s.handle_resize(500, 400);
    assert_eq!(s.width, 500);
    assert_eq!(s.height, 400);
}

#[test]
fn scenario_navigate_twice_then_back() {
    let mut s = ready_session();
    s.navigate("https://a").unwrap();
    s.navigate("https://b").unwrap();
    let cmd = s.go_back().unwrap();
    assert_eq!(cmd.url, "https://a");
    assert_eq!(s.nav.cursor, 0);
    assert_eq!(s.nav.entries, vec!["https://a".to_string(), "https://b".to_string()]);
}

#[test]
fn back_with_no_earlier_entry_fails_unchanged() {
    let mut s = ready_session();
    let cmd = s.navigate("https://a").unwrap();
    let r = s.go_back();
    assert!(matches!(r, Err(NavError::NoHistory)));
    assert_eq!(s.nav.entries, vec!["https://a".to_string()]);
    assert_eq!(s.nav.cursor, 0);
    assert_eq!(s.nav.phase, LoadPhase::Loading(cmd.seq));
}

#[test]
fn back_on_empty_history_fails_unchanged() {
    let mut s = ready_session();
    let r = s.go_back();
    assert!(matches!(r, Err(NavError::NoHistory)));
    assert!(s.nav.entries.is_empty());
    assert_eq!(s.nav.cursor, 0);
    assert_eq!(s.nav.phase, LoadPhase::Idle);
}

#[test]
fn stale_completion_is_ignored() {
    let mut s = ready_session();
    let cmd1 = s.navigate("https://a").unwrap();
    assert_eq!(cmd1.seq, 1);
    assert_eq!(cmd1.cancelled, None);
    let cmd2 = s.navigate("https://b").unwrap();
    assert_eq!(cmd2.seq, 2);
    assert_eq!(cmd2.cancelled, Some(1));
    let honored = s.complete_load(1, LoadOutcome::Success);
    assert!(!honored);
    assert_eq!(s.nav.phase, LoadPhase::Loading(2));
    let honored = s.complete_load(2, LoadOutcome::Success);
    assert!(honored);
    assert_eq!(s.nav.phase, LoadPhase::Idle);
    assert_eq!(s.nav.entries, vec!["https://a".to_string(), "https://b".to_string()]);
    assert_eq!(s.nav.cursor, 1);
}

#[test]
fn stop_without_pending_is_noop() {
    let mut s = ready_session();
    let r = s.stop();
    assert_eq!(r, Ok(None));
    assert!(s.nav.entries.is_empty());
    assert_eq!(s.nav.cursor, 0);
    assert_eq!(s.nav.next_seq, 1);
    assert_eq!(s.nav.phase, LoadPhase::Idle);
    assert_eq!(s.lifecycle, LifecycleState::Ready);
}

#[test]
fn stop_cancels_pending_load() {
    let mut s = ready_session();
    let cmd = s.navigate("https://a").unwrap();
    let r = s.stop();
    assert_eq!(r, Ok(Some(cmd.seq)));
    assert_eq!(s.nav.phase, LoadPhase::Idle);
    assert_eq!(s.nav.entries, vec!["https://a".to_string()]);
    let r = s.stop();
    assert_eq!(r, Ok(None));
}
