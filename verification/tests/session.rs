use overlay::request::{OverlayError, UiRequest};
use overlay::session::{start_overlay, SessionAction, SessionEvent, SessionPhase};

#[test]
fn a_session_starts_by_allocating_a_surface_of_the_size_of_the_pane() {
    let (session, action) = start_overlay(7, 80, 24);
    assert_eq!(action, SessionAction::Allocate { cols: 80, rows: 24 });
    assert_eq!(session.pane(), 7);
    assert_eq!(session.phase(), SessionPhase::Allocating);
}

#[test]
fn a_surface_starts_the_worker() {
    let (mut session, _) = start_overlay(7, 80, 24);
    assert_eq!(session.step(SessionEvent::SurfaceReady), Some(SessionAction::Launch { pane: 7 }));
    assert_eq!(session.phase(), SessionPhase::Running);
}

#[test]
fn a_refused_surface_is_an_allocation_failure() {
    let (mut session, _) = start_overlay(7, 0, 0);
    assert_eq!(
        session.step(SessionEvent::SurfaceRefused),
        Some(SessionAction::Report(OverlayError::AllocationFailure))
    );
    assert_eq!(session.phase(), SessionPhase::Failed);
}

#[test]
fn no_worker_starts_after_a_refused_surface() {
    let (mut session, _) = start_overlay(7, 0, 0);
    session.step(SessionEvent::SurfaceRefused);
    assert_eq!(session.step(SessionEvent::SurfaceReady), None);
    assert_eq!(session.step(SessionEvent::WorkerReturned), None);
    assert_eq!(session.step(SessionEvent::SurfaceRefused), None);
    assert_eq!(session.phase(), SessionPhase::Failed);
}

#[test]
fn the_teardown_follows_the_return_of_the_worker() {
    let (mut session, _) = start_overlay(3, 120, 40);
    session.step(SessionEvent::SurfaceReady);
    assert_eq!(
        session.step(SessionEvent::WorkerReturned),
        Some(SessionAction::Schedule(UiRequest::CancelOverlay { pane: 3 }))
    );
    assert_eq!(session.phase(), SessionPhase::Closed);
}

#[test]
fn no_teardown_before_the_worker_runs() {
    let (mut session, _) = start_overlay(3, 120, 40);
    assert_eq!(session.step(SessionEvent::WorkerReturned), None);
    assert_eq!(session.phase(), SessionPhase::Allocating);
}

#[test]
fn the_teardown_is_asked_for_once() {
    let (mut session, _) = start_overlay(3, 120, 40);
    let events = [
        SessionEvent::WorkerReturned,
        SessionEvent::SurfaceReady,
        SessionEvent::SurfaceReady,
        SessionEvent::SurfaceRefused,
        SessionEvent::WorkerReturned,
        SessionEvent::WorkerReturned,
        SessionEvent::SurfaceReady,
        SessionEvent::WorkerReturned,
    ];
    let mut teardowns = 0;
    let mut returned = false;
    for event in events {
        let was_running = session.phase() == SessionPhase::Running;
        if let Some(SessionAction::Schedule(request)) = session.step(event) {
            assert_eq!(request, UiRequest::CancelOverlay { pane: 3 });
            assert_eq!(event, SessionEvent::WorkerReturned);
            assert!(was_running);
            returned = true;
            teardowns += 1;
        }
    }
    assert!(returned);
    assert_eq!(teardowns, 1);
    assert_eq!(session.phase(), SessionPhase::Closed);
}

#[test]
fn a_running_session_takes_no_surface() {
    let (mut session, _) = start_overlay(3, 120, 40);
    session.step(SessionEvent::SurfaceReady);
    assert_eq!(session.step(SessionEvent::SurfaceReady), None);
    assert_eq!(session.step(SessionEvent::SurfaceRefused), None);
    assert_eq!(session.phase(), SessionPhase::Running);
}

#[test]
fn two_sessions_close_in_either_order() {
    let (mut first, _) = start_overlay(1, 80, 24);
    let (mut second, _) = start_overlay(2, 100, 30);
    first.step(SessionEvent::SurfaceReady);
    second.step(SessionEvent::SurfaceReady);
    assert_eq!(
        second.step(SessionEvent::WorkerReturned),
        Some(SessionAction::Schedule(UiRequest::CancelOverlay { pane: 2 }))
    );
    assert_eq!(first.phase(), SessionPhase::Running);
    assert_eq!(
        first.step(SessionEvent::WorkerReturned),
        Some(SessionAction::Schedule(UiRequest::CancelOverlay { pane: 1 }))
    );
}
