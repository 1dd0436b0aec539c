//! The life of one overlay, from launch to teardown.
//!
//! An overlay covers a pane with a placeholder, runs a blocking function on a
//! worker thread against a terminal handle, and uncovers the pane when the
//! function has returned. [`OverlaySession`] holds the decisions of that
//! protocol: no worker without a surface, and exactly one teardown, asked for
//! after the function has returned and never before. The interface thread
//! drives a session until the worker is started; from then on the session
//! belongs to the worker.

use vstd::prelude::*;
use crate::request::{OverlayError, PaneId, UiRequest};

verus! {

/// Where a session stands.
#[derive(Debug, Clone, Copy, PartialEq, Eq, Structural)]
pub enum SessionPhase {
    /// A surface was asked for and has not arrived yet.
    Allocating,
    /// The worker runs the overlay function; the placeholder covers the pane.
    Running,
    /// The overlay function has returned and the teardown was asked for.
    Closed,
    /// No surface could be had; no worker was started.
    Failed,
}

/// What happened since the last action of a session.
#[derive(Debug, Clone, Copy, PartialEq, Eq, Structural)]
pub enum SessionEvent {
    /// The surface was allocated: its display half and its terminal handle
    /// exist.
    SurfaceReady,
    /// The surface could not be allocated.
    SurfaceRefused,
    /// The overlay function has returned on the worker thread, with a value,
    /// with an error, or by unwinding.
    WorkerReturned,
}

/// What the driver of a session does next.
#[derive(Debug, Clone, Copy, PartialEq, Eq, Structural)]
pub enum SessionAction {
    /// Allocate a surface of `cols` columns and `rows` rows, then report
    /// `SurfaceReady` or `SurfaceRefused`.
    Allocate { cols: usize, rows: usize },
    /// Cover `pane` with the display half of the surface, and start a worker
    /// that calls the overlay function with `pane` and the terminal handle.
    /// Report `WorkerReturned` from the worker when the function is back.
    Launch { pane: PaneId },
    /// Give up: tell the caller why. No worker was started.
    Report(OverlayError),
    /// Hand this request to the scheduler of the interface thread. It is the
    /// last that the worker hands over.
    Schedule(UiRequest),
}

/// The mathematical value of an [`OverlaySession`].
pub struct SessionView {
    /// The pane that the overlay covers.
    pub pane: PaneId,
    /// The columns of the pane.
    pub cols: usize,
    /// The rows of the pane.
    pub rows: usize,
    pub phase: SessionPhase,
}

impl SessionView {
    /// This session in another phase.
    pub open spec fn at(self, phase: SessionPhase) -> SessionView {
        SessionView { phase, ..self }
    }

    /// The request that uncovers the pane of this session.
    pub open spec fn teardown(self) -> UiRequest {
        UiRequest::CancelOverlay { pane: self.pane }
    }
}

/// The transition function of a session: the next state and the action to
/// perform, or `None` where `event` does not answer the action that is
/// outstanding in `s`.
///
/// A surface that arrives starts the worker; one that is refused ends the
/// session with `AllocationFailure`. When the overlay function has returned,
/// whatever it returned, the teardown of the pane is scheduled and the session
/// is closed. A session that is closed or has failed takes no event.
pub open spec fn session_step_of(s: SessionView, event: SessionEvent) -> Option<(SessionView, SessionAction)> {
    match (s.phase, event) {
        (SessionPhase::Allocating, SessionEvent::SurfaceReady) => Some(
            (s.at(SessionPhase::Running), SessionAction::Launch { pane: s.pane }),
        ),
        (SessionPhase::Allocating, SessionEvent::SurfaceRefused) => Some(
            (s.at(SessionPhase::Failed), SessionAction::Report(OverlayError::AllocationFailure)),
        ),
        (SessionPhase::Running, SessionEvent::WorkerReturned) => Some(
            (s.at(SessionPhase::Closed), SessionAction::Schedule(s.teardown())),
        ),
        _ => None,
    }
}

/// One overlay on one pane.
pub struct OverlaySession {
    pane: PaneId,
    cols: usize,
    rows: usize,
    phase: SessionPhase,
}

impl View for OverlaySession {
    type V = SessionView;

    closed spec fn view(&self) -> SessionView {
        SessionView { pane: self.pane, cols: self.cols, rows: self.rows, phase: self.phase }
    }
}

/// Starts an overlay on the pane `pane`, which shows `cols` columns and `rows`
/// rows: the session, and its first action, which is to allocate a surface of
/// the size of the pane.
pub fn start_overlay(pane: PaneId, cols: usize, rows: usize) -> (started: (OverlaySession, SessionAction))
    ensures
        started.0@ == (SessionView { pane, cols, rows, phase: SessionPhase::Allocating }),
        started.1 == (SessionAction::Allocate { cols, rows }),
{
    (
        OverlaySession { pane, cols, rows, phase: SessionPhase::Allocating },
        SessionAction::Allocate { cols, rows },
    )
}

impl OverlaySession {
    /// The pane that the overlay covers.
    pub fn pane(&self) -> (pane: PaneId)
        ensures
            pane == self@.pane,
    {
        self.pane
    }

    /// Where the session stands.
    pub fn phase(&self) -> (phase: SessionPhase)
        ensures
            phase == self@.phase,
    {
        self.phase
    }

    /// Takes what happened and says what to do next.
    ///
    /// The answer is `None`, and nothing changes, where `event` does not
    /// answer the action that is outstanding.
    pub fn step(&mut self, event: SessionEvent) -> (action: Option<SessionAction>)
        ensures
            match session_step_of(old(self)@, event) {
                Some((next, act)) => final(self)@ == next && action == Some(act),
                None => final(self)@ == old(self)@ && action.is_none(),
            },
    {
        match (self.phase, event) {
            (SessionPhase::Allocating, SessionEvent::SurfaceReady) => {
                self.phase = SessionPhase::Running;
                Some(SessionAction::Launch { pane: self.pane })
            },
            (SessionPhase::Allocating, SessionEvent::SurfaceRefused) => {
                self.phase = SessionPhase::Failed;
                Some(SessionAction::Report(OverlayError::AllocationFailure))
            },
            (SessionPhase::Running, SessionEvent::WorkerReturned) => {
                self.phase = SessionPhase::Closed;
                Some(SessionAction::Schedule(UiRequest::CancelOverlay { pane: self.pane }))
            },
            _ => None,
        }
    }
}

/// The state of a session after the events `events`, each taken in turn. An
/// event that the session does not take leaves it as it is.
pub open spec fn session_after(s: SessionView, events: Seq<SessionEvent>) -> SessionView
    decreases events.len(),
{
    if events.len() == 0 {
        s
    } else {
        let before = session_after(s, events.drop_last());
        match session_step_of(before, events.last()) {
            Some((next, _)) => next,
            None => before,
        }
    }
}

/// The requests that a session hands to the interface thread while it takes
/// the events `events`, in order.
pub open spec fn scheduled(s: SessionView, events: Seq<SessionEvent>) -> Seq<UiRequest>
    decreases events.len(),
{
    if events.len() == 0 {
        Seq::empty()
    } else {
        let before = session_after(s, events.drop_last());
        let earlier = scheduled(s, events.drop_last());
        match session_step_of(before, events.last()) {
            Some((_, SessionAction::Schedule(request))) => earlier.push(request),
            _ => earlier,
        }
    }
}

/// The teardown is asked for in answer to the return of the overlay function
/// and to nothing else, and it names the pane of the session.
pub proof fn lemma_teardown_answers_return(s: SessionView, event: SessionEvent)
    ensures
        (session_step_of(s, event) matches Some((_, action)) && action is Schedule) <==> (s.phase
            == SessionPhase::Running && event == SessionEvent::WorkerReturned),
        s.phase == SessionPhase::Running ==> session_step_of(s, SessionEvent::WorkerReturned) == Some(
            (s.at(SessionPhase::Closed), SessionAction::Schedule(UiRequest::CancelOverlay { pane: s.pane })),
        ),
{
}

/// A surface that is refused ends the session at once: nothing starts a
/// worker afterwards.
pub proof fn lemma_no_worker_without_surface(s: SessionView, events: Seq<SessionEvent>)
    requires
        s.phase == SessionPhase::Failed,
    ensures
        session_after(s, events) == s,
        scheduled(s, events) == Seq::<UiRequest>::empty(),
    decreases events.len(),
{
    if events.len() > 0 {
        lemma_no_worker_without_surface(s, events.drop_last());
    }
}

/// Over the whole life of a session the teardown is asked for once at most,
/// and once exactly where the session is closed at the end; before the
/// overlay function has returned it is not asked for at all.
pub proof fn lemma_one_teardown(s: SessionView, events: Seq<SessionEvent>)
    requires
        s.phase == SessionPhase::Allocating || s.phase == SessionPhase::Running,
    ensures
        session_after(s, events).pane == s.pane,
        scheduled(s, events) == if session_after(s, events).phase == SessionPhase::Closed {
            seq![UiRequest::CancelOverlay { pane: s.pane }]
        } else {
            Seq::<UiRequest>::empty()
        },
        session_after(s, events).phase == SessionPhase::Closed ==> events.contains(
            SessionEvent::WorkerReturned,
        ),
    decreases events.len(),
{
    if events.len() > 0 {
        let earlier = events.drop_last();
        lemma_one_teardown(s, earlier);
        if session_after(s, earlier).phase == SessionPhase::Closed {
            let at = choose|i: int| 0 <= i < earlier.len() && earlier[i] == SessionEvent::WorkerReturned;
            assert(events[at] == SessionEvent::WorkerReturned);
        } else if session_after(s, events).phase == SessionPhase::Closed {
            assert(events[events.len() - 1] == SessionEvent::WorkerReturned);
        }
    }
}

} // verus!
