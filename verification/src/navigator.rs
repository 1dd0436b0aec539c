//! The tab navigator: an overlay that lists the tabs of a window and lets the
//! user pick the one to activate.
//!
//! [`TabNavigator`] is a state machine. It never touches a terminal: each call
//! of [`TabNavigator::step`] takes what the terminal just did and answers with
//! what to do next. [`tab_navigator`] runs the machine against a terminal that
//! is known in advance.

use vstd::prelude::*;
use crate::change::{views, Change, ChangeView};
use crate::frame::{frame_of, render, title_changes, title_frame, titles_of};
use crate::input::{command_of, Command, InputEvent};
use crate::request::{OverlayError, TabId, UiRequest, WindowId};

verus! {

/// Where a navigator stands.
#[derive(Debug, Clone, Copy, PartialEq, Eq, Structural)]
pub enum Phase {
    /// Nothing was drawn yet.
    Created,
    /// The title was handed to the display, which has not answered yet.
    Naming,
    /// A frame was handed to the display, which has not answered yet.
    Drawing,
    /// The list is on screen and the navigator waits for input.
    Waiting,
    /// The navigator has ended.
    Done,
}

/// What the terminal did since the last action.
#[derive(Debug, Clone, Copy, PartialEq, Eq, Structural)]
pub enum Event {
    /// The navigator was given its terminal handle.
    Started,
    /// The display took the change-set of the last `Render`.
    Rendered,
    /// The display refused the change-set of the last `Render`.
    RenderFailed,
    /// The input stream gave an event.
    Input(InputEvent),
    /// The input stream has ended: the surface was closed.
    InputClosed,
}

/// What the driver of a navigator does next.
#[derive(Debug, PartialEq, Eq)]
pub enum Action {
    /// Hand this change-set to the display, then report `Rendered` or
    /// `RenderFailed`.
    Render(Vec<Change>),
    /// Wait for the next input event, then report `Input` or `InputClosed`.
    Poll,
    /// Stop. Hand `request`, if there is one, to the scheduler of the
    /// interface thread without waiting for it to be carried out; then return
    /// `result`.
    Finish { request: Option<UiRequest>, result: Result<(), OverlayError> },
}

/// The mathematical value of an [`Action`].
pub enum ActionView {
    Render(Seq<ChangeView>),
    Poll,
    Finish { request: Option<UiRequest>, result: Result<(), OverlayError> },
}

impl View for Action {
    type V = ActionView;

    open spec fn view(&self) -> ActionView {
        match *self {
            Action::Render(changes) => ActionView::Render(views(changes@)),
            Action::Poll => ActionView::Poll,
            Action::Finish { request, result } => ActionView::Finish { request, result },
        }
    }
}

/// The mathematical value of a list of tab entries: the title and the
/// identifier of each tab, in display order.
pub open spec fn entries_of(tab_list: Seq<(String, TabId)>) -> Seq<(Seq<char>, TabId)> {
    Seq::new(tab_list.len(), |i: int| (tab_list[i].0@, tab_list[i].1))
}

/// Whether `index` is the position of the first entry with identifier `id`.
pub open spec fn is_first_match(entries: Seq<(Seq<char>, TabId)>, id: TabId, index: int) -> bool {
    &&& 0 <= index < entries.len()
    &&& entries[index].1 == id
    &&& forall|earlier: int| 0 <= earlier < index ==> (#[trigger] entries[earlier]).1 != id
}

/// Where the selection starts: at the first entry with identifier `id`, or at
/// the top if no entry has it.
pub open spec fn start_cursor(entries: Seq<(Seq<char>, TabId)>, id: TabId) -> nat {
    if exists|index: int| is_first_match(entries, id, index) {
        (choose|index: int| is_first_match(entries, id, index)) as nat
    } else {
        0
    }
}

/// The selection after a move up: one line higher, and at the top it stays.
pub open spec fn cursor_up(cursor: nat) -> nat {
    if cursor == 0 {
        0
    } else {
        (cursor - 1) as nat
    }
}

/// The selection after a move down in a list of `len` entries: one line lower,
/// and at the bottom it stays.
pub open spec fn cursor_down(cursor: nat, len: nat) -> nat {
    if cursor + 1 < len {
        cursor + 1
    } else {
        cursor
    }
}

/// The mathematical value of a [`TabNavigator`].
pub struct NavigatorView {
    /// The tabs, in display order.
    pub entries: Seq<(Seq<char>, TabId)>,
    /// The position of the selected entry.
    pub cursor: nat,
    /// The window whose tabs these are.
    pub window: WindowId,
    pub phase: Phase,
}

impl NavigatorView {
    /// The titles of the entries, in display order.
    pub open spec fn titles(self) -> Seq<Seq<char>> {
        Seq::new(self.entries.len(), |i: int| self.entries[i].0)
    }

    /// The selection is a position of the list; in an empty list it is zero.
    pub open spec fn wf(self) -> bool {
        if self.entries.len() == 0 {
            self.cursor == 0
        } else {
            self.cursor < self.entries.len()
        }
    }

    /// The frame that shows this state.
    pub open spec fn frame(self) -> Seq<ChangeView> {
        frame_of(self.titles(), self.cursor)
    }

    /// This state in another phase.
    pub open spec fn at(self, phase: Phase) -> NavigatorView {
        NavigatorView { phase, ..self }
    }

    /// This state with another selection, its frame on the way to the display.
    pub open spec fn redrawn(self, cursor: nat) -> NavigatorView {
        NavigatorView { cursor, phase: Phase::Drawing, ..self }
    }

    /// The request to activate the selected tab.
    pub open spec fn activation(self) -> UiRequest {
        UiRequest::ActivateTab { window: self.window, index: self.cursor as usize }
    }
}

/// The action that ends a navigator.
pub open spec fn finish(request: Option<UiRequest>, result: Result<(), OverlayError>) -> ActionView {
    ActionView::Finish { request, result }
}

/// What a waiting navigator does with a command.
///
/// A move changes the selection and draws the list again, also where the
/// selection stays at an end of the list. Cancel ends the navigator and asks
/// nothing of the interface thread. Confirm ends it with the request to
/// activate the selected tab. In an empty list there is nothing to select:
/// cancel is the one command it takes, and every other event is ignored.
pub open spec fn obey(s: NavigatorView, command: Command) -> (NavigatorView, ActionView) {
    if command == Command::Cancel {
        (s.at(Phase::Done), finish(None, Ok(())))
    } else if s.entries.len() == 0 {
        (s, ActionView::Poll)
    } else {
        match command {
            Command::MoveUp => {
                let next = s.redrawn(cursor_up(s.cursor));
                (next, ActionView::Render(next.frame()))
            },
            Command::MoveDown => {
                let next = s.redrawn(cursor_down(s.cursor, s.entries.len()));
                (next, ActionView::Render(next.frame()))
            },
            Command::Confirm => (s.at(Phase::Done), finish(Some(s.activation()), Ok(()))),
            _ => (s, ActionView::Poll),
        }
    }
}

/// The transition function of the navigator: the next state and the action to
/// perform, or `None` where `event` does not answer the action that is
/// outstanding in `s`.
///
/// The navigator names its window, draws the list, and then waits for input.
/// It ends with `Ok` when the user cancels or confirms and when the input
/// stream ends, and with `RenderFailure` as soon as the display refuses a
/// change-set. Once it has ended it takes no event.
pub open spec fn step_of(s: NavigatorView, event: Event) -> Option<(NavigatorView, ActionView)> {
    match (s.phase, event) {
        (Phase::Created, Event::Started) => Some((s.at(Phase::Naming), ActionView::Render(title_frame()))),
        (Phase::Naming, Event::Rendered) => Some((s.at(Phase::Drawing), ActionView::Render(s.frame()))),
        (Phase::Drawing, Event::Rendered) => Some((s.at(Phase::Waiting), ActionView::Poll)),
        (Phase::Naming, Event::RenderFailed) => Some(
            (s.at(Phase::Done), finish(None, Err(OverlayError::RenderFailure))),
        ),
        (Phase::Drawing, Event::RenderFailed) => Some(
            (s.at(Phase::Done), finish(None, Err(OverlayError::RenderFailure))),
        ),
        (Phase::Waiting, Event::Input(input)) => Some(obey(s, command_of(input))),
        (Phase::Waiting, Event::InputClosed) => Some((s.at(Phase::Done), finish(None, Ok(())))),
        _ => None,
    }
}

/// The tab navigator.
pub struct TabNavigator {
    entries: Vec<(String, TabId)>,
    cursor: usize,
    window: WindowId,
    phase: Phase,
}

impl View for TabNavigator {
    type V = NavigatorView;

    closed spec fn view(&self) -> NavigatorView {
        NavigatorView {
            entries: entries_of(self.entries@),
            cursor: self.cursor as nat,
            window: self.window,
            phase: self.phase,
        }
    }
}

impl TabNavigator {
    #[verifier::type_invariant]
    spec fn inv(self) -> bool {
        self@.wf()
    }

    /// A navigator for the tabs `tab_list` of the window `mux_window_id`, with
    /// the selection on the tab `tab_id`, or on the first tab where the list
    /// does not hold `tab_id`. It has drawn nothing yet.
    pub fn new(tab_id: TabId, tab_list: Vec<(String, TabId)>, mux_window_id: WindowId) -> (nav: Self)
        ensures
            nav@ == (NavigatorView {
                entries: entries_of(tab_list@),
                cursor: start_cursor(entries_of(tab_list@), tab_id),
                window: mux_window_id,
                phase: Phase::Created,
            }),
            nav@.wf(),
    {
        let ghost entries = entries_of(tab_list@);
        let mut i: usize = 0;
        while i < tab_list.len() && tab_list[i].1 != tab_id
            invariant
                i <= tab_list.len(),
                entries == entries_of(tab_list@),
                forall|earlier: int| 0 <= earlier < i ==> (#[trigger] entries[earlier]).1 != tab_id,
            decreases tab_list.len() - i,
        {
            i = i + 1;
        }
        let cursor = if i < tab_list.len() {
            i
        } else {
            0
        };
        proof {
            if i < tab_list.len() {
                assert(is_first_match(entries, tab_id, i as int));
                let chosen = choose|index: int| is_first_match(entries, tab_id, index);
                assert(is_first_match(entries, tab_id, chosen));
                if chosen < i {
                    assert(entries[chosen].1 != tab_id);
                }
                if i < chosen {
                    assert(entries[i as int].1 != tab_id);
                }
            } else {
                assert forall|index: int| !is_first_match(entries, tab_id, index) by {
                    if 0 <= index < entries.len() {
                        assert(entries[index].1 != tab_id);
                    }
                }
            }
        }
        TabNavigator { entries: tab_list, cursor, window: mux_window_id, phase: Phase::Created }
    }

    /// The position of the selected entry.
    pub fn cursor(&self) -> (cursor: usize)
        ensures
            cursor == self@.cursor,
            self@.wf(),
    {
        proof {
            use_type_invariant(self);
        }
        self.cursor
    }

    /// Where the navigator stands.
    pub fn phase(&self) -> (phase: Phase)
        ensures
            phase == self@.phase,
    {
        self.phase
    }

    /// The full-screen change-set that shows the list as it stands: the
    /// heading, then one line for each entry, the selected one in reverse
    /// video.
    pub fn frame(&self) -> (changes: Vec<Change>)
        ensures
            views(changes@) == self@.frame(),
    {
        assert(titles_of(self.entries@) =~= self@.titles());
        render(self.cursor, &self.entries)
    }

    /// Takes what the terminal did and says what to do next.
    ///
    /// The answer is `None`, and nothing changes, where `event` does not
    /// answer the action that is outstanding.
    pub fn step(&mut self, event: Event) -> (action: Option<Action>)
        ensures
            match step_of(old(self)@, event) {
                Some((next, act)) => final(self)@ == next && action.is_some() && action.unwrap()@ == act,
                None => final(self)@ == old(self)@ && action.is_none(),
            },
            final(self)@.wf(),
    {
        proof {
            use_type_invariant(&*self);
        }
        match (self.phase, event) {
            (Phase::Created, Event::Started) => {
                self.phase = Phase::Naming;
                Some(Action::Render(title_changes()))
            },
            (Phase::Naming, Event::Rendered) => {
                self.phase = Phase::Drawing;
                Some(Action::Render(self.frame()))
            },
            (Phase::Drawing, Event::Rendered) => {
                self.phase = Phase::Waiting;
                Some(Action::Poll)
            },
            (Phase::Naming, Event::RenderFailed) | (Phase::Drawing, Event::RenderFailed) => {
                self.phase = Phase::Done;
                Some(Action::Finish { request: None, result: Err(OverlayError::RenderFailure) })
            },
            (Phase::Waiting, Event::Input(input)) => {
                let command = input.command();
                if command == Command::Cancel {
                    self.phase = Phase::Done;
                    Some(Action::Finish { request: None, result: Ok(()) })
                } else if self.entries.len() == 0 {
                    Some(Action::Poll)
                } else {
                    match command {
                        Command::MoveUp => {
                            self.cursor = self.cursor.saturating_sub(1);
                            self.phase = Phase::Drawing;
                            Some(Action::Render(self.frame()))
                        },
                        Command::MoveDown => {
                            self.cursor = (self.cursor + 1).min(self.entries.len() - 1);
                            self.phase = Phase::Drawing;
                            Some(Action::Render(self.frame()))
                        },
                        Command::Confirm => {
                            self.phase = Phase::Done;
                            Some(
                                Action::Finish {
                                    request: Some(
                                        UiRequest::ActivateTab { window: self.window, index: self.cursor },
                                    ),
                                    result: Ok(()),
                                },
                            )
                        },
                        _ => Some(Action::Poll),
                    }
                }
            },
            (Phase::Waiting, Event::InputClosed) => {
                self.phase = Phase::Done;
                Some(Action::Finish { request: None, result: Ok(()) })
            },
            _ => None,
        }
    }
}

/// The selection after one command, in a list of `len` entries. Only a move
/// changes it, and in an empty list nothing does.
pub open spec fn cursor_moved(cursor: nat, len: nat, command: Command) -> nat {
    if len == 0 {
        cursor
    } else if command == Command::MoveUp {
        cursor_up(cursor)
    } else if command == Command::MoveDown {
        cursor_down(cursor, len)
    } else {
        cursor
    }
}

/// The selection after the events `inputs`, taken in order.
pub open spec fn cursor_after(cursor: nat, len: nat, inputs: Seq<InputEvent>) -> nat
    decreases inputs.len(),
{
    if inputs.len() == 0 {
        cursor
    } else {
        cursor_moved(cursor_after(cursor, len, inputs.drop_last()), len, command_of(inputs.last()))
    }
}

/// Whether an input event ends a navigator of `len` entries: cancel does, and
/// so does confirm where there is an entry to choose.
pub open spec fn ends_run(len: nat, input: InputEvent) -> bool {
    command_of(input) == Command::Cancel || (len > 0 && command_of(input) == Command::Confirm)
}

/// Whether an input event makes a navigator of `len` entries draw again.
pub open spec fn redraws(len: nat, input: InputEvent) -> bool {
    len > 0 && (command_of(input) == Command::MoveUp || command_of(input) == Command::MoveDown)
}

/// The change-sets that a navigator hands to a display that takes them all,
/// up to the moment it has read the first `read` of `inputs`: the title, the
/// list with the selection at `cursor`, and after each move the list with the
/// selection where the move left it.
pub open spec fn drawn(titles: Seq<Seq<char>>, cursor: nat, inputs: Seq<InputEvent>, read: nat) -> Seq<
    Seq<ChangeView>,
>
    decreases read,
{
    if read == 0 {
        seq![title_frame(), frame_of(titles, cursor)]
    } else {
        let before = drawn(titles, cursor, inputs, (read - 1) as nat);
        if redraws(titles.len(), inputs[read - 1]) {
            before.push(frame_of(titles, cursor_after(cursor, titles.len(), inputs.take(read as int))))
        } else {
            before
        }
    }
}

/// A terminal that is known in advance.
#[derive(Debug, Clone, PartialEq, Eq)]
pub struct Script {
    /// The events that the input stream gives before it ends.
    pub inputs: Vec<InputEvent>,
    /// How many change-sets the display takes before it refuses one; `None`
    /// for a display that takes them all.
    pub accepts: Option<usize>,
}

/// Whether a display that takes `accepts` change-sets takes the one it is
/// handed after `earlier` others.
pub open spec fn takes(accepts: Option<usize>, earlier: int) -> bool {
    match accepts {
        None => true,
        Some(limit) => earlier < limit,
    }
}

impl Script {
    /// A terminal that gives `inputs` and whose display takes every
    /// change-set.
    pub fn new(inputs: Vec<InputEvent>) -> (script: Script)
        ensures
            script.inputs == inputs,
            script.accepts.is_none(),
    {
        Script { inputs, accepts: None }
    }

    fn takes_after(&self, earlier: usize) -> (taken: bool)
        ensures
            taken == takes(self.accepts, earlier as int),
    {
        match self.accepts {
            None => true,
            Some(limit) => earlier < limit,
        }
    }
}

/// What a navigator did on a terminal.
#[derive(Debug, PartialEq, Eq)]
pub struct Transcript {
    /// The change-sets handed to the display, in order, the refused one
    /// included.
    pub frames: Vec<Vec<Change>>,
    /// How many events were taken from the input stream.
    pub read: usize,
    /// The position of the selected entry at the end.
    pub cursor: usize,
    /// The request handed to the interface thread, if there was one.
    pub request: Option<UiRequest>,
    /// What the navigator returned.
    pub result: Result<(), OverlayError>,
}

/// The mathematical value of a list of change-sets.
pub open spec fn frames_of(frames: Seq<Vec<Change>>) -> Seq<Seq<ChangeView>> {
    Seq::new(frames.len(), |i: int| views(frames[i]@))
}

/// Runs the tab navigator to its end on the terminal `term`.
///
/// The navigator names its window and draws the list. Then it reads the input
/// stream up to the first event that ends it, that event included, or to the
/// end of the stream, and draws the list again after every move. Where the
/// last event read is a confirmation, the tab under the selection is to become
/// the active tab of `mux_window_id`; in every other case nothing is asked of
/// the interface thread. All of these end with `Ok`.
///
/// The display may refuse a change-set. The navigator then stops at once: it
/// reads nothing more, asks for nothing, and returns `RenderFailure`.
pub fn tab_navigator(
    tab_id: TabId,
    term: &Script,
    tab_list: Vec<(String, TabId)>,
    mux_window_id: WindowId,
) -> (transcript: Transcript)
    ensures
        ({
            let len = tab_list@.len();
            let inputs = term.inputs@;
            let first = start_cursor(entries_of(tab_list@), tab_id);
            let read = transcript.read;
            let handed = transcript.frames@.len();
            let all = drawn(titles_of(tab_list@), first, inputs, read as nat);
            &&& read <= inputs.len()
            &&& forall|i: int| 0 <= i < read && ends_run(len, #[trigger] inputs[i]) ==> i + 1 == read
            &&& transcript.cursor == cursor_after(first, len, inputs.take(read as int))
            &&& 1 <= handed <= all.len()
            &&& frames_of(transcript.frames@) == all.take(handed as int)
            &&& forall|earlier: int| 0 <= earlier < handed - 1 ==> takes(term.accepts, earlier)
            &&& transcript.result == if takes(term.accepts, handed - 1) {
                Ok::<(), OverlayError>(())
            } else {
                Err(OverlayError::RenderFailure)
            }
            &&& transcript.result.is_ok() ==> {
                &&& handed == all.len()
                &&& read < inputs.len() ==> read > 0 && ends_run(len, inputs[read - 1])
            }
            &&& transcript.result.is_err() && read > 0 ==> {
                &&& handed == all.len()
                &&& redraws(len, inputs[read - 1])
            }
            &&& transcript.request == if transcript.result.is_ok() && read > 0 && len > 0 && command_of(
                inputs[read - 1],
            ) == Command::Confirm {
                Some(UiRequest::ActivateTab { window: mux_window_id, index: transcript.cursor })
            } else {
                None
            }
        }),
{
    let ghost entries = entries_of(tab_list@);
    let ghost titles = titles_of(tab_list@);
    let ghost first = start_cursor(entries, tab_id);
    let ghost len = tab_list@.len();
    let ghost inputs = term.inputs@;
    let mut nav = TabNavigator::new(tab_id, tab_list, mux_window_id);
    assert(nav@.titles() =~= titles);
    assert(inputs.take(0) =~= Seq::<InputEvent>::empty());
    let mut frames: Vec<Vec<Change>> = Vec::new();
    let mut result: Result<(), OverlayError> = Ok(());
    if let Some(Action::Render(changes)) = nav.step(Event::Started) {
        frames.push(changes);
    }
    if term.takes_after(0) {
        if let Some(Action::Render(changes)) = nav.step(Event::Rendered) {
            frames.push(changes);
        }
        if term.takes_after(1) {
            let _ = nav.step(Event::Rendered);
            assert(frames_of(frames@) =~= drawn(titles, first, inputs, 0));
        } else {
            if let Some(Action::Finish { request: _, result: failure }) = nav.step(Event::RenderFailed) {
                result = failure;
            }
            assert(frames_of(frames@) =~= drawn(titles, first, inputs, 0).take(2));
        }
    } else {
        if let Some(Action::Finish { request: _, result: failure }) = nav.step(Event::RenderFailed) {
            result = failure;
        }
        assert(frames_of(frames@) =~= drawn(titles, first, inputs, 0).take(1));
    }
    let mut read: usize = 0;
    let mut request: Option<UiRequest> = None;
    let mut done = false;
    while read < term.inputs.len() && !done && result.is_ok()
        invariant
            inputs == term.inputs@,
            read <= inputs.len(),
            len > 0 ==> first < len,
            nav@.entries == entries,
            nav@.titles() == titles,
            entries.len() == len,
            titles.len() == len,
            nav@.window == mux_window_id,
            nav@.wf(),
            nav@.phase == if done || result.is_err() {
                Phase::Done
            } else {
                Phase::Waiting
            },
            nav@.cursor == cursor_after(first, len, inputs.take(read as int)),
            1 <= frames@.len() <= drawn(titles, first, inputs, read as nat).len(),
            frames_of(frames@) == drawn(titles, first, inputs, read as nat).take(frames@.len() as int),
            forall|earlier: int| 0 <= earlier < frames@.len() - 1 ==> takes(term.accepts, earlier),
            result == if takes(term.accepts, frames@.len() - 1) {
                Ok::<(), OverlayError>(())
            } else {
                Err(OverlayError::RenderFailure)
            },
            result.is_ok() ==> frames@.len() == drawn(titles, first, inputs, read as nat).len(),
            result.is_err() && read > 0 ==> redraws(len, inputs[read - 1]) && frames@.len() == drawn(
                titles,
                first,
                inputs,
                read as nat,
            ).len(),
            result.is_err() ==> !done,
            forall|i: int| 0 <= i < read && ends_run(len, #[trigger] inputs[i]) ==> i + 1 == read,
            done ==> read > 0 && ends_run(len, inputs[read - 1]),
            !done && result.is_ok() ==> forall|i: int| 0 <= i < read ==> !ends_run(len, #[trigger] inputs[i]),
            request == if result.is_ok() && read > 0 && len > 0 && command_of(inputs[read - 1])
                == Command::Confirm {
                Some(UiRequest::ActivateTab { window: mux_window_id, index: nav@.cursor as usize })
            } else {
                None
            },
        decreases inputs.len() - read,
    {
        let ghost before = frames_of(frames@);
        proof {
            assert(inputs.take(read + 1).drop_last() =~= inputs.take(read as int));
            assert(inputs.take(read + 1).last() == inputs[read as int]);
            assert(before =~= drawn(titles, first, inputs, read as nat));
        }
        let action = nav.step(Event::Input(term.inputs[read]));
        read = read + 1;
        match action {
            Some(Action::Render(changes)) => {
                let earlier = frames.len();
                frames.push(changes);
                assert(frames_of(frames@) =~= before.push(nav@.frame()));
                assert(frames_of(frames@) =~= drawn(titles, first, inputs, read as nat));
                if term.takes_after(earlier) {
                    let _ = nav.step(Event::Rendered);
                } else {
                    if let Some(Action::Finish { request: _, result: failure }) = nav.step(
                        Event::RenderFailed,
                    ) {
                        result = failure;
                    }
                }
            },
            Some(Action::Finish { request: asked, result: outcome }) => {
                request = asked;
                result = outcome;
                done = true;
            },
            _ => {},
        }
        assert(frames_of(frames@) =~= drawn(titles, first, inputs, read as nat).take(
            frames@.len() as int,
        ));
    }
    if !done && result.is_ok() {
        if let Some(Action::Finish { request: asked, result: outcome }) = nav.step(Event::InputClosed) {
            request = asked;
            result = outcome;
        }
    }
    Transcript { frames, read, cursor: nav.cursor(), request, result }
}

/// Whatever the input, the selection stays in the list: no move takes it
/// above the first entry or below the last, and none wraps around.
pub proof fn lemma_cursor_stays_in_list(cursor: nat, len: nat, inputs: Seq<InputEvent>)
    requires
        cursor < len,
    ensures
        cursor_after(cursor, len, inputs) < len,
    decreases inputs.len(),
{
    if inputs.len() > 0 {
        lemma_cursor_stays_in_list(cursor, len, inputs.drop_last());
    }
}

/// The selection starts on the first entry that has the identifier of the
/// active tab, and at the top where no entry has it.
pub proof fn lemma_start_cursor(entries: Seq<(Seq<char>, TabId)>, id: TabId)
    ensures
        entries.len() > 0 ==> start_cursor(entries, id) < entries.len(),
        entries.len() == 0 ==> start_cursor(entries, id) == 0,
        (exists|i: int| 0 <= i < entries.len() && (#[trigger] entries[i]).1 == id) ==> is_first_match(
            entries,
            id,
            start_cursor(entries, id) as int,
        ),
        (forall|i: int| 0 <= i < entries.len() ==> (#[trigger] entries[i]).1 != id) ==> start_cursor(
            entries,
            id,
        ) == 0,
{
    if exists|i: int| 0 <= i < entries.len() && (#[trigger] entries[i]).1 == id {
        let some = choose|i: int| 0 <= i < entries.len() && (#[trigger] entries[i]).1 == id;
        lemma_first_match_exists(entries, id, some);
    }
}

/// Below any entry with the identifier `id` lies no first one, but at or above
/// it does.
proof fn lemma_first_match_exists(entries: Seq<(Seq<char>, TabId)>, id: TabId, index: int)
    requires
        0 <= index < entries.len(),
        entries[index].1 == id,
    ensures
        exists|first: int| is_first_match(entries, id, first),
    decreases index,
{
    if exists|earlier: int| 0 <= earlier < index && (#[trigger] entries[earlier]).1 == id {
        let earlier = choose|earlier: int| 0 <= earlier < index && (#[trigger] entries[earlier]).1 == id;
        lemma_first_match_exists(entries, id, earlier);
    } else {
        assert(is_first_match(entries, id, index));
    }
}

/// Every step keeps the selection in the list and leaves the list and the
/// window as they were.
pub proof fn lemma_step_keeps_list(s: NavigatorView, event: Event)
    requires
        s.wf(),
    ensures
        step_of(s, event) matches Some((next, _)) ==> next.wf() && next.entries == s.entries
            && next.window == s.window,
{
}

/// Cancel asks nothing of the interface thread and ends the navigator,
/// wherever the selection stands.
pub proof fn lemma_cancel_asks_nothing(s: NavigatorView, input: InputEvent)
    requires
        s.phase == Phase::Waiting,
        command_of(input) == Command::Cancel,
    ensures
        step_of(s, Event::Input(input)) == Some((s.at(Phase::Done), finish(None, Ok(())))),
{
}

/// Confirm asks for exactly the tab under the selection and ends the
/// navigator.
pub proof fn lemma_confirm_asks_for_selection(s: NavigatorView, input: InputEvent)
    requires
        s.phase == Phase::Waiting,
        s.entries.len() > 0,
        command_of(input) == Command::Confirm,
    ensures
        step_of(s, Event::Input(input)) == Some(
            (
                s.at(Phase::Done),
                finish(Some(UiRequest::ActivateTab { window: s.window, index: s.cursor as usize }), Ok(())),
            ),
        ),
{
}

/// A navigator that has ended takes no event, so the action that ended it is
/// its last: nothing is asked of the interface thread twice.
pub proof fn lemma_done_is_final(s: NavigatorView, event: Event)
    ensures
        s.phase == Phase::Done ==> step_of(s, event).is_none(),
        step_of(s, event) matches Some((next, action)) ==> (action is Finish <==> next.phase == Phase::Done),
{
}

/// The state of a navigator after the events `events`, each taken in turn. An
/// event that the navigator does not take leaves it as it is.
pub open spec fn navigator_after(s: NavigatorView, events: Seq<Event>) -> NavigatorView
    decreases events.len(),
{
    if events.len() == 0 {
        s
    } else {
        let before = navigator_after(s, events.drop_last());
        match step_of(before, events.last()) {
            Some((next, _)) => next,
            None => before,
        }
    }
}

/// The requests that a navigator hands to the interface thread while it takes
/// the events `events`, in order.
pub open spec fn requested(s: NavigatorView, events: Seq<Event>) -> Seq<UiRequest>
    decreases events.len(),
{
    if events.len() == 0 {
        Seq::empty()
    } else {
        let before = navigator_after(s, events.drop_last());
        let earlier = requested(s, events.drop_last());
        match step_of(before, events.last()) {
            Some((_, ActionView::Finish { request: Some(request), .. })) => earlier.push(request),
            _ => earlier,
        }
    }
}

/// Whatever a terminal does, in whatever order, the selection of a navigator
/// stays in its list, and the list and the window stay what they were.
pub proof fn lemma_navigator_keeps_list(s: NavigatorView, events: Seq<Event>)
    requires
        s.wf(),
    ensures
        navigator_after(s, events).wf(),
        navigator_after(s, events).entries == s.entries,
        navigator_after(s, events).window == s.window,
    decreases events.len(),
{
    if events.len() > 0 {
        lemma_navigator_keeps_list(s, events.drop_last());
        lemma_step_keeps_list(navigator_after(s, events.drop_last()), events.last());
    }
}

/// Whatever a terminal does, a navigator asks the interface thread for one
/// thing at most. Where it asks, it has ended, its list is not empty, and what
/// it asks for is the tab under its selection.
pub proof fn lemma_one_request_at_most(s: NavigatorView, events: Seq<Event>)
    requires
        s.wf(),
    ensures
        requested(s, events).len() <= 1,
        requested(s, events).len() == 1 ==> {
            let end = navigator_after(s, events);
            &&& end.phase == Phase::Done
            &&& end.cursor < end.entries.len()
            &&& requested(s, events)[0] == UiRequest::ActivateTab {
                window: s.window,
                index: end.cursor as usize,
            }
        },
    decreases events.len(),
{
    if events.len() > 0 {
        lemma_one_request_at_most(s, events.drop_last());
        lemma_navigator_keeps_list(s, events.drop_last());
    }
}

} // verus!
