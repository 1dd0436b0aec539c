//! Render instructions, and what a change-set highlights.
//!
//! An overlay draws by handing the display a batch of declarative changes.
//! [`Change`] is the small fixed set of them that overlays need. The second
//! half of this module reads a batch the way a display would, far enough to
//! tell which lines of a list it draws in reverse video.

use vstd::prelude::*;

verus! {

/// One declarative render instruction.
#[derive(Debug, PartialEq, Eq)]
pub enum Change {
    /// Clear the whole screen. This also resets every text attribute and moves
    /// the cursor to the top left corner.
    ClearScreen,
    /// Move the cursor to the absolute column `x` and row `y`.
    CursorPosition { x: usize, y: usize },
    /// Emit text at the cursor, in the attributes currently in force.
    Text(String),
    /// Reset every text attribute to its default.
    ResetAttributes,
    /// Switch reverse video (foreground and background swapped) on or off.
    Reverse(bool),
    /// Set the title of the window that shows the surface.
    Title(String),
}

/// The mathematical value of a [`Change`].
pub enum ChangeView {
    ClearScreen,
    CursorPosition { x: nat, y: nat },
    Text(Seq<char>),
    ResetAttributes,
    Reverse(bool),
    Title(Seq<char>),
}

impl View for Change {
    type V = ChangeView;

    open spec fn view(&self) -> ChangeView {
        match *self {
            Change::ClearScreen => ChangeView::ClearScreen,
            Change::CursorPosition { x, y } => ChangeView::CursorPosition { x: x as nat, y: y as nat },
            Change::Text(text) => ChangeView::Text(text@),
            Change::ResetAttributes => ChangeView::ResetAttributes,
            Change::Reverse(on) => ChangeView::Reverse(on),
            Change::Title(text) => ChangeView::Title(text@),
        }
    }
}

/// The mathematical value of a whole change-set.
pub open spec fn views(changes: Seq<Change>) -> Seq<ChangeView> {
    Seq::new(changes.len(), |i: int| changes[i]@)
}

/// What a display remembers while it reads a change-set, as far as highlighted
/// lines go.
pub struct Pen {
    /// Whether reverse video is in force.
    pub reverse: bool,
    /// How many runs of text have been drawn since the screen was last cleared.
    pub texts: nat,
    /// The list lines drawn in reverse video so far, in drawing order.
    pub marked: Seq<nat>,
}

/// The pen of a display that has drawn nothing.
pub open spec fn blank_pen() -> Pen {
    Pen { reverse: false, texts: 0, marked: Seq::empty() }
}

/// The effect of one change on the pen.
///
/// A list is drawn one run of text per line: the first run after a clear is
/// the heading, and run `n + 1` is the line of entry `n`. A run drawn while
/// reverse video is in force marks its line.
pub open spec fn draw(pen: Pen, change: ChangeView) -> Pen {
    match change {
        ChangeView::ClearScreen => blank_pen(),
        ChangeView::ResetAttributes => Pen { reverse: false, ..pen },
        ChangeView::Reverse(on) => Pen { reverse: on, ..pen },
        ChangeView::Text(_) => Pen {
            reverse: pen.reverse,
            texts: pen.texts + 1,
            marked: if pen.reverse && pen.texts >= 1 {
                pen.marked.push((pen.texts - 1) as nat)
            } else {
                pen.marked
            },
        },
        ChangeView::CursorPosition { .. } => pen,
        ChangeView::Title(_) => pen,
    }
}

/// The pen after the whole of `changes` was drawn, starting with `pen`.
pub open spec fn draw_all(pen: Pen, changes: Seq<ChangeView>) -> Pen
    decreases changes.len(),
{
    if changes.len() == 0 {
        pen
    } else {
        draw(draw_all(pen, changes.drop_last()), changes.last())
    }
}

/// The list lines that `changes` draws in reverse video on a blank display,
/// in drawing order, counted from zero.
pub open spec fn marked_lines_of(changes: Seq<ChangeView>) -> Seq<nat> {
    draw_all(blank_pen(), changes).marked
}

/// Drawing two batches one after the other is drawing their concatenation.
pub proof fn lemma_draw_all_concat(pen: Pen, first: Seq<ChangeView>, second: Seq<ChangeView>)
    ensures
        draw_all(pen, first + second) == draw_all(draw_all(pen, first), second),
    decreases second.len(),
{
    if second.len() == 0 {
        assert(first + second =~= first);
    } else {
        assert((first + second).drop_last() =~= first + second.drop_last());
        assert((first + second).last() == second.last());
        lemma_draw_all_concat(pen, first, second.drop_last());
    }
}

/// The list lines that a change-set draws in reverse video, in drawing order.
pub fn marked_lines(changes: &Vec<Change>) -> (lines: Vec<usize>)
    ensures
        lines@.map_values(|line: usize| line as nat) == marked_lines_of(views(changes@)),
{
    let mut reverse = false;
    let mut texts: usize = 0;
    let mut lines: Vec<usize> = Vec::new();
    let mut i: usize = 0;
    while i < changes.len()
        invariant
            i <= changes.len(),
            texts <= i,
            ({
                let pen = draw_all(blank_pen(), views(changes@).take(i as int));
                &&& pen.reverse == reverse
                &&& pen.texts == texts
                &&& pen.marked.len() == lines@.len()
                &&& forall|k: int| 0 <= k < lines@.len() ==> lines@[k] as nat == pen.marked[k]
            }),
        decreases changes.len() - i,
    {
        proof {
            let all = views(changes@);
            assert(all.take(i + 1).drop_last() =~= all.take(i as int));
            assert(all.take(i + 1).last() == changes@[i as int]@);
        }
        match &changes[i] {
            Change::ClearScreen => {
                reverse = false;
                texts = 0;
                lines = Vec::new();
            },
            Change::ResetAttributes => {
                reverse = false;
            },
            Change::Reverse(on) => {
                reverse = *on;
            },
            Change::Text(_) => {
                if reverse && texts >= 1 {
                    lines.push(texts - 1);
                }
                texts = texts + 1;
            },
            Change::CursorPosition { .. } => {},
            Change::Title(_) => {},
        }
        i = i + 1;
    }
    proof {
        assert(views(changes@).take(i as int) =~= views(changes@));
        assert(lines@.map_values(|line: usize| line as nat) =~= marked_lines_of(views(changes@)));
    }
    lines
}

} // verus!
