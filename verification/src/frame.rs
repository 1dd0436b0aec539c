//! What the tab navigator draws.
//!
//! A frame is a full-screen change-set: it clears the screen, writes a heading
//! and then one numbered line for each tab, the selected one in reverse video.

use vstd::prelude::*;
use vstd::string::StringExecFns;
use crate::change::{blank_pen, draw_all, lemma_draw_all_concat, marked_lines_of, views, Change, ChangeView, Pen};
use crate::label::{entry_line, line_text};
use crate::request::TabId;

verus! {

/// The titles of a list of tab entries.
pub open spec fn titles_of(tab_list: Seq<(String, TabId)>) -> Seq<Seq<char>> {
    Seq::new(tab_list.len(), |i: int| tab_list[i].0@)
}

/// The title that the navigator gives its window.
pub open spec fn title_text() -> Seq<char> {
    "Tab Navigator"@
}

/// The heading of the list.
pub open spec fn heading_text() -> Seq<char> {
    "Select a tab and press Enter to activate it.  Press Escape to cancel\r\n"@
}

/// The change-set that names the window.
pub open spec fn title_frame() -> Seq<ChangeView> {
    seq![ChangeView::Title(title_text())]
}

/// The changes that open every frame: clear the screen, go to the top left
/// corner, write the heading, reset the attributes.
pub open spec fn frame_head() -> Seq<ChangeView> {
    seq![
        ChangeView::ClearScreen,
        ChangeView::CursorPosition { x: 0, y: 0 },
        ChangeView::Text(heading_text()),
        ChangeView::ResetAttributes,
    ]
}

/// The changes that draw one entry: its line, in reverse video if the entry is
/// the selected one.
pub open spec fn frame_entry(index: nat, title: Seq<char>, selected: bool) -> Seq<ChangeView> {
    if selected {
        seq![
            ChangeView::Reverse(true),
            ChangeView::Text(entry_line(index, title)),
            ChangeView::Reverse(false),
        ]
    } else {
        seq![ChangeView::Text(entry_line(index, title))]
    }
}

/// The changes that draw the first `count` entries, top to bottom.
pub open spec fn frame_entries(titles: Seq<Seq<char>>, cursor: nat, count: nat) -> Seq<ChangeView>
    decreases count,
{
    if count == 0 {
        Seq::empty()
    } else {
        frame_entries(titles, cursor, (count - 1) as nat) + frame_entry(
            (count - 1) as nat,
            titles[count - 1],
            count - 1 == cursor,
        )
    }
}

/// The full-screen change-set that shows the list with the entry at `cursor`
/// selected.
pub open spec fn frame_of(titles: Seq<Seq<char>>, cursor: nat) -> Seq<ChangeView> {
    frame_head() + frame_entries(titles, cursor, titles.len())
}

/// The change-set that names the window of the navigator.
pub fn title_changes() -> (changes: Vec<Change>)
    ensures
        views(changes@) == title_frame(),
{
    let mut changes: Vec<Change> = Vec::new();
    changes.push(Change::Title(String::from_str("Tab Navigator")));
    assert(views(changes@) =~= title_frame());
    changes
}

/// The full-screen change-set that shows `tab_list` with the entry at
/// `active_tab_idx` selected. Where `active_tab_idx` is no position of the
/// list, no line is drawn in reverse video.
pub fn render(active_tab_idx: usize, tab_list: &Vec<(String, TabId)>) -> (changes: Vec<Change>)
    ensures
        views(changes@) == frame_of(titles_of(tab_list@), active_tab_idx as nat),
{
    let ghost titles = titles_of(tab_list@);
    let mut changes: Vec<Change> = Vec::new();
    changes.push(Change::ClearScreen);
    changes.push(Change::CursorPosition { x: 0, y: 0 });
    changes.push(
        Change::Text(String::from_str("Select a tab and press Enter to activate it.  Press Escape to cancel\r\n")),
    );
    changes.push(Change::ResetAttributes);
    assert(views(changes@) =~= frame_head() + frame_entries(titles, active_tab_idx as nat, 0));
    let mut idx: usize = 0;
    while idx < tab_list.len()
        invariant
            idx <= tab_list.len(),
            titles == titles_of(tab_list@),
            views(changes@) == frame_head() + frame_entries(titles, active_tab_idx as nat, idx as nat),
        decreases tab_list.len() - idx,
    {
        let ghost before = views(changes@);
        let ghost entry = frame_entry(idx as nat, titles[idx as int], idx == active_tab_idx);
        let line = line_text(idx, &tab_list[idx].0);
        if idx == active_tab_idx {
            changes.push(Change::Reverse(true));
            changes.push(Change::Text(line));
            changes.push(Change::Reverse(false));
        } else {
            changes.push(Change::Text(line));
        }
        assert(views(changes@) =~= before + entry);
        assert(before + entry =~= frame_head() + frame_entries(
            titles,
            active_tab_idx as nat,
            (idx + 1) as nat,
        ));
        idx = idx + 1;
    }
    changes
}

/// The pen after the heading and the first `count` entries were drawn.
proof fn lemma_pen_after_entries(titles: Seq<Seq<char>>, cursor: nat, count: nat)
    requires
        count <= titles.len(),
    ensures
        draw_all(blank_pen(), frame_head() + frame_entries(titles, cursor, count)) == (Pen {
            reverse: false,
            texts: count + 1,
            marked: if cursor < count {
                seq![cursor]
            } else {
                Seq::empty()
            },
        }),
    decreases count,
{
    let head = frame_head();
    if count == 0 {
        assert(head + frame_entries(titles, cursor, 0) =~= head);
        reveal_with_fuel(draw_all, 5);
        assert(head.drop_last() =~= seq![head[0], head[1], head[2]]);
        assert(head.drop_last().drop_last() =~= seq![head[0], head[1]]);
        assert(head.drop_last().drop_last().drop_last() =~= seq![head[0]]);
        assert(head.drop_last().drop_last().drop_last().drop_last() =~= Seq::<ChangeView>::empty());
    } else {
        let before = (count - 1) as nat;
        let entry = frame_entry(before, titles[before as int], before == cursor);
        lemma_pen_after_entries(titles, cursor, before);
        assert(head + frame_entries(titles, cursor, count) =~= (head + frame_entries(
            titles,
            cursor,
            before,
        )) + entry);
        lemma_draw_all_concat(blank_pen(), head + frame_entries(titles, cursor, before), entry);
        let pen = draw_all(blank_pen(), head + frame_entries(titles, cursor, before));
        reveal_with_fuel(draw_all, 4);
        if before == cursor {
            assert(entry.drop_last() =~= seq![entry[0], entry[1]]);
            assert(entry.drop_last().drop_last() =~= seq![entry[0]]);
            assert(entry.drop_last().drop_last().drop_last() =~= Seq::<ChangeView>::empty());
            assert(draw_all(pen, entry).marked =~= seq![cursor]);
        } else {
            assert(entry.drop_last() =~= Seq::<ChangeView>::empty());
        }
    }
}

/// Reading a frame back gives the selection it was drawn for: the one line
/// that a frame draws in reverse video is the line of the selected entry.
pub proof fn lemma_frame_marks_cursor(titles: Seq<Seq<char>>, cursor: nat)
    requires
        cursor < titles.len(),
    ensures
        marked_lines_of(frame_of(titles, cursor)) == seq![cursor],
{
    lemma_pen_after_entries(titles, cursor, titles.len());
}

/// A frame drawn for a selection that is no position of the list draws no
/// line in reverse video. The frame of an empty list is such a frame.
pub proof fn lemma_frame_marks_nothing(titles: Seq<Seq<char>>, cursor: nat)
    requires
        cursor >= titles.len(),
    ensures
        marked_lines_of(frame_of(titles, cursor)) == Seq::<nat>::empty(),
{
    lemma_pen_after_entries(titles, cursor, titles.len());
}

} // verus!
