use overlay::change::{marked_lines, Change};

fn text(s: &str) -> Change {
    Change::Text(String::from(s))
}

#[test]
fn nothing_is_marked_in_an_empty_change_set() {
    assert_eq!(marked_lines(&vec![]), Vec::<usize>::new());
}

#[test]
fn plain_text_marks_nothing() {
    let changes = vec![Change::ClearScreen, text("heading"), text("one"), text("two")];
    assert_eq!(marked_lines(&changes), Vec::<usize>::new());
}

#[test]
fn reversed_text_marks_its_line() {
    let changes = vec![
        Change::ClearScreen,
        text("heading"),
        text("one"),
        Change::Reverse(true),
        text("two"),
        Change::Reverse(false),
        text("three"),
    ];
    assert_eq!(marked_lines(&changes), vec![1]);
}

#[test]
fn a_reversed_heading_is_no_line_of_the_list() {
    let changes = vec![Change::Reverse(true), text("heading"), Change::Reverse(false), text("one")];
    assert_eq!(marked_lines(&changes), Vec::<usize>::new());
}

#[test]
fn reverse_stays_in_force_until_switched_off() {
    let changes = vec![text("heading"), Change::Reverse(true), text("one"), text("two"), text("three")];
    assert_eq!(marked_lines(&changes), vec![0, 1, 2]);
}

#[test]
fn resetting_the_attributes_ends_reverse_video() {
    let changes = vec![
        text("heading"),
        Change::Reverse(true),
        text("one"),
        Change::ResetAttributes,
        text("two"),
    ];
    assert_eq!(marked_lines(&changes), vec![0]);
}

#[test]
fn clearing_the_screen_forgets_what_was_drawn() {
    let changes = vec![
        text("heading"),
        Change::Reverse(true),
        text("one"),
        Change::ClearScreen,
        text("heading"),
        text("one"),
        Change::Reverse(true),
        text("two"),
    ];
    assert_eq!(marked_lines(&changes), vec![1]);
}

#[test]
fn clearing_the_screen_ends_reverse_video() {
    let changes = vec![Change::Reverse(true), Change::ClearScreen, text("heading"), text("one")];
    assert_eq!(marked_lines(&changes), Vec::<usize>::new());
}

#[test]
fn cursor_moves_and_titles_draw_no_line() {
    let changes = vec![
        Change::Title(String::from("t")),
        text("heading"),
        Change::Reverse(true),
        Change::CursorPosition { x: 3, y: 4 },
        Change::Title(String::from("u")),
        text("one"),
    ];
    assert_eq!(marked_lines(&changes), vec![0]);
}
