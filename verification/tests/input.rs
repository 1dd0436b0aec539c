use overlay::input::{Command, InputEvent, KeyCode, KeyEvent};

fn pressed(key: KeyCode, modifiers: u16) -> InputEvent {
    InputEvent::Key(KeyEvent { key, modifiers })
}

#[test]
fn key_without_modifiers() {
    assert_eq!(InputEvent::key(KeyCode::Enter), pressed(KeyCode::Enter, 0));
}

#[test]
fn k_and_the_up_arrow_move_up() {
    assert_eq!(InputEvent::key(KeyCode::Char('k')).command(), Command::MoveUp);
    assert_eq!(InputEvent::key(KeyCode::UpArrow).command(), Command::MoveUp);
}

#[test]
fn j_and_the_down_arrow_move_down() {
    assert_eq!(InputEvent::key(KeyCode::Char('j')).command(), Command::MoveDown);
    assert_eq!(InputEvent::key(KeyCode::DownArrow).command(), Command::MoveDown);
}

#[test]
fn escape_cancels_and_enter_confirms() {
    assert_eq!(InputEvent::key(KeyCode::Escape).command(), Command::Cancel);
    assert_eq!(InputEvent::key(KeyCode::Enter).command(), Command::Confirm);
}

#[test]
fn modifiers_change_nothing() {
    assert_eq!(pressed(KeyCode::Char('k'), 1 << 3).command(), Command::MoveUp);
    assert_eq!(pressed(KeyCode::DownArrow, 1 << 1).command(), Command::MoveDown);
    assert_eq!(pressed(KeyCode::Escape, 0xffff).command(), Command::Cancel);
    assert_eq!(pressed(KeyCode::Enter, 1 << 2).command(), Command::Confirm);
}

#[test]
fn other_events_are_ignored() {
    assert_eq!(InputEvent::key(KeyCode::Char('K')).command(), Command::Ignore);
    assert_eq!(InputEvent::key(KeyCode::Char('J')).command(), Command::Ignore);
    assert_eq!(InputEvent::key(KeyCode::Char('q')).command(), Command::Ignore);
    assert_eq!(InputEvent::key(KeyCode::Other).command(), Command::Ignore);
    assert_eq!(InputEvent::Other.command(), Command::Ignore);
}
