//! Input events, as an overlay receives them from its terminal handle.

use vstd::prelude::*;

verus! {

/// Which key was pressed.
#[derive(Debug, Clone, Copy, PartialEq, Eq, Structural)]
pub enum KeyCode {
    /// A key that produces a character.
    Char(char),
    UpArrow,
    DownArrow,
    Escape,
    Enter,
    /// Any other key.
    Other,
}

/// A key press: the key, and the modifier keys held down with it.
///
/// No overlay in this crate looks at the modifiers; they are carried along as
/// the bit set the terminal reported.
#[derive(Debug, Clone, Copy, PartialEq, Eq, Structural)]
pub struct KeyEvent {
    pub key: KeyCode,
    pub modifiers: u16,
}

/// One event from the input stream of a terminal handle.
#[derive(Debug, Clone, Copy, PartialEq, Eq, Structural)]
pub enum InputEvent {
    Key(KeyEvent),
    /// Anything that is no key press: the mouse, a resize, a paste, a wake-up.
    Other,
}

/// What a key press asks of a list overlay.
#[derive(Debug, Clone, Copy, PartialEq, Eq, Structural)]
pub enum Command {
    /// Move the selection one line up.
    MoveUp,
    /// Move the selection one line down.
    MoveDown,
    /// Leave without choosing.
    Cancel,
    /// Choose the selected line.
    Confirm,
    /// Nothing: the event is ignored.
    Ignore,
}

/// The command that an input event stands for: `k` and the up arrow move up,
/// `j` and the down arrow move down, escape cancels, enter confirms, whatever
/// modifiers are held. Every other event is ignored.
pub open spec fn command_of(event: InputEvent) -> Command {
    match event {
        InputEvent::Key(KeyEvent { key: KeyCode::Char('k'), .. }) => Command::MoveUp,
        InputEvent::Key(KeyEvent { key: KeyCode::UpArrow, .. }) => Command::MoveUp,
        InputEvent::Key(KeyEvent { key: KeyCode::Char('j'), .. }) => Command::MoveDown,
        InputEvent::Key(KeyEvent { key: KeyCode::DownArrow, .. }) => Command::MoveDown,
        InputEvent::Key(KeyEvent { key: KeyCode::Escape, .. }) => Command::Cancel,
        InputEvent::Key(KeyEvent { key: KeyCode::Enter, .. }) => Command::Confirm,
        _ => Command::Ignore,
    }
}

impl InputEvent {
    /// A press of `key` with no modifier held.
    pub fn key(key: KeyCode) -> (event: InputEvent)
        ensures
            event == InputEvent::Key(KeyEvent { key, modifiers: 0 }),
    {
        InputEvent::Key(KeyEvent { key, modifiers: 0 })
    }

    /// The command that this event stands for.
    pub fn command(&self) -> (command: Command)
        ensures
            command == command_of(*self),
    {
        match *self {
            InputEvent::Key(KeyEvent { key: KeyCode::Char('k'), .. }) => Command::MoveUp,
            InputEvent::Key(KeyEvent { key: KeyCode::UpArrow, .. }) => Command::MoveUp,
            InputEvent::Key(KeyEvent { key: KeyCode::Char('j'), .. }) => Command::MoveDown,
            InputEvent::Key(KeyEvent { key: KeyCode::DownArrow, .. }) => Command::MoveDown,
            InputEvent::Key(KeyEvent { key: KeyCode::Escape, .. }) => Command::Cancel,
            InputEvent::Key(KeyEvent { key: KeyCode::Enter, .. }) => Command::Confirm,
            _ => Command::Ignore,
        }
    }
}

} // verus!
