//! Keys and the events that the input loop hands to the application.

use vstd::prelude::*;
use vstd::std_specs::convert::FromSpecImpl;

verus! {

/// A key as the application understands it.
#[derive(Clone, Copy, Debug, PartialEq, Eq, Hash, Structural)]
pub enum Key {
    Enter,
    ShiftEnter,
    Esc,
    Up,
    Down,
    Left,
    Right,
    Backspace,
    Delete,
    Char(char),
    Unknown,
}

/// The key codes a terminal reports, as far as the application tells them apart.
#[derive(Clone, Copy, Debug, PartialEq, Eq, Hash, Structural)]
pub enum KeyCode {
    Backspace,
    Enter,
    Left,
    Right,
    Up,
    Down,
    Delete,
    Esc,
    Char(char),
    /// Any other code (function keys, paging keys, ...).
    Other,
}

/// The modifier keys held during a key press, one bit per modifier.
#[derive(Clone, Copy, Debug, PartialEq, Eq, Hash, Structural)]
pub struct KeyModifiers {
    pub bits: u8,
}

/// No modifier.
pub const MODIFIER_NONE: u8 = 0;

/// The shift key.
pub const MODIFIER_SHIFT: u8 = 1;

/// The control key.
pub const MODIFIER_CONTROL: u8 = 2;

/// The alt key.
pub const MODIFIER_ALT: u8 = 4;

/// A key press as the terminal reports it.
#[derive(Clone, Copy, Debug, PartialEq, Eq, Hash, Structural)]
pub struct KeyEvent {
    pub code: KeyCode,
    pub modifiers: KeyModifiers,
}

/// The key that a key press stands for. A character is taken as it is,
/// whatever the modifiers; Enter with shift, and nothing else, held is
/// `ShiftEnter`.
pub open spec fn key_of(event: KeyEvent) -> Key {
    match event.code {
        KeyCode::Char(c) => Key::Char(c),
        KeyCode::Enter => if event.modifiers.bits == MODIFIER_SHIFT {
            Key::ShiftEnter
        } else {
            Key::Enter
        },
        KeyCode::Esc => Key::Esc,
        KeyCode::Up => Key::Up,
        KeyCode::Down => Key::Down,
        KeyCode::Left => Key::Left,
        KeyCode::Right => Key::Right,
        KeyCode::Backspace => Key::Backspace,
        KeyCode::Delete => Key::Delete,
        KeyCode::Other => Key::Unknown,
    }
}

impl From<KeyEvent> for Key {
    fn from(key_event: KeyEvent) -> (key: Key) {
        match key_event.code {
            KeyCode::Char(c) => Key::Char(c),
            KeyCode::Enter => {
                if key_event.modifiers.bits == MODIFIER_SHIFT {
                    Key::ShiftEnter
                } else {
                    Key::Enter
                }
            },
            KeyCode::Esc => Key::Esc,
            KeyCode::Up => Key::Up,
            KeyCode::Down => Key::Down,
            KeyCode::Left => Key::Left,
            KeyCode::Right => Key::Right,
            KeyCode::Backspace => Key::Backspace,
            KeyCode::Delete => Key::Delete,
            KeyCode::Other => Key::Unknown,
        }
    }
}

impl FromSpecImpl<KeyEvent> for Key {
    open spec fn obeys_from_spec() -> bool {
        true
    }

    open spec fn from_spec(key_event: KeyEvent) -> Key {
        key_of(key_event)
    }
}

/// What the input loop delivers: a key press, or the tick that ends a poll cycle.
#[derive(Clone, Copy, Debug, PartialEq, Eq, Structural)]
pub enum InputEvent {
    Input(Key),
    Tick,
}

/// The events of one poll cycle, in the order in which they are sent.
pub open spec fn cycle_events(pressed: Option<KeyEvent>) -> Seq<InputEvent> {
    match pressed {
        Some(event) => seq![InputEvent::Input(key_of(event)), InputEvent::Tick],
        None => seq![InputEvent::Tick],
    }
}

/// The events of one poll cycle: the key that arrived within the poll
/// timeout, if any, and then exactly one tick.
pub fn poll_cycle(pressed: Option<KeyEvent>) -> (events: Vec<InputEvent>)
    ensures
        events@ == cycle_events(pressed),
{
    let mut events = Vec::new();
    if let Some(event) = pressed {
        events.push(InputEvent::Input(Key::from(event)));
    }
    events.push(InputEvent::Tick);
    events
}

} // verus!
