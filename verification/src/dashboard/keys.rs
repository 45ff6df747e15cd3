//! The keys that the dashboard tells apart.

use crate::events::{KeyCode, KeyEvent};
use vstd::prelude::*;
use vstd::std_specs::convert::FromSpecImpl;

verus! {

/// A key as the dashboard understands it.
#[derive(Clone, Copy, Debug, PartialEq, Eq, Hash, Structural)]
pub enum Key {
    Up,
    Down,
    Char(char),
    Unknown,
}

/// The key that a key press stands for, whatever the modifiers.
pub open spec fn key_of(event: KeyEvent) -> Key {
    match event.code {
        KeyCode::Char(c) => Key::Char(c),
        KeyCode::Up => Key::Up,
        KeyCode::Down => Key::Down,
        _ => Key::Unknown,
    }
}

impl From<KeyEvent> for Key {
    fn from(key_event: KeyEvent) -> (key: Key) {
        match key_event.code {
            KeyCode::Char(c) => Key::Char(c),
            KeyCode::Up => Key::Up,
            KeyCode::Down => Key::Down,
            _ => Key::Unknown,
        }
    }
}

impl FromSpecImpl<KeyEvent> for Key {
    open spec fn obeys_from_spec() -> bool {
        true
    }

    open spec fn from_spec(key_event: KeyEvent) -> Key {
        key_of(key_event)
    }
}

} // verus!
