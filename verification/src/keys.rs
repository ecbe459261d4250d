//! Key presses.
use vstd::prelude::*;

verus! {

/// A key, without its modifiers.
#[derive(Clone, Copy, Debug, PartialEq, Eq, Structural)]
pub enum Key {
    Esc,
    Enter,
    Tab,
    BackTab,
    Backspace,
    Delete,
    Up,
    Down,
    Left,
    Right,
    PageUp,
    PageDown,
    Home,
    End,
    Char(char),
    F(u8),
    Other,
}

/// The cursor goes up: the arrow, or `k`.
#[verifier::allow_in_spec]
pub fn is_up(key: Key) -> bool
    returns
        key == Key::Up || key == Key::Char('k'),
{
    match key {
        Key::Up => true,
        Key::Char(c) => c == 'k',
        _ => false,
    }
}

/// The cursor goes down: the arrow, or `j`.
#[verifier::allow_in_spec]
pub fn is_down(key: Key) -> bool
    returns
        key == Key::Down || key == Key::Char('j'),
{
    match key {
        Key::Down => true,
        Key::Char(c) => c == 'j',
        _ => false,
    }
}

} // verus!
