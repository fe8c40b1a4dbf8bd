//! The key presses that the views react to.
use vstd::prelude::*;

verus! {

/// A key without a printable character.
#[derive(PartialEq, Eq, Structural, Clone, Copy, Debug)]
pub enum Key {
    Up,
    Down,
    PageUp,
    PageDown,
    Home,
    End,
    Enter,
    Esc,
    Backspace,
    F3,
    /// Any other key.
    Other,
}

/// An input event, as far as the views tell events apart.
#[derive(PartialEq, Eq, Structural, Clone, Copy, Debug)]
pub enum Event {
    /// A key press.
    Key(Key),
    /// A printable character.
    Char(char),
    /// A key press with the shift key held.
    Shift(Key),
    /// Any other event (mouse, resize, control characters).
    Other,
}

} // verus!
