//! Key events as the editor reads them: which key, and which modifiers
//! were held.

use vstd::prelude::*;

verus! {

/// The identity of a pressed key. Keys that no keymap binds are all
/// `Other`.
#[derive(Clone, Copy, Debug, PartialEq, Eq, Structural)]
pub enum Key {
    Char(char),
    Enter,
    Esc,
    Backspace,
    Left,
    Down,
    Up,
    Right,
    Other,
}

/// The modifiers held with a key. A keymap binds a key under exactly one
/// of the first three; any other combination is `Other`.
#[derive(Clone, Copy, Debug, PartialEq, Eq, Structural)]
pub enum Modifiers {
    /// No modifier at all.
    Plain,
    Shift,
    Control,
    Other,
}

} // verus!
