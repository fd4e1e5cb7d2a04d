//! Decoded input: what the terminal reports of the keyboard and the mouse.

use vstd::prelude::*;

verus! {

/// A key of the keyboard.
#[derive(Clone, Copy, Debug, PartialEq, Eq, Structural)]
pub enum Key {
    /// A key that types a character.
    Char(char),
    /// Any other key: an arrow, a function key, a key held with a modifier.
    Other,
}

/// What the mouse did.
#[derive(Clone, Copy, Debug, PartialEq, Eq, Structural)]
pub enum MouseEvent {
    /// A button went down over the cell in this column and row of the
    /// screen. Columns and rows count from one.
    Press(u16, u16),
    /// A button came up, or the mouse moved with a button held.
    Other,
}

/// One decoded event of the terminal.
#[derive(Clone, Copy, Debug, PartialEq, Eq, Structural)]
pub enum Event {
    Key(Key),
    Mouse(MouseEvent),
    /// Bytes that the terminal could not decode.
    Unsupported,
}

} // verus!
