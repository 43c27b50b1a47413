//! The input events a command is built from.

use vstd::prelude::*;

verus! {

/// A key press, as the terminal reports it.
#[derive(Debug, Clone, Copy, PartialEq, Eq)]
pub enum KeyEvent {
    Backspace,
    Left,
    Right,
    Up,
    Down,
    Home,
    End,
    PageUp,
    PageDown,
    Delete,
    Insert,
    /// A function key, by number.
    F(u8),
    /// A plain character; enter comes as `'\n'` and tab as `'\t'`.
    Char(char),
    /// A character typed with alt.
    Alt(char),
    /// A character typed with ctrl.
    Ctrl(char),
    Null,
    Esc,
}

/// An input event: a mouse click (column, row) or a key press.
#[derive(Debug, Clone, Copy, PartialEq, Eq)]
pub enum Event {
    Click(u16, u16),
    /// Delivered after a `Click` at the same position.
    DoubleClick(u16, u16),
    Key(KeyEvent),
}

} // verus!
