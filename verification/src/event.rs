//! Input events, reduced to what the key handling reads.
//!
//! A terminal reports many more keys and events than the interface reacts to.
//! The program that reads the terminal turns each report into one of these
//! values; everything it has no use for becomes `Other`.

use vstd::prelude::*;

verus! {

/// The key of a keyboard event.
#[derive(Debug, Clone, Copy, PartialEq, Eq, Structural)]
pub enum KeyCode {
    /// The left arrow.
    Left,
    /// The right arrow.
    Right,
    /// A character key, with the character as it was typed: `g` and `G` differ.
    Char(char),
    /// Any other key.
    Other,
}

/// Whether the key went down, is held, or came up.
#[derive(Debug, Clone, Copy, PartialEq, Eq, Structural)]
pub enum KeyEventKind {
    Press,
    Repeat,
    Release,
}

/// One keyboard event.
#[derive(Debug, Clone, Copy, PartialEq, Eq, Structural)]
pub struct KeyEvent {
    pub code: KeyCode,
    pub kind: KeyEventKind,
}

/// One event read from the terminal.
#[derive(Debug, Clone, Copy, PartialEq, Eq, Structural)]
pub enum Event {
    /// A keyboard event.
    Key(KeyEvent),
    /// Anything else: focus, mouse, paste, resize.
    Other,
}

} // verus!
