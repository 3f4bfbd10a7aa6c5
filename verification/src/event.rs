//! The events that the display surface reports, as plain values.

use vstd::prelude::*;

verus! {

/// A key of the keyboard: a character, or any other key.
#[derive(Debug, Clone, Copy, PartialEq, Eq, Structural)]
pub enum Key {
    Char(char),
    Other,
}

#[derive(Debug, Clone, Copy, PartialEq, Eq, Structural)]
pub enum MouseButton {
    Left,
    Right,
    Middle,
}

/// What the pointer did.
#[derive(Debug, Clone, Copy, PartialEq, Eq, Structural)]
pub enum MouseEventKind {
    Down(MouseButton),
    Up(MouseButton),
    Drag(MouseButton),
    Moved,
    ScrollDown,
    ScrollUp,
}

/// A pointer event at a position of the screen. Column 0 and row 0 are the
/// top left corner of the screen.
#[derive(Debug, Clone, Copy, PartialEq, Eq, Structural)]
pub struct MouseEvent {
    pub kind: MouseEventKind,
    pub column: u16,
    pub row: u16,
}

/// One event of the display surface.
#[derive(Debug, Clone, Copy, PartialEq, Eq, Structural)]
pub enum Event {
    /// It is time for the next frame.
    Frame,
    Key(Key),
    Mouse(MouseEvent),
    /// The terminal has a new width and height.
    Resize(u16, u16),
}

} // verus!
