//! From an event to the command it stands for.
//!
//! The screen keeps column 0 and row 0 for the border, so the cell in column
//! `i` of the grid is drawn in column `i + 1` of the screen, and likewise for
//! rows.

use vstd::prelude::*;
use crate::event::{Event, Key, MouseButton, MouseEvent, MouseEventKind};
use crate::geometry::Size;

verus! {

/// What an event asks of the grid.
#[derive(Debug, Clone, Copy, PartialEq, Eq, Structural)]
pub enum SingleCommand {
    /// Switch on the cell in this column and row of the grid.
    Switch { col: usize, row: usize },
    /// End the loop.
    Quit,
}

/// Which pointer events switch a cell.
#[derive(Debug, Clone, Copy, PartialEq, Eq, Structural)]
pub struct PointerTriggers {
    /// The pointer moved, no button held.
    pub moved: bool,
    /// The left button went down.
    pub pressed: bool,
    /// The left button went up.
    pub released: bool,
}

impl SingleCommand {
    /// The name of the command.
    pub open spec fn name(self) -> Seq<char> {
        match self {
            SingleCommand::Switch { .. } => "Switch"@,
            SingleCommand::Quit => "Quit"@,
        }
    }

    pub fn to_string(&self) -> (text: String)
        ensures
            text@ == self.name(),
    {
        match self {
            SingleCommand::Switch { .. } => "Switch".to_owned(),
            SingleCommand::Quit => "Quit".to_owned(),
        }
    }
}

impl PointerTriggers {
    /// Whether a pointer event of this kind switches a cell.
    pub open spec fn fires(self, kind: MouseEventKind) -> bool {
        match kind {
            MouseEventKind::Moved => self.moved,
            MouseEventKind::Down(MouseButton::Left) => self.pressed,
            MouseEventKind::Up(MouseButton::Left) => self.released,
            _ => false,
        }
    }

    /// The left button going down, and nothing else.
    pub fn press_only() -> (triggers: Self)
        ensures
            triggers == (PointerTriggers { moved: false, pressed: true, released: false }),
    {
        PointerTriggers { moved: false, pressed: true, released: false }
    }

    /// Movement and the left button in both directions.
    pub fn every_kind() -> (triggers: Self)
        ensures
            triggers == (PointerTriggers { moved: true, pressed: true, released: true }),
    {
        PointerTriggers { moved: true, pressed: true, released: true }
    }

    pub fn accepts(&self, kind: &MouseEventKind) -> (fires: bool)
        ensures
            fires == self.fires(*kind),
    {
        match kind {
            MouseEventKind::Moved => self.moved,
            MouseEventKind::Down(MouseButton::Left) => self.pressed,
            MouseEventKind::Up(MouseButton::Left) => self.released,
            _ => false,
        }
    }
}

/// Whether a position of the screen lies on a cell of a grid of these
/// dimensions, that is strictly inside the border.
pub open spec fn on_grid(column: u16, row: u16, dimensions: Size) -> bool {
    1 <= column <= dimensions.width && 1 <= row <= dimensions.height
}

/// The command of a key: the letter q, small or capital, quits.
pub open spec fn key_command(key: Key) -> Option<SingleCommand> {
    if key == Key::Char('q') || key == Key::Char('Q') {
        Some(SingleCommand::Quit)
    } else {
        None
    }
}

/// The command of a pointer event: a kind that fires, on a cell, switches
/// that cell.
pub open spec fn pointer_command(
    mouse: MouseEvent,
    dimensions: Size,
    triggers: PointerTriggers,
) -> Option<SingleCommand> {
    if triggers.fires(mouse.kind) && on_grid(mouse.column, mouse.row, dimensions) {
        Some(SingleCommand::Switch { col: (mouse.column - 1) as usize, row: (mouse.row - 1) as usize })
    } else {
        None
    }
}

/// The command of any event. A frame tick and a resize stand for none.
pub open spec fn command_of(
    event: Event,
    dimensions: Size,
    triggers: PointerTriggers,
) -> Option<SingleCommand> {
    match event {
        Event::Key(key) => key_command(key),
        Event::Mouse(mouse) => pointer_command(mouse, dimensions, triggers),
        Event::Frame => None,
        Event::Resize(_, _) => None,
    }
}

/// The command of a key.
pub fn handle_key(key: &Key) -> (command: Option<SingleCommand>)
    ensures
        command == key_command(*key),
        command is Some <==> *key == Key::Char('q') || *key == Key::Char('Q'),
        command is Some ==> command == Some(SingleCommand::Quit),
{
    match key {
        Key::Char(c) => {
            if *c == 'q' || *c == 'Q' {
                Some(SingleCommand::Quit)
            } else {
                None
            }
        },
        Key::Other => None,
    }
}

/// The command of a pointer event on a grid of these dimensions: the cell
/// one column left of and one row above the position on the screen, if the
/// kind of the event fires and the position lies on a cell.
pub fn handle_mouse(mouse: &MouseEvent, dimensions: &Size, triggers: &PointerTriggers) -> (command:
    Option<SingleCommand>)
    ensures
        command == pointer_command(*mouse, *dimensions, *triggers),
        triggers.fires(mouse.kind) && 1 <= mouse.column <= dimensions.width && 1 <= mouse.row
            <= dimensions.height ==> command == Some(
            SingleCommand::Switch { col: (mouse.column - 1) as usize, row: (mouse.row - 1) as usize },
        ),
        mouse.column == 0 || mouse.row == 0 || mouse.column > dimensions.width || mouse.row
            > dimensions.height ==> command is None,
        !triggers.fires(mouse.kind) ==> command is None,
        command matches Some(SingleCommand::Switch { col, row }) ==> col < dimensions.width && row
            < dimensions.height,
        command != Some(SingleCommand::Quit),
{
    let mouse_column = mouse.column as usize;
    let mouse_row = mouse.row as usize;
    let cells = dimensions.to_rectangle();
    if triggers.accepts(&mouse.kind) && mouse_column > cells.left && mouse_column <= cells.right
        && mouse_row > cells.top && mouse_row <= cells.bottom {
        Some(SingleCommand::Switch { col: mouse_column - 1, row: mouse_row - 1 })
    } else {
        None
    }
}

/// The command of any event on a grid of these dimensions.
pub fn classify(event: &Event, dimensions: &Size, triggers: &PointerTriggers) -> (command: Option<
    SingleCommand,
>)
    ensures
        command == command_of(*event, *dimensions, *triggers),
        *event matches Event::Mouse(mouse) ==> (triggers.fires(mouse.kind) && 1 <= mouse.column
            <= dimensions.width && 1 <= mouse.row <= dimensions.height ==> command == Some(
            SingleCommand::Switch { col: (mouse.column - 1) as usize, row: (mouse.row - 1) as usize },
        )),
        *event matches Event::Mouse(mouse) ==> (mouse.column == 0 || mouse.row == 0 || mouse.column
            > dimensions.width || mouse.row > dimensions.height ==> command is None),
        *event matches Event::Mouse(mouse) ==> (!triggers.fires(mouse.kind) ==> command is None),
        command matches Some(SingleCommand::Switch { col, row }) ==> col < dimensions.width && row
            < dimensions.height,
        command == Some(SingleCommand::Quit) <==> *event == Event::Key(Key::Char('q')) || *event
            == Event::Key(Key::Char('Q')),
{
    match event {
        Event::Key(key) => handle_key(key),
        Event::Mouse(mouse) => handle_mouse(mouse, dimensions, triggers),
        Event::Frame => None,
        Event::Resize(_, _) => None,
    }
}

} // verus!
