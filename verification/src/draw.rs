//! The writes that draw a grid: text at a column and a row of the screen.

use vstd::prelude::*;
use crate::cell::{CellView, GameCommand};
use crate::geometry::Size;

verus! {

/// One write to the display surface: `text` on one line, its first character
/// at column `x` of row `y`.
#[derive(Debug, Clone, PartialEq, Eq)]
pub struct DrawCall {
    pub x: i32,
    pub y: i32,
    pub text: String,
}

/// What a [`DrawCall`] writes, and where.
pub struct DrawOp {
    pub x: int,
    pub y: int,
    pub text: Seq<char>,
}

impl View for DrawCall {
    type V = DrawOp;

    open spec fn view(&self) -> DrawOp {
        DrawOp { x: self.x as int, y: self.y as int, text: self.text@ }
    }
}

/// What a list of draw calls writes, in order.
pub open spec fn ops_of(calls: Seq<DrawCall>) -> Seq<DrawOp> {
    calls.map_values(|call: DrawCall| call@)
}

/// `piece` written `count` times in a row.
pub open spec fn repeated(piece: Seq<char>, count: nat) -> Seq<char>
    decreases count,
{
    if count == 0 {
        Seq::empty()
    } else {
        repeated(piece, (count - 1) as nat) + piece
    }
}

/// The text of a horizontal line from column `x1` up to, not including,
/// column `x2`: `stag`, then `ttag` once for each column between the ends,
/// then `etag`. A line has its two ends even where `x2 - x1` is less than 2.
pub open spec fn horiz_text(
    x1: int,
    x2: int,
    stag: Seq<char>,
    ttag: Seq<char>,
    etag: Seq<char>,
) -> Seq<char> {
    let len = if x2 - x1 >= 2 {
        x2 - x1
    } else {
        2
    };
    stag + repeated(ttag, (len - 2) as nat) + etag
}

/// The upper or lower border of a grid `width` cells wide, drawn from column
/// `x` of row `y`.
pub open spec fn border_op(width: nat, x: int, y: int) -> DrawOp {
    DrawOp { x, y, text: seq!['+'] + repeated(seq!['-'], width) + seq!['+'] }
}

/// A piece of the left or right border.
pub open spec fn bar_op(x: int, y: int) -> DrawOp {
    DrawOp { x, y, text: seq!['|'] }
}

/// The cell `shape` drawn at column `x` of row `y`.
pub open spec fn glyph_op(x: int, y: int, shape: GameCommand) -> DrawOp {
    DrawOp { x, y, text: seq![shape.glyph()] }
}

/// The writes of one row of the grid whose border starts at column `x` of row
/// `y`: the left border, the cells of the row from left to right, the right
/// border. All of them go to row `y + 1 + row` of the screen, and the cell of
/// column `col` to column `x + 1 + col`.
pub open spec fn row_ops(cells: Seq<Seq<CellView>>, width: nat, x: int, y: int, row: int) -> Seq<
    DrawOp,
> {
    seq![bar_op(x, y + 1 + row)] + Seq::new(
        width,
        |col: int| glyph_op(x + 1 + col, y + 1 + row, cells[col][row].command),
    ) + seq![bar_op(x + 1 + width, y + 1 + row)]
}

/// The writes of the first `rows` rows, from the top.
pub open spec fn rows_ops(cells: Seq<Seq<CellView>>, width: nat, x: int, y: int, rows: nat) -> Seq<
    DrawOp,
>
    decreases rows,
{
    if rows == 0 {
        Seq::empty()
    } else {
        rows_ops(cells, width, x, y, (rows - 1) as nat) + row_ops(cells, width, x, y, rows - 1)
    }
}

/// The writes of a whole frame, in order: the upper border, the rows from the
/// top, the lower border.
pub open spec fn frame_ops(cells: Seq<Seq<CellView>>, dimensions: Size, x: int, y: int) -> Seq<
    DrawOp,
> {
    seq![border_op(dimensions.width as nat, x, y)] + rows_ops(
        cells,
        dimensions.width as nat,
        x,
        y,
        dimensions.height as nat,
    ) + seq![border_op(dimensions.width as nat, x, y + 1 + dimensions.height)]
}

/// A call added at the end of a list adds its write at the end of the writes.
pub proof fn lemma_ops_of_push(calls: Seq<DrawCall>, call: DrawCall)
    ensures
        ops_of(calls.push(call)) == ops_of(calls).push(call@),
{
    assert(ops_of(calls.push(call)) =~= ops_of(calls).push(call@));
}

impl GameCommand {
    /// The glyph as a text of one character.
    pub fn to_string(&self) -> (text: String)
        ensures
            text@ == seq![self.glyph()],
    {
        proof {
            reveal_strlit("O");
            reveal_strlit(".");
        }
        let text = match self {
            GameCommand::On => "O".to_owned(),
            GameCommand::Off => ".".to_owned(),
        };
        assert(text@ =~= seq![self.glyph()]);
        text
    }
}

/// The write of `string` at column `x` of row `y`.
pub fn print_code(x: i32, y: i32, string: &str) -> (call: DrawCall)
    ensures
        call@ == (DrawOp { x: x as int, y: y as int, text: string@ }),
{
    DrawCall { x, y, text: string.to_owned() }
}

/// The write of one cell.
pub fn print_glyph(x: i32, y: i32, shape: GameCommand) -> (call: DrawCall)
    ensures
        call@ == glyph_op(x as int, y as int, shape),
{
    DrawCall { x, y, text: shape.to_string() }
}

/// The write of a horizontal line from column `x1` up to, not including,
/// column `x2` of row `y`.
pub fn print_horiz(x1: i32, x2: i32, y: i32, stag: &str, ttag: &str, etag: &str) -> (call: DrawCall)
    ensures
        call@ == (DrawOp {
            x: x1 as int,
            y: y as int,
            text: horiz_text(x1 as int, x2 as int, stag@, ttag@, etag@),
        }),
{
    let span: i64 = x2 as i64 - x1 as i64;
    let len: i64 = if span >= 2 {
        span
    } else {
        2
    };
    let mut text = stag.to_owned();
    let mut done: i64 = 2;
    while done < len
        invariant
            2 <= done <= len,
            text@ == stag@ + repeated(ttag@, (done - 2) as nat),
        decreases len - done,
    {
        text.append(ttag);
        done = done + 1;
    }
    text.append(etag);
    DrawCall { x: x1, y, text }
}

} // verus!
