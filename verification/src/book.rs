//! The grid and the loop that it lives in.

use vstd::prelude::*;
use crate::cell::{CellView, GameCommand, PlayBookCell};
use crate::dispatch::{classify, SingleCommand};
use crate::draw::{
    bar_op, border_op, glyph_op, lemma_ops_of_push, ops_of, print_code, print_glyph, print_horiz,
    row_ops, rows_ops, DrawCall, DrawOp,
};
use crate::event::Event;
use crate::geometry::Size;
use crate::model::{
    law_next_keeps_grid, law_stopped_run_is_silent, BookView, LoopState, Policy, TogglePolicy,
};

verus! {

/// The grid has no cell in this column and row.
#[derive(Debug, Clone, Copy, PartialEq, Eq, Structural)]
pub struct IndexOutOfRange {
    pub col: usize,
    pub row: usize,
    /// The dimensions of the grid that was asked.
    pub dimensions: Size,
}

/// What one event came to.
#[derive(Debug)]
pub struct Step {
    /// The command that was carried out, if the event stood for one.
    pub command: Option<SingleCommand>,
    /// After a frame tick, the writes of the new frame: the caller clears
    /// the surface, makes the writes in order, and flushes.
    pub frame: Option<Vec<DrawCall>>,
}

/// What a list of frames writes, frame by frame.
pub open spec fn frames_of(frames: Seq<Vec<DrawCall>>) -> Seq<Seq<DrawOp>> {
    frames.map_values(|frame: Vec<DrawCall>| ops_of(frame@))
}

/// The grid with its loop: cells in columns and rows, the policy, and
/// whether the loop still runs.
#[derive(Debug)]
pub struct PlayBook {
    dimensions: Size,
    data: Vec<Vec<PlayBookCell>>,
    policy: Policy,
    state: LoopState,
}

impl View for PlayBook {
    type V = BookView;

    closed spec fn view(&self) -> BookView {
        BookView {
            dimensions: self.dimensions,
            cells: Seq::new(
                self.data@.len(),
                |col: int| Seq::new(self.data@[col]@.len(), |row: int| self.data@[col]@[row]@),
            ),
            policy: self.policy,
            state: self.state,
        }
    }
}

impl PlayBook {
    /// What every grid that this module hands out is, and stays: as many
    /// columns and rows as its dimensions say, and every cell well formed.
    pub open spec fn wf(&self) -> bool {
        self@.wf()
    }

    /// How the stored columns stand for the view.
    proof fn lemma_data(&self)
        requires
            self.wf(),
        ensures
            self.data@.len() == self.dimensions.width,
            self@.dimensions == self.dimensions,
            forall|col: int|
                0 <= col < self.dimensions.width ==> (#[trigger] self.data@[col])@.len()
                    == self.dimensions.height,
            forall|col: int, row: int|
                0 <= col < self.dimensions.width && 0 <= row < self.dimensions.height ==> (
                #[trigger] self.data@[col]@[row])@ == self@.cells[col][row],
    {
        assert forall|col: int| 0 <= col < self.dimensions.width implies (
        #[trigger] self.data@[col])@.len() == self.dimensions.height by {
            assert(self@.cells[col].len() == self.dimensions.height);
        }
    }

    /// A grid of `width` columns and `height` rows under the default policy.
    pub fn from_sizes(width: usize, height: usize) -> (book: Self)
        ensures
            book@ == BookView::fresh(Size { width, height }, Policy::standard()),
            book.wf(),
    {
        Self::from_dimensions(Size::from_sizes(width, height))
    }

    /// A grid of these dimensions under the default policy.
    pub fn from_dimensions(dimensions: Size) -> (book: Self)
        ensures
            book@ == BookView::fresh(dimensions, Policy::standard()),
            book.wf(),
    {
        Self::with_policy(dimensions, Policy::default())
    }

    /// A grid of these dimensions: every cell off and without a timer, the
    /// loop running.
    pub fn with_policy(dimensions: Size, policy: Policy) -> (book: Self)
        ensures
            book@ == BookView::fresh(dimensions, policy),
            book.wf(),
    {
        let mut screen_data: Vec<Vec<PlayBookCell>> = Vec::with_capacity(dimensions.width);
        for x in 0..dimensions.width
            invariant
                screen_data@.len() == x,
                forall|col: int|
                    0 <= col < x ==> (#[trigger] screen_data@[col])@.len() == dimensions.height,
                forall|col: int, row: int|
                    0 <= col < x && 0 <= row < dimensions.height ==> (
                    #[trigger] screen_data@[col]@[row])@ == (CellView {
                        point: Size { width: col as usize, height: row as usize },
                        timer: None,
                        command: GameCommand::Off,
                    }),
        {
            let mut screen_height: Vec<PlayBookCell> = Vec::with_capacity(dimensions.height);
            for y in 0..dimensions.height
                invariant
                    screen_height@.len() == y,
                    forall|row: int|
                        0 <= row < y ==> (#[trigger] screen_height@[row])@ == (CellView {
                            point: Size { width: x, height: row as usize },
                            timer: None,
                            command: GameCommand::Off,
                        }),
            {
                screen_height.push(PlayBookCell::new(Size::from_sizes(x, y)));
            }
            screen_data.push(screen_height);
        }
        let book = PlayBook { dimensions, data: screen_data, policy, state: LoopState::Running };
        assert(book@.cells =~~= BookView::fresh(dimensions, policy).cells);
        book
    }

    /// The writes that draw the grid inside its border, the top left corner
    /// of the border at column `x` of row `y`: the upper border, then row by
    /// row the left border, the cells and the right border, then the lower
    /// border.
    ///
    /// Every column and row that is written to, and the column after the
    /// border where its line ends, has to be a coordinate: that is all that
    /// is asked of `x` and `y`, which may be negative.
    pub fn print(&self, x: i32, y: i32) -> (calls: Vec<DrawCall>)
        requires
            self.wf(),
            x + self@.dimensions.width + 2 <= i32::MAX,
            y + self@.dimensions.height + 1 <= i32::MAX,
        ensures
            ops_of(calls@) == self@.frame(x as int, y as int),
    {
        let extent = self.dimensions.to_rectangle();
        let width = extent.right;
        let height = extent.bottom;
        let ghost cells = self@.cells;
        let ghost top = border_op(width as nat, x as int, y as int);
        let x2: i32 = (x as i64 + 2 + width as i64) as i32;
        proof {
            reveal_strlit("+");
            reveal_strlit("-");
            reveal_strlit("|");
        }
        let mut calls: Vec<DrawCall> = Vec::new();
        let upper = print_horiz(x, x2, y, "+", "-", "+");
        proof {
            lemma_ops_of_push(calls@, upper);
            assert("+"@ =~= seq!['+']);
            assert("-"@ =~= seq!['-']);
            assert(upper@ == top);
        }
        calls.push(upper);
        assert(ops_of(calls@) =~= seq![top] + rows_ops(cells, width as nat, x as int, y as int, 0));
        let mut cy: i32 = y + 1;
        for row in 0..height
            invariant
                self.wf(),
                width == self@.dimensions.width,
                height == self@.dimensions.height,
                cells == self@.cells,
                x + width + 2 <= i32::MAX,
                y + height + 1 <= i32::MAX,
                cy == y + 1 + row,
                "|"@ == seq!['|'],
                ops_of(calls@) == seq![top] + rows_ops(
                    cells,
                    width as nat,
                    x as int,
                    y as int,
                    row as nat,
                ),
        {
            let ghost before = ops_of(calls@);
            let left = print_code(x, cy, "|");
            proof {
                lemma_ops_of_push(calls@, left);
            }
            calls.push(left);
            let mut cx: i32 = x + 1;
            for col in 0..width
                invariant
                    self.wf(),
                    width == self@.dimensions.width,
                    height == self@.dimensions.height,
                    cells == self@.cells,
                    row < height,
                    x + width + 2 <= i32::MAX,
                    cy == y + 1 + row,
                    cx == x + 1 + col,
                    ops_of(calls@) == before + seq![bar_op(x as int, y + 1 + row)] + Seq::new(
                        col as nat,
                        |c: int| glyph_op(x + 1 + c, y + 1 + row, cells[c][row as int].command),
                    ),
            {
                proof {
                    self.lemma_data();
                }
                let shape = self.data[col][row].command();
                let cell = print_glyph(cx, cy, shape);
                proof {
                    lemma_ops_of_push(calls@, cell);
                    assert(Seq::new(
                        (col + 1) as nat,
                        |c: int| glyph_op(x + 1 + c, y + 1 + row, cells[c][row as int].command),
                    ) =~= Seq::new(
                        col as nat,
                        |c: int| glyph_op(x + 1 + c, y + 1 + row, cells[c][row as int].command),
                    ).push(cell@));
                }
                calls.push(cell);
                cx = cx + 1;
            }
            let right = print_code(cx, cy, "|");
            proof {
                lemma_ops_of_push(calls@, right);
                assert(ops_of(calls@.push(right)) =~= before + row_ops(
                    cells,
                    width as nat,
                    x as int,
                    y as int,
                    row as int,
                ));
            }
            calls.push(right);
            cy = cy + 1;
        }
        let lower = print_horiz(x, x2, cy, "+", "-", "+");
        proof {
            lemma_ops_of_push(calls@, lower);
            assert(lower@ == border_op(width as nat, x as int, y + 1 + height));
        }
        calls.push(lower);
        calls
    }

    pub fn dimensions(&self) -> (dimensions: Size)
        ensures
            dimensions == self@.dimensions,
    {
        self.dimensions
    }

    pub fn policy(&self) -> (policy: Policy)
        ensures
            policy == self@.policy,
    {
        self.policy
    }

    pub fn state(&self) -> (state: LoopState)
        ensures
            state == self@.state,
    {
        self.state
    }

    /// The cell in column `col` and row `row`.
    pub fn get_row(&self, col: usize, row: usize) -> (found: Result<&PlayBookCell, IndexOutOfRange>)
        requires
            self.wf(),
        ensures
            found is Ok <==> col < self@.dimensions.width && row < self@.dimensions.height,
            found matches Ok(cell) ==> cell@ == self@.cells[col as int][row as int],
            found matches Err(error) ==> error == (IndexOutOfRange {
                col,
                row,
                dimensions: self@.dimensions,
            }),
    {
        if col < self.dimensions.width && row < self.dimensions.height {
            proof {
                self.lemma_data();
            }
            Ok(&self.data[col][row])
        } else {
            Err(IndexOutOfRange { col, row, dimensions: self.dimensions })
        }
    }

    /// The cell in column `col` and row `row`, to be changed in place. The
    /// grid is what it was but for that cell, and stays well formed if the
    /// cell does.
    pub fn get_row_mut(&mut self, col: usize, row: usize) -> (found: Result<
        &mut PlayBookCell,
        IndexOutOfRange,
    >)
        requires
            old(self).wf(),
        ensures
            found is Ok <==> col < old(self)@.dimensions.width && row < old(self)@.dimensions.height,
            found matches Ok(cell) ==> cell@ == old(self)@.cells[col as int][row as int],
            found matches Ok(cell) ==> final(self)@.cells =~~= old(self)@.cells.update(
                col as int,
                old(self)@.cells[col as int].update(row as int, final(cell)@),
            ),
            found matches Ok(cell) ==> (final(cell)@.wf() ==> final(self).wf()),
            found is Ok ==> final(self)@.dimensions == old(self)@.dimensions,
            found is Ok ==> final(self)@.policy == old(self)@.policy,
            found is Ok ==> final(self)@.state == old(self)@.state,
            found matches Err(error) ==> error == (IndexOutOfRange {
                col,
                row,
                dimensions: old(self)@.dimensions,
            }),
            found is Err ==> final(self)@ == old(self)@,
    {
        if col < self.dimensions.width && row < self.dimensions.height {
            proof {
                self.lemma_data();
            }
            Ok(&mut self.data[col][row])
        } else {
            Err(IndexOutOfRange { col, row, dimensions: self.dimensions })
        }
    }

    /// The sweep of the whole grid: every cell whose timer has run out at
    /// `now` goes off, every other cell stays as it is.
    pub fn clear_setup(&mut self, now: u64)
        requires
            old(self).wf(),
        ensures
            final(self)@ == old(self)@.swept(now),
            final(self).wf(),
    {
        let width = self.dimensions.width;
        let height = self.dimensions.height;
        proof {
            self.lemma_data();
        }
        for col in 0..width
            invariant
                old(self).wf(),
                self.dimensions == old(self).dimensions,
                self.policy == old(self).policy,
                self.state == old(self).state,
                width == self.dimensions.width,
                height == self.dimensions.height,
                self.data@.len() == width,
                forall|c: int| 0 <= c < width ==> (#[trigger] self.data@[c])@.len() == height,
                forall|c: int, r: int|
                    0 <= c < col && 0 <= r < height ==> (#[trigger] self.data@[c]@[r])@ == old(
                        self,
                    )@.cells[c][r].swept(now),
                forall|c: int, r: int|
                    col <= c < width && 0 <= r < height ==> (#[trigger] self.data@[c]@[r])@ == old(
                        self,
                    )@.cells[c][r],
        {
            for row in 0..height
                invariant
                    old(self).wf(),
                    self.dimensions == old(self).dimensions,
                    self.policy == old(self).policy,
                    self.state == old(self).state,
                    width == self.dimensions.width,
                    height == self.dimensions.height,
                    col < width,
                    self.data@.len() == width,
                    forall|c: int| 0 <= c < width ==> (#[trigger] self.data@[c])@.len() == height,
                    forall|c: int, r: int|
                        0 <= c < col && 0 <= r < height ==> (#[trigger] self.data@[c]@[r])@ == old(
                            self,
                        )@.cells[c][r].swept(now),
                    forall|r: int|
                        0 <= r < row ==> (#[trigger] self.data@[col as int]@[r])@ == old(
                            self,
                        )@.cells[col as int][r].swept(now),
                    forall|r: int|
                        row <= r < height ==> (#[trigger] self.data@[col as int]@[r])@ == old(
                            self,
                        )@.cells[col as int][r],
                    forall|c: int, r: int|
                        col < c < width && 0 <= r < height ==> (#[trigger] self.data@[c]@[r])@
                            == old(self)@.cells[c][r],
            {
                self.data[col][row].clear_setup(now);
            }
        }
        assert(self@.cells =~~= old(self)@.swept(now).cells);
    }

    /// Switches the cell in column `col` and row `row` at `now`, as the
    /// policy has it.
    pub fn switch(&mut self, col: usize, row: usize, now: u64)
        requires
            old(self).wf(),
            old(self)@.holds(col as int, row as int),
        ensures
            final(self)@ == old(self)@.switched(col as int, row as int, now),
            final(self).wf(),
    {
        proof {
            self.lemma_data();
        }
        match self.policy.toggle {
            TogglePolicy::Timed => self.data[col][row].action(now),
            TogglePolicy::Permanent => self.data[col][row].activate_permanent(),
        }
        assert(self@.cells =~~= old(self)@.switched(col as int, row as int, now).cells);
    }

    /// One turn of the loop: takes the event that arrived at `now`, carries
    /// out what it stands for, and says what the caller has to draw.
    pub fn single_input(&mut self, event: &Event, now: u64) -> (step: Step)
        requires
            old(self).wf(),
            old(self)@.fits_screen(),
        ensures
            final(self)@ == old(self)@.next(*event, now),
            final(self).wf(),
            step.command == old(self)@.command(*event),
            step.frame is Some <==> old(self)@.rendered(*event, now) is Some,
            step.frame matches Some(calls) ==> old(self)@.rendered(*event, now) == Some(
                ops_of(calls@),
            ),
    {
        match self.state {
            LoopState::Stopped => Step { command: None, frame: None },
            LoopState::Running => {
                match event {
                    Event::Frame => {
                        self.clear_setup(now);
                        let calls = self.print(0, 0);
                        Step { command: None, frame: Some(calls) }
                    },
                    _ => {
                        let command = classify(event, &self.dimensions, &self.policy.triggers);
                        match command {
                            Some(SingleCommand::Switch { col, row }) => {
                                self.switch(col, row, now);
                            },
                            Some(SingleCommand::Quit) => {
                                self.state = LoopState::Stopped;
                            },
                            None => {},
                        }
                        Step { command, frame: None }
                    },
                }
            },
        }
    }

    /// The loop over a run of events, each with the time at which it
    /// arrives: takes them in order until the quit key or the end of the
    /// run, and hands back the frames that were drawn, in order.
    pub fn play(self, events: &Vec<(Event, u64)>) -> (frames: Vec<Vec<DrawCall>>)
        requires
            self.wf(),
            self@.fits_screen(),
        ensures
            frames_of(frames@) == self@.frames(events@),
    {
        let ghost start = self@;
        let mut book = self;
        let mut frames: Vec<Vec<DrawCall>> = Vec::new();
        let mut taken: usize = 0;
        proof {
            assert(events@.skip(0) =~= events@);
            assert(frames_of(frames@) + start.frames(events@) =~= start.frames(events@));
        }
        while taken < events.len()
            invariant
                start == self@,
                taken <= events.len(),
                book.wf(),
                book@.fits_screen(),
                start.frames(events@) == frames_of(frames@) + book@.frames(events@.skip(taken as int)),
            decreases events.len() - taken,
        {
            let (event, now) = events[taken];
            let ghost before = book@;
            let ghost rest = events@.skip(taken as int);
            proof {
                assert(rest[0] == events@[taken as int]);
                assert(rest.drop_first() =~= events@.skip(taken + 1));
                law_next_keeps_grid(before, event, now);
            }
            let step = book.single_input(&event, now);
            match step.frame {
                Some(frame) => {
                    proof {
                        lemma_frames_of_push(frames@, frame);
                        assert(frames_of(frames@).push(ops_of(frame@)) + book@.frames(
                            rest.drop_first(),
                        ) =~= frames_of(frames@) + (seq![ops_of(frame@)] + book@.frames(
                            rest.drop_first(),
                        )));
                    }
                    frames.push(frame);
                },
                None => {},
            }
            taken = taken + 1;
            assert(start.frames(events@) == frames_of(frames@) + book@.frames(
                events@.skip(taken as int),
            ));
            match step.command {
                Some(SingleCommand::Quit) => {
                    proof {
                        law_stopped_run_is_silent(book@, events@.skip(taken as int));
                        assert(frames_of(frames@) + Seq::<Seq<DrawOp>>::empty() =~= frames_of(
                            frames@,
                        ));
                    }
                    return frames;
                },
                _ => {},
            }
        }
        proof {
            assert(frames_of(frames@) + Seq::<Seq<DrawOp>>::empty() =~= frames_of(frames@));
        }
        frames
    }
}

/// A frame added at the end of a list adds its writes at the end.
proof fn lemma_frames_of_push(frames: Seq<Vec<DrawCall>>, frame: Vec<DrawCall>)
    ensures
        frames_of(frames.push(frame)) == frames_of(frames).push(ops_of(frame@)),
{
    assert(frames_of(frames.push(frame)) =~= frames_of(frames).push(ops_of(frame@)));
}

} // verus!
