//! What a grid holds, and what each event does to it.

use vstd::prelude::*;
use crate::cell::{CellView, GameCommand, RESET_DELAY};
use crate::dispatch::{command_of, PointerTriggers, SingleCommand};
use crate::draw::{frame_ops, DrawOp};
use crate::event::{Event, Key};
use crate::geometry::Size;

verus! {

/// What switching a cell means.
#[derive(Debug, Clone, Copy, PartialEq, Eq, Structural)]
pub enum TogglePolicy {
    /// The cell goes on with a timer, and a sweep switches it off again.
    Timed,
    /// The cell goes on and stays on.
    Permanent,
}

/// The choices that the rules leave open.
#[derive(Debug, Clone, Copy, PartialEq, Eq, Structural)]
pub struct Policy {
    pub toggle: TogglePolicy,
    pub triggers: PointerTriggers,
}

impl Policy {
    /// The policy of a grid that is made without one: cells go on with a
    /// timer, and only the left button going down switches one.
    pub open spec fn standard() -> Policy {
        Policy {
            toggle: TogglePolicy::Timed,
            triggers: PointerTriggers { moved: false, pressed: true, released: false },
        }
    }
}

impl Default for Policy {
    fn default() -> (policy: Self)
        ensures
            policy == Policy::standard(),
    {
        Policy { toggle: TogglePolicy::Timed, triggers: PointerTriggers::press_only() }
    }
}

/// Whether the loop still takes events.
#[derive(Debug, Clone, Copy, PartialEq, Eq, Structural)]
pub enum LoopState {
    Running,
    /// The end: no event changes anything any more.
    Stopped,
}

/// What a grid with its loop holds. `cells[col][row]` is the cell in column
/// `col` and row `row`.
pub struct BookView {
    pub dimensions: Size,
    pub cells: Seq<Seq<CellView>>,
    pub policy: Policy,
    pub state: LoopState,
}

impl BookView {
    /// There are `width` columns of `height` cells each, and every cell is
    /// well formed.
    pub open spec fn wf(self) -> bool {
        &&& self.cells.len() == self.dimensions.width
        &&& forall|col: int|
            0 <= col < self.cells.len() ==> (#[trigger] self.cells[col]).len()
                == self.dimensions.height
        &&& forall|col: int, row: int|
            self.holds(col, row) ==> (#[trigger] self.cells[col][row]).wf()
    }

    /// Whether the grid has a cell in this column and row.
    pub open spec fn holds(self, col: int, row: int) -> bool {
        0 <= col < self.dimensions.width && 0 <= row < self.dimensions.height
    }

    /// A new grid: every cell off and without a timer, the loop running.
    pub open spec fn fresh(dimensions: Size, policy: Policy) -> BookView {
        BookView {
            dimensions,
            cells: Seq::new(
                dimensions.width as nat,
                |col: int|
                    Seq::new(
                        dimensions.height as nat,
                        |row: int|
                            CellView {
                                point: Size { width: col as usize, height: row as usize },
                                timer: None,
                                command: GameCommand::Off,
                            },
                    ),
            ),
            policy,
            state: LoopState::Running,
        }
    }

    /// The writes that draw the grid with the top left corner of its border
    /// at column `x` of row `y`.
    pub open spec fn frame(self, x: int, y: int) -> Seq<DrawOp> {
        frame_ops(self.cells, self.dimensions, x, y)
    }

    /// Whether the grid can be drawn with its border in the top left corner
    /// of the screen: every column and row that is written to, and the
    /// column after the border, is a coordinate.
    pub open spec fn fits_screen(self) -> bool {
        self.dimensions.width + 2 <= i32::MAX && self.dimensions.height + 1 <= i32::MAX
    }

    /// The grid after a sweep at `now`: every cell swept.
    pub open spec fn swept(self, now: u64) -> BookView {
        BookView {
            dimensions: self.dimensions,
            cells: Seq::new(
                self.cells.len(),
                |col: int|
                    Seq::new(self.cells[col].len(), |row: int| self.cells[col][row].swept(now)),
            ),
            policy: self.policy,
            state: self.state,
        }
    }

    /// A cell switched at `now`, as the policy has it.
    pub open spec fn switched_cell(self, cell: CellView, now: u64) -> CellView {
        match self.policy.toggle {
            TogglePolicy::Timed => cell.activated(now),
            TogglePolicy::Permanent => cell.activated_permanently(),
        }
    }

    /// The grid with `cell` in column `col` and row `row`, and every other
    /// cell as it was.
    pub open spec fn with_cell(self, col: int, row: int, cell: CellView) -> BookView {
        BookView {
            dimensions: self.dimensions,
            cells: self.cells.update(col, self.cells[col].update(row, cell)),
            policy: self.policy,
            state: self.state,
        }
    }

    /// The grid with the cell in column `col` and row `row` switched at
    /// `now`, and every other cell as it was.
    pub open spec fn switched(self, col: int, row: int, now: u64) -> BookView {
        self.with_cell(col, row, self.switched_cell(self.cells[col][row], now))
    }

    /// The grid with its loop at the end.
    pub open spec fn stopped(self) -> BookView {
        BookView {
            dimensions: self.dimensions,
            cells: self.cells,
            policy: self.policy,
            state: LoopState::Stopped,
        }
    }

    /// The command that the loop carries out for an event: that of the
    /// event while the loop runs, none once it has stopped.
    pub open spec fn command(self, event: Event) -> Option<SingleCommand> {
        if self.state == LoopState::Stopped {
            None
        } else {
            command_of(event, self.dimensions, self.policy.triggers)
        }
    }

    /// The grid after one event that arrives at `now`.
    ///
    /// While the loop runs, a frame tick sweeps the grid, a switch switches
    /// its cell, a quit stops the loop, and any other event changes nothing.
    /// Once the loop has stopped no event changes anything.
    pub open spec fn next(self, event: Event, now: u64) -> BookView {
        if self.state == LoopState::Stopped {
            self
        } else if event == Event::Frame {
            self.swept(now)
        } else {
            match self.command(event) {
                Some(SingleCommand::Switch { col, row }) => self.switched(col as int, row as int, now),
                Some(SingleCommand::Quit) => self.stopped(),
                None => self,
            }
        }
    }

    /// The frame that one event at `now` has drawn, if it has one drawn: a
    /// frame tick while the loop runs draws the grid as it is after the
    /// sweep, with its border in the top left corner of the screen.
    pub open spec fn rendered(self, event: Event, now: u64) -> Option<Seq<DrawOp>> {
        if self.state == LoopState::Running && event == Event::Frame {
            Some(self.swept(now).frame(0, 0))
        } else {
            None
        }
    }

    /// The grid after a run of events, each with the time at which it
    /// arrives.
    pub open spec fn after(self, events: Seq<(Event, u64)>) -> BookView
        decreases events.len(),
    {
        if events.len() == 0 {
            self
        } else {
            self.next(events[0].0, events[0].1).after(events.drop_first())
        }
    }

    /// The frames that a run of events has drawn, in order.
    pub open spec fn frames(self, events: Seq<(Event, u64)>) -> Seq<Seq<DrawOp>>
        decreases events.len(),
    {
        if events.len() == 0 {
            Seq::empty()
        } else {
            let rest = self.next(events[0].0, events[0].1).frames(events.drop_first());
            match self.rendered(events[0].0, events[0].1) {
                Some(frame) => seq![frame] + rest,
                None => rest,
            }
        }
    }
}

/// Whether an event is the quit key, the letter q, small or capital.
pub open spec fn is_quit(event: Event) -> bool {
    event == Event::Key(Key::Char('q')) || event == Event::Key(Key::Char('Q'))
}

/// No event breaks a grid: after any event a well formed grid is well
/// formed, and has the dimensions and the policy that it had.
pub proof fn law_next_keeps_grid(book: BookView, event: Event, now: u64)
    requires
        book.wf(),
    ensures
        book.next(event, now).wf(),
        book.next(event, now).dimensions == book.dimensions,
        book.next(event, now).policy == book.policy,
{
    let after = book.next(event, now);
    if book.state == LoopState::Running && event != Event::Frame {
        if let Some(SingleCommand::Switch { col, row }) = book.command(event) {
            assert(book.holds(col as int, row as int));
            assert(book.switched_cell(book.cells[col as int][row as int], now).wf());
            assert forall|c: int, r: int| after.holds(c, r) implies (
            #[trigger] after.cells[c][r]).wf() by {
                assert(book.cells[c][r].wf());
            }
        }
    }
    if book.state == LoopState::Running && event == Event::Frame {
        assert forall|c: int, r: int| after.holds(c, r) implies (#[trigger] after.cells[c][r]).wf() by {
            assert(book.cells[c][r].wf());
        }
    }
}

/// Under the timed policy a cell that was switched at `since` shows as on
/// after a sweep of the grid at any time before `since + RESET_DELAY`, and
/// as off after a sweep at any time from then on. No other cell is touched
/// by the switch.
pub proof fn law_switched_cell_resets(book: BookView, col: int, row: int, since: u64, now: u64)
    requires
        book.wf(),
        book.holds(col, row),
        book.policy.toggle == TogglePolicy::Timed,
    ensures
        book.switched(col, row, since).wf(),
        now < since + RESET_DELAY ==> book.switched(col, row, since).swept(now).cells[col][row].command
            == GameCommand::On,
        now >= since + RESET_DELAY ==> book.switched(col, row, since).swept(
            now,
        ).cells[col][row].command == GameCommand::Off,
        forall|c: int, r: int|
            book.holds(c, r) && (c != col || r != row) ==> #[trigger] book.switched(
                col,
                row,
                since,
            ).cells[c][r] == book.cells[c][r],
{
    let after = book.switched(col, row, since);
    assert forall|c: int, r: int| after.holds(c, r) implies (#[trigger] after.cells[c][r]).wf() by {
        assert(book.cells[c][r].wf());
    }
}

/// Under the permanent policy a cell that was switched shows as on after
/// every sweep.
pub proof fn law_switched_cell_stays(book: BookView, col: int, row: int, since: u64, now: u64)
    requires
        book.wf(),
        book.holds(col, row),
        book.policy.toggle == TogglePolicy::Permanent,
    ensures
        book.switched(col, row, since).swept(now).cells[col][row].command == GameCommand::On,
{
}

/// Two sweeps of the grid, the second no earlier than the first, leave what
/// the second alone leaves.
pub proof fn law_sweep_all_idempotent(book: BookView, first: u64, second: u64)
    requires
        first <= second,
    ensures
        book.swept(first).swept(second) == book.swept(second),
        book.swept(first).swept(first) == book.swept(first),
{
    assert(book.swept(first).swept(second).cells =~~= book.swept(second).cells);
    assert(book.swept(first).swept(first).cells =~~= book.swept(first).cells);
}

/// The quit key stops the loop, whatever state it is in and whatever the
/// grid holds, and changes nothing else.
pub proof fn law_quit_stops(book: BookView, event: Event, now: u64)
    requires
        is_quit(event),
    ensures
        book.next(event, now) == book.stopped(),
        book.next(event, now).state == LoopState::Stopped,
        book.rendered(event, now) is None,
{
}

/// Once the loop has stopped it stays stopped: no event changes the grid,
/// none is carried out, and none has a frame drawn.
pub proof fn law_stopped_is_final(book: BookView, event: Event, now: u64)
    requires
        book.state == LoopState::Stopped,
    ensures
        book.next(event, now) == book,
        book.command(event) is None,
        book.rendered(event, now) is None,
{
}

/// A frame is drawn for a frame tick while the loop runs, and for nothing
/// else.
pub proof fn law_frames_follow_ticks(book: BookView, event: Event, now: u64)
    ensures
        book.rendered(event, now) is Some <==> book.state == LoopState::Running && event
            == Event::Frame,
{
}

/// A stopped loop draws nothing and changes nothing, however many events
/// follow.
pub proof fn law_stopped_run_is_silent(book: BookView, events: Seq<(Event, u64)>)
    requires
        book.state == LoopState::Stopped,
    ensures
        book.after(events) == book,
        book.frames(events) == Seq::<Seq<DrawOp>>::empty(),
    decreases events.len(),
{
    if events.len() > 0 {
        law_stopped_run_is_silent(book, events.drop_first());
    }
}

/// A run of events can be cut in two: the second part goes on from the grid
/// that the first part left, and the frames of the whole run are those of
/// the first part followed by those of the second.
pub proof fn law_run_splits(book: BookView, events: Seq<(Event, u64)>, at: int)
    requires
        0 <= at <= events.len(),
    ensures
        book.after(events) == book.after(events.take(at)).after(events.skip(at)),
        book.frames(events) == book.frames(events.take(at)) + book.after(events.take(at)).frames(
            events.skip(at),
        ),
    decreases at,
{
    if at == 0 {
        assert(events.skip(0) =~= events);
        assert(events.take(0) =~= Seq::<(Event, u64)>::empty());
        assert(book.frames(events.take(0)) =~= Seq::<Seq<DrawOp>>::empty());
        assert(Seq::<Seq<DrawOp>>::empty() + book.frames(events) =~= book.frames(events));
    } else {
        let first = book.next(events[0].0, events[0].1);
        let rest = events.drop_first();
        law_run_splits(first, rest, at - 1);
        assert(events.take(at).drop_first() =~= rest.take(at - 1));
        assert(events.skip(at) =~= rest.skip(at - 1));
        assert(events.take(at)[0] == events[0]);
        let head = first.frames(rest.take(at - 1));
        let tail = first.after(rest.take(at - 1)).frames(rest.skip(at - 1));
        match book.rendered(events[0].0, events[0].1) {
            Some(frame) => {
                assert(seq![frame] + (head + tail) =~= (seq![frame] + head) + tail);
            },
            None => {},
        }
    }
}

/// The frame of a frame tick shows the grid as every event before the tick
/// has left it, swept at the time of the tick: it is the next frame after
/// those of the events before it.
pub proof fn law_tick_draws_grid_so_far(book: BookView, events: Seq<(Event, u64)>, at: int)
    requires
        0 <= at < events.len(),
        events[at].0 == Event::Frame,
        book.after(events.take(at)).state == LoopState::Running,
    ensures
        book.frames(events.take(at + 1)) == book.frames(events.take(at)).push(
            book.after(events.take(at)).swept(events[at].1).frame(0, 0),
        ),
        book.frames(events).len() > book.frames(events.take(at)).len(),
        book.frames(events)[book.frames(events.take(at)).len() as int] == book.after(
            events.take(at),
        ).swept(events[at].1).frame(0, 0),
{
    let before = book.after(events.take(at));
    let frame = before.swept(events[at].1).frame(0, 0);
    let upto = events.take(at + 1);
    law_run_splits(book, upto, at);
    assert(upto.take(at) =~= events.take(at));
    assert(upto.skip(at) =~= seq![events[at]]);
    assert(seq![events[at]].drop_first() =~= Seq::<(Event, u64)>::empty());
    assert(before.frames(seq![events[at]]) =~= seq![frame]) by {
        reveal_with_fuel(BookView::frames, 2);
    }
    assert(book.frames(events.take(at)) + seq![frame] =~= book.frames(events.take(at)).push(frame));
    law_run_splits(book, events, at + 1);
}

/// After the quit key nothing more is drawn: the frames of a run that holds
/// the quit key are the frames of the events before it, and the run ends
/// with the loop stopped.
pub proof fn law_quit_ends_run(book: BookView, events: Seq<(Event, u64)>, at: int)
    requires
        0 <= at < events.len(),
        is_quit(events[at].0),
    ensures
        book.frames(events) == book.frames(events.take(at)),
        book.after(events).state == LoopState::Stopped,
        book.after(events) == book.after(events.take(at)).stopped(),
{
    let before = book.after(events.take(at));
    let quit = events.skip(at);
    law_run_splits(book, events, at);
    assert(quit[0] == events[at]);
    law_quit_stops(before, quit[0].0, quit[0].1);
    law_stopped_run_is_silent(before.stopped(), quit.drop_first());
    assert(before.frames(quit) =~= Seq::<Seq<DrawOp>>::empty());
    assert(book.frames(events.take(at)) + Seq::<Seq<DrawOp>>::empty() =~= book.frames(
        events.take(at),
    ));
}

} // verus!
