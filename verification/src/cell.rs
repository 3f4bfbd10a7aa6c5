//! One cell of the grid: on or off, and since when.

use vstd::prelude::*;
use crate::geometry::Size;

verus! {

/// How long a cell that was switched on with a timer stays on, in
/// milliseconds.
pub const RESET_DELAY: u64 = 2000;

/// What a cell shows.
#[derive(Debug, Clone, Copy, PartialEq, Eq, Structural)]
pub enum GameCommand {
    On,
    Off,
}

/// A cell of the grid.
///
/// Timestamps are milliseconds on a clock of the caller's that never runs
/// backwards.
#[derive(Debug, Clone, Copy)]
pub struct PlayBookCell {
    point: Size,
    timer: Option<u64>,
    command: GameCommand,
}

/// What a [`PlayBookCell`] holds.
pub struct CellView {
    /// The position the cell was made for, column in `width` and row in
    /// `height`. Nothing is addressed by it.
    pub point: Size,
    /// When the cell was switched on, if it was switched on with a timer.
    pub timer: Option<u64>,
    pub command: GameCommand,
}

impl GameCommand {
    /// The character that stands for this state on the screen.
    pub open spec fn glyph(self) -> char {
        match self {
            GameCommand::On => 'O',
            GameCommand::Off => '.',
        }
    }
}

impl CellView {
    /// Only a cell that is on carries a timer.
    pub open spec fn wf(self) -> bool {
        self.timer is Some ==> self.command == GameCommand::On
    }

    /// The moment from which a sweep switches the cell off, if there is one.
    pub open spec fn expires_at(self) -> Option<int> {
        match self.timer {
            Some(since) => Some(since + RESET_DELAY),
            None => None,
        }
    }

    /// Whether a sweep at `now` switches the cell off.
    pub open spec fn expired(self, now: u64) -> bool {
        self.expires_at() matches Some(at) && now >= at
    }

    /// The cell switched on at `now`, with a timer.
    pub open spec fn activated(self, now: u64) -> CellView {
        CellView { point: self.point, timer: Some(now), command: GameCommand::On }
    }

    /// The cell switched on for good.
    pub open spec fn activated_permanently(self) -> CellView {
        CellView { point: self.point, timer: None, command: GameCommand::On }
    }

    /// The cell switched off.
    pub open spec fn deactivated(self) -> CellView {
        CellView { point: self.point, timer: None, command: GameCommand::Off }
    }

    /// The cell after a sweep at `now`.
    pub open spec fn swept(self, now: u64) -> CellView {
        if self.expired(now) {
            self.deactivated()
        } else {
            self
        }
    }
}

impl View for PlayBookCell {
    type V = CellView;

    closed spec fn view(&self) -> CellView {
        CellView { point: self.point, timer: self.timer, command: self.command }
    }
}

impl PlayBookCell {
    /// A cell that is off and has no timer.
    pub fn new(point: Size) -> (cell: Self)
        ensures
            cell@ == (CellView { point, timer: None, command: GameCommand::Off }),
            cell@.wf(),
    {
        PlayBookCell { point, timer: None, command: GameCommand::Off }
    }

    /// What the cell shows.
    pub fn command(&self) -> (command: GameCommand)
        ensures
            command == self@.command,
    {
        self.command
    }

    /// When the cell was switched on, if it was switched on with a timer.
    pub fn timer(&self) -> (timer: Option<u64>)
        ensures
            timer == self@.timer,
    {
        self.timer
    }

    /// The position the cell was made for.
    pub fn point(&self) -> (point: Size)
        ensures
            point == self@.point,
    {
        self.point
    }

    /// Switches the cell on at `now`; a sweep switches it off again once
    /// [`RESET_DELAY`] has passed.
    pub fn action(&mut self, now: u64)
        ensures
            final(self)@ == old(self)@.activated(now),
            final(self)@.expires_at() == Some(now + RESET_DELAY),
            final(self)@.wf(),
    {
        self.timer = Some(now);
        self.command = GameCommand::On;
    }

    /// Switches the cell on for good: no sweep switches it off.
    pub fn activate_permanent(&mut self)
        ensures
            final(self)@ == old(self)@.activated_permanently(),
            final(self)@.expires_at() is None,
            final(self)@.wf(),
    {
        self.timer = None;
        self.command = GameCommand::On;
    }

    /// Switches the cell off and takes its timer away.
    pub fn deactivate(&mut self)
        ensures
            final(self)@ == old(self)@.deactivated(),
            final(self)@.wf(),
    {
        self.timer = None;
        self.command = GameCommand::Off;
    }

    /// The sweep: switches the cell off if its timer has run out at `now`,
    /// and leaves it alone if not.
    pub fn clear_setup(&mut self, now: u64)
        ensures
            final(self)@ == old(self)@.swept(now),
            old(self)@.wf() ==> final(self)@.wf(),
    {
        match self.timer {
            Some(since) => {
                if now >= since && now - since >= RESET_DELAY {
                    self.deactivate();
                }
            },
            None => {},
        }
    }
}

/// Every operation leaves a cell well formed: switching it on or off makes
/// it so, and a sweep keeps it so.
pub proof fn law_cell_stays_well_formed(cell: CellView, now: u64)
    ensures
        cell.activated(now).wf(),
        cell.activated_permanently().wf(),
        cell.deactivated().wf(),
        cell.wf() ==> cell.swept(now).wf(),
{
}

/// A cell that was switched on at `since` with a timer is left as it is, and
/// so on, by a sweep at any time before `since + RESET_DELAY`, and is
/// switched off by a sweep at any time from then on.
pub proof fn law_timed_reset(cell: CellView, since: u64, now: u64)
    ensures
        now < since + RESET_DELAY ==> cell.activated(since).swept(now) == cell.activated(since),
        now < since + RESET_DELAY ==> cell.activated(since).swept(now).command == GameCommand::On,
        now >= since + RESET_DELAY ==> cell.activated(since).swept(now) == cell.deactivated(),
        now >= since + RESET_DELAY ==> cell.activated(since).swept(now).command == GameCommand::Off,
{
}

/// A cell that was switched on for good is on after every sweep.
pub proof fn law_permanent_stays(cell: CellView, now: u64)
    ensures
        cell.activated_permanently().swept(now) == cell.activated_permanently(),
{
}

/// Two sweeps, the second no earlier than the first, leave what the second
/// alone leaves. Where the first one switches the cell off, the second finds
/// nothing to switch off and changes nothing.
pub proof fn law_sweep_idempotent(cell: CellView, first: u64, second: u64)
    requires
        first <= second,
    ensures
        cell.swept(first).swept(second) == cell.swept(second),
        cell.swept(first).swept(first) == cell.swept(first),
        cell.expired(first) ==> !cell.swept(first).expired(second),
        cell.expired(first) ==> cell.swept(first).swept(second) == cell.swept(first),
{
}

} // verus!
