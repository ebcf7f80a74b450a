//! The sweeper that removes expired clips: what it decides on each event.
//! Which clips a sweep removes is stated with the storage queries.

use vstd::prelude::*;

verus! {

/// The seconds between two sweeps.
pub const SWEEP_INTERVAL_SECS: u64 = 10;

/// What the sweeper is told.
#[derive(Clone, Copy, Debug, PartialEq, Eq)]
pub enum SweepEvent {
    /// The timer has ticked.
    Tick,
    /// The sweep that was asked for is over: it removed this many clips, or
    /// it failed (`None`).
    Swept(Option<u64>),
}

/// What the sweeper does next.
#[derive(Clone, Copy, Debug, PartialEq, Eq)]
pub enum SweepAction {
    /// Delete the expired clips, then report the result.
    DeleteExpired,
    /// Wait for the next tick of the timer, whose period is this many seconds.
    AwaitTick(u64),
}

/// Whether a sweep is under way after `event`, given whether one was before.
pub open spec fn sweeping_after(sweeping: bool, event: SweepEvent) -> bool {
    event is Tick
}

/// What the sweeper does on `event`, given whether a sweep is under way.
pub open spec fn action_on(sweeping: bool, event: SweepEvent) -> SweepAction {
    if event is Tick && !sweeping {
        SweepAction::DeleteExpired
    } else {
        SweepAction::AwaitTick(SWEEP_INTERVAL_SECS)
    }
}

/// Whether a sweep is under way after all of `events`, when none was at
/// first.
pub open spec fn sweeping_after_all(events: Seq<SweepEvent>) -> bool
    decreases events.len(),
{
    if events.len() == 0 {
        false
    } else {
        sweeping_after(sweeping_after_all(events.drop_last()), events.last())
    }
}

/// What a sweeper that starts at rest does on the event at position `i` of
/// `events`.
pub open spec fn action_at(events: Seq<SweepEvent>, i: int) -> SweepAction {
    action_on(sweeping_after_all(events.take(i)), events[i])
}

/// Sweeps never overlap: between two sweeps that the sweeper asks for, the
/// first has been reported as over.
pub proof fn lemma_sweeps_never_overlap(events: Seq<SweepEvent>, i: int, j: int)
    requires
        0 <= i < j < events.len(),
        action_at(events, i) is DeleteExpired,
        action_at(events, j) is DeleteExpired,
    ensures
        exists|k: int| i < k < j && (#[trigger] events[k]) is Swept,
{
    let before = events.take(j);
    assert(before.len() == j);
    assert(!sweeping_after_all(before));
    assert(before.last() == events[j - 1]);
    assert(events[j - 1] is Swept);
    assert(events[i] is Tick);
    assert(i < j - 1);
}

/// The sweeper that removes expired clips in the background. It knows
/// whether a sweep that it asked for is still under way.
#[derive(Clone, Copy, Debug, PartialEq, Eq)]
pub struct Maintenance {
    sweeping: bool,
}

impl View for Maintenance {
    type V = bool;

    closed spec fn view(&self) -> bool {
        self.sweeping
    }
}

impl Maintenance {
    /// A sweeper at rest.
    pub fn new() -> (sweeper: Maintenance)
        ensures
            !sweeper@,
    {
        Maintenance { sweeping: false }
    }

    /// The sweeper's next action. A tick asks for one sweep, unless one is
    /// under way: then the tick is passed over. After a sweep, whether it
    /// removed anything, nothing, or failed, the sweeper waits for the next
    /// tick.
    pub fn on_event(&mut self, event: SweepEvent) -> (action: SweepAction)
        ensures
            action == action_on(old(self)@, event),
            final(self)@ == sweeping_after(old(self)@, event),
    {
        match event {
            SweepEvent::Tick => {
                if self.sweeping {
                    SweepAction::AwaitTick(SWEEP_INTERVAL_SECS)
                } else {
                    self.sweeping = true;
                    SweepAction::DeleteExpired
                }
            },
            SweepEvent::Swept(_) => {
                self.sweeping = false;
                SweepAction::AwaitTick(SWEEP_INTERVAL_SECS)
            },
        }
    }
}

} // verus!
