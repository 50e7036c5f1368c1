//! The Lamport clock of a node.

use vstd::prelude::*;

verus! {

/// The value of a clock after a local event.
pub open spec fn ticked(value: int) -> int {
    value + 1
}

/// The value of a clock after it has seen the logical time `remote` of a peer.
pub open spec fn observed(value: int, remote: int) -> int {
    if value >= remote {
        value + 1
    } else {
        remote + 1
    }
}

/// One call on a clock.
pub enum ClockCall {
    Tick,
    Observe(int),
}

/// The value of a clock that started at `start`, after `calls` in order.
pub open spec fn value_after(start: int, calls: Seq<ClockCall>) -> int
    decreases calls.len(),
{
    if calls.len() == 0 {
        start
    } else {
        let before = value_after(start, calls.drop_last());
        match calls.last() {
            ClockCall::Tick => ticked(before),
            ClockCall::Observe(remote) => observed(before, remote),
        }
    }
}

/// A monotonic logical counter, owned by one node and never reset.
#[derive(Debug)]
pub struct LamportClock {
    value: i64,
}

impl View for LamportClock {
    type V = int;

    closed spec fn view(&self) -> int {
        self.value as int
    }
}

impl LamportClock {
    /// A clock at zero.
    pub fn new() -> (clock: LamportClock)
        ensures
            clock@ == 0,
    {
        LamportClock { value: 0 }
    }

    /// A clock that resumes at `value`.
    pub fn starting_at(value: i64) -> (clock: LamportClock)
        ensures
            clock@ == value,
    {
        LamportClock { value }
    }

    /// The current logical time.
    pub fn value(&self) -> (value: i64)
        ensures
            value == self@,
    {
        self.value
    }

    /// Whether the counter has room for one more event.
    pub fn can_advance(&self) -> (room: bool)
        ensures
            room == (self@ < i64::MAX),
    {
        self.value < i64::MAX
    }

    /// Advances the clock for a local event and returns the new time.
    pub fn tick(&mut self) -> (now: i64)
        requires
            old(self)@ < i64::MAX,
        ensures
            final(self)@ == ticked(old(self)@),
            now == final(self)@,
    {
        self.value = self.value + 1;
        self.value
    }

    /// Moves the clock past both its own time and the time `remote` that a
    /// message carried, and returns the new time.
    pub fn observe(&mut self, remote: i64) -> (now: i64)
        requires
            old(self)@ < i64::MAX,
            remote < i64::MAX,
        ensures
            final(self)@ == observed(old(self)@, remote as int),
            now == final(self)@,
    {
        if self.value >= remote {
            self.value = self.value + 1;
        } else {
            self.value = remote + 1;
        }
        self.value
    }
}

/// Every call moves the clock strictly forward: after more calls of a run the
/// value is larger than after fewer.
pub proof fn lemma_clock_strictly_increases(start: int, calls: Seq<ClockCall>, i: int, j: int)
    requires
        0 <= i < j <= calls.len(),
    ensures
        value_after(start, calls.take(i)) < value_after(start, calls.take(j)),
    decreases j - i,
{
    let longer = calls.take(j);
    assert(longer.drop_last() == calls.take(j - 1));
    assert(value_after(start, calls.take(j - 1)) < value_after(start, longer));
    if i < j - 1 {
        lemma_clock_strictly_increases(start, calls, i, j - 1);
    }
}

/// What a clock shows after it has seen `remote` is later than `remote` and
/// later than what it showed before.
pub proof fn lemma_observe_exceeds_both(value: int, remote: int)
    ensures
        observed(value, remote) > remote,
        observed(value, remote) > value,
{
}

} // verus!
