//! The server's logical clock.
//!
//! The clock is a plain counter behind exclusive access: whoever holds the
//! `&mut` is the only one advancing it, so every step is atomic by
//! construction and the order of steps is the order of calls.

use vstd::prelude::*;

verus! {

/// A Lamport clock: a counter that advances by one on every local event
/// and jumps past any larger value it is shown.
#[derive(Debug)]
pub struct LamportClock {
    value: u64,
    node_id: u32,
}

/// The clock value after a tick at `value`.
pub open spec fn ticked(value: u64) -> u64 {
    if value == u64::MAX {
        0
    } else {
        (value + 1) as u64
    }
}

/// The larger of the received and the current value, plus one.
pub open spec fn merged(current: u64, received: u64) -> int {
    if received > current {
        received + 1
    } else {
        current + 1
    }
}

impl LamportClock {
    /// The clock's current value.
    pub closed spec fn value(&self) -> u64 {
        self.value
    }

    /// The id of the node that owns the clock.
    pub closed spec fn node(&self) -> u32 {
        self.node_id
    }

    /// A clock for a server without history: it starts at 1.
    pub fn new(node_id: u32) -> (clock: LamportClock)
        ensures
            clock.value() == 1,
            clock.node() == node_id,
    {
        LamportClock { value: 1, node_id }
    }

    /// A clock that resumes at `initial_value`.
    pub fn with_initial_value(node_id: u32, initial_value: u64) -> (clock: LamportClock)
        ensures
            clock.value() == initial_value,
            clock.node() == node_id,
    {
        LamportClock { value: initial_value, node_id }
    }

    /// Returns the current value and advances the clock by one. At the
    /// largest value the counter wraps to zero.
    pub fn tick(&mut self) -> (t: u64)
        ensures
            t == old(self).value(),
            final(self).value() == ticked(old(self).value()),
            final(self).node() == old(self).node(),
    {
        let t = self.value;
        self.value = if t == u64::MAX {
            0
        } else {
            t + 1
        };
        t
    }

    /// Shows the clock a value received from a client: the clock moves to
    /// the larger of the two, plus one, and returns its new value.
    pub fn update(&mut self, received_clock: u64) -> (now: u64)
        requires
            merged(old(self).value(), received_clock) <= u64::MAX,
        ensures
            now == merged(old(self).value(), received_clock),
            final(self).value() == now,
            final(self).node() == old(self).node(),
    {
        let current = self.value;
        let new_value = if received_clock > current {
            received_clock + 1
        } else {
            current + 1
        };
        self.value = new_value;
        new_value
    }

    /// Reads the clock without advancing it.
    pub fn current(&self) -> (now: u64)
        ensures
            now == self.value(),
    {
        self.value
    }

    /// The id of the node that owns the clock.
    pub fn node_id(&self) -> (id: u32)
        ensures
            id == self.node(),
    {
        self.node_id
    }
}

/// Of two ticks, the earlier returns the smaller value, however many ticks
/// and updates lie between them: a tick returns the value it found, every
/// step leaves a larger value behind, and so the later tick finds more.
pub proof fn lemma_ticks_increase(first: u64, between: Seq<Option<u64>>)
    requires
        steps_fit(ticked(first), between),
        first < u64::MAX,
    ensures
        first < after_steps(ticked(first), between),
{
    lemma_steps_grow(ticked(first), between);
}

/// The clock value after a run of steps: `None` is a tick, `Some(c)` an
/// update that shows the clock the value `c`.
pub open spec fn after_steps(value: u64, steps: Seq<Option<u64>>) -> u64
    decreases steps.len(),
{
    if steps.len() == 0 {
        value
    } else {
        let next = match steps[0] {
            None => ticked(value),
            Some(received) => merged(value, received) as u64,
        };
        after_steps(next, steps.drop_first())
    }
}

/// Whether the counter has room for every step of the run.
pub open spec fn steps_fit(value: u64, steps: Seq<Option<u64>>) -> bool
    decreases steps.len(),
{
    if steps.len() == 0 {
        true
    } else {
        match steps[0] {
            None => value < u64::MAX && steps_fit(ticked(value), steps.drop_first()),
            Some(received) => merged(value, received) <= u64::MAX && steps_fit(
                merged(value, received) as u64,
                steps.drop_first(),
            ),
        }
    }
}

/// A run of steps never moves the clock back: every step moves it forward
/// by one at least, so that after a run of `n` steps, whoever made them and
/// in whatever order, the clock has advanced by `n` or more.
pub proof fn lemma_steps_grow(value: u64, steps: Seq<Option<u64>>)
    requires
        steps_fit(value, steps),
    ensures
        value <= after_steps(value, steps),
        steps.len() > 0 ==> value < after_steps(value, steps),
        after_steps(value, steps) >= value + steps.len(),
    decreases steps.len(),
{
    if steps.len() > 0 {
        let next = match steps[0] {
            None => ticked(value),
            Some(received) => merged(value, received) as u64,
        };
        lemma_steps_grow(next, steps.drop_first());
    }
}

} // verus!
