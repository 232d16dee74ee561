//! A one-shot countdown timer advanced by wall-clock deltas each tick.
//!
//! The timer is edge-triggered: `tick` reports `true` exactly on the tick
//! during which the accumulated time first reaches the configured duration,
//! and never again afterwards, however the elapsed time is split into deltas.

use vstd::prelude::*;

verus! {

/// A one-shot countdown timer.  Elapsed time saturates at the duration.
#[derive(Clone, Copy, Debug)]
pub struct CountdownTimer {
    /// The configured duration in milliseconds.
    pub duration_ms: u64,
    /// The time accumulated so far, always at most `duration_ms`.
    pub elapsed_ms: u64,
}

impl CountdownTimer {
    /// The timer's internal consistency condition.
    pub open spec fn wf(self) -> bool {
        self.elapsed_ms <= self.duration_ms
    }

    /// Whether the timer has run to completion.
    pub open spec fn spec_finished(self) -> bool {
        self.elapsed_ms >= self.duration_ms
    }

    /// The elapsed time after feeding one delta: it saturates at the duration.
    pub open spec fn spec_elapsed_after(self, delta_ms: u64) -> u64 {
        if self.elapsed_ms + delta_ms >= self.duration_ms {
            self.duration_ms
        } else {
            (self.elapsed_ms + delta_ms) as u64
        }
    }

    /// The timer state after feeding one delta.
    pub open spec fn spec_tick(self, delta_ms: u64) -> CountdownTimer {
        CountdownTimer { duration_ms: self.duration_ms, elapsed_ms: self.spec_elapsed_after(delta_ms) }
    }

    /// Whether feeding one delta makes the timer finish on exactly that tick.
    pub open spec fn spec_fires(self, delta_ms: u64) -> bool {
        !self.spec_finished() && self.elapsed_ms + delta_ms >= self.duration_ms
    }

    /// Creates a fresh timer that will run for `duration_ms`.  A duration is
    /// always positive: a timer born finished could never fire.
    pub fn new(duration_ms: u64) -> (r: CountdownTimer)
        requires
            duration_ms > 0,
        ensures
            r.wf(),
            r.duration_ms == duration_ms,
            r.elapsed_ms == 0,
    {
        CountdownTimer { duration_ms, elapsed_ms: 0 }
    }

    /// Whether the timer has run to completion.
    pub fn finished(&self) -> (r: bool)
        ensures
            r == self.spec_finished(),
    {
        self.elapsed_ms >= self.duration_ms
    }

    /// The time left before the timer finishes.
    pub fn remaining_ms(&self) -> (r: u64)
        requires
            self.wf(),
        ensures
            r == self.duration_ms - self.elapsed_ms,
    {
        self.duration_ms - self.elapsed_ms
    }

    /// The configured duration of this timer.
    pub fn duration_ms(&self) -> (r: u64)
        ensures
            r == self.duration_ms,
    {
        self.duration_ms
    }

    /// Advances the timer by `delta_ms`, reporting whether it finished on
    /// exactly this tick.  Once finished, a timer never reports `true` again.
    pub fn tick(&mut self, delta_ms: u64) -> (just_finished: bool)
        requires
            old(self).wf(),
        ensures
            final(self).wf(),
            *final(self) == old(self).spec_tick(delta_ms),
            just_finished == old(self).spec_fires(delta_ms),
    {
        let was_finished = self.elapsed_ms >= self.duration_ms;
        if delta_ms >= self.duration_ms - self.elapsed_ms {
            self.elapsed_ms = self.duration_ms;
        } else {
            self.elapsed_ms = self.elapsed_ms + delta_ms;
        }
        !was_finished && self.elapsed_ms >= self.duration_ms
    }
}

/// How many ticks of the delta sequence report `just_finished`.
pub open spec fn fire_count(t: CountdownTimer, deltas: Seq<u64>) -> int
    decreases deltas.len(),
{
    if deltas.len() == 0 {
        0
    } else {
        (if t.spec_fires(deltas[0]) { 1int } else { 0int })
            + fire_count(t.spec_tick(deltas[0]), deltas.skip(1))
    }
}

/// The sum of a sequence of deltas.
pub open spec fn delta_sum(deltas: Seq<u64>) -> int
    decreases deltas.len(),
{
    if deltas.len() == 0 {
        0
    } else {
        deltas[0] + delta_sum(deltas.skip(1))
    }
}

/// A finished timer never fires again, whatever deltas it is fed.
pub proof fn lemma_finished_never_fires(t: CountdownTimer, deltas: Seq<u64>)
    requires
        t.spec_finished(),
    ensures
        fire_count(t, deltas) == 0,
    decreases deltas.len(),
{
    if deltas.len() > 0 {
        lemma_finished_never_fires(t.spec_tick(deltas[0]), deltas.skip(1));
    }
}

/// However the elapsed wall-clock time is split into per-tick deltas, a timer
/// finishes at most once, and exactly once whenever the deltas add up to at
/// least the time it still had to run.
pub proof fn lemma_fires_exactly_once(t: CountdownTimer, deltas: Seq<u64>)
    requires
        t.wf(),
        !t.spec_finished(),
    ensures
        fire_count(t, deltas) <= 1,
        delta_sum(deltas) >= t.duration_ms - t.elapsed_ms ==> fire_count(t, deltas) == 1,
    decreases deltas.len(),
{
    if deltas.len() > 0 {
        let t2 = t.spec_tick(deltas[0]);
        if t.spec_fires(deltas[0]) {
            lemma_finished_never_fires(t2, deltas.skip(1));
        } else {
            lemma_fires_exactly_once(t2, deltas.skip(1));
        }
    }
}

} // verus!
