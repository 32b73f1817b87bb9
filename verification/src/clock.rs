//! A fixed-threshold tick clock.
//!
//! The clock accumulates elapsed time, supplied as non-negative integers in
//! any fixed resolution the caller picks (for example microseconds), against
//! a configured step interval. When the accumulated time reaches the
//! interval, one tick fires and the accumulator is reset to zero: any excess
//! beyond the threshold is discarded, not carried forward. A single call
//! never fires more than one tick, however large its sample. Conversion from
//! wall-clock seconds to integer units is the caller's business.

use vstd::prelude::*;

verus! {

/// Accumulates elapsed-time samples and emits at most one simulation tick
/// per sample once the configured interval has been reached.
pub struct SimulationClock {
    accumulated: u64,
    interval: u64,
}

/// Whether a sample of `delta` fires a tick, given the time already
/// accumulated and the configured interval.
pub open spec fn clock_fires(accumulated: u64, interval: u64, delta: u64) -> bool {
    accumulated + delta >= interval
}

/// The accumulator after a sample of `delta`: reset to zero on a tick
/// (discarding any excess beyond the interval), otherwise grown by `delta`.
pub open spec fn clock_next_acc(accumulated: u64, interval: u64, delta: u64) -> u64 {
    if clock_fires(accumulated, interval, delta) {
        0u64
    } else {
        (accumulated + delta) as u64
    }
}

impl SimulationClock {
    /// Time accumulated since the last tick.
    pub closed spec fn acc(&self) -> u64 {
        self.accumulated
    }

    /// The configured step interval, in the caller's time units.
    pub closed spec fn interval(&self) -> u64 {
        self.interval
    }

    /// The accumulator never reaches the interval between calls.
    pub open spec fn wf(&self) -> bool {
        &&& 1 <= self.interval()
        &&& self.acc() < self.interval()
    }

    /// A clock that fires one tick per `interval` units of elapsed time.
    pub fn new(interval: u64) -> (c: Self)
        requires
            1 <= interval,
        ensures
            c.wf(),
            c.interval() == interval,
            c.acc() == 0,
    {
        SimulationClock { accumulated: 0, interval }
    }

    /// Feed `delta` units of elapsed time into the clock; returns whether a
    /// tick fired. On a tick the accumulator is hard-reset to zero.
    pub fn advance(&mut self, delta: u64) -> (fired: bool)
        requires
            old(self).wf(),
        ensures
            final(self).wf(),
            final(self).interval() == old(self).interval(),
            fired == clock_fires(old(self).acc(), old(self).interval(), delta),
            final(self).acc() == clock_next_acc(old(self).acc(), old(self).interval(), delta),
    {
        if delta >= self.interval - self.accumulated {
            self.accumulated = 0;
            true
        } else {
            self.accumulated = self.accumulated + delta;
            false
        }
    }
}

/// Law: sampling half the interval at a time, starting from an empty
/// accumulator, fires a tick on exactly every second call: the first call
/// only accumulates, the second fires and resets.
pub proof fn lemma_half_interval_alternates(interval: u64, delta: u64)
    requires
        1 <= interval,
        delta < interval,
        interval <= 2 * delta,
    ensures
        !clock_fires(0, interval, delta),
        clock_next_acc(0, interval, delta) == delta,
        clock_fires(delta, interval, delta),
        clock_next_acc(delta, interval, delta) == 0,
{
}

/// Law: whenever a tick fires, the accumulator is reset to exactly zero, so
/// time beyond the threshold is discarded rather than carried into the next
/// tick, and no sample can fire more than once.
pub proof fn lemma_tick_discards_excess(accumulated: u64, interval: u64, delta: u64)
    requires
        clock_fires(accumulated, interval, delta),
    ensures
        clock_next_acc(accumulated, interval, delta) == 0,
{
}

} // verus!
