//! Fixed-rate frame pacing for the render loop.
//!
//! The timer keeps an absolute deadline and advances it by whole periods, so
//! pacing never drifts: each tick's deadline is computed from the previous
//! deadline, not from the time the loop happened to resume. Time is carried
//! as nanoseconds on a monotonic clock read by the embedding, which also
//! does the actual sleeping until the returned deadline.

use vstd::prelude::*;

verus! {

/// A fixed-period deadline generator over a monotonic nanosecond clock.
pub struct Timer {
    /// The most recent tick deadline, in nanoseconds.
    pub last_tick: u64,
    /// The tick period, in nanoseconds.
    pub period: u64,
}

impl Timer {
    /// A timer whose first deadline will be one period after `now` (the
    /// embedding's current monotonic clock reading).
    pub fn new(now: u64, period: u64) -> (r: Timer)
        ensures
            r == (Timer { last_tick: now, period }),
    {
        Timer { last_tick: now, period }
    }

    /// Advances the deadline by `count` whole periods and returns it; the
    /// embedding sleeps until the returned instant.
    pub fn next_deadline(&mut self, count: u32) -> (r: u64)
        requires
            old(self).last_tick + old(self).period * count <= u64::MAX,
        ensures
            final(self).last_tick == old(self).last_tick + old(self).period * count,
            final(self).period == old(self).period,
            r == final(self).last_tick,
    {
        self.last_tick = self.last_tick + self.period * (count as u64);
        self.last_tick
    }
}

} // verus!
