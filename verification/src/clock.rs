//! The fixed-interval tick gate. Elapsed real time, in whatever integer unit
//! the caller chooses, is accumulated; once the accumulator crosses the
//! interval the clock fires a single logical tick and carries the excess.
//! It fires at most once per call, so under severe lag simulation time falls
//! behind wall-clock time rather than multiplying ticks into one call.

use vstd::prelude::*;

verus! {

/// A repeating timer gating tick-driven logic, independent of how often the
/// caller polls it.
#[derive(Clone, Copy, PartialEq, Eq, Structural, Debug)]
pub struct GameClock {
    /// Length of one tick, in the caller's time unit. Never zero.
    pub interval: u64,
    /// Elapsed time not yet spent on a fired tick.
    pub accumulated: u64,
}

impl GameClock {
    /// A zero interval would fire on every poll; the configuration must keep
    /// it positive.
    pub open spec fn wf(self) -> bool {
        self.interval > 0
    }

    /// Whether feeding `elapsed` more time units makes the clock fire.
    pub open spec fn fires(self, elapsed: u64) -> bool {
        self.accumulated + elapsed >= self.interval
    }

    /// A fresh clock that first fires once `interval` time units have passed.
    pub fn new(interval: u64) -> (r: GameClock)
        requires
            interval > 0,
        ensures
            r == (GameClock { interval, accumulated: 0 }),
            r.wf(),
    {
        GameClock { interval, accumulated: 0 }
    }

    /// Feed `elapsed` time units to the clock. Returns true exactly when an
    /// interval boundary is crossed, at most once per call; the excess time
    /// is carried into the accumulator rather than multiplied into further
    /// ticks.
    pub fn tick(&mut self, elapsed: u64) -> (fired: bool)
        requires
            old(self).wf(),
            old(self).accumulated + elapsed <= u64::MAX,
        ensures
            fired == old(self).fires(elapsed),
            final(self).interval == old(self).interval,
            final(self).accumulated == if fired {
                old(self).accumulated + elapsed - old(self).interval
            } else {
                old(self).accumulated + elapsed
            },
            final(self).wf(),
    {
        self.accumulated = self.accumulated + elapsed;
        if self.accumulated >= self.interval {
            self.accumulated = self.accumulated - self.interval;
            true
        } else {
            false
        }
    }
}

} // verus!
