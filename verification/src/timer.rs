//! The animation timer: a repeating, fixed-period accumulator of frame time.

use vstd::prelude::*;

verus! {

/// A repeating timer. It accumulates the time of each frame and, whenever the
/// accumulated time reaches the period, starts over with what is left beyond
/// the last whole period. Times are in nanoseconds.
#[derive(Clone, Copy, Debug, PartialEq, Eq, Structural)]
pub struct AnimationTimer {
    pub elapsed: u64,
    pub period: u64,
}

impl AnimationTimer {
    /// The period is positive and the accumulated time is short of it.
    pub open spec fn wf(self) -> bool {
        self.elapsed < self.period
    }

    /// A frame of length `dt` brings the accumulated time up to the period.
    pub open spec fn completes(self, dt: u64) -> bool {
        self.elapsed + dt >= self.period
    }

    /// The timer after a frame of length `dt`.
    pub open spec fn ticked(self, dt: u64) -> AnimationTimer {
        AnimationTimer { elapsed: ((self.elapsed + dt) % (self.period as int)) as u64, period: self.period }
    }

    /// A timer of the given period that has accumulated nothing yet.
    pub fn new(period: u64) -> (timer: AnimationTimer)
        requires
            period > 0,
        ensures
            timer == (AnimationTimer { elapsed: 0, period }),
            timer.wf(),
    {
        AnimationTimer { elapsed: 0, period }
    }

    /// Accumulates a frame of length `dt` and says whether the timer
    /// completed a period on this frame.
    pub fn tick(&mut self, dt: u64) -> (finished: bool)
        requires
            old(self).period > 0,
        ensures
            *final(self) == old(self).ticked(dt),
            final(self).wf(),
            finished == old(self).completes(dt),
    {
        let total: u128 = self.elapsed as u128 + dt as u128;
        let period: u128 = self.period as u128;
        let finished = total >= period;
        self.elapsed = (total % period) as u64;
        finished
    }
}

} // verus!
