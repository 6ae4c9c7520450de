//! Frame pacing: the deadline timer the io role uses to hold block rate
//! while no audio device is driving the loop.
//!
//! Time is carried as plain nanosecond counts; reading the clock, and
//! sleeping out the remainder, belong to the runtime around the library.

use vstd::prelude::*;

verus! {

/// A deadline one interval ahead of the clock: reset at the top of each
/// block, slept out at the bottom.
#[derive(Clone, Copy, Debug, PartialEq, Eq, Structural)]
pub struct Timer {
    pub instant: u64,
    pub interval: u64,
}

impl Timer {
    /// A timer whose first deadline stands one interval past `now`. Both
    /// are nanosecond counts against one clock.
    pub fn new(now: u64, interval: u64) -> (r: Timer)
        requires
            now + interval <= u64::MAX,
        ensures
            r.instant == now + interval,
            r.interval == interval,
    {
        Timer { instant: now + interval, interval }
    }

    /// Moves the deadline to one interval past `now`.
    pub fn reset(&mut self, now: u64)
        requires
            now + old(self).interval <= u64::MAX,
        ensures
            final(self).instant == now + old(self).interval,
            final(self).interval == old(self).interval,
    {
        self.instant = now + self.interval;
    }

    /// How long remains until the deadline — zero once it has passed —
    /// which is exactly how long the caller should sleep.
    pub fn remaining(&self, now: u64) -> (r: u64)
        ensures
            r == if now <= self.instant {
                self.instant - now
            } else {
                0
            },
    {
        if now <= self.instant {
            self.instant - now
        } else {
            0
        }
    }
}

} // verus!
