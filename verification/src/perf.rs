//! Performance accounting data: the timing record a collector hands to the
//! aggregation side.
//!
//! Durations are carried as plain nanosecond counts; measuring them is the
//! runtime's business.

use vstd::prelude::*;

verus! {

/// One aggregated timing record: how long `iterations` runs of the named
/// section took together.
pub struct Timing {
    pub duration: u64,
    pub iterations: u32,
    pub name: String,
}

impl Timing {
    /// A record of `iterations` runs taking `duration` nanoseconds in all.
    pub fn new(duration: u64, iterations: u32, name: String) -> (r: Timing)
        ensures
            r.duration == duration,
            r.iterations == iterations,
            r.name == name,
    {
        Timing { duration, iterations, name }
    }

    /// The mean duration of one run, in nanoseconds.
    pub fn average(&self) -> (r: u64)
        requires
            self.iterations > 0,
        ensures
            r == self.duration as int / self.iterations as int,
    {
        self.duration / (self.iterations as u64)
    }
}

} // verus!
