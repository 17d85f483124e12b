//! A monotonic logical clock.
//!
//! The two store writes of the label write path are stamped from one shared
//! clock, so the order of the stamps reflects the order in which the writes
//! completed. The clock never goes backwards; once it reaches the largest
//! representable instant it stays there, so ticking needs no precondition.

use vstd::prelude::*;

verus! {

/// A monotonically non-decreasing counter handing out write timestamps.
pub struct LogicalClock {
    now: u64,
}

impl LogicalClock {
    /// The instant the next tick will return.
    pub closed spec fn current(self) -> u64 {
        self.now
    }

    /// A fresh clock starting at instant zero.
    pub fn new() -> (clock: LogicalClock)
        ensures
            clock.current() == 0,
    {
        LogicalClock { now: 0 }
    }

    /// Returns the current instant and advances the clock, saturating at the
    /// largest representable instant.
    pub fn tick(&mut self) -> (t: u64)
        ensures
            t == old(self).current(),
            final(self).current() == if old(self).current() < u64::MAX {
                old(self).current() + 1
            } else {
                old(self).current() as int
            },
            old(self).current() <= final(self).current(),
    {
        let t = self.now;
        if self.now < u64::MAX {
            self.now = self.now + 1;
        }
        t
    }
}

} // verus!
