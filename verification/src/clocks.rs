//! The shared monotonic tick counter ("colour clocks").

use vstd::prelude::*;

verus! {

pub type ClockType = u64;

/// One CPU cycle advances the clock by three colour clocks.
pub struct Clock {
    pub ticks: ClockType,
}

impl Clock {
    pub fn new() -> (r: Self)
        ensures
            r.ticks == 0,
    {
        Self { ticks: 0 }
    }

    /// Advances the counter, wrapping at 2^64.
    pub fn increment(&mut self, inc: u32)
        ensures
            final(self).ticks == (if old(self).ticks + inc <= u64::MAX {
                old(self).ticks + inc
            } else {
                old(self).ticks + inc - 0x1_0000_0000_0000_0000
            }),
    {
        self.ticks = self.ticks.wrapping_add(inc as u64);
    }
}

} // verus!
