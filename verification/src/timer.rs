//! The time source seen by the CLINT: it turns a monotonic microsecond
//! reading supplied by the host into the delta since its previous reading.

use vstd::prelude::*;

verus! {

pub struct Timer {
    pub last_us: u64,
}

impl Timer {
    pub fn new() -> (t: Timer)
        ensures
            t.last_us == 0,
    {
        Timer { last_us: 0 }
    }

    /// The microseconds elapsed since the previous call, given the host's
    /// current monotonic microsecond reading. A reading that went backwards
    /// counts as no elapsed time.
    pub fn as_micros(&mut self, now_us: u64) -> (delta: u64)
        ensures
            final(self).last_us == now_us,
            delta == if now_us >= old(self).last_us {
                now_us - old(self).last_us
            } else {
                0int
            },
    {
        let delta = if now_us >= self.last_us {
            now_us - self.last_us
        } else {
            0
        };
        self.last_us = now_us;
        delta
    }
}

impl Default for Timer {
    fn default() -> (t: Timer)
        ensures
            t.last_us == 0,
    {
        Timer::new()
    }
}

} // verus!
