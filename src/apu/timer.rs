//! A channel frequency timer: counts down and reloads on expiry.
use vstd::prelude::*;

verus! {

pub struct Timer {
    pub counter: u16,
}

impl Timer {
    pub fn new(reload: u16) -> (r: Self)
        ensures
            r.counter == reload,
    {
        Timer { counter: reload }
    }

    /// Counts down one clock; on reaching 0 reloads and reports an expiry.
    pub fn clock(&mut self, reload: u16) -> (r: bool)
        ensures
            r == (old(self).counter == 1),
            final(self).counter == (if old(self).counter == 1 {
                reload as int
            } else {
                (old(self).counter + 65535) % 65536
            }),
    {
        self.counter = self.counter.wrapping_sub(1);
        if self.counter == 0 {
            self.counter = reload;
            true
        } else {
            false
        }
    }

    pub fn reload(&mut self, reload: u16)
        ensures
            final(self).counter == reload,
    {
        self.counter = reload;
    }
}

} // verus!
