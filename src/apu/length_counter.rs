//! A channel length counter: disables the channel when it runs out.
use vstd::prelude::*;

verus! {

pub struct LengthCounter {
    pub length: u16,
    pub enabled: bool,
}

impl LengthCounter {
    /// The counter after one length step.
    pub open spec fn clocked(self) -> LengthCounter {
        if self.enabled && self.length != 0 {
            LengthCounter { length: (self.length - 1) as u16, enabled: self.length != 1 }
        } else {
            self
        }
    }

    pub fn new() -> (r: Self)
        ensures
            r.length == 0 && !r.enabled,
    {
        LengthCounter { length: 0, enabled: false }
    }

    /// One length step: counts down while enabled and non-zero; reaching 0 turns
    /// the channel off.
    pub fn clock(&mut self)
        ensures
            *final(self) == old(self).clocked(),
    {
        if self.enabled && self.length != 0 {
            self.length = self.length - 1;
            if self.length == 0 {
                self.enabled = false;
            }
        }
    }

    pub fn reload(&mut self, value: u16)
        ensures
            final(self).length == value,
            final(self).enabled == old(self).enabled,
    {
        self.length = value;
    }

    /// Trigger: turns the channel on and refills an exhausted counter.
    pub fn enable(&mut self, reload: u16)
        ensures
            final(self).enabled,
            final(self).length == (if old(self).length == 0 { reload } else { old(self).length }),
    {
        self.enabled = true;
        if self.length == 0 {
            self.length = reload;
        }
    }

    pub fn enabled(&self) -> (r: bool)
        ensures
            r == self.enabled,
    {
        self.enabled
    }
}

} // verus!
