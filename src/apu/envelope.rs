//! A volume envelope: steps the volume up or down once per period, saturating at
//! 0 and 15.
use vstd::prelude::*;

verus! {

pub struct Envelope {
    /// Initial volume, 4 bits.
    pub reload: u8,
    pub inc: bool,
    /// Period, 3 bits.
    pub period: u8,
    pub volume: u8,
    pub counter: u8,
    pub done: bool,
}

impl Envelope {
    pub open spec fn wf(&self) -> bool {
        &&& self.reload < 16
        &&& self.period < 8
        &&& self.volume < 16
        &&& self.counter <= self.period
        &&& (self.period != 0 ==> self.counter != 0)
    }

    /// The envelope after one envelope step.
    pub open spec fn stepped(self) -> Envelope {
        if self.done || self.period == 0 {
            self
        } else if self.counter > 1 {
            Envelope { counter: (self.counter - 1) as u8, ..self }
        } else {
            Envelope {
                counter: self.period,
                volume: (if self.inc && self.volume < 15 {
                    self.volume + 1
                } else if !self.inc && self.volume > 0 {
                    self.volume - 1
                } else {
                    self.volume as int
                }) as u8,
                done: if self.inc { self.volume == 15 } else { self.volume == 0 },
                ..self
            }
        }
    }

    pub fn new() -> (r: Self)
        ensures
            r.wf(),
            r.volume == 0 && r.done,
    {
        Envelope { reload: 0, inc: false, period: 0, volume: 0, counter: 0, done: true }
    }

    /// One envelope step: at the end of each period the volume moves one unit in
    /// its direction, and the envelope stops once it would leave 0..=15.
    pub fn emulate_clock(&mut self)
        requires
            old(self).wf(),
        ensures
            final(self).wf(),
            *final(self) == old(self).stepped(),
            final(self).reload == old(self).reload && final(self).inc == old(self).inc && final(self).period
                == old(self).period,
            old(self).done || old(self).period == 0 ==> *final(self) == *old(self),
            !old(self).done && old(self).period != 0 && old(self).counter > 1 ==> final(self).counter
                == old(self).counter - 1 && final(self).volume == old(self).volume,
            !old(self).done && old(self).period != 0 && old(self).counter == 1 ==> {
                &&& final(self).counter == old(self).period
                &&& final(self).volume == (if old(self).inc && old(self).volume < 15 {
                    old(self).volume + 1
                } else if !old(self).inc && old(self).volume > 0 {
                    old(self).volume - 1
                } else {
                    old(self).volume as int
                })
                &&& final(self).done == (if old(self).inc { old(self).volume == 15 } else { old(self).volume == 0 })
            },
    {
        if !self.done && self.period != 0 {
            self.counter = self.counter - 1;
            if self.counter == 0 {
                if self.inc {
                    if self.volume < 15 {
                        self.volume = self.volume + 1;
                    } else {
                        self.done = true;
                    }
                } else {
                    if self.volume > 0 {
                        self.volume = self.volume - 1;
                    } else {
                        self.done = true;
                    }
                }
                self.counter = self.period;
            }
        }
    }

    pub fn get_volume(&self) -> (r: u8)
        ensures
            r == self.volume,
    {
        self.volume
    }

    /// NRx2 read: initial volume, direction, period.
    pub fn get_reg(&self) -> (r: u8)
        requires
            self.wf(),
        ensures
            r == self.reload * 16 + (if self.inc { 8int } else { 0 }) + self.period,
    {
        self.reload * 16 + (if self.inc { 8u8 } else { 0 }) + self.period
    }

    /// NRx2 write: also restarts the volume and the period counter.
    pub fn set_reg(&mut self, value: u8)
        requires
            old(self).wf(),
        ensures
            final(self).wf(),
            final(self).reload == value / 16,
            final(self).inc == (value % 16 >= 8),
            final(self).period == value % 8,
            final(self).volume == value / 16,
            final(self).counter == value % 8,
            final(self).done == old(self).done,
    {
        self.reload = value / 16;
        self.inc = value % 16 >= 8;
        self.period = value % 8;
        self.volume = self.reload;
        self.counter = self.period;
    }

    /// Trigger: restarts from the initial volume.
    pub fn reset(&mut self)
        requires
            old(self).wf(),
        ensures
            final(self).wf(),
            final(self).counter == old(self).period,
            !final(self).done,
            final(self).volume == old(self).reload,
            final(self).reload == old(self).reload && final(self).inc == old(self).inc && final(self).period
                == old(self).period,
    {
        self.counter = self.period;
        self.done = false;
        self.volume = self.reload;
    }
}

} // verus!
