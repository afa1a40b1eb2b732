//! The noise channel (channel 4): a 15- or 7-bit LFSR clocked by a divisor and
//! shift, with length and envelope.
use vstd::prelude::*;
use super::timer::Timer;
use super::length_counter::LengthCounter;
use super::envelope::Envelope;

verus! {

pub open spec fn divisor(code: u8) -> u16 {
    if code == 0 {
        8
    } else {
        (code * 16) as u16
    }
}

/// The LFSR after one step: bit 0 XOR bit 1 shifts in at bit 14 (and at bit 6 in
/// width mode) as the register shifts right.
pub open spec fn lfsr_step(lfsr: u16, width_mode: bool) -> u16 {
    let x = (lfsr & 1) ^ ((lfsr >> 1) & 1);
    let shifted = (x << 14) | (lfsr >> 1);
    if width_mode {
        (shifted & !0x40u16) | (x << 6)
    } else {
        shifted
    }
}

pub struct Noise {
    pub length_reload: u8,
    pub envelope: Envelope,
    /// Clock shift, 4 bits.
    pub clock_shift: u8,
    pub width_mode: bool,
    /// Divisor code, 3 bits.
    pub divisor_code: u8,
    pub use_length: bool,
    pub timer: Timer,
    pub lfsr: u16,
    pub length_counter: LengthCounter,
}

impl Noise {
    /// The channel one machine cycle later: while on, the frequency timer counts
    /// down and on expiry reloads to `divisor << shift` and steps the LFSR.
    pub open spec fn clock_step(self) -> Noise {
        if !self.length_counter.enabled {
            self
        } else if self.timer.counter == 1 {
            Noise {
                timer: Timer { counter: divisor(self.divisor_code) << self.clock_shift },
                lfsr: lfsr_step(self.lfsr, self.width_mode),
                ..self
            }
        } else {
            Noise { timer: Timer { counter: ((self.timer.counter + 65535) % 65536) as u16 }, ..self }
        }
    }

    /// The channel after a length step of the frame sequencer.
    pub open spec fn length_step(self) -> Noise {
        Noise {
            length_counter: if self.use_length { self.length_counter.clocked() } else { self.length_counter },
            ..self
        }
    }

    /// The channel after an envelope step of the frame sequencer.
    pub open spec fn envelope_step(self) -> Noise {
        Noise { envelope: self.envelope.stepped(), ..self }
    }

    pub open spec fn wf(&self) -> bool {
        &&& self.clock_shift < 16
        &&& self.divisor_code < 8
        &&& self.envelope.wf()
    }

    /// The channel's output level: the envelope volume while LFSR bit 0 is clear.
    pub open spec fn spec_sample(&self) -> u8 {
        if self.length_counter.enabled && self.lfsr % 2 == 0 { self.envelope.volume } else { 0 }
    }

    pub fn new() -> (r: Self)
        ensures
            r.wf(),
            !r.length_counter.enabled,
    {
        Noise {
            length_reload: 0,
            envelope: Envelope::new(),
            clock_shift: 0,
            width_mode: false,
            divisor_code: 0,
            use_length: false,
            timer: Timer::new(0),
            lfsr: 0,
            length_counter: LengthCounter::new(),
        }
    }

    /// The timer period: `divisor[code] << shift`, in 16-bit arithmetic.
    fn period(&self) -> (r: u16)
        requires
            self.wf(),
        ensures
            r == divisor(self.divisor_code) << self.clock_shift,
    {
        let d: u16 = if self.divisor_code == 0 { 8 } else { self.divisor_code as u16 * 16 };
        d << self.clock_shift
    }

    /// Register reads at NR41..NR44 (0xFF20..0xFF23).
    pub fn read(&self, addr: u16) -> (r: u8)
        requires
            self.wf(),
        ensures
            addr == 0xFF20 ==> r == 0xFF,
            addr == 0xFF22 ==> r == self.clock_shift * 16 + (if self.width_mode { 8int } else { 0 })
                + self.divisor_code,
            addr == 0xFF23 ==> r == 0xBF + (if self.use_length { 0x40int } else { 0 }),
    {
        if addr == 0xFF21 {
            self.envelope.get_reg()
        } else if addr == 0xFF22 {
            self.clock_shift * 16 + (if self.width_mode { 8u8 } else { 0 }) + self.divisor_code
        } else if addr == 0xFF23 {
            0xBF + (if self.use_length { 0x40u8 } else { 0 })
        } else {
            0xFF
        }
    }

    /// Register writes at NR41..NR44. A trigger refills the length, reloads the
    /// timer, restarts the envelope and fills the LFSR with ones.
    pub fn write(&mut self, addr: u16, value: u8)
        requires
            old(self).wf(),
        ensures
            final(self).wf(),
            addr == 0xFF20 ==> final(self).length_counter.length == 64 - value % 64,
            addr == 0xFF22 ==> final(self).clock_shift == value / 16 && final(self).width_mode == (value % 16
                >= 8) && final(self).divisor_code == value % 8,
            addr == 0xFF23 && value >= 0x80 ==> final(self).length_counter.enabled && final(self).lfsr
                == 0x7FFF && !final(self).envelope.done,
    {
        if addr == 0xFF20 {
            self.length_reload = value % 64;
            self.length_counter.reload(64 - self.length_reload as u16);
        } else if addr == 0xFF21 {
            self.envelope.set_reg(value);
        } else if addr == 0xFF22 {
            self.clock_shift = value / 16;
            self.width_mode = value % 16 >= 8;
            self.divisor_code = value % 8;
        } else if addr == 0xFF23 {
            if value >= 0x80 {
                self.length_counter.enable(64);
                let p = self.period();
                self.timer.reload(p);
                self.envelope.reset();
                self.lfsr = 0x7FFF;
            }
            self.use_length = value % 128 >= 64;
        }
    }

    /// One machine cycle: on each timer expiry the LFSR steps.
    pub fn emulate_clock(&mut self)
        requires
            old(self).wf(),
        ensures
            final(self).wf(),
            *final(self) == old(self).clock_step(),
    {
        if !self.length_counter.enabled() {
            return;
        }
        let p = self.period();
        if self.timer.clock(p) {
            let lfsr = self.lfsr;
            let x = (lfsr & 1) ^ ((lfsr >> 1) & 1);
            let shifted = (x << 14) | (lfsr >> 1);
            self.lfsr = if self.width_mode { (shifted & !0x40u16) | (x << 6) } else { shifted };
        }
    }

    pub fn clock_length_counter(&mut self)
        requires
            old(self).wf(),
        ensures
            final(self).wf(),
            *final(self) == (Self {
                length_counter: if old(self).use_length {
                    old(self).length_counter.clocked()
                } else {
                    old(self).length_counter
                },
                ..*old(self)
            }),
    {
        if self.use_length {
            self.length_counter.clock();
        }
    }

    pub fn clock_envelope(&mut self)
        requires
            old(self).wf(),
        ensures
            final(self).wf(),
            *final(self) == (Self { envelope: old(self).envelope.stepped(), ..*old(self) }),
    {
        self.envelope.emulate_clock();
    }

    /// The envelope volume when bit 0 of the LFSR is clear, 0 otherwise (or when off).
    pub fn generate_sample(&self) -> (r: u8)
        requires
            self.wf(),
        ensures
            r == self.spec_sample(),
            r < 16,
    {
        if self.length_counter.enabled() && self.lfsr % 2 == 0 {
            self.envelope.get_volume()
        } else {
            0
        }
    }

    pub fn playing_sound(&self) -> (r: bool)
        ensures
            r == self.length_counter.enabled,
    {
        self.length_counter.enabled()
    }
}

} // verus!
