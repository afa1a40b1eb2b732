//! The square channel with frequency sweep (channel 1).
use vstd::prelude::*;
use super::tone::Tone;

verus! {

/// The candidate frequency of a sweep step: the shadow frequency plus or minus
/// itself shifted right by `shift`, in 16-bit arithmetic.
pub open spec fn swept_freq(latch: u16, shift: u8, negate: bool) -> u16 {
    if negate {
        ((latch + 65536 - (latch >> shift)) % 65536) as u16
    } else {
        ((latch + (latch >> shift)) % 65536) as u16
    }
}

pub struct ToneSweep {
    pub tone: Tone,
    pub sweep_period: u8,
    pub sweep_negate: bool,
    pub sweep_shift: u8,
    pub sweep_enabled: bool,
    pub sweep_counter: u8,
    pub freq_latch: u16,
    pub enabled: bool,
}

impl ToneSweep {
    pub open spec fn wf(&self) -> bool {
        &&& self.tone.wf()
        &&& self.sweep_period < 8
        &&& self.sweep_shift < 8
        &&& self.freq_latch < 2048
    }

    /// The channel's output level: the square wave while not stopped by the sweep.
    pub open spec fn spec_sample(&self) -> int {
        if self.enabled { self.tone.spec_sample() } else { 0 }
    }

    pub fn new() -> (r: Self)
        ensures
            r.wf(),
            r.enabled,
            !r.tone.length_counter.enabled,
    {
        ToneSweep {
            tone: Tone::new(),
            sweep_period: 0,
            sweep_negate: false,
            sweep_shift: 0,
            sweep_enabled: false,
            sweep_counter: 8,
            freq_latch: 0,
            enabled: true,
        }
    }

    fn calc_new_freq(&self) -> (r: u16)
        requires
            self.wf(),
        ensures
            r == swept_freq(self.freq_latch, self.sweep_shift, self.sweep_negate),
    {
        let operand = self.freq_latch >> self.sweep_shift;
        if self.sweep_negate {
            self.freq_latch.wrapping_add(65535 - operand).wrapping_add(1)
        } else {
            self.freq_latch.wrapping_add(operand)
        }
    }

    /// A candidate at or above 2048 overflows and turns the channel off.
    fn overflow_check(&mut self, new_freq: u16) -> (r: bool)
        requires
            old(self).wf(),
        ensures
            final(self).wf(),
            r == (new_freq >= 0x800),
            r ==> !final(self).enabled && !final(self).sweep_enabled,
            !r ==> *final(self) == *old(self),
            final(self).tone == old(self).tone,
            final(self).freq_latch == old(self).freq_latch,
            final(self).sweep_period == old(self).sweep_period,
            final(self).sweep_shift == old(self).sweep_shift,
            final(self).sweep_negate == old(self).sweep_negate,
    {
        if new_freq >= 0x800 {
            self.enabled = false;
            self.sweep_enabled = false;
            true
        } else {
            false
        }
    }

    /// Register reads at NR10..NR14 (0xFF10..0xFF14).
    pub fn read(&self, addr: u16) -> (r: u8)
        requires
            self.wf(),
            0xFF10 <= addr <= 0xFF14,
        ensures
            addr == 0xFF10 ==> r == 0x80 + self.sweep_period * 16 + (if self.sweep_negate { 8int } else { 0 })
                + self.sweep_shift,
    {
        if addr == 0xFF10 {
            0x80 + self.sweep_period * 16 + (if self.sweep_negate { 8u8 } else { 0 }) + self.sweep_shift
        } else {
            self.tone.read(addr + 5)
        }
    }

    /// Register writes at NR10..NR14. A trigger latches the frequency into the
    /// shadow register, enables sweep when period or shift is non-zero, and with a
    /// non-zero shift runs the overflow check at once.
    pub fn write(&mut self, addr: u16, value: u8)
        requires
            old(self).wf(),
            0xFF10 <= addr <= 0xFF14,
        ensures
            final(self).wf(),
            addr == 0xFF10 ==> final(self).sweep_period == (value / 16) % 8 && final(self).sweep_negate == (value
                % 16 >= 8) && final(self).sweep_shift == value % 8,
            addr == 0xFF14 && value >= 0x80 ==> final(self).freq_latch == final(self).tone.freq
                && final(self).sweep_enabled == ((final(self).sweep_period != 0 || final(self).sweep_shift != 0)
                && !(final(self).sweep_shift != 0 && swept_freq(
                final(self).freq_latch,
                final(self).sweep_shift,
                final(self).sweep_negate,
            ) >= 0x800)),
    {
        if addr == 0xFF10 {
            self.sweep_period = (value / 16) % 8;
            self.sweep_negate = value % 16 >= 8;
            self.sweep_shift = value % 8;
        } else if addr == 0xFF14 {
            self.tone.write(addr + 5, value);
            if value >= 0x80 {
                self.enabled = true;
                self.freq_latch = self.tone.freq;
                self.sweep_counter = if self.sweep_period == 0 { 8 } else { self.sweep_period };
                self.sweep_enabled = self.sweep_period != 0 || self.sweep_shift != 0;
                if self.sweep_shift != 0 {
                    let f = self.calc_new_freq();
                    self.overflow_check(f);
                }
            }
        } else {
            self.tone.write(addr + 5, value);
        }
    }

    /// One machine cycle of the square wave underneath.
    pub fn emulate_clock(&mut self)
        requires
            old(self).wf(),
        ensures
            final(self).wf(),
            *final(self) == (ToneSweep { tone: old(self).tone.clock_step(), ..*old(self) }),
    {
        self.tone.emulate_clock();
    }

    /// A sweep step of the frame sequencer: when the sweep period counter runs out,
    /// the candidate frequency (if it does not overflow) is written to the channel
    /// and the shadow register, and checked once more.
    pub fn clock_sweep(&mut self)
        requires
            old(self).wf(),
        ensures
            final(self).wf(),
            ({
                let o = *old(self);
                let f = *final(self);
                let c = (o.sweep_counter + 255) % 256;
                let reload = if o.sweep_period == 0 { 8 } else { o.sweep_period };
                let cand = swept_freq(o.freq_latch, o.sweep_shift, o.sweep_negate);
                let step = o.sweep_enabled && c == 0;
                &&& (!step ==> f.sweep_counter == c && f.tone == o.tone && f.freq_latch == o.freq_latch
                    && f.enabled == o.enabled)
                &&& (step ==> f.sweep_counter == reload)
                &&& (step && o.sweep_period != 0 && cand >= 0x800 ==> !f.enabled && f.tone.freq == o.tone.freq)
                &&& (step && o.sweep_period != 0 && cand < 0x800 ==> f.tone.freq == cand && f.freq_latch == cand
                    && f.enabled == (o.enabled && swept_freq(cand, o.sweep_shift, o.sweep_negate) < 0x800))
            }),
    {
        self.sweep_counter = self.sweep_counter.wrapping_sub(1);
        if self.sweep_enabled && self.sweep_counter == 0 {
            if self.sweep_period != 0 {
                let new_freq = self.calc_new_freq();
                if !self.overflow_check(new_freq) {
                    self.tone.freq = new_freq;
                    self.freq_latch = new_freq;
                    let f = self.calc_new_freq();
                    self.overflow_check(f);
                }
            }
            self.sweep_counter = if self.sweep_period == 0 { 8 } else { self.sweep_period };
        }
    }

    pub fn clock_length_counter(&mut self)
        requires
            old(self).wf(),
        ensures
            final(self).wf(),
            *final(self) == (Self {
                tone: Tone {
                    length_counter: if old(self).tone.use_length {
                        old(self).tone.length_counter.clocked()
                    } else {
                        old(self).tone.length_counter
                    },
                    ..old(self).tone
                },
                ..*old(self)
            }),
    {
        self.tone.clock_length_counter();
    }

    pub fn clock_envelope(&mut self)
        requires
            old(self).wf(),
        ensures
            final(self).wf(),
            *final(self) == (Self { tone: Tone { envelope: old(self).tone.envelope.stepped(), ..old(self).tone }, ..*old(self) }),
    {
        self.tone.clock_envelope();
    }

    pub fn generate_sample(&self) -> (r: i16)
        requires
            self.wf(),
        ensures
            r == self.spec_sample(),
            -15 <= r <= 15,
    {
        if self.enabled {
            self.tone.generate_sample()
        } else {
            0
        }
    }

    pub fn playing_sound(&self) -> (r: bool)
        ensures
            r == self.tone.length_counter.enabled,
    {
        self.tone.playing_sound()
    }
}

} // verus!
