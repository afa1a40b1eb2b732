//! The square channel without sweep (channel 2): duty cycle, length, envelope.
use vstd::prelude::*;
use super::timer::Timer;
use super::length_counter::LengthCounter;
use super::envelope::Envelope;

verus! {

/// The four duty patterns, high (+1) or low (-1) at each of eight positions.
pub open spec fn duty_high(duty: u8, pos: u8) -> bool {
    if duty == 0 {
        pos == 7
    } else if duty == 1 {
        pos == 0 || pos == 7
    } else if duty == 2 {
        pos == 0 || pos >= 5
    } else {
        1 <= pos <= 6
    }
}

pub fn duty_level(duty: u8, pos: u8) -> (r: bool)
    ensures
        r == duty_high(duty, pos),
{
    if duty == 0 {
        pos == 7
    } else if duty == 1 {
        pos == 0 || pos == 7
    } else if duty == 2 {
        pos == 0 || pos >= 5
    } else {
        1 <= pos && pos <= 6
    }
}

pub struct Tone {
    pub wave_duty: u8,
    pub length_reload: u8,
    pub envelope: Envelope,
    /// Frequency, 11 bits.
    pub freq: u16,
    pub use_length: bool,
    pub timer: Timer,
    pub duty_pos: u8,
    pub length_counter: LengthCounter,
}

impl Tone {
    /// The channel one machine cycle later: while on, the frequency timer counts
    /// down and on expiry reloads to `2048 - freq` and advances the duty position.
    pub open spec fn clock_step(self) -> Tone {
        if !self.length_counter.enabled {
            self
        } else if self.timer.counter == 1 {
            Tone {
                timer: Timer { counter: (2048 - self.freq) as u16 },
                duty_pos: ((self.duty_pos + 1) % 8) as u8,
                ..self
            }
        } else {
            Tone { timer: Timer { counter: ((self.timer.counter + 65535) % 65536) as u16 }, ..self }
        }
    }

    /// The channel after a length step of the frame sequencer.
    pub open spec fn length_step(self) -> Tone {
        Tone {
            length_counter: if self.use_length { self.length_counter.clocked() } else { self.length_counter },
            ..self
        }
    }

    /// The channel after an envelope step of the frame sequencer.
    pub open spec fn envelope_step(self) -> Tone {
        Tone { envelope: self.envelope.stepped(), ..self }
    }

    pub open spec fn wf(&self) -> bool {
        &&& self.wave_duty < 4
        &&& self.freq < 2048
        &&& self.duty_pos < 8
        &&& self.envelope.wf()
    }

    /// The channel's output level: ±volume by the duty pattern while on, else 0.
    pub open spec fn spec_sample(&self) -> int {
        if self.length_counter.enabled {
            if duty_high(self.wave_duty, self.duty_pos) { self.envelope.volume as int } else { -self.envelope.volume }
        } else {
            0
        }
    }

    pub fn new() -> (r: Self)
        ensures
            r.wf(),
            !r.length_counter.enabled,
    {
        Tone {
            wave_duty: 0,
            length_reload: 0,
            envelope: Envelope::new(),
            freq: 0,
            use_length: false,
            timer: Timer::new(0),
            duty_pos: 0,
            length_counter: LengthCounter::new(),
        }
    }

    /// Register reads at NR21..NR24 (addresses 0xFF16..0xFF19); write-only bits read 1.
    pub fn read(&self, addr: u16) -> (r: u8)
        requires
            self.wf(),
        ensures
            addr == 0xFF16 ==> r == self.wave_duty * 64 + 0x3F,
            addr == 0xFF17 ==> r == self.envelope.reload * 16 + (if self.envelope.inc { 8int } else { 0 })
                + self.envelope.period,
            addr == 0xFF19 ==> r == 0xBF + (if self.use_length { 0x40int } else { 0 }),
            addr != 0xFF16 && addr != 0xFF17 && addr != 0xFF19 ==> r == 0xFF,
    {
        if addr == 0xFF16 {
            self.wave_duty * 64 + 0x3F
        } else if addr == 0xFF17 {
            self.envelope.get_reg()
        } else if addr == 0xFF19 {
            0xBF + (if self.use_length { 0x40u8 } else { 0 })
        } else {
            0xFF
        }
    }

    /// Register writes at NR21..NR24. Writing NR24 with bit 7 set triggers the
    /// channel: length refill, timer reload, envelope restart, duty position 0.
    pub fn write(&mut self, addr: u16, value: u8)
        requires
            old(self).wf(),
        ensures
            final(self).wf(),
            addr == 0xFF16 ==> final(self).wave_duty == value / 64 && final(self).length_counter.length == 64
                - value % 64,
            addr == 0xFF18 ==> final(self).freq == old(self).freq / 256 * 256 + value,
            addr == 0xFF19 ==> final(self).freq == (value % 8) * 256 + old(self).freq % 256 && final(self).use_length
                == (value % 128 >= 64),
            addr == 0xFF19 && value >= 0x80 ==> final(self).length_counter.enabled && final(self).duty_pos == 0
                && final(self).timer.counter == 2048 - old(self).freq && final(self).envelope.volume
                == old(self).envelope.reload,
    {
        if addr == 0xFF16 {
            self.wave_duty = value / 64;
            self.length_reload = value % 64;
            self.length_counter.reload(64 - self.length_reload as u16);
        } else if addr == 0xFF17 {
            self.envelope.set_reg(value);
        } else if addr == 0xFF18 {
            self.freq = self.freq / 256 * 256 + value as u16;
        } else if addr == 0xFF19 {
            if value >= 0x80 {
                self.length_counter.enable(64);
                self.timer.reload(2048 - self.freq);
                self.envelope.reset();
                self.duty_pos = 0;
            }
            self.use_length = value % 128 >= 64;
            self.freq = (value % 8) as u16 * 256 + self.freq % 256;
        }
    }

    /// One machine cycle: on each timer expiry the duty position advances.
    pub fn emulate_clock(&mut self)
        requires
            old(self).wf(),
        ensures
            final(self).wf(),
            *final(self) == old(self).clock_step(),
            final(self).freq == old(self).freq,
            final(self).length_counter == old(self).length_counter,
            final(self).envelope == old(self).envelope,
            final(self).wave_duty == old(self).wave_duty,
            !old(self).length_counter.enabled ==> *final(self) == *old(self),
            old(self).length_counter.enabled ==> final(self).duty_pos == (if old(self).timer.counter == 1 {
                (old(self).duty_pos + 1) % 8
            } else {
                old(self).duty_pos as int
            }) && final(self).timer.counter == (if old(self).timer.counter == 1 {
                2048 - old(self).freq
            } else {
                (old(self).timer.counter + 65535) % 65536
            }),
    {
        if !self.length_counter.enabled() {
            return;
        }
        if self.timer.clock(2048 - self.freq) {
            self.duty_pos = (self.duty_pos + 1) % 8;
        }
    }

    pub fn clock_length_counter(&mut self)
        requires
            old(self).wf(),
        ensures
            final(self).wf(),
            *final(self) == (Self {
                length_counter: if old(self).use_length {
                    old(self).length_counter.clocked()
                } else {
                    old(self).length_counter
                },
                ..*old(self)
            }),
            final(self).freq == old(self).freq,
    {
        if self.use_length {
            self.length_counter.clock();
        }
    }

    pub fn clock_envelope(&mut self)
        requires
            old(self).wf(),
        ensures
            final(self).wf(),
            *final(self) == (Self { envelope: old(self).envelope.stepped(), ..*old(self) }),
            final(self).freq == old(self).freq,
            final(self).length_counter == old(self).length_counter,
    {
        self.envelope.emulate_clock();
    }

    pub fn generate_sample(&self) -> (r: i16)
        requires
            self.wf(),
        ensures
            r == self.spec_sample(),
            -15 <= r <= 15,
    {
        if self.length_counter.enabled() {
            let v = self.envelope.get_volume() as i16;
            if duty_level(self.wave_duty, self.duty_pos) { v } else { -v }
        } else {
            0
        }
    }

    pub fn playing_sound(&self) -> (r: bool)
        ensures
            r == self.length_counter.enabled,
    {
        self.length_counter.enabled()
    }
}

} // verus!
