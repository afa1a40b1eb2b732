//! The wave channel (channel 3): plays 32 four-bit samples from wave RAM.
use vstd::prelude::*;
use super::timer::Timer;
use super::length_counter::LengthCounter;

verus! {

/// The right shift applied to a wave sample for output level codes 0..=3
/// (mute, 100%, 50%, 25%).
pub open spec fn level_shift(code: u8) -> u8 {
    if code == 0 {
        4
    } else if code == 1 {
        0
    } else if code == 2 {
        1
    } else {
        2
    }
}

/// Sample `pos` (0..32) of a 16-byte wave table: high nibble first.
pub open spec fn wave_nibble(table: Seq<u8>, pos: int) -> u8 {
    if pos % 2 == 0 {
        table[pos / 2] / 16
    } else {
        table[pos / 2] % 16
    }
}

pub struct Wave {
    /// NR30 bit 7: the channel's DAC is on.
    pub enabled: bool,
    pub length_reload: u8,
    /// Output level, 2 bits.
    pub output_level: u8,
    /// Frequency, 11 bits.
    pub freq: u16,
    pub use_length: bool,
    pub timer: Timer,
    pub length_counter: LengthCounter,
    pub wave_table: Vec<u8>,
    pub wave_pos: u8,
}

impl Wave {
    /// The channel one clock later: while on, the frequency timer counts down and on
    /// expiry reloads to `2 * (2048 - freq)` and advances the sample position.
    pub open spec fn clock_step(self) -> Wave {
        if !self.length_counter.enabled {
            self
        } else if self.timer.counter == 1 {
            Wave {
                timer: Timer { counter: (2 * (2048 - self.freq)) as u16 },
                wave_pos: ((self.wave_pos + 1) % 32) as u8,
                ..self
            }
        } else {
            Wave { timer: Timer { counter: ((self.timer.counter + 65535) % 65536) as u16 }, ..self }
        }
    }

    /// The channel after a length step of the frame sequencer.
    pub open spec fn length_step(self) -> Wave {
        Wave {
            length_counter: if self.use_length { self.length_counter.clocked() } else { self.length_counter },
            ..self
        }
    }

    pub open spec fn wf(&self) -> bool {
        &&& self.output_level < 4
        &&& self.freq < 2048
        &&& self.wave_table@.len() == 16
        &&& self.wave_pos < 32
    }

    /// The channel's output level (0..=15).
    pub open spec fn spec_sample(&self) -> u8 {
        if self.length_counter.enabled {
            wave_nibble(self.wave_table@, self.wave_pos as int) >> level_shift(self.output_level)
        } else {
            0
        }
    }

    pub fn new() -> (r: Self)
        ensures
            r.wf(),
            !r.length_counter.enabled,
    {
        Wave {
            enabled: false,
            length_reload: 0,
            output_level: 0,
            freq: 0,
            use_length: false,
            timer: Timer::new(0),
            length_counter: LengthCounter::new(),
            wave_table: vec![0u8; 16],
            wave_pos: 0,
        }
    }

    /// Register reads at NR30..NR34 (0xFF1A..0xFF1E).
    pub fn read(&self, addr: u16) -> (r: u8)
        requires
            self.wf(),
        ensures
            addr == 0xFF1A ==> r == 0x7F + (if self.enabled { 0x80int } else { 0 }),
            addr == 0xFF1C ==> r == 0x9F + self.output_level * 32,
            addr == 0xFF1E ==> r == 0xBF + (if self.use_length { 0x40int } else { 0 }),
            addr != 0xFF1A && addr != 0xFF1C && addr != 0xFF1E ==> r == 0xFF,
    {
        if addr == 0xFF1A {
            0x7F + (if self.enabled { 0x80u8 } else { 0 })
        } else if addr == 0xFF1C {
            0x9F + self.output_level * 32
        } else if addr == 0xFF1E {
            0xBF + (if self.use_length { 0x40u8 } else { 0 })
        } else {
            0xFF
        }
    }

    pub fn write(&mut self, addr: u16, value: u8)
        requires
            old(self).wf(),
        ensures
            final(self).wf(),
            final(self).wave_table@ == old(self).wave_table@,
            addr == 0xFF1A ==> final(self).enabled == (value >= 0x80),
            addr == 0xFF1B ==> final(self).length_counter.length == 256 - value,
            addr == 0xFF1C ==> final(self).output_level == (value / 32) % 4,
            addr == 0xFF1D ==> final(self).freq == old(self).freq / 256 * 256 + value,
            addr == 0xFF1E ==> final(self).freq == (value % 8) * 256 + old(self).freq % 256,
            addr == 0xFF1E && value >= 0x80 ==> final(self).length_counter.enabled && final(self).wave_pos == 0
                && final(self).timer.counter == 2 * (2048 - old(self).freq),
    {
        if addr == 0xFF1A {
            self.enabled = value >= 0x80;
        } else if addr == 0xFF1B {
            self.length_reload = value;
            self.length_counter.reload(256 - value as u16);
        } else if addr == 0xFF1C {
            self.output_level = (value / 32) % 4;
        } else if addr == 0xFF1D {
            self.freq = self.freq / 256 * 256 + value as u16;
        } else if addr == 0xFF1E {
            if value >= 0x80 {
                self.length_counter.enable(256);
                self.timer.reload(2 * (2048 - self.freq));
                self.wave_pos = 0;
            }
            self.use_length = value % 128 >= 64;
            self.freq = (value % 8) as u16 * 256 + self.freq % 256;
        }
    }

    /// One clock: on each timer expiry (period `2 * (2048 - freq)`) the sample
    /// position advances.
    pub fn emulate_clock(&mut self)
        requires
            old(self).wf(),
        ensures
            final(self).wf(),
            *final(self) == old(self).clock_step(),
            final(self).wave_table@ == old(self).wave_table@,
            !old(self).length_counter.enabled ==> *final(self) == *old(self),
            old(self).length_counter.enabled ==> final(self).wave_pos == (if old(self).timer.counter == 1 {
                (old(self).wave_pos + 1) % 32
            } else {
                old(self).wave_pos as int
            }) && final(self).length_counter == old(self).length_counter && final(self).output_level
                == old(self).output_level,
    {
        if !self.length_counter.enabled() {
            return;
        }
        if self.timer.clock(2 * (2048 - self.freq)) {
            self.wave_pos = (self.wave_pos + 1) % 32;
        }
    }

    pub fn clock_length_counter(&mut self)
        requires
            old(self).wf(),
        ensures
            final(self).wf(),
            *final(self) == (Self {
                length_counter: if old(self).use_length {
                    old(self).length_counter.clocked()
                } else {
                    old(self).length_counter
                },
                ..*old(self)
            }),
            final(self).wave_table@ == old(self).wave_table@,
    {
        if self.use_length {
            self.length_counter.clock();
        }
    }

    /// The current sample shifted right by the output level's shift, while the
    /// channel is on.
    pub fn generate_sample(&self) -> (r: u8)
        requires
            self.wf(),
        ensures
            r == self.spec_sample(),
            r < 16,
    {
        if self.length_counter.enabled() {
            let byte = self.wave_table[(self.wave_pos / 2) as usize];
            let nibble = if self.wave_pos % 2 == 0 { byte / 16 } else { byte % 16 };
            let shift: u8 = if self.output_level == 0 {
                4
            } else if self.output_level == 1 {
                0
            } else if self.output_level == 2 {
                1
            } else {
                2
            };
            assert(nibble >> shift <= nibble) by (bit_vector);
            nibble >> shift
        } else {
            0
        }
    }

    pub fn playing_sound(&self) -> (r: bool)
        ensures
            r == self.length_counter.enabled,
    {
        self.length_counter.enabled()
    }

    /// Wave RAM read at 0xFF30..0xFF3F.
    pub fn read_wave_table(&self, addr: u16) -> (r: u8)
        requires
            self.wf(),
            0xFF30 <= addr <= 0xFF3F,
        ensures
            r == self.wave_table@[addr - 0xFF30],
    {
        self.wave_table[(addr - 0xFF30) as usize]
    }

    /// Wave RAM write at 0xFF30..0xFF3F.
    pub fn write_wave_table(&mut self, addr: u16, value: u8)
        requires
            old(self).wf(),
            0xFF30 <= addr <= 0xFF3F,
        ensures
            final(self).wf(),
            final(self).wave_table@ == old(self).wave_table@.update(addr - 0xFF30, value),
    {
        self.wave_table[(addr - 0xFF30) as usize] = value;
    }
}

/// Wave RAM after a sequence of writes, applied in order.
pub open spec fn wave_after_writes(t: Seq<u8>, writes: Seq<(u16, u8)>) -> Seq<u8>
    decreases writes.len(),
{
    if writes.len() == 0 {
        t
    } else {
        let w = writes.last();
        wave_after_writes(t, writes.drop_last()).update(w.0 - 0xFF30, w.1)
    }
}

/// Wave RAM round trip: a byte written to a wave RAM address reads back unchanged
/// after any number of writes to the other wave RAM addresses.
pub proof fn lemma_wave_ram_round_trip(t: Seq<u8>, addr: u16, b: u8, writes: Seq<(u16, u8)>)
    requires
        t.len() == 16,
        0xFF30 <= addr <= 0xFF3F,
        forall|k: int| 0 <= k < writes.len() ==> 0xFF30 <= #[trigger] writes[k].0 <= 0xFF3F && writes[k].0 != addr,
    ensures
        wave_after_writes(t.update(addr - 0xFF30, b), writes).len() == 16,
        wave_after_writes(t.update(addr - 0xFF30, b), writes)[addr - 0xFF30] == b,
    decreases writes.len(),
{
    if writes.len() > 0 {
        let w = writes.drop_last();
        assert forall|k: int| 0 <= k < w.len() implies 0xFF30 <= #[trigger] w[k].0 <= 0xFF3F && w[k].0 != addr by {
            assert(w[k] == writes[k]);
        }
        lemma_wave_ram_round_trip(t, addr, b, w);
        assert(writes.last() == writes[writes.len() - 1]);
    }
}

} // verus!
