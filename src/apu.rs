//! The audio processing unit: four channels, the 512 Hz frame sequencer that
//! clocks their length counters, sweep and envelopes, and a mixer that sums
//! routed channel outputs into stereo frames at the host sample rate.
use vstd::prelude::*;

pub mod timer;
pub mod length_counter;
pub mod envelope;
pub mod tone;
pub mod tone_sweep;
pub mod wave;
pub mod noise;

use self::tone_sweep::{ToneSweep, swept_freq};
use self::tone::Tone;
use self::wave::Wave;
use self::noise::Noise;

verus! {

/// Machine cycles between frame-sequencer steps (8192 dots, 1/512 s).
pub const FRAME_SEQUENCER_PERIOD: u16 = 2048;
/// Machine cycles per second at base speed.
pub const BASE_CLOCK_HZ: u32 = 1048576;

/// The events of sequencer step `step` (0..8): length on even steps, sweep on 2
/// and 6, envelope on 7.
pub open spec fn step_events(step: u8) -> u8 {
    ((if step % 2 == 0 { 1int } else { 0 }) + (if step == 2 || step == 6 { 2int } else { 0 }) + (if step
        == 7 { 4int } else { 0 })) as u8
}

/// Whether sequencer step `step` clocks the length counters (`kind` 0), the sweep
/// (`kind` 1) or the envelopes (`kind` 2).
pub open spec fn has_event(step: u8, kind: u8) -> bool {
    if kind == 0 {
        step % 2 == 0
    } else if kind == 1 {
        step == 2 || step == 6
    } else {
        step == 7
    }
}

#[derive(Clone, Copy, PartialEq, Eq, Structural)]
pub struct FrameSequencer {
    /// Machine cycles until the next step, 1..=2048.
    pub counter: u16,
    /// The next step to run, 0..8.
    pub step: u8,
}

impl FrameSequencer {
    pub open spec fn wf(self) -> bool {
        1 <= self.counter <= 2048 && self.step < 8
    }

    /// The sequencer one machine cycle later.
    pub open spec fn next(self) -> FrameSequencer {
        if self.counter == 1 {
            FrameSequencer { counter: 2048, step: ((self.step + 1) % 8) as u8 }
        } else {
            FrameSequencer { counter: (self.counter - 1) as u16, step: self.step }
        }
    }

    /// The events this machine cycle raises.
    pub open spec fn events(self) -> u8 {
        if self.counter == 1 {
            step_events(self.step)
        } else {
            0
        }
    }

    pub fn new() -> (r: Self)
        ensures
            r.wf(),
            r.counter == 2048 && r.step == 0,
    {
        FrameSequencer { counter: 2048, step: 0 }
    }

    /// Advances one machine cycle and returns the events of a step that fires.
    pub fn clock(&mut self) -> (r: u8)
        requires
            old(self).wf(),
        ensures
            final(self).wf(),
            *final(self) == old(self).next(),
            r == old(self).events(),
            (r % 2 == 1) == (old(self).counter == 1 && has_event(old(self).step, 0)),
            ((r / 2) % 2 == 1) == (old(self).counter == 1 && has_event(old(self).step, 1)),
            (r >= 4) == (old(self).counter == 1 && has_event(old(self).step, 2)),
    {
        if self.counter == 1 {
            let step = self.step;
            self.counter = 2048;
            self.step = (self.step + 1) % 8;
            ((if step % 2 == 0 { 1u8 } else { 0 }) + (if step == 2 || step == 6 { 2u8 } else { 0 }) + (if step
                == 7 { 4u8 } else { 0 }))
        } else {
            self.counter = self.counter - 1;
            0
        }
    }
}

/// The sequencer after `n` machine cycles.
pub open spec fn seq_after(s: FrameSequencer, n: nat) -> FrameSequencer
    decreases n,
{
    if n == 0 {
        s
    } else {
        seq_after(s.next(), (n - 1) as nat)
    }
}

/// How many events of kind `kind` fire during `n` machine cycles.
pub open spec fn count_events(s: FrameSequencer, n: nat, kind: u8) -> nat
    decreases n,
{
    if n == 0 {
        0
    } else {
        (if s.counter == 1 && has_event(s.step, kind) { 1nat } else { 0 }) + count_events(
            s.next(),
            (n - 1) as nat,
            kind,
        )
    }
}

/// How many of steps `step, step+1, ...` (`k` of them, modulo 8) carry an event of kind `kind`.
pub open spec fn count_steps(step: u8, k: nat, kind: u8) -> nat
    decreases k,
{
    if k == 0 {
        0
    } else {
        (if has_event(step, kind) { 1nat } else { 0 }) + count_steps(((step + 1) % 8) as u8, (k - 1) as nat, kind)
    }
}

proof fn lemma_split(s: FrameSequencer, a: nat, b: nat, kind: u8)
    ensures
        count_events(s, a + b, kind) == count_events(s, a, kind) + count_events(seq_after(s, a), b, kind),
        seq_after(s, a + b) == seq_after(seq_after(s, a), b),
    decreases a,
{
    if a > 0 {
        lemma_split(s.next(), (a - 1) as nat, b, kind);
        assert((a + b - 1) as nat == ((a - 1) as nat + b));
    }
}

/// From counter `c`, the next `c` cycles fire exactly the current step.
proof fn lemma_one_step(s: FrameSequencer, kind: u8)
    requires
        s.wf(),
    ensures
        count_events(s, s.counter as nat, kind) == (if has_event(s.step, kind) { 1nat } else { 0 }),
        seq_after(s, s.counter as nat) == (FrameSequencer { counter: 2048, step: ((s.step + 1) % 8) as u8 }),
    decreases s.counter,
{
    if s.counter > 1 {
        let t = s.next();
        lemma_one_step(t, kind);
        assert((s.counter - 1) as nat == t.counter as nat);
    } else {
        reveal_with_fuel(count_events, 2);
        reveal_with_fuel(seq_after, 2);
    }
}

/// Fewer than 2048 cycles from a fresh period fire nothing.
proof fn lemma_quiet(s: FrameSequencer, n: nat, kind: u8)
    requires
        s.wf(),
        n < s.counter,
    ensures
        count_events(s, n, kind) == 0,
    decreases n,
{
    if n > 0 {
        assert(s.counter != 1);
        lemma_quiet(s.next(), (n - 1) as nat, kind);
    }
}

/// `k` whole periods from a step boundary fire steps `step .. step + k`.
#[verifier::rlimit(40)]
proof fn lemma_periods(step: u8, k: nat, kind: u8)
    requires
        step < 8,
    ensures
        count_events(FrameSequencer { counter: 2048, step }, 2048 * k, kind) == count_steps(step, k, kind),
        seq_after(FrameSequencer { counter: 2048, step }, 2048 * k) == (FrameSequencer {
            counter: 2048,
            step: ((step + k) % 8) as u8,
        }),
    decreases k,
{
    if k > 0 {
        let s = FrameSequencer { counter: 2048, step };
        lemma_one_step(s, kind);
        let t = FrameSequencer { counter: 2048, step: ((step + 1) % 8) as u8 };
        lemma_periods(t.step, (k - 1) as nat, kind);
        lemma_split(s, 2048, 2048 * (k - 1) as nat, kind);
        assert(2048 + 2048 * (k - 1) as nat == 2048 * k) by (nonlinear_arith)
            requires
                k > 0,
        ;
        assert(((step + 1) % 8 + (k - 1)) % 8 == (step + k) % 8);
    }
}

/// Eight consecutive steps from any start cover each step once.
#[verifier::rlimit(60)]
proof fn lemma_round(step: u8, kind: u8)
    requires
        step < 8,
    ensures
        count_steps(step, 8, kind) == count_steps(0, 8, kind),
{
    reveal_with_fuel(count_steps, 9);
    if step == 0 {
    } else if step == 1 {
        assert(count_steps(1, 8, kind) == count_steps(0, 8, kind));
    } else if step == 2 {
        assert(count_steps(2, 8, kind) == count_steps(0, 8, kind));
    } else if step == 3 {
        assert(count_steps(3, 8, kind) == count_steps(0, 8, kind));
    } else if step == 4 {
        assert(count_steps(4, 8, kind) == count_steps(0, 8, kind));
    } else if step == 5 {
        assert(count_steps(5, 8, kind) == count_steps(0, 8, kind));
    } else if step == 6 {
        assert(count_steps(6, 8, kind) == count_steps(0, 8, kind));
    } else {
        assert(count_steps(7, 8, kind) == count_steps(0, 8, kind));
    }
}

/// `m` rounds of eight steps from any start.
#[verifier::rlimit(40)]
proof fn lemma_eight_steps(step: u8, m: nat, kind: u8)
    requires
        step < 8,
    ensures
        count_steps(step, 8 * m, kind) == m * count_steps(0, 8, kind),
    decreases m,
{
    if m > 0 {
        let r = count_steps(0, 8, kind);
        let m1 = (m - 1) as nat;
        lemma_steps_split(step, 8, 8 * m1, kind);
        assert(((step + 8) % 8) as u8 == step);
        lemma_eight_steps(step, m1, kind);
        lemma_round(step, kind);
        assert(8 + 8 * m1 == 8 * m);
        assert(count_steps(step, 8 * m, kind) == r + count_steps(step, 8 * m1, kind));
        assert(m * r == r + m1 * r) by (nonlinear_arith)
            requires
                m > 0,
                m1 == m - 1,
        ;
    } else {
        let r = count_steps(0, 8, kind);
        assert(m * r == 0) by (nonlinear_arith)
            requires
                m == 0,
        ;
    }
}

proof fn lemma_steps_split(step: u8, a: nat, b: nat, kind: u8)
    requires
        step < 8,
    ensures
        count_steps(step, a + b, kind) == count_steps(step, a, kind) + count_steps(((step + a) % 8) as u8, b, kind),
    decreases a,
{
    if a > 0 {
        lemma_steps_split(((step + 1) % 8) as u8, (a - 1) as nat, b, kind);
        assert((a + b - 1) as nat == ((a - 1) as nat + b));
        assert(((step + 1) % 8 + (a - 1)) % 8 == (step + a) % 8);
    }
}

/// Frame-sequencer rate law: from any sequencer state, one second of base-speed
/// machine cycles (1048576) clocks the length counters exactly 256 times, the sweep
/// exactly 128 times and the envelopes exactly 64 times.
pub proof fn lemma_frame_sequencer_rates(s: FrameSequencer)
    requires
        s.wf(),
    ensures
        count_events(s, 1048576, 0) == 256,
        count_events(s, 1048576, 1) == 128,
        count_events(s, 1048576, 2) == 64,
{
    lemma_rates_for(s, 0);
    lemma_rates_for(s, 1);
    lemma_rates_for(s, 2);
    lemma_round_counts();
}

proof fn lemma_round_counts()
    ensures
        count_steps(0, 8, 0) == 4,
        count_steps(0, 8, 1) == 2,
        count_steps(0, 8, 2) == 1,
{
    reveal_with_fuel(count_steps, 9);
}

#[verifier::rlimit(40)]
proof fn lemma_rates_for(s: FrameSequencer, kind: u8)
    requires
        s.wf(),
    ensures
        count_events(s, 1048576, kind) == 64 * count_steps(0, 8, kind),
{
    let c = s.counter as nat;
    lemma_one_step(s, kind);
    let t = FrameSequencer { counter: 2048, step: ((s.step + 1) % 8) as u8 };
    lemma_periods(t.step, 511, kind);
    let u = FrameSequencer { counter: 2048, step: ((t.step + 511) % 8) as u8 };
    lemma_quiet(u, (2048 - c) as nat, kind);
    lemma_split(s, c, (1048576 - c) as nat, kind);
    lemma_split(t, 2048 * 511, (2048 - c) as nat, kind);
    assert(1048576 - c == 2048 * 511 + (2048 - c));
    // the 512 steps run from s.step; regroup them as 64 rounds of eight
    lemma_steps_split(s.step, 1, 511, kind);
    reveal_with_fuel(count_steps, 2);
    lemma_eight_steps(s.step, 64, kind);
    assert(8 * 64 == 512nat);
    assert(((s.step + 1) % 8) as u8 == t.step);
}

/// The accumulated cycle count never runs ahead of the elapsed sample time.
#[verifier::opaque]
pub open spec fn mixer_bound(count: u32, rate: u32, elapsed: u32) -> bool {
    count * rate <= elapsed
}

proof fn lemma_mixer_bound_le(count: u32, rate: u32, elapsed: u32)
    requires
        mixer_bound(count, rate, elapsed),
        rate >= 1,
    ensures
        count <= elapsed,
{
    reveal(mixer_bound);
    assert(count <= count * rate) by (nonlinear_arith)
        requires
            rate >= 1,
    ;
}

proof fn lemma_mixer_bound_step(count: u32, rate: u32, elapsed: u32)
    requires
        mixer_bound(count, rate, elapsed),
        elapsed + rate <= u32::MAX,
        count + 1 <= u32::MAX,
    ensures
        mixer_bound((count + 1) as u32, rate, (elapsed + rate) as u32),
{
    reveal(mixer_bound);
    assert((count + 1) * rate == count * rate + rate) by (nonlinear_arith);
}

/// The sum of the channel levels that a four-bit routing nibble sends to one side:
/// bit `k` sends channel `k + 1`.
pub open spec fn routed_sum(routing: u8, s1: int, s2: int, s3: int, s4: int) -> int {
    (if routing % 2 == 1 { s1 } else { 0 }) + (if (routing / 2) % 2 == 1 { s2 } else { 0 }) + (if (routing / 4) % 2
        == 1 { s3 } else { 0 }) + (if (routing / 8) % 2 == 1 { s4 } else { 0 })
}

/// Sums the four channel outputs routed to one side: bit `k` of `routing` sends
/// channel `k + 1`.
fn mix(routing: u8, s1: i32, s2: i32, s3: i32, s4: i32) -> (r: i32)
    requires
        -15 <= s1 <= 15,
        -15 <= s2 <= 15,
        0 <= s3 <= 15,
        0 <= s4 <= 15,
    ensures
        -60 <= r <= 60,
        r == routed_sum(routing, s1 as int, s2 as int, s3 as int, s4 as int),
{
    (if routing % 2 == 1 { s1 } else { 0 }) + (if (routing / 2) % 2 == 1 { s2 } else { 0 }) + (if (routing / 4) % 2
        == 1 { s3 } else { 0 }) + (if (routing / 8) % 2 == 1 { s4 } else { 0 })
}

proof fn lemma_mixer_bound_zero(rate: u32, elapsed: u32)
    ensures
        mixer_bound(0, rate, elapsed),
{
    reveal(mixer_bound);
    assert(0 * rate == 0) by (nonlinear_arith);
}

/// Mixed output of one host sample period: the summed left and right channel
/// levels over `count` machine cycles, and the master volumes (0..=7) to apply.
#[derive(Clone, Copy, PartialEq, Eq, Debug)]
pub struct StereoFrame {
    pub left: i32,
    pub right: i32,
    pub count: u32,
    pub left_volume: u8,
    pub right_volume: u8,
}

pub struct APU {
    pub tone_sweep: ToneSweep,
    pub tone: Tone,
    pub wave: Wave,
    pub noise: Noise,
    /// NR50: master volumes and VIN routing.
    pub nr50: u8,
    /// NR51: per-channel left/right routing.
    pub nr51: u8,
    pub enable_sound: bool,
    pub frame_sequencer: FrameSequencer,
    pub left_sum: i32,
    pub right_sum: i32,
    pub sample_count: u32,
    /// Elapsed time since the last frame, in units of 1/`clock_hz` seconds scaled
    /// by `sample_rate`.
    pub clock_count: u32,
    /// Machine cycles per second: doubled in CGB double-speed mode.
    pub clock_hz: u32,
    pub sample_rate: u32,
    /// Frames mixed and not yet collected by the host.
    pub samples: Vec<StereoFrame>,
}

impl APU {
    /// The mixer over one machine cycle: while sound is on, this cycle's mixed levels
    /// join the running sums, and once a host sample period has elapsed the sums
    /// leave as one frame with the master volumes.
    pub open spec fn mix_step(self, next: APU) -> bool {
        &&& next.sample_rate == self.sample_rate && next.clock_hz == self.clock_hz && next.nr50 == self.nr50
            && next.nr51 == self.nr51 && next.enable_sound == self.enable_sound
        &&& (!self.enable_sound ==> next.samples@ == self.samples@ && next.sample_count == self.sample_count
            && next.clock_count == self.clock_count && next.left_sum == self.left_sum && next.right_sum == self.right_sum)
        &&& (self.enable_sound && self.clock_count + self.sample_rate < self.clock_hz ==> next.samples@
            == self.samples@ && next.sample_count == self.sample_count + 1 && next.clock_count == self.clock_count
            + self.sample_rate && next.left_sum == self.left_sum + self.mixed(true) && next.right_sum
            == self.right_sum + self.mixed(false))
        &&& (self.enable_sound && self.clock_count + self.sample_rate >= self.clock_hz ==> {
            &&& next.samples@ == self.samples@.push(
                StereoFrame {
                    left: (self.left_sum + self.mixed(true)) as i32,
                    right: (self.right_sum + self.mixed(false)) as i32,
                    count: (self.sample_count + 1) as u32,
                    left_volume: ((self.nr50 / 16) % 8) as u8,
                    right_volume: (self.nr50 % 8) as u8,
                },
            )
            &&& next.sample_count == 0 && next.left_sum == 0 && next.right_sum == 0
            &&& next.clock_count == self.clock_count + self.sample_rate - self.clock_hz
        })
    }

    /// This machine cycle's mixed level on the left (NR51 high nibble) or right side.
    pub open spec fn mixed(&self, left: bool) -> int {
        routed_sum(
            if left { self.nr51 / 16 } else { self.nr51 % 16 },
            self.tone_sweep.spec_sample(),
            self.tone.spec_sample(),
            self.wave.spec_sample() as int,
            self.noise.spec_sample() as int,
        )
    }

    pub open spec fn wf(&self) -> bool {
        &&& self.tone_sweep.wf()
        &&& self.tone.wf()
        &&& self.wave.wf()
        &&& self.noise.wf()
        &&& self.frame_sequencer.wf()
        &&& 1 <= self.sample_rate <= BASE_CLOCK_HZ
        &&& (self.clock_hz == BASE_CLOCK_HZ || self.clock_hz == 2 * BASE_CLOCK_HZ as int)
        &&& self.clock_count < self.clock_hz
        &&& mixer_bound(self.sample_count, self.sample_rate, self.clock_count)
        &&& -60 * self.sample_count <= self.left_sum <= 60 * self.sample_count
        &&& -60 * self.sample_count <= self.right_sum <= 60 * self.sample_count
    }

    pub fn new(sample_rate: u32) -> (r: Self)
        requires
            1 <= sample_rate <= BASE_CLOCK_HZ,
        ensures
            r.wf(),
            r.sample_rate == sample_rate,
            r.clock_hz == BASE_CLOCK_HZ,
            r.samples@.len() == 0,
            !r.enable_sound,
    {
        let r = APU {
            tone_sweep: ToneSweep::new(),
            tone: Tone::new(),
            wave: Wave::new(),
            noise: Noise::new(),
            nr50: 0,
            nr51: 0,
            enable_sound: false,
            frame_sequencer: FrameSequencer::new(),
            left_sum: 0,
            right_sum: 0,
            sample_count: 0,
            clock_count: 0,
            clock_hz: BASE_CLOCK_HZ,
            sample_rate,
            samples: Vec::new(),
        };
        proof {
            lemma_mixer_bound_zero(sample_rate, 0);
        }
        r
    }

    pub fn read(&self, addr: u16) -> (r: u8)
        requires
            self.wf(),
        ensures
            addr == 0xFF24 ==> r == self.nr50,
            addr == 0xFF25 ==> r == self.nr51,
            addr == 0xFF26 ==> r == (if self.enable_sound { 0x80int } else { 0 }) + (if self.noise.length_counter.enabled {
                8int
            } else {
                0
            }) + (if self.wave.length_counter.enabled { 4int } else { 0 }) + (if self.tone.length_counter.enabled {
                2int
            } else {
                0
            }) + (if self.tone_sweep.tone.length_counter.enabled { 1int } else { 0 }),
            0xFF30 <= addr <= 0xFF3F ==> r == self.wave.wave_table@[addr - 0xFF30],
    {
        if 0xFF10 <= addr && addr <= 0xFF14 {
            self.tone_sweep.read(addr)
        } else if 0xFF16 <= addr && addr <= 0xFF19 {
            self.tone.read(addr)
        } else if 0xFF1A <= addr && addr <= 0xFF1E {
            self.wave.read(addr)
        } else if 0xFF20 <= addr && addr <= 0xFF23 {
            self.noise.read(addr)
        } else if addr == 0xFF24 {
            self.nr50
        } else if addr == 0xFF25 {
            self.nr51
        } else if addr == 0xFF26 {
            (if self.enable_sound { 0x80u8 } else { 0 }) + (if self.noise.playing_sound() { 8u8 } else { 0 }) + (
            if self.wave.playing_sound() { 4u8 } else { 0 }) + (if self.tone.playing_sound() { 2u8 } else { 0 })
                + (if self.tone_sweep.playing_sound() { 1u8 } else { 0 })
        } else if 0xFF30 <= addr && addr <= 0xFF3F {
            self.wave.read_wave_table(addr)
        } else {
            0xFF
        }
    }

    /// Register writes at 0xFF10..0xFF3F. Clearing NR52 bit 7 powers the APU
    /// down, which resets all four channels.
    pub fn write(&mut self, addr: u16, value: u8)
        requires
            old(self).wf(),
        ensures
            final(self).wf(),
            final(self).samples@ == old(self).samples@,
            final(self).sample_rate == old(self).sample_rate,
            final(self).clock_hz == old(self).clock_hz,
            addr == 0xFF24 ==> final(self).nr50 == value,
            addr == 0xFF25 ==> final(self).nr51 == value,
            addr == 0xFF26 ==> final(self).enable_sound == (value >= 0x80),
            addr == 0xFF26 && value < 0x80 ==> !final(self).tone_sweep.tone.length_counter.enabled
                && !final(self).tone.length_counter.enabled && !final(self).wave.length_counter.enabled
                && !final(self).noise.length_counter.enabled,
            0xFF30 <= addr <= 0xFF3F ==> final(self).wave.wave_table@ == old(self).wave.wave_table@.update(
                addr - 0xFF30,
                value,
            ),
            0xFF16 <= addr <= 0xFF19 ==> (addr == 0xFF16 ==> final(self).tone.wave_duty == value / 64 && final(self).tone.length_counter.length == 64
                - value % 64),
            0xFF16 <= addr <= 0xFF19 ==> (addr == 0xFF18 ==> final(self).tone.freq == old(self).tone.freq / 256 * 256 + value),
            0xFF16 <= addr <= 0xFF19 ==> (addr == 0xFF19 ==> final(self).tone.freq == (value % 8) * 256 + old(self).tone.freq % 256 && final(self).tone.use_length
                == (value % 128 >= 64)),
            0xFF16 <= addr <= 0xFF19 ==> (addr == 0xFF19 && value >= 0x80 ==> final(self).tone.length_counter.enabled && final(self).tone.duty_pos == 0
                && final(self).tone.timer.counter == 2048 - old(self).tone.freq && final(self).tone.envelope.volume
                == old(self).tone.envelope.reload),
            0xFF16 <= addr <= 0xFF19 ==> final(self).wave == old(self).wave && final(self).noise == old(self).noise && final(self).tone_sweep == old(self).tone_sweep,
            0xFF1A <= addr <= 0xFF1E ==> (final(self).wave.wave_table@ == old(self).wave.wave_table@),
            0xFF1A <= addr <= 0xFF1E ==> (addr == 0xFF1A ==> final(self).wave.enabled == (value >= 0x80)),
            0xFF1A <= addr <= 0xFF1E ==> (addr == 0xFF1B ==> final(self).wave.length_counter.length == 256 - value),
            0xFF1A <= addr <= 0xFF1E ==> (addr == 0xFF1C ==> final(self).wave.output_level == (value / 32) % 4),
            0xFF1A <= addr <= 0xFF1E ==> (addr == 0xFF1D ==> final(self).wave.freq == old(self).wave.freq / 256 * 256 + value),
            0xFF1A <= addr <= 0xFF1E ==> (addr == 0xFF1E ==> final(self).wave.freq == (value % 8) * 256 + old(self).wave.freq % 256),
            0xFF1A <= addr <= 0xFF1E ==> (addr == 0xFF1E && value >= 0x80 ==> final(self).wave.length_counter.enabled && final(self).wave.wave_pos == 0
                && final(self).wave.timer.counter == 2 * (2048 - old(self).wave.freq)),
            0xFF1A <= addr <= 0xFF1E ==> final(self).tone == old(self).tone && final(self).noise == old(self).noise && final(self).tone_sweep == old(self).tone_sweep,
            0xFF20 <= addr <= 0xFF23 ==> (addr == 0xFF20 ==> final(self).noise.length_counter.length == 64 - value % 64),
            0xFF20 <= addr <= 0xFF23 ==> (addr == 0xFF22 ==> final(self).noise.clock_shift == value / 16 && final(self).noise.width_mode == (value % 16
                >= 8) && final(self).noise.divisor_code == value % 8),
            0xFF20 <= addr <= 0xFF23 ==> (addr == 0xFF23 && value >= 0x80 ==> final(self).noise.length_counter.enabled && final(self).noise.lfsr
                == 0x7FFF && !final(self).noise.envelope.done),
            0xFF20 <= addr <= 0xFF23 ==> final(self).tone == old(self).tone && final(self).wave == old(self).wave && final(self).tone_sweep == old(self).tone_sweep,
            0xFF10 <= addr <= 0xFF14 ==> (addr == 0xFF10 ==> final(self).tone_sweep.sweep_period == (value / 16) % 8 && final(self).tone_sweep.sweep_negate == (value
                % 16 >= 8) && final(self).tone_sweep.sweep_shift == value % 8),
            ({
                let ts = final(self).tone_sweep;
                0xFF10 <= addr <= 0xFF14 && addr == 0xFF14 && value >= 0x80 ==> ts.freq_latch == ts.tone.freq
                    && ts.sweep_enabled == ((ts.sweep_period != 0 || ts.sweep_shift != 0) && !(ts.sweep_shift != 0
                    && swept_freq(ts.freq_latch, ts.sweep_shift, ts.sweep_negate) >= 0x800))
            }),
            0xFF10 <= addr <= 0xFF14 ==> final(self).tone == old(self).tone && final(self).wave == old(self).wave && final(self).noise == old(self).noise,
    {
        if 0xFF10 <= addr && addr <= 0xFF14 {
            self.tone_sweep.write(addr, value);
        } else if 0xFF16 <= addr && addr <= 0xFF19 {
            self.tone.write(addr, value);
        } else if 0xFF1A <= addr && addr <= 0xFF1E {
            self.wave.write(addr, value);
        } else if 0xFF20 <= addr && addr <= 0xFF23 {
            self.noise.write(addr, value);
        } else if addr == 0xFF24 {
            self.nr50 = value;
        } else if addr == 0xFF25 {
            self.nr51 = value;
        } else if addr == 0xFF26 {
            self.enable_sound = value >= 0x80;
            if !self.enable_sound {
                self.tone_sweep = ToneSweep::new();
                self.tone = Tone::new();
                let table = self.wave.wave_table.clone();
                self.wave = Wave::new();
                self.wave.wave_table = table;
                self.noise = Noise::new();
            }
        } else if 0xFF30 <= addr && addr <= 0xFF3F {
            self.wave.write_wave_table(addr, value);
        }
    }

    /// Selects the machine-cycle rate that the host sample period is measured in.
    pub fn set_double_speed(&mut self, double_speed: bool)
        requires
            old(self).wf(),
        ensures
            final(self).wf(),
            final(self).clock_hz == (if double_speed { 2 * BASE_CLOCK_HZ as int } else { BASE_CLOCK_HZ as int }),
            final(self).samples@ == old(self).samples@,
    {
        self.clock_hz = if double_speed { 2 * BASE_CLOCK_HZ } else { BASE_CLOCK_HZ };
        self.left_sum = 0;
        self.right_sum = 0;
        self.sample_count = 0;
        self.clock_count = 0;
        proof {
            lemma_mixer_bound_zero(self.sample_rate, 0);
        }
    }

    /// Runs the frame sequencer one machine cycle and clocks what its step asks for.
    #[verifier::rlimit(40)]
    pub fn emulate_frame_counter(&mut self)
        requires
            old(self).wf(),
        ensures
            final(self).wf(),
            final(self).frame_sequencer == old(self).frame_sequencer.next(),
            final(self).samples@ == old(self).samples@,
            final(self).sample_rate == old(self).sample_rate,
            final(self).clock_hz == old(self).clock_hz,
            final(self).clock_count == old(self).clock_count,
            final(self).sample_count == old(self).sample_count,
            final(self).left_sum == old(self).left_sum,
            final(self).right_sum == old(self).right_sum,
            final(self).enable_sound == old(self).enable_sound,
            final(self).nr51 == old(self).nr51,
            final(self).nr50 == old(self).nr50,
            ({
                let fs = old(self).frame_sequencer;
                let fire = fs.counter == 1;
                let len = fire && has_event(fs.step, 0);
                let env = fire && has_event(fs.step, 2);
                &&& (!len && !env ==> final(self).tone == old(self).tone && final(self).wave == old(self).wave
                    && final(self).noise == old(self).noise)
                &&& (!fire ==> final(self).tone_sweep == old(self).tone_sweep)
                &&& (len ==> final(self).tone == old(self).tone.length_step() && final(self).wave
                    == old(self).wave.length_step() && final(self).noise == old(self).noise.length_step())
                &&& (env ==> final(self).tone == old(self).tone.envelope_step() && final(self).noise
                    == old(self).noise.envelope_step() && final(self).wave == old(self).wave)
            }),
    {
        let ev = self.frame_sequencer.clock();
        if ev % 2 == 1 {
            self.clock_length_counters();
        }
        if (ev / 2) % 2 == 1 {
            self.tone_sweep.clock_sweep();
        }
        if ev >= 4 {
            self.clock_envelopes();
        }
    }

    fn clock_length_counters(&mut self)
        requires
            old(self).wf(),
        ensures
            final(self).wf(),
            final(self).tone == old(self).tone.length_step(),
            final(self).wave == old(self).wave.length_step(),
            final(self).noise == old(self).noise.length_step(),
            final(self).frame_sequencer == old(self).frame_sequencer,
            final(self).samples == old(self).samples,
            final(self).sample_rate == old(self).sample_rate,
            final(self).clock_hz == old(self).clock_hz,
            final(self).clock_count == old(self).clock_count,
            final(self).sample_count == old(self).sample_count,
            final(self).left_sum == old(self).left_sum,
            final(self).right_sum == old(self).right_sum,
            final(self).enable_sound == old(self).enable_sound,
            final(self).nr50 == old(self).nr50,
            final(self).nr51 == old(self).nr51,
    {
        self.tone_sweep.clock_length_counter();
        self.tone.clock_length_counter();
        self.wave.clock_length_counter();
        self.noise.clock_length_counter();
    }

    fn clock_envelopes(&mut self)
        requires
            old(self).wf(),
        ensures
            final(self).wf(),
            final(self).tone == old(self).tone.envelope_step(),
            final(self).noise == old(self).noise.envelope_step(),
            final(self).wave == old(self).wave,
            final(self).frame_sequencer == old(self).frame_sequencer,
            final(self).samples == old(self).samples,
            final(self).sample_rate == old(self).sample_rate,
            final(self).clock_hz == old(self).clock_hz,
            final(self).clock_count == old(self).clock_count,
            final(self).sample_count == old(self).sample_count,
            final(self).left_sum == old(self).left_sum,
            final(self).right_sum == old(self).right_sum,
            final(self).enable_sound == old(self).enable_sound,
            final(self).nr50 == old(self).nr50,
            final(self).nr51 == old(self).nr51,
    {
        self.tone_sweep.clock_envelope();
        self.tone.clock_envelope();
        self.noise.clock_envelope();
    }

    /// Adds this machine cycle's routed channel outputs to the running sums and,
    /// once a host sample period has elapsed, emits them as one frame.
    #[verifier::rlimit(40)]
    fn generate_sample(&mut self)
        requires
            old(self).wf(),
        ensures
            final(self).wf(),
            final(self).frame_sequencer == old(self).frame_sequencer,
            final(self).tone == old(self).tone && final(self).tone_sweep == old(self).tone_sweep,
            final(self).wave == old(self).wave && final(self).noise == old(self).noise,
            old(self).mix_step(*final(self)),
    {
        if !self.enable_sound {
            return;
        }
        let s1 = self.tone_sweep.generate_sample() as i32;
        let s2 = self.tone.generate_sample() as i32;
        let s3 = self.wave.generate_sample() as i32;
        let s4 = self.noise.generate_sample() as i32;
        let left = mix(self.nr51 / 16, s1, s2, s3, s4);
        let right = mix(self.nr51 % 16, s1, s2, s3, s4);
        proof {
            lemma_mixer_bound_le(self.sample_count, self.sample_rate, self.clock_count);
            lemma_mixer_bound_step(self.sample_count, self.sample_rate, self.clock_count);
        }
        self.left_sum = self.left_sum + left;
        self.right_sum = self.right_sum + right;
        self.sample_count = self.sample_count + 1;
        self.clock_count = self.clock_count + self.sample_rate;
        if self.clock_count >= self.clock_hz {
            let frame = StereoFrame {
                left: self.left_sum,
                right: self.right_sum,
                count: self.sample_count,
                left_volume: (self.nr50 / 16) % 8,
                right_volume: self.nr50 % 8,
            };
            self.samples.push(frame);
            self.left_sum = 0;
            self.right_sum = 0;
            self.sample_count = 0;
            self.clock_count = self.clock_count - self.clock_hz;
            proof {
                lemma_mixer_bound_zero(self.sample_rate, self.clock_count);
            }
        }
    }

    /// One machine cycle of audio: channel timers (the wave channel's twice), the
    /// frame sequencer, and mixing.
    pub fn emulate_clock(&mut self)
        requires
            old(self).wf(),
        ensures
            final(self).wf(),
            final(self).frame_sequencer == old(self).frame_sequencer.next(),
            final(self).samples@.len() <= old(self).samples@.len() + 1,
            old(self).samples@.is_prefix_of(final(self).samples@),
            exists|mid: APU|
                #![trigger mid.mix_step(*final(self))]
                {
                    &&& mid.mix_step(*final(self))
                    &&& mid.samples@ == old(self).samples@ && mid.sample_count == old(self).sample_count
                    &&& mid.clock_count == old(self).clock_count && mid.left_sum == old(self).left_sum
                    &&& mid.right_sum == old(self).right_sum && mid.sample_rate == old(self).sample_rate
                    &&& mid.clock_hz == old(self).clock_hz && mid.nr50 == old(self).nr50 && mid.nr51 == old(self).nr51
                    &&& mid.enable_sound == old(self).enable_sound
                    &&& mid.frame_sequencer == old(self).frame_sequencer.next()
                    &&& ({
                        let fs = old(self).frame_sequencer;
                        let fire = fs.counter == 1;
                        let len = fire && has_event(fs.step, 0);
                        let env = fire && has_event(fs.step, 2);
                        let t = old(self).tone.clock_step();
                        let w = old(self).wave.clock_step().clock_step();
                        let n = old(self).noise.clock_step();
                        &&& mid.tone == (if len { t.length_step() } else if env { t.envelope_step() } else { t })
                        &&& mid.wave == (if len { w.length_step() } else { w })
                        &&& mid.noise == (if len { n.length_step() } else if env { n.envelope_step() } else { n })
                        &&& (!fire ==> mid.tone_sweep == (ToneSweep {
                            tone: old(self).tone_sweep.tone.clock_step(),
                            ..old(self).tone_sweep
                        }))
                    })
                },
    {
        self.tone_sweep.emulate_clock();
        self.tone.emulate_clock();
        self.wave.emulate_clock();
        self.wave.emulate_clock();
        self.noise.emulate_clock();
        self.emulate_frame_counter();
        let ghost mid = *self;
        self.generate_sample();
        assert(mid.mix_step(*self));
    }

    /// Hands the mixed frames to the host and empties the queue.
    pub fn take_samples(&mut self) -> (r: Vec<StereoFrame>)
        requires
            old(self).wf(),
        ensures
            final(self).wf(),
            r@ == old(self).samples@,
            final(self).samples@.len() == 0,
    {
        let mut r: Vec<StereoFrame> = Vec::new();
        std::mem::swap(&mut r, &mut self.samples);
        r
    }
}

} // verus!
