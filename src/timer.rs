//! The DIV/TIMA/TMA/TAC timer: a 16-bit internal counter whose high byte is DIV,
//! and a TIMA counter bumped on falling edges of one selected counter bit.
use vstd::prelude::*;
use crate::interrupts::TIMER_INT;

verus! {

pub struct Timer {
    pub divider_counter: u16,
    pub counter: u8,
    pub modulo: u8,
    pub enabled: bool,
    pub clock_select: u8,
    pub prev_counter_bit: bool,
    pub overflowed: bool,
    pub reloaded: bool,
}

/// The internal-counter bit that TAC's clock select samples.
pub open spec fn select_bit(clock_select: u8) -> u16 {
    if clock_select == 0 {
        9
    } else if clock_select == 1 {
        3
    } else if clock_select == 2 {
        5
    } else {
        7
    }
}

/// The sampled signal: the enable bit AND the selected counter bit.
pub open spec fn counter_bit(enabled: bool, clock_select: u8, divider_counter: u16) -> bool {
    enabled && divider_counter & (1u16 << select_bit(clock_select)) != 0
}

impl Timer {
    pub open spec fn wf(&self) -> bool {
        self.clock_select < 4
    }

    pub open spec fn spec_read(&self, addr: u16) -> u8 {
        if addr == 0xFF04 {
            (self.divider_counter / 256) as u8
        } else if addr == 0xFF05 {
            self.counter
        } else if addr == 0xFF06 {
            self.modulo
        } else if addr == 0xFF07 {
            (0xF8 + (if self.enabled { 4int } else { 0 }) + self.clock_select) as u8
        } else {
            0xFF
        }
    }

    /// The timer one machine cycle later.
    pub open spec fn next(self) -> Timer {
        let c0 = if self.overflowed { self.modulo } else { self.counter };
        let div = ((self.divider_counter + 4) % 65536) as u16;
        let bit = counter_bit(self.enabled, self.clock_select, div);
        let falling = self.prev_counter_bit && !bit;
        Timer {
            divider_counter: div,
            counter: if falling { ((c0 + 1) % 256) as u8 } else { c0 },
            overflowed: falling && c0 == 255,
            reloaded: self.overflowed,
            prev_counter_bit: bit,
            ..self
        }
    }

    /// The interrupt bits this machine cycle raises: the timer interrupt one cycle
    /// after an overflow.
    pub open spec fn raised(self) -> u8 {
        if self.overflowed { TIMER_INT } else { 0 }
    }

    pub fn new() -> (r: Self)
        ensures
            r.wf(),
            r.divider_counter == 8 && r.counter == 0 && r.modulo == 0 && !r.enabled && r.clock_select == 0,
            !r.prev_counter_bit && !r.overflowed && !r.reloaded,
    {
        Timer {
            divider_counter: 8,
            counter: 0,
            modulo: 0,
            enabled: false,
            clock_select: 0,
            prev_counter_bit: false,
            overflowed: false,
            reloaded: false,
        }
    }

    /// Advances the timer by one machine cycle (four counter ticks). A TIMA overflow
    /// seen on the previous cycle reloads TIMA from TMA now and raises the timer
    /// interrupt, whose bit is returned.
    pub fn emulate(&mut self) -> (r: u8)
        requires
            old(self).wf(),
        ensures
            final(self).wf(),
            *final(self) == old(self).next(),
            r == old(self).raised(),
            r == (if old(self).overflowed { TIMER_INT } else { 0 }),
            final(self).reloaded == old(self).overflowed,
            final(self).divider_counter == (old(self).divider_counter + 4) % 65536,
            final(self).modulo == old(self).modulo,
            final(self).enabled == old(self).enabled,
            final(self).clock_select == old(self).clock_select,
            final(self).prev_counter_bit == counter_bit(
                old(self).enabled,
                old(self).clock_select,
                final(self).divider_counter,
            ),
            ({
                let c0 = if old(self).overflowed { old(self).modulo } else { old(self).counter };
                let falling = old(self).prev_counter_bit && !final(self).prev_counter_bit;
                &&& final(self).counter == (if falling { ((c0 + 1) % 256) as u8 } else { c0 })
                &&& final(self).overflowed == (falling && c0 == 255)
            }),
    {
        let interrupt = if self.overflowed {
            self.counter = self.modulo;
            self.reloaded = true;
            TIMER_INT
        } else {
            self.reloaded = false;
            0
        };
        self.overflowed = false;
        self.divider_counter = self.divider_counter.wrapping_add(4);

        let bit: u16 = if self.clock_select == 0 {
            9
        } else if self.clock_select == 1 {
            3
        } else if self.clock_select == 2 {
            5
        } else {
            7
        };
        let counter_bit = self.enabled && self.divider_counter & (1u16 << bit) != 0;
        if self.prev_counter_bit && !counter_bit {
            if self.counter == 0xFF {
                self.overflowed = true;
                self.counter = 0;
            } else {
                self.counter = self.counter + 1;
            }
        }
        self.prev_counter_bit = counter_bit;
        interrupt
    }

    pub fn read(&self, addr: u16) -> (r: u8)
        requires
            self.wf(),
        ensures
            r == self.spec_read(addr),
    {
        if addr == 0xFF04 {
            (self.divider_counter / 256) as u8
        } else if addr == 0xFF05 {
            self.counter
        } else if addr == 0xFF06 {
            self.modulo
        } else if addr == 0xFF07 {
            0xF8 + (if self.enabled { 4u8 } else { 0 }) + self.clock_select
        } else {
            0xFF
        }
    }

    /// Writing DIV zeroes the whole internal counter; a TIMA write is dropped in the
    /// cycle of a reload; a TMA write in that cycle is copied into TIMA too.
    pub fn write(&mut self, addr: u16, value: u8)
        requires
            old(self).wf(),
        ensures
            final(self).wf(),
            addr == 0xFF04 ==> *final(self) == (Timer { divider_counter: 0, ..*old(self) }),
            addr == 0xFF05 ==> *final(self) == (Timer {
                counter: if old(self).reloaded { old(self).counter } else { value },
                overflowed: false,
                ..*old(self)
            }),
            addr == 0xFF06 ==> *final(self) == (Timer {
                modulo: value,
                counter: if old(self).reloaded { value } else { old(self).counter },
                ..*old(self)
            }),
            addr == 0xFF07 ==> *final(self) == (Timer {
                enabled: value & 0x04 != 0,
                clock_select: value & 0x03,
                ..*old(self)
            }),
            !(0xFF04 <= addr <= 0xFF07) ==> *final(self) == *old(self),
    {
        if addr == 0xFF04 {
            self.divider_counter = 0;
        } else if addr == 0xFF05 {
            if !self.reloaded {
                self.counter = value;
            }
            self.overflowed = false;
        } else if addr == 0xFF06 {
            self.modulo = value;
            if self.reloaded {
                self.counter = value;
            }
        } else if addr == 0xFF07 {
            self.enabled = value & 0x04 != 0;
            self.clock_select = value & 0x03;
            assert(value & 0x03 < 4) by (bit_vector);
        }
    }
}

/// Writing DIV while the enabled timer's selected counter bit is 1 (and has been
/// sampled as 1) makes the next machine cycle see a falling edge: TIMA goes up by
/// exactly one, wrapping to 0 with an overflow pending when it was 0xFF; the cycle
/// after that sees no edge, so TIMA is bumped only once.
pub proof fn lemma_div_write_bumps_tima(t: Timer, value: u8)
    requires
        t.wf(),
        t.enabled,
        !t.overflowed,
        t.prev_counter_bit,
    ensures
        ({
            let t1 = (Timer { divider_counter: 0, ..t }).next();
            &&& t1.counter == ((t.counter + 1) % 256) as u8
            &&& t1.overflowed == (t.counter == 255)
            &&& !t1.prev_counter_bit
            &&& t.counter != 255 ==> t1.next().counter == t1.counter
        }),
{
    let s = select_bit(t.clock_select);
    assert(s == 3 || s == 5 || s == 7 || s == 9);
    assert(4u16 & (1u16 << s) == 0) by (bit_vector)
        requires
            s == 3 || s == 5 || s == 7 || s == 9,
    ;
}

} // verus!
