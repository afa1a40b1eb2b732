//! The CPU register file: eight 8-bit registers paired as AF/BC/DE/HL, the stack
//! pointer and the program counter.
use vstd::prelude::*;

verus! {

/// One of the four flags held in the high nibble of F.
#[derive(Clone, Copy, PartialEq, Eq, Structural)]
pub enum Flag {
    Z,
    N,
    H,
    C,
}

pub open spec fn flag_mask(flag: Flag) -> u8 {
    match flag {
        Flag::Z => 0x80,
        Flag::N => 0x40,
        Flag::H => 0x20,
        Flag::C => 0x10,
    }
}

impl Flag {
    pub fn mask(self) -> (r: u8)
        ensures
            r == flag_mask(self),
    {
        match self {
            Flag::Z => 0x80,
            Flag::N => 0x40,
            Flag::H => 0x20,
            Flag::C => 0x10,
        }
    }
}

/// An 8-bit register operand.
#[derive(Clone, Copy, PartialEq, Eq, Structural)]
pub enum Reg8 {
    B,
    C,
    D,
    E,
    H,
    L,
    A,
}

/// A 16-bit register operand: the three general pairs, SP, and AF.
#[derive(Clone, Copy, PartialEq, Eq, Structural)]
pub enum Reg16 {
    BC,
    DE,
    HL,
    SP,
    AF,
}

pub struct Registers {
    pub a: u8,
    pub f: u8,
    pub b: u8,
    pub c: u8,
    pub d: u8,
    pub e: u8,
    pub h: u8,
    pub l: u8,
    pub sp: u16,
    pub pc: u16,
}

/// A 16-bit value made of a high and a low byte.
pub open spec fn pair(hi: u8, lo: u8) -> u16 {
    (hi * 256 + lo) as u16
}

impl Registers {
    /// The low nibble of F is always zero.
    pub open spec fn wf(&self) -> bool {
        self.f & 0x0F == 0
    }

    pub open spec fn spec_get8(&self, r: Reg8) -> u8 {
        match r {
            Reg8::B => self.b,
            Reg8::C => self.c,
            Reg8::D => self.d,
            Reg8::E => self.e,
            Reg8::H => self.h,
            Reg8::L => self.l,
            Reg8::A => self.a,
        }
    }

    pub open spec fn spec_get16(&self, r: Reg16) -> u16 {
        match r {
            Reg16::BC => pair(self.b, self.c),
            Reg16::DE => pair(self.d, self.e),
            Reg16::HL => pair(self.h, self.l),
            Reg16::SP => self.sp,
            Reg16::AF => pair(self.a, self.f),
        }
    }

    /// The registers with 8-bit register `r` replaced by `v`.
    pub open spec fn with8(self, r: Reg8, v: u8) -> Registers {
        match r {
            Reg8::B => Registers { b: v, ..self },
            Reg8::C => Registers { c: v, ..self },
            Reg8::D => Registers { d: v, ..self },
            Reg8::E => Registers { e: v, ..self },
            Reg8::H => Registers { h: v, ..self },
            Reg8::L => Registers { l: v, ..self },
            Reg8::A => Registers { a: v, ..self },
        }
    }

    /// The registers with 16-bit register `r` replaced by `v`; writing AF drops the
    /// low nibble of F.
    pub open spec fn with16(self, r: Reg16, v: u16) -> Registers {
        let hi = (v / 256) as u8;
        let lo = (v % 256) as u8;
        match r {
            Reg16::BC => Registers { b: hi, c: lo, ..self },
            Reg16::DE => Registers { d: hi, e: lo, ..self },
            Reg16::HL => Registers { h: hi, l: lo, ..self },
            Reg16::SP => Registers { sp: v, ..self },
            Reg16::AF => Registers { a: hi, f: (lo - lo % 16) as u8, ..self },
        }
    }

    pub fn new() -> (r: Self)
        ensures
            r.wf(),
            r.a == 0 && r.f == 0 && r.b == 0 && r.c == 0 && r.d == 0 && r.e == 0 && r.h == 0 && r.l
                == 0 && r.sp == 0 && r.pc == 0,
    {
        let r = Registers { a: 0, f: 0, b: 0, c: 0, d: 0, e: 0, h: 0, l: 0, sp: 0, pc: 0 };
        assert(0u8 & 0x0F == 0) by (bit_vector);
        r
    }

    pub fn get8(&self, r: Reg8) -> (v: u8)
        ensures
            v == self.spec_get8(r),
    {
        match r {
            Reg8::B => self.b,
            Reg8::C => self.c,
            Reg8::D => self.d,
            Reg8::E => self.e,
            Reg8::H => self.h,
            Reg8::L => self.l,
            Reg8::A => self.a,
        }
    }

    pub fn set8(&mut self, r: Reg8, v: u8)
        ensures
            *final(self) == old(self).with8(r, v),
    {
        match r {
            Reg8::B => self.b = v,
            Reg8::C => self.c = v,
            Reg8::D => self.d = v,
            Reg8::E => self.e = v,
            Reg8::H => self.h = v,
            Reg8::L => self.l = v,
            Reg8::A => self.a = v,
        }
    }

    pub fn get16(&self, r: Reg16) -> (v: u16)
        ensures
            v == self.spec_get16(r),
    {
        match r {
            Reg16::BC => self.b as u16 * 256 + self.c as u16,
            Reg16::DE => self.d as u16 * 256 + self.e as u16,
            Reg16::HL => self.h as u16 * 256 + self.l as u16,
            Reg16::SP => self.sp,
            Reg16::AF => self.a as u16 * 256 + self.f as u16,
        }
    }

    pub fn set16(&mut self, r: Reg16, v: u16)
        requires
            old(self).wf(),
        ensures
            *final(self) == old(self).with16(r, v),
            final(self).wf(),
    {
        let hi = (v / 256) as u8;
        let lo = (v % 256) as u8;
        match r {
            Reg16::BC => {
                self.b = hi;
                self.c = lo;
            },
            Reg16::DE => {
                self.d = hi;
                self.e = lo;
            },
            Reg16::HL => {
                self.h = hi;
                self.l = lo;
            },
            Reg16::SP => self.sp = v,
            Reg16::AF => {
                self.a = hi;
                self.f = lo - lo % 16;
                let f = self.f;
                assert(f & 0x0F == 0) by (bit_vector)
                    requires
                        f == lo - lo % 16,
                ;
            },
        }
    }

    /// Sets `flag` when `condition` holds and clears it otherwise.
    pub fn change_flag(&mut self, condition: bool, flag: Flag)
        requires
            old(self).wf(),
        ensures
            final(self).f == (if condition {
                old(self).f | flag_mask(flag)
            } else {
                old(self).f & !flag_mask(flag)
            }),
            *final(self) == (Registers { f: final(self).f, ..*old(self) }),
            final(self).wf(),
    {
        if condition {
            self.set_flag(flag);
        } else {
            self.clear_flag(flag);
        }
    }

    pub fn set_flag(&mut self, flag: Flag)
        requires
            old(self).wf(),
        ensures
            final(self).f == old(self).f | flag_mask(flag),
            *final(self) == (Registers { f: final(self).f, ..*old(self) }),
            final(self).wf(),
    {
        let m = flag.mask();
        proof {
            lemma_mask_nibble(self.f, m);
        }
        self.f = self.f | m;
    }

    /// Sets every flag whose bit is set in `flags`.
    pub fn set_flags(&mut self, flags: u8)
        requires
            old(self).wf(),
            flags & 0x0F == 0,
        ensures
            final(self).f == old(self).f | flags,
            *final(self) == (Registers { f: final(self).f, ..*old(self) }),
            final(self).wf(),
    {
        let f = self.f;
        assert((f | flags) & 0x0F == 0) by (bit_vector)
            requires
                f & 0x0F == 0,
                flags & 0x0F == 0,
        ;
        self.f = self.f | flags;
    }

    pub fn clear_flag(&mut self, flag: Flag)
        requires
            old(self).wf(),
        ensures
            final(self).f == old(self).f & !flag_mask(flag),
            *final(self) == (Registers { f: final(self).f, ..*old(self) }),
            final(self).wf(),
    {
        let m = flag.mask();
        proof {
            lemma_mask_nibble(self.f, m);
        }
        self.f = self.f & !m;
    }

    /// Clears every flag whose bit is set in `flags`.
    pub fn clear_flags(&mut self, flags: u8)
        requires
            old(self).wf(),
        ensures
            final(self).f == old(self).f & !flags,
            *final(self) == (Registers { f: final(self).f, ..*old(self) }),
            final(self).wf(),
    {
        let f = self.f;
        assert((f & !flags) & 0x0F == 0) by (bit_vector)
            requires
                f & 0x0F == 0,
        ;
        self.f = self.f & !flags;
    }

    pub fn get_flag(&self, flag: Flag) -> (r: bool)
        ensures
            r == (self.f & flag_mask(flag) != 0),
    {
        self.f & flag.mask() != 0
    }
}

/// Setting or clearing one flag bit keeps F's low nibble zero, reads back as
/// requested, and leaves the other bits alone.
pub proof fn lemma_mask_nibble(f: u8, m: u8)
    requires
        f & 0x0F == 0,
        m == 0x80 || m == 0x40 || m == 0x20 || m == 0x10,
    ensures
        (f | m) & 0x0F == 0,
        (f & !m) & 0x0F == 0,
        (f | m) & m != 0,
        (f & !m) & m == 0,
        forall|k: u8|
            (k == 0x80 || k == 0x40 || k == 0x20 || k == 0x10) && k != m ==> ((f | m) & k != 0) == (f
                & k != 0) && ((f & !m) & k != 0) == (f & k != 0),
{
    assert((f | m) & 0x0F == 0 && (f & !m) & 0x0F == 0 && (f | m) & m != 0 && (f & !m) & m == 0)
        by (bit_vector)
        requires
            f & 0x0F == 0,
            m == 0x80 || m == 0x40 || m == 0x20 || m == 0x10,
    ;
    assert forall|k: u8|
        (k == 0x80 || k == 0x40 || k == 0x20 || k == 0x10) && k != m implies ((f | m) & k != 0) == (f
        & k != 0) && ((f & !m) & k != 0) == (f & k != 0) by {
        assert(((f | m) & k != 0) == (f & k != 0) && ((f & !m) & k != 0) == (f & k != 0))
            by (bit_vector)
            requires
                (k == 0x80 || k == 0x40 || k == 0x20 || k == 0x10) && k != m,
                m == 0x80 || m == 0x40 || m == 0x20 || m == 0x10,
        ;
    }
}

/// Register round trips: a flag written with `change_flag` reads back as written
/// while the other flags keep their values, and a 16-bit value written to a
/// register pair reads back unchanged (for AF, with the low nibble of F dropped).
pub proof fn lemma_register_round_trip(regs: Registers, cond: bool, flag: Flag, other: Flag, r: Reg16, v: u16)
    requires
        regs.wf(),
        other != flag,
    ensures
        ({
            let f = if cond { regs.f | flag_mask(flag) } else { regs.f & !flag_mask(flag) };
            (f & flag_mask(flag) != 0) == cond && (f & flag_mask(other) != 0) == (regs.f & flag_mask(other) != 0)
        }),
        r != Reg16::AF ==> regs.with16(r, v).spec_get16(r) == v,
        r == Reg16::AF ==> regs.with16(r, v).spec_get16(r) == v - v % 16,
        regs.with16(r, v).wf(),
{
    lemma_mask_nibble(regs.f, flag_mask(flag));
    let m = flag_mask(flag);
    let k = flag_mask(other);
    assert(k != m);
    assert(((regs.f | m) & k != 0) == (regs.f & k != 0));
    assert(((regs.f & !m) & k != 0) == (regs.f & k != 0));
    let lo = (v % 256) as u8;
    assert((lo - lo % 16) as u8 & 0x0F == 0) by (bit_vector);
}

} // verus!
