//! The SM83 CPU: instruction fetch, decode and execute with one bus machine cycle
//! per memory access or internal step, interrupt dispatch, HALT and IME.
use vstd::prelude::*;
use crate::alu::{
    alu_op, alu_spec, lemma_flag_bits_nibble, inc8, dec8, add16, add_sp8, daa8, cpl8, ccf8, scf8, shift8, bit8,
    set8, res8, Shift, c_of, z_of, n_of, flag_bits, shift_result, shift_carry, daa_result, daa_carry,
};
use crate::bus::{IO, stable_addr, lemma_stable_reads};
use crate::registers::{Registers, Reg8, Reg16};

verus! {

/// Why the CPU stopped.
#[derive(Clone, Copy, PartialEq, Eq, Debug)]
pub enum CpuError {
    /// One of the eleven unused opcodes was fetched at `pc`.
    IllegalOpcode { opcode: u8, pc: u16 },
}

pub const INTERRUPT_VECTORS: [u16; 5] = [0x0040, 0x0048, 0x0050, 0x0058, 0x0060];

/// The unused opcodes of the main page.
pub open spec fn illegal_opcode(op: u8) -> bool {
    op == 0xD3 || op == 0xDB || op == 0xDD || op == 0xE3 || op == 0xE4 || op == 0xEB || op == 0xEC || op
        == 0xED || op == 0xF4 || op == 0xFC || op == 0xFD
}

/// Whether branch condition `cc` (NZ, Z, NC, C) holds for flags `f`.
pub open spec fn cond_holds(cc: u8, f: u8) -> bool {
    if cc == 0 {
        !z_of(f)
    } else if cc == 1 {
        z_of(f)
    } else if cc == 2 {
        !c_of(f)
    } else {
        c_of(f)
    }
}

pub open spec fn inc16(a: u16, n: int) -> u16 {
    ((a + n + 65536) % 65536) as u16
}

/// Both bytes of a little-endian word at `a` lie in ROM or RAM.
pub open spec fn stable2(a: u16) -> bool {
    stable_addr(a) && stable_addr(inc16(a, 1))
}

/// The little-endian word at `a`.
pub open spec fn word_at(io: IO, a: u16) -> u16 {
    (io.spec_read(inc16(a, 1)) * 256 + io.spec_read(a)) as u16
}

/// The target of a relative jump whose offset byte is at `pc`.
pub open spec fn jr_target(io: IO, pc: u16) -> u16 {
    inc16(pc, 1 + crate::alu::signed(io.spec_read(pc)))
}

/// NOP, LD (nn),SP, STOP, JR e and JR cc,e (opcodes 0x00..0x38 step 8): NOP and
/// STOP keep the registers; JR moves PC past its offset and, when taken, by it.
#[verifier::opaque]
pub open spec fn jr_effect(op: u8, r: Registers, io: IO, r1: Registers) -> bool {
    let y = (op / 8) % 8;
    &&& (y == 0 || y == 2 ==> r1 == r)
    &&& (y == 1 ==> r1 == (Registers { pc: inc16(r.pc, 2), ..r }))
    &&& (y == 3 && stable_addr(r.pc) ==> r1 == (Registers { pc: jr_target(io, r.pc), ..r }))
    &&& (y >= 4 && stable_addr(r.pc) ==> r1 == (Registers {
        pc: if cond_holds((y - 4) as u8, r.f) { jr_target(io, r.pc) } else { inc16(r.pc, 1) },
        ..r
    }))
}

/// LD rr,nn (opcodes 0x01..0x31 step 0x10): the pair takes the word after the opcode.
#[verifier::opaque]
pub open spec fn ld16_effect(op: u8, r: Registers, io: IO, r1: Registers) -> bool {
    stable2(r.pc) ==> r1 == (Registers { pc: inc16(r.pc, 2), ..r }).with16(reg16_sp_of((op / 8) % 8 / 2), word_at(io, r.pc))
}

/// LD (BC)/(DE)/(HL+)/(HL-),A and the loads into A (opcodes 0x02..0x3A step 8).
#[verifier::opaque]
pub open spec fn indirect_effect(op: u8, r: Registers, io: IO, r1: Registers, io1: IO) -> bool {
    let y = (op / 8) % 8;
    let p = y / 2;
    let hl = r.spec_get16(Reg16::HL);
    let addr = if p == 0 { r.spec_get16(Reg16::BC) } else if p == 1 { r.spec_get16(Reg16::DE) } else { hl };
    let step = |x: Registers| if p == 2 { x.with16(Reg16::HL, inc16(hl, 1)) } else if p == 3 { x.with16(Reg16::HL, inc16(hl, -1)) } else { x };
    &&& (y % 2 == 0 ==> r1 == step(r) && (in_ram(addr) ==> io1.spec_read(addr) == r.a))
    &&& (y % 2 == 1 && stable_addr(addr) ==> r1 == step(Registers { a: io.spec_read(addr), ..r }))
}

/// RET, RET cc, RETI and POP rr: words come off the stack.
#[verifier::opaque]
pub open spec fn pop_effect(op: u8, r: Registers, io: IO, r1: Registers) -> bool {
    let y = (op / 8) % 8;
    let popped = Registers { sp: inc16(r.sp, 2), pc: word_at(io, r.sp), ..r };
    &&& (op == 0xC9 && stable2(r.sp) ==> r1 == popped)
    &&& (op < 0xE0 && op % 8 == 0 && stable2(r.sp) ==> r1 == (if cond_holds(y, r.f) { popped } else { r }))
    &&& (op % 16 == 1 && stable2(r.sp) ==> r1 == (Registers { sp: inc16(r.sp, 2), ..r }).with16(
        if y / 2 == 0 { Reg16::BC } else if y / 2 == 1 { Reg16::DE } else if y / 2 == 2 { Reg16::HL } else { Reg16::AF },
        word_at(io, r.sp),
    ))
}

/// JP nn, JP cc,nn, CALL nn and CALL cc,nn: PC moves past the address and, when
/// taken, to it; a taken call pushes the return address.
#[verifier::opaque]
pub open spec fn jump_effect(op: u8, r: Registers, io: IO, r1: Registers, io1: IO) -> bool {
    let y = (op / 8) % 8;
    let taken = op == 0xC3 || op == 0xCD || (op % 8 != 5 && y < 4 && cond_holds(y, r.f));
    let ret = inc16(r.pc, 2);
    let is_call = op == 0xCD || (op % 8 == 4 && y < 4);
    &&& (stable2(r.pc) && !taken ==> r1 == (Registers { pc: ret, ..r }))
    &&& (stable2(r.pc) && taken && !is_call ==> r1 == (Registers { pc: word_at(io, r.pc), ..r }))
    &&& (stable2(r.pc) && taken && is_call ==> r1 == (Registers { pc: word_at(io, r.pc), sp: inc16(r.sp, -2), ..r }))
    &&& (taken && is_call && in_ram(inc16(r.sp, -1)) && in_ram(inc16(r.sp, -2)) ==> io1.spec_read(inc16(r.sp, -1))
        == ret / 256 && io1.spec_read(inc16(r.sp, -2)) == ret % 256)
}

/// PUSH rr: SP drops by two and the pair lands on the stack.
#[verifier::opaque]
pub open spec fn push_effect(op: u8, r: Registers, io1: IO, r1: Registers) -> bool {
    let y = (op / 8) % 8;
    let v = r.spec_get16(if y / 2 == 0 { Reg16::BC } else if y / 2 == 1 { Reg16::DE } else if y / 2 == 2 { Reg16::HL } else { Reg16::AF });
    &&& r1 == (Registers { sp: inc16(r.sp, -2), ..r })
    &&& (in_ram(inc16(r.sp, -1)) && in_ram(inc16(r.sp, -2)) ==> io1.spec_read(inc16(r.sp, -1)) == v / 256
        && io1.spec_read(inc16(r.sp, -2)) == v % 256)
}

/// LDH (n),A / LDH A,(n) / LD (C),A / LD A,(C) / LD (nn),A / LD A,(nn).
#[verifier::opaque]
pub open spec fn high_load_effect(op: u8, r: Registers, io: IO, r1: Registers, io1: IO) -> bool {
    let n_addr = (0xFF00 + io.spec_read(r.pc)) as u16;
    let c_addr = (0xFF00 + r.c) as u16;
    &&& (op == 0xE0 && stable_addr(r.pc) ==> r1 == (Registers { pc: inc16(r.pc, 1), ..r }) && (in_ram(n_addr)
        ==> io1.spec_read(n_addr) == r.a))
    &&& (op == 0xF0 && stable_addr(r.pc) && stable_addr(n_addr) ==> r1 == (Registers {
        pc: inc16(r.pc, 1),
        a: io.spec_read(n_addr),
        ..r
    }))
    &&& (op == 0xE2 ==> r1 == r && (in_ram(c_addr) ==> io1.spec_read(c_addr) == r.a))
    &&& (op == 0xF2 && stable_addr(c_addr) ==> r1 == (Registers { a: io.spec_read(c_addr), ..r }))
    &&& (op == 0xEA && stable2(r.pc) ==> r1 == (Registers { pc: inc16(r.pc, 2), ..r }) && (in_ram(word_at(io, r.pc))
        ==> io1.spec_read(word_at(io, r.pc)) == r.a))
    &&& (op == 0xFA && stable2(r.pc) && stable_addr(word_at(io, r.pc)) ==> r1 == (Registers {
        pc: inc16(r.pc, 2),
        a: io.spec_read(word_at(io, r.pc)),
        ..r
    }))
}

/// ADD SP,e (0xE8) and LD HL,SP+e (0xF8) with the offset byte at PC: the sum goes
/// to SP or HL, Z and N clear, H and C from the unsigned add of the low byte.
#[verifier::opaque]
pub open spec fn sp_offset_effect(op: u8, r: Registers, io: IO, r1: Registers) -> bool {
    let e = io.spec_read(r.pc);
    let sum = inc16(r.sp, crate::alu::signed(e));
    let f = flag_bits(false, false, r.sp % 16 + e % 16 >= 16, r.sp % 256 + e >= 256);
    &&& (op == 0xE8 && stable_addr(r.pc) ==> r1 == (Registers { pc: inc16(r.pc, 1), sp: sum, f, ..r }))
    &&& (op == 0xF8 && stable_addr(r.pc) ==> r1 == (Registers { pc: inc16(r.pc, 1), f, ..r }).with16(Reg16::HL, sum))
}

/// Interrupt requests only accumulate: bits set in `a` stay set in `c`.
proof fn lemma_flags_grow(a: u8, b: u8, c: u8)
    requires
        a & !b == 0,
        b & !c == 0,
    ensures
        a & !c == 0,
{
    assert(a & !c == 0) by (bit_vector)
        requires
            a & !b == 0,
            b & !c == 0,
    ;
}

/// Work RAM and high RAM: addresses whose bytes read back as written.
pub open spec fn in_ram(addr: u16) -> bool {
    0xC000 <= addr <= 0xDFFF || 0xFF80 <= addr <= 0xFFFE
}

/// The 8-bit register that operand index `idx` (0..8, not 6) names: B C D E H L - A.
pub open spec fn reg8_of(idx: u8) -> Reg8 {
    if idx == 0 {
        Reg8::B
    } else if idx == 1 {
        Reg8::C
    } else if idx == 2 {
        Reg8::D
    } else if idx == 3 {
        Reg8::E
    } else if idx == 4 {
        Reg8::H
    } else if idx == 5 {
        Reg8::L
    } else {
        Reg8::A
    }
}

/// The pair that `p` (0..4) names in 16-bit loads and arithmetic: BC DE HL SP.
pub open spec fn reg16_sp_of(p: u8) -> Reg16 {
    if p == 0 {
        Reg16::BC
    } else if p == 1 {
        Reg16::DE
    } else if p == 2 {
        Reg16::HL
    } else {
        Reg16::SP
    }
}

/// The accumulator rotate or CB-page shift that `y` (0..8) names.
pub open spec fn shift_of(y: u8) -> Shift {
    if y == 0 {
        Shift::Rlc
    } else if y == 1 {
        Shift::Rrc
    } else if y == 2 {
        Shift::Rl
    } else if y == 3 {
        Shift::Rr
    } else if y == 4 {
        Shift::Sla
    } else if y == 5 {
        Shift::Sra
    } else if y == 6 {
        Shift::Swap
    } else {
        Shift::Srl
    }
}

/// What a main-page instruction that touches only registers does to them: LD r,r',
/// the accumulator operations on registers, INC/DEC on registers and pairs, ADD
/// HL,rr, the accumulator rotates, DAA, CPL, SCF, CCF, JP (HL) and LD SP,HL.
/// `None` for every other opcode.
#[verifier::opaque]
pub open spec fn register_effect(op: u8, r: Registers) -> Option<Registers> {
    let y = (op / 8) % 8;
    let z = op % 8;
    let p = y / 2;
    let q = y % 2;
    if op < 0x40 {
        if z == 3 {
            pair_step_effect(reg16_sp_of(p), q == 0, r)
        } else if (z == 4 || z == 5) && y != 6 {
            inc_dec_effect(reg8_of(y), z == 4, r)
        } else if z == 1 && q == 1 {
            add_hl_effect(reg16_sp_of(p), r)
        } else if z == 7 {
            accumulator_effect(y, r)
        } else {
            None
        }
    } else if op < 0x80 {
        if op != 0x76 && z != 6 && y != 6 {
            Some(r.with8(reg8_of(y), r.spec_get8(reg8_of(z))))
        } else {
            None
        }
    } else if op < 0xC0 {
        if z != 6 {
            let b = r.spec_get8(reg8_of(z));
            Some(Registers { a: alu_spec(y, r.a, b, r.f).0, f: alu_spec(y, r.a, b, r.f).1, ..r })
        } else {
            None
        }
    } else if op == 0xE9 {
        Some(Registers { pc: r.spec_get16(Reg16::HL), ..r })
    } else if op == 0xF9 {
        Some(Registers { sp: r.spec_get16(Reg16::HL), ..r })
    } else {
        None
    }
}

/// INC rr (`up`) or DEC rr.
pub open spec fn pair_step_effect(rr: Reg16, up: bool, r: Registers) -> Option<Registers> {
    let v = r.spec_get16(rr);
    Some(r.with16(rr, (if up { (v + 1) % 65536 } else { (v + 65535) % 65536 }) as u16))
}

/// INC r (`up`) or DEC r on a register; C is kept.
pub open spec fn inc_dec_effect(reg: Reg8, up: bool, r: Registers) -> Option<Registers> {
    let v = r.spec_get8(reg);
    if up {
        let n = ((v + 1) % 256) as u8;
        Some(Registers { f: flag_bits(n == 0, false, n % 16 == 0, c_of(r.f)), ..r.with8(reg, n) })
    } else {
        let n = ((v + 255) % 256) as u8;
        Some(Registers { f: flag_bits(n == 0, true, n % 16 == 15, c_of(r.f)), ..r.with8(reg, n) })
    }
}

/// ADD HL,rr: Z kept, N clear, H and C from bits 11 and 15.
pub open spec fn add_hl_effect(rr: Reg16, r: Registers) -> Option<Registers> {
    let hl = r.spec_get16(Reg16::HL);
    let v = r.spec_get16(rr);
    Some(
        Registers {
            f: flag_bits(z_of(r.f), false, hl % 4096 + v % 4096 >= 4096, hl + v > 65535),
            ..r.with16(Reg16::HL, ((hl + v) % 65536) as u16)
        },
    )
}

/// Opcodes 0x07..0x3F step 8: RLCA RRCA RLA RRA (Z cleared), DAA, CPL, SCF, CCF.
pub open spec fn accumulator_effect(y: u8, r: Registers) -> Option<Registers> {
    if y < 4 {
        Some(
            Registers {
                a: shift_result(shift_of(y), r.a, c_of(r.f)),
                f: flag_bits(false, false, false, shift_carry(shift_of(y), r.a)),
                ..r
            },
        )
    } else if y == 4 {
        Some(
            Registers {
                a: daa_result(r.a, r.f),
                f: flag_bits(daa_result(r.a, r.f) == 0, n_of(r.f), false, daa_carry(r.a, r.f)),
                ..r
            },
        )
    } else if y == 5 {
        Some(Registers { a: (255 - r.a) as u8, f: flag_bits(z_of(r.f), true, true, c_of(r.f)), ..r })
    } else if y == 6 {
        Some(Registers { f: flag_bits(z_of(r.f), false, false, true), ..r })
    } else {
        Some(Registers { f: flag_bits(z_of(r.f), false, false, !c_of(r.f)), ..r })
    }
}

/// What a CB-page opcode on a register (not (HL)) does to the registers:
/// shift/rotate with Z from the result and C the bit shifted out, BIT setting Z
/// from the tested bit, RES and SET.
pub open spec fn cb_effect(op: u8, r: Registers) -> Option<Registers> {
    let x = op / 64;
    let y = (op / 8) % 8;
    let z = op % 8;
    if z == 6 {
        None
    } else {
        let reg = reg8_of(z);
        let v = r.spec_get8(reg);
        if x == 0 {
            let n = shift_result(shift_of(y), v, c_of(r.f));
            Some(Registers { f: flag_bits(n == 0, false, false, shift_carry(shift_of(y), v)), ..r.with8(reg, n) })
        } else if x == 1 {
            Some(Registers { f: flag_bits(v & (1u8 << y) == 0, false, true, c_of(r.f)), ..r })
        } else if x == 2 {
            Some(r.with8(reg, v & !(1u8 << y)))
        } else {
            Some(r.with8(reg, v | (1u8 << y)))
        }
    }
}

/// On the 0xC0.. page only JP (HL) and LD SP,HL are register-only.
proof fn lemma_block3_effect(op: u8, r: Registers)
    requires
        op >= 0xC0,
    ensures
        register_effect(op, r) == (if op == 0xE9 {
            Some(Registers { pc: r.spec_get16(Reg16::HL), ..r })
        } else if op == 0xF9 {
            Some(Registers { sp: r.spec_get16(Reg16::HL), ..r })
        } else {
            None
        }),
{
    reveal(register_effect);
}

/// For INC rr / DEC rr the register table entry is the pair step.
#[verifier::rlimit(100)]
proof fn lemma_pair_step_effect(op: u8, r: Registers)
    requires
        op <= 0x3F,
        op % 8 == 3,
    ensures
        register_effect(op, r) == pair_step_effect(reg16_sp_of(((op / 8) % 8) / 2), ((op / 8) % 8) % 2 == 0, r),
{
    reveal(register_effect);
    if op == 3 {
    } else if op == 11 {
    } else if op == 19 {
    } else if op == 27 {
    } else if op == 35 {
    } else if op == 43 {
    } else if op == 51 {
    } else {
        assert(op == 59);
    }
}

pub fn reg8(idx: u8) -> (r: Reg8)
    ensures
        r == reg8_of(idx),
{
    if idx == 0 {
        Reg8::B
    } else if idx == 1 {
        Reg8::C
    } else if idx == 2 {
        Reg8::D
    } else if idx == 3 {
        Reg8::E
    } else if idx == 4 {
        Reg8::H
    } else if idx == 5 {
        Reg8::L
    } else {
        Reg8::A
    }
}

/// The register pair that `p` (0..4) names in loads and 16-bit arithmetic.
pub fn reg16_sp(p: u8) -> (r: Reg16)
    ensures
        r != Reg16::AF,
        r == reg16_sp_of(p),
{
    if p == 0 {
        Reg16::BC
    } else if p == 1 {
        Reg16::DE
    } else if p == 2 {
        Reg16::HL
    } else {
        Reg16::SP
    }
}

/// The register pair that `p` (0..4) names in PUSH and POP.
pub fn reg16_af(p: u8) -> (r: Reg16)
    ensures
        r == (if p == 0 {
            Reg16::BC
        } else if p == 1 {
            Reg16::DE
        } else if p == 2 {
            Reg16::HL
        } else {
            Reg16::AF
        }),
{
    if p == 0 {
        Reg16::BC
    } else if p == 1 {
        Reg16::DE
    } else if p == 2 {
        Reg16::HL
    } else {
        Reg16::AF
    }
}

pub fn illegal(op: u8) -> (r: bool)
    ensures
        r == illegal_opcode(op),
{
    op == 0xD3 || op == 0xDB || op == 0xDD || op == 0xE3 || op == 0xE4 || op == 0xEB || op == 0xEC || op == 0xED
        || op == 0xF4 || op == 0xFC || op == 0xFD
}

/// HALT: registers and IME kept; with IME set or nothing pending the CPU halts,
/// otherwise the HALT bug makes the next fetch leave PC where it is.
pub open spec fn halt_effect(c: CPU, io: IO, next: CPU) -> bool {
    &&& next.regs == c.regs && next.ime == c.ime && next.prev_ime == c.prev_ime
    &&& (c.ime || io.int_enable & io.int_flags & 0x1F == 0 ==> next.is_halted && next.halt_bug == c.halt_bug)
    &&& (!(c.ime || io.int_enable & io.int_flags & 0x1F == 0) ==> next.halt_bug && next.is_halted == c.is_halted)
}

/// RETI: PC is the word popped from the stack (when the stack is in ROM or RAM) and
/// SP rises by two.
pub open spec fn reti_effect(r: Registers, io: IO, r1: Registers) -> bool {
    let sp1 = ((r.sp + 1) % 65536) as u16;
    &&& r1 == (Registers { sp: ((r.sp + 2) % 65536) as u16, pc: r1.pc, ..r })
    &&& (stable_addr(r.sp) && stable_addr(sp1) ==> r1.pc == io.spec_read(sp1) * 256 + io.spec_read(r.sp))
}

/// The byte a CB-page opcode leaves in its operand when the operand held `v`
/// (BIT leaves it unchanged).
pub open spec fn cb_value(op: u8, v: u8, f: u8) -> u8 {
    let x = op / 64;
    let y = (op / 8) % 8;
    if x == 0 {
        shift_result(shift_of(y), v, c_of(f))
    } else if x == 1 {
        v
    } else if x == 2 {
        v & !(1u8 << y)
    } else {
        v | (1u8 << y)
    }
}

/// The F a CB-page opcode leaves when its operand held `v`: shifts set Z from the
/// result and C from the bit shifted out, BIT sets Z from the tested bit and H,
/// RES and SET keep F.
pub open spec fn cb_flags(op: u8, v: u8, f: u8) -> u8 {
    let x = op / 64;
    let y = (op / 8) % 8;
    if x == 0 {
        flag_bits(cb_value(op, v, f) == 0, false, false, shift_carry(shift_of(y), v))
    } else if x == 1 {
        flag_bits(v & (1u8 << y) == 0, false, true, c_of(f))
    } else {
        f
    }
}

/// A CB-prefixed instruction whose second byte is at PC (in ROM or RAM): PC moves
/// past it and the opcode acts on its register, or on (HL) in ROM or RAM, with one
/// machine cycle per extra bus access; with (HL) in RAM, the byte there afterwards
/// is the shifted, reset or set value (left unchanged by BIT).
pub open spec fn cb_step(r: Registers, io: IO, r1: Registers, io1: IO) -> bool {
    let op = io.spec_read(r.pc);
    let r0 = Registers { pc: ((r.pc + 1) % 65536) as u16, ..r };
    let hl = r.spec_get16(Reg16::HL);
    &&& (cb_effect(op, r0) matches Some(x) ==> r1 == x && io1.cycles == (io.cycles + 4) % 0x1_0000_0000_0000_0000)
    &&& (op % 8 == 6 ==> io1.cycles == (io.cycles + (if op / 64 == 1 { 8int } else { 12 })) % 0x1_0000_0000_0000_0000)
    &&& (op % 8 == 6 && stable_addr(hl) ==> r1 == (Registers { f: cb_flags(op, io.spec_read(hl), r.f), ..r0 }))
    &&& (op % 8 == 6 && in_ram(hl) ==> io1.spec_read(hl) == cb_value(op, io.spec_read(hl), r.f))
}

/// Registers after accumulator operation `op` with operand `b`.
pub open spec fn alu_regs(op: u8, r: Registers, b: u8) -> Registers {
    Registers { a: alu_spec(op, r.a, b, r.f).0, f: alu_spec(op, r.a, b, r.f).1, ..r }
}

/// The lowest set bit among the five interrupt bits of `p` (4 when only bit 4 or
/// none is set).
pub open spec fn lowest_pending(p: u8) -> u8 {
    if p & 1 != 0 {
        0
    } else if p & 2 != 0 {
        1
    } else if p & 4 != 0 {
        2
    } else if p & 8 != 0 {
        3
    } else {
        4
    }
}

/// Neither stack slot of the return-address push is IE (0xFFFF) or IF (0xFF0F).
pub open spec fn pushes_avoid_flags(sp1: u16, sp2: u16) -> bool {
    sp1 != 0xFFFF && sp1 != 0xFF0F && sp2 != 0xFFFF && sp2 != 0xFF0F
}

/// What servicing interrupt `bit` does: SP drops by two, PC goes to the bit's
/// vector (or 0x0000 when the push cancelled it), five machine cycles pass; when
/// the push does not touch IE or IF and the request was pending, PC is the vector
/// and the IF bit is cleared (other requests kept); with the stack in RAM the
/// return address is on the stack.
pub open spec fn dispatch_effect(regs: Registers, io0: IO, regs1: Registers, io1: IO, bit: u8) -> bool {
    let sp1 = ((regs.sp + 65535) % 65536) as u16;
    let sp2 = ((regs.sp + 65534) % 65536) as u16;
    let mask = 1u8 << bit;
    &&& regs1 == (Registers { sp: sp2, pc: regs1.pc, ..regs })
    &&& (regs1.pc == INTERRUPT_VECTORS@[bit as int] || regs1.pc == 0)
    &&& io1.cycles == (io0.cycles + 20) % 0x1_0000_0000_0000_0000
    &&& (pushes_avoid_flags(sp1, sp2) && io0.int_flags & io0.int_enable & mask != 0 ==> {
        &&& regs1.pc == INTERRUPT_VECTORS@[bit as int]
        &&& io1.int_flags & mask == 0
        &&& (io0.int_flags & !mask) & !io1.int_flags == 0
    })
    &&& (in_ram(sp1) && in_ram(sp2) ==> io1.spec_read(sp1) == regs.pc / 256 && io1.spec_read(sp2) == regs.pc % 256)
}

/// The registers at decode time: PC past the opcode, or left on it after the HALT bug.
pub open spec fn after_fetch(regs: Registers, halt_bug: bool) -> Registers {
    if halt_bug {
        regs
    } else {
        Registers { pc: ((regs.pc + 1) % 65536) as u16, ..regs }
    }
}

/// One instruction from `regs`: some opcode `op` is fetched at PC (the byte there
/// when PC is in ROM or RAM); the step fails exactly when `op` is unused, with the
/// registers left as after the fetch; a register-only instruction has the effect
/// `register_effect` gives.
pub open spec fn executes(regs: Registers, halt_bug: bool, io0: IO, regs1: Registers, r: Result<(), CpuError>) -> bool {
    exists|op: u8|
        #![trigger illegal_opcode(op)]
        {
            &&& (stable_addr(regs.pc) ==> op == io0.spec_read(regs.pc))
            &&& (r is Err <==> illegal_opcode(op))
            &&& (r is Err ==> r == Err::<(), CpuError>(CpuError::IllegalOpcode { opcode: op, pc: regs.pc })
                && regs1 == after_fetch(regs, halt_bug))
            &&& (register_effect(op, after_fetch(regs, halt_bug)) matches Some(x) ==> regs1 == x)
        }
}

pub struct CPU {
    pub regs: Registers,
    pub prev_ime: bool,
    pub ime: bool,
    pub is_halted: bool,
    /// Set by the HALT bug: the next fetch does not advance PC.
    pub halt_bug: bool,
}

impl CPU {
    pub open spec fn wf(&self) -> bool {
        self.regs.wf()
    }

    /// One CPU step from this state and bus `io0` to `next` and `io1`: a stalled
    /// machine cycle during general DMA; the service of the lowest pending enabled
    /// interrupt when the IME in force is set; a halted machine cycle when nothing
    /// is pending; otherwise one instruction.
    pub open spec fn step(self, io0: IO, next: CPU, io1: IO, r: Result<(), CpuError>) -> bool {
        let pending = io0.int_flags & io0.int_enable & 0x1F;
        if io0.ppu.gdma_remaining != 0 {
            next == self && r is Ok && io1.cycles == (io0.cycles + 4) % 0x1_0000_0000_0000_0000
        } else if self.prev_ime && pending != 0 {
            &&& r is Ok
            &&& dispatch_effect(self.regs, io0, next.regs, io1, lowest_pending(pending))
            &&& !next.ime && !next.prev_ime && !next.is_halted
        } else if self.is_halted && pending == 0 {
            &&& r is Ok
            &&& next.regs == self.regs && next.is_halted && next.prev_ime == self.ime
            &&& io1.cycles == (io0.cycles + 4) % 0x1_0000_0000_0000_0000
        } else {
            &&& executes(self.regs, self.halt_bug, io0, next.regs, r)
        }
    }

    pub fn new() -> (r: Self)
        ensures
            r.wf(),
            r.regs.pc == 0 && r.regs.sp == 0,
            r.regs.a == 0 && r.regs.f == 0 && r.regs.b == 0 && r.regs.c == 0 && r.regs.d == 0 && r.regs.e == 0
                && r.regs.h == 0 && r.regs.l == 0,
            !r.ime && !r.prev_ime && !r.is_halted && !r.halt_bug,
    {
        CPU { regs: Registers::new(), prev_ime: false, ime: false, is_halted: false, halt_bug: false }
    }

    fn internal_cycle(&self, io: &mut IO)
        requires
            old(io).wf(),
        ensures
            final(io).wf(),
            final(io).in_cgb == old(io).in_cgb,
            final(io).cycles == (old(io).cycles + 4) % 0x1_0000_0000_0000_0000,
            forall|a: u16| stable_addr(a) ==> #[trigger] final(io).spec_read(a) == old(io).spec_read(a),
            old(io).int_flags & !final(io).int_flags == 0,
            final(io).int_enable == old(io).int_enable,
    {
        io.emulate_machine_cycle();
    }

    fn read_byte(&self, io: &mut IO, addr: u16) -> (r: u8)
        requires
            old(io).wf(),
        ensures
            final(io).wf(),
            final(io).in_cgb == old(io).in_cgb,
            final(io).cycles == (old(io).cycles + 4) % 0x1_0000_0000_0000_0000,
            !(0xFF10 <= addr <= 0xFF3F) ==> r == final(io).spec_read(addr),
            stable_addr(addr) ==> r == old(io).spec_read(addr),
            forall|a: u16| stable_addr(a) ==> #[trigger] final(io).spec_read(a) == old(io).spec_read(a),
            old(io).int_flags & !final(io).int_flags == 0,
            final(io).int_enable == old(io).int_enable,
    {
        io.emulate_machine_cycle();
        io.read(addr)
    }

    fn write_byte(&self, io: &mut IO, addr: u16, value: u8)
        requires
            old(io).wf(),
        ensures
            final(io).wf(),
            final(io).in_cgb == old(io).in_cgb,
            final(io).cycles == (old(io).cycles + 4) % 0x1_0000_0000_0000_0000,
            in_ram(addr) ==> final(io).spec_read(addr) == value,
            in_ram(addr) ==> forall|b: u16| stable_addr(b) && b != addr ==> #[trigger] final(io).spec_read(b)
                == old(io).spec_read(b),
            in_ram(addr) ==> old(io).int_flags & !final(io).int_flags == 0 && final(io).int_enable == old(io).int_enable,
            addr != 0xFF0F ==> old(io).int_flags & !final(io).int_flags == 0,
            addr != 0xFFFF ==> final(io).int_enable == old(io).int_enable,
    {
        io.emulate_machine_cycle();
        io.write(addr, value);
        proof {
            assert forall|b: u16| stable_addr(b) && b != addr && in_ram(addr) implies #[trigger] io.spec_read(b)
                == old(io).spec_read(b) by {}
        }
    }

    /// Writes a word little-endian: low byte at `addr`, high byte after it.
    fn write_word(&self, io: &mut IO, addr: u16, value: u16)
        requires
            old(io).wf(),
        ensures
            final(io).wf(),
            final(io).in_cgb == old(io).in_cgb,
    {
        self.write_byte(io, addr, (value % 256) as u8);
        self.write_byte(io, addr.wrapping_add(1), (value / 256) as u8);
    }

    fn read_next_byte(&mut self, io: &mut IO) -> (r: u8)
        requires
            old(self).wf(),
            old(io).wf(),
        ensures
            final(self).wf(),
            final(io).wf(),
            final(io).in_cgb == old(io).in_cgb,
            final(self).regs == (Registers { pc: ((old(self).regs.pc + 1) % 65536) as u16, ..old(self).regs }),
            stable_addr(old(self).regs.pc) ==> r == old(io).spec_read(old(self).regs.pc),
            forall|a: u16| stable_addr(a) ==> #[trigger] final(io).spec_read(a) == old(io).spec_read(a),
            final(io).cycles == (old(io).cycles + 4) % 0x1_0000_0000_0000_0000,
            final(self).ime == old(self).ime && final(self).prev_ime == old(self).prev_ime,
            final(self).is_halted == old(self).is_halted && final(self).halt_bug == old(self).halt_bug,
    {
        let value = self.read_byte(io, self.regs.pc);
        self.regs.pc = self.regs.pc.wrapping_add(1);
        value
    }

    fn read_next_word(&mut self, io: &mut IO) -> (r: u16)
        requires
            old(self).wf(),
            old(io).wf(),
        ensures
            final(self).wf(),
            final(io).wf(),
            final(io).in_cgb == old(io).in_cgb,
            final(self).regs == (Registers { pc: ((old(self).regs.pc + 2) % 65536) as u16, ..old(self).regs }),
            ({
                let pc = old(self).regs.pc;
                let pc1 = ((pc + 1) % 65536) as u16;
                stable_addr(pc) && stable_addr(pc1) ==> r == old(io).spec_read(pc1) * 256 + old(io).spec_read(pc)
            }),
            forall|a: u16| stable_addr(a) ==> #[trigger] final(io).spec_read(a) == old(io).spec_read(a),
            final(self).ime == old(self).ime && final(self).prev_ime == old(self).prev_ime,
            final(self).is_halted == old(self).is_halted && final(self).halt_bug == old(self).halt_bug,
    {
        let lo = self.read_next_byte(io);
        let hi = self.read_next_byte(io);
        hi as u16 * 256 + lo as u16
    }

    fn stack_push8(&mut self, io: &mut IO, value: u8)
        requires
            old(self).wf(),
            old(io).wf(),
        ensures
            final(self).wf(),
            final(io).wf(),
            final(io).in_cgb == old(io).in_cgb,
            final(self).regs == (Registers { sp: ((old(self).regs.sp + 65535) % 65536) as u16, ..old(self).regs }),
            final(io).cycles == (old(io).cycles + 4) % 0x1_0000_0000_0000_0000,
            in_ram(final(self).regs.sp) ==> final(io).spec_read(final(self).regs.sp) == value,
            in_ram(final(self).regs.sp) ==> forall|b: u16|
                stable_addr(b) && b != final(self).regs.sp ==> #[trigger] final(io).spec_read(b) == old(io).spec_read(b),
            in_ram(final(self).regs.sp) ==> old(io).int_flags & !final(io).int_flags == 0 && final(io).int_enable
                == old(io).int_enable,
            final(self).regs.sp != 0xFF0F ==> old(io).int_flags & !final(io).int_flags == 0,
            final(self).regs.sp != 0xFFFF ==> final(io).int_enable == old(io).int_enable,
            final(self).ime == old(self).ime && final(self).prev_ime == old(self).prev_ime,
            final(self).is_halted == old(self).is_halted && final(self).halt_bug == old(self).halt_bug,
    {
        self.regs.sp = self.regs.sp.wrapping_sub(1);
        self.write_byte(io, self.regs.sp, value);
    }

    /// Pushes a word: high byte first, so it lands at the higher address.
    fn stack_push16(&mut self, io: &mut IO, value: u16)
        requires
            old(self).wf(),
            old(io).wf(),
        ensures
            final(self).wf(),
            final(io).wf(),
            final(io).in_cgb == old(io).in_cgb,
            final(self).regs == (Registers { sp: ((old(self).regs.sp + 65534) % 65536) as u16, ..old(self).regs }),
            final(self).ime == old(self).ime && final(self).prev_ime == old(self).prev_ime,
            final(self).is_halted == old(self).is_halted && final(self).halt_bug == old(self).halt_bug,
            ({
                let sp = old(self).regs.sp;
                in_ram(inc16(sp, -1)) && in_ram(inc16(sp, -2)) ==> final(io).spec_read(inc16(sp, -1)) == value / 256
                    && final(io).spec_read(inc16(sp, -2)) == value % 256
            }),
    {
        self.stack_push8(io, (value / 256) as u8);
        self.stack_push8(io, (value % 256) as u8);
    }

    fn stack_pop8(&mut self, io: &mut IO) -> (r: u8)
        requires
            old(self).wf(),
            old(io).wf(),
        ensures
            final(self).wf(),
            final(io).wf(),
            final(io).in_cgb == old(io).in_cgb,
            final(self).regs == (Registers { sp: ((old(self).regs.sp + 1) % 65536) as u16, ..old(self).regs }),
            stable_addr(old(self).regs.sp) ==> r == old(io).spec_read(old(self).regs.sp),
            forall|a: u16| stable_addr(a) ==> #[trigger] final(io).spec_read(a) == old(io).spec_read(a),
            final(io).cycles == (old(io).cycles + 4) % 0x1_0000_0000_0000_0000,
            final(self).ime == old(self).ime && final(self).prev_ime == old(self).prev_ime,
            final(self).is_halted == old(self).is_halted && final(self).halt_bug == old(self).halt_bug,
    {
        let value = self.read_byte(io, self.regs.sp);
        self.regs.sp = self.regs.sp.wrapping_add(1);
        value
    }

    fn stack_pop16(&mut self, io: &mut IO) -> (r: u16)
        requires
            old(self).wf(),
            old(io).wf(),
        ensures
            final(self).wf(),
            final(io).wf(),
            final(io).in_cgb == old(io).in_cgb,
            final(self).regs == (Registers { sp: ((old(self).regs.sp + 2) % 65536) as u16, ..old(self).regs }),
            ({
                let sp = old(self).regs.sp;
                let sp1 = ((sp + 1) % 65536) as u16;
                stable_addr(sp) && stable_addr(sp1) ==> r == old(io).spec_read(sp1) * 256 + old(io).spec_read(sp)
            }),
            forall|a: u16| stable_addr(a) ==> #[trigger] final(io).spec_read(a) == old(io).spec_read(a),
            final(io).cycles == (old(io).cycles + 8) % 0x1_0000_0000_0000_0000,
            final(self).ime == old(self).ime && final(self).prev_ime == old(self).prev_ime,
            final(self).is_halted == old(self).is_halted && final(self).halt_bug == old(self).halt_bug,
    {
        let lo = self.stack_pop8(io);
        let hi = self.stack_pop8(io);
        hi as u16 * 256 + lo as u16
    }

    /// Reads operand `idx` (B C D E H L (HL) A); (HL) costs a bus read.
    #[verifier::rlimit(100)]
    fn get_r8(&self, io: &mut IO, idx: u8) -> (r: u8)
        requires
            self.wf(),
            old(io).wf(),
            idx < 8,
        ensures
            final(io).wf(),
            final(io).in_cgb == old(io).in_cgb,
            idx != 6 ==> r == self.regs.spec_get8(reg8_of(idx)) && *final(io) == *old(io),
            idx == 6 && stable_addr(self.regs.spec_get16(Reg16::HL)) ==> r == old(io).spec_read(
                self.regs.spec_get16(Reg16::HL),
            ),
            forall|a: u16| stable_addr(a) ==> #[trigger] final(io).spec_read(a) == old(io).spec_read(a),
            idx == 6 ==> final(io).cycles == (old(io).cycles + 4) % 0x1_0000_0000_0000_0000,
    {
        if idx == 6 {
            let hl = self.regs.get16(Reg16::HL);
            self.read_byte(io, hl)
        } else {
            self.regs.get8(reg8(idx))
        }
    }

    /// Writes operand `idx`; (HL) costs a bus write.
    #[verifier::rlimit(100)]
    fn set_r8(&mut self, io: &mut IO, idx: u8, value: u8)
        requires
            old(self).wf(),
            old(io).wf(),
            idx < 8,
        ensures
            final(self).wf(),
            final(io).wf(),
            final(io).in_cgb == old(io).in_cgb,
            idx != 6 ==> final(self).regs == old(self).regs.with8(reg8_of(idx), value) && *final(io) == *old(io),
            idx == 6 ==> final(self).regs == old(self).regs && final(io).cycles == (old(io).cycles + 4) % 0x1_0000_0000_0000_0000,
            idx == 6 && in_ram(old(self).regs.spec_get16(Reg16::HL)) ==> final(io).spec_read(
                old(self).regs.spec_get16(Reg16::HL),
            ) == value,
            final(self).ime == old(self).ime && final(self).prev_ime == old(self).prev_ime,
            final(self).is_halted == old(self).is_halted && final(self).halt_bug == old(self).halt_bug,
    {
        if idx == 6 {
            let hl = self.regs.get16(Reg16::HL);
            self.write_byte(io, hl, value);
        } else {
            self.regs.set8(reg8(idx), value);
        }
    }

    /// Applies accumulator operation `op` (ADD ADC SUB SBC AND XOR OR CP) to A and
    /// `operand`.
    fn alu(&mut self, op: u8, operand: u8)
        requires
            old(self).wf(),
        ensures
            final(self).wf(),
            final(self).regs == (Registers {
                a: alu_spec(op, old(self).regs.a, operand, old(self).regs.f).0,
                f: alu_spec(op, old(self).regs.a, operand, old(self).regs.f).1,
                ..old(self).regs
            }),
            final(self).ime == old(self).ime && final(self).prev_ime == old(self).prev_ime,
            final(self).is_halted == old(self).is_halted && final(self).halt_bug == old(self).halt_bug,
    {
        proof {
            lemma_flag_bits_nibble();
        }
        let (a, f) = alu_op(op, self.regs.a, operand, self.regs.f);
        self.regs.a = a;
        self.regs.f = f;
    }

    fn set_f(&mut self, f: u8)
        requires
            old(self).wf(),
            f & 0x0F == 0,
        ensures
            final(self).wf(),
            final(self).regs == (Registers { f, ..old(self).regs }),
            final(self).ime == old(self).ime && final(self).prev_ime == old(self).prev_ime,
            final(self).is_halted == old(self).is_halted && final(self).halt_bug == old(self).halt_bug,
    {
        self.regs.f = f;
    }

    /// Whether branch condition `cc` (NZ, Z, NC, C) holds.
    fn condition(&self, cc: u8) -> (r: bool)
        ensures
            r == cond_holds(cc, self.regs.f),
            r == (if cc == 0 {
                !z_of(self.regs.f)
            } else if cc == 1 {
                z_of(self.regs.f)
            } else if cc == 2 {
                !c_of(self.regs.f)
            } else {
                c_of(self.regs.f)
            }),
    {
        let z = self.regs.f & 0x80 != 0;
        let c = self.regs.f & 0x10 != 0;
        if cc == 0 {
            !z
        } else if cc == 1 {
            z
        } else if cc == 2 {
            !c
        } else {
            c
        }
    }

    /// Reads a relative offset and returns PC plus its signed value.
    #[verifier::rlimit(100)]
    fn relative(&mut self, io: &mut IO) -> (r: u16)
        requires
            old(self).wf(),
            old(io).wf(),
        ensures
            final(self).wf(),
            final(io).wf(),
            final(io).in_cgb == old(io).in_cgb,
            final(self).regs == (Registers { pc: inc16(old(self).regs.pc, 1), ..old(self).regs }),
            stable_addr(old(self).regs.pc) ==> r == jr_target(*old(io), old(self).regs.pc),
            final(self).ime == old(self).ime && final(self).prev_ime == old(self).prev_ime,
            final(self).is_halted == old(self).is_halted && final(self).halt_bug == old(self).halt_bug,
    {
        let e = self.read_next_byte(io);
        let ext: u16 = if e < 128 { e as u16 } else { e as u16 + 0xFF00 };
        self.regs.pc.wrapping_add(ext)
    }

    /// Reads a call target, pushes the return address, and returns the target.
    #[verifier::rlimit(100)]
    fn call(&mut self, io: &mut IO) -> (r: u16)
        requires
            old(self).wf(),
            old(io).wf(),
        ensures
            final(self).wf(),
            final(io).wf(),
            final(io).in_cgb == old(io).in_cgb,
            final(self).regs == (Registers { pc: inc16(old(self).regs.pc, 2), sp: inc16(old(self).regs.sp, -2), ..old(self).regs }),
            stable2(old(self).regs.pc) ==> r == word_at(*old(io), old(self).regs.pc),
            ({
                let ret = inc16(old(self).regs.pc, 2);
                let sp = old(self).regs.sp;
                in_ram(inc16(sp, -1)) && in_ram(inc16(sp, -2)) ==> final(io).spec_read(inc16(sp, -1)) == ret / 256
                    && final(io).spec_read(inc16(sp, -2)) == ret % 256
            }),
            final(self).ime == old(self).ime && final(self).prev_ime == old(self).prev_ime,
            final(self).is_halted == old(self).is_halted && final(self).halt_bug == old(self).halt_bug,
    {
        let addr = self.read_next_word(io);
        self.internal_cycle(io);
        let pc = self.regs.pc;
        self.stack_push16(io, pc);
        addr
    }

    #[verifier::rlimit(100)]
    fn rst(&mut self, io: &mut IO, addr: u16)
        requires
            old(self).wf(),
            old(io).wf(),
        ensures
            final(self).wf(),
            final(io).wf(),
            final(io).in_cgb == old(io).in_cgb,
            final(self).regs.pc == addr,
            final(self).regs == (Registers { pc: addr, sp: ((old(self).regs.sp + 65534) % 65536) as u16, ..old(self).regs }),
            final(self).ime == old(self).ime && final(self).prev_ime == old(self).prev_ime,
            final(self).is_halted == old(self).is_halted && final(self).halt_bug == old(self).halt_bug,
    {
        self.internal_cycle(io);
        let pc = self.regs.pc;
        self.stack_push16(io, pc);
        self.regs.pc = addr;
    }

    #[verifier::rlimit(100)]
    fn ret(&mut self, io: &mut IO) -> (r: u16)
        requires
            old(self).wf(),
            old(io).wf(),
        ensures
            final(self).wf(),
            final(io).wf(),
            final(io).in_cgb == old(io).in_cgb,
            final(self).regs == (Registers { sp: ((old(self).regs.sp + 2) % 65536) as u16, ..old(self).regs }),
            ({
                let sp = old(self).regs.sp;
                let sp1 = ((sp + 1) % 65536) as u16;
                stable_addr(sp) && stable_addr(sp1) ==> r == old(io).spec_read(sp1) * 256 + old(io).spec_read(sp)
            }),
            final(self).ime == old(self).ime && final(self).prev_ime == old(self).prev_ime,
            final(self).is_halted == old(self).is_halted && final(self).halt_bug == old(self).halt_bug,
    {
        let addr = self.stack_pop16(io);
        self.internal_cycle(io);
        addr
    }

    /// HALT: with IME set, or with nothing pending, the CPU halts until an
    /// interrupt is pending; with IME clear and an interrupt already pending, it
    /// does not halt and the next opcode fetch does not advance PC (the HALT bug).
    fn halt(&mut self, io: &IO)
        requires
            old(self).wf(),
        ensures
            final(self).wf(),
            final(self).regs == old(self).regs,
            final(self).ime == old(self).ime && final(self).prev_ime == old(self).prev_ime,
            old(self).ime || io.int_enable & io.int_flags & 0x1F == 0 ==> final(self).is_halted
                && final(self).halt_bug == old(self).halt_bug,
            !(old(self).ime || io.int_enable & io.int_flags & 0x1F == 0) ==> final(self).halt_bug
                && final(self).is_halted == old(self).is_halted,
    {
        if self.ime || io.int_enable & io.int_flags & 0x1F == 0 {
            self.is_halted = true;
        } else {
            self.halt_bug = true;
        }
    }

    /// Opcodes 0x40..0x7F: LD r, r' (0x76 is HALT).
    #[verifier::rlimit(100)]
    fn exec_load8(&mut self, io: &mut IO, opcode: u8)
        requires
            old(self).wf(),
            old(io).wf(),
            0x40 <= opcode <= 0x7F,
        ensures
            opcode != 0x76 && opcode % 8 == 6 && stable_addr(old(self).regs.spec_get16(Reg16::HL)) ==> final(self).regs
                == old(self).regs.with8(reg8_of((opcode / 8) % 8), old(io).spec_read(old(self).regs.spec_get16(Reg16::HL))),
            register_effect(opcode, old(self).regs) matches Some(x) ==> final(self).regs == x,
            final(self).wf(),
            final(io).wf(),
            final(io).in_cgb == old(io).in_cgb,
            opcode != 0x76 && opcode % 8 != 6 && (opcode / 8) % 8 != 6 ==> *final(io) == *old(io),
            opcode == 0x76 ==> halt_effect(*old(self), *old(io), *final(self)) && *final(io) == *old(io),
            opcode != 0x76 && opcode % 8 != 6 && (opcode / 8) % 8 == 6 && in_ram(old(self).regs.spec_get16(Reg16::HL))
                ==> final(io).spec_read(old(self).regs.spec_get16(Reg16::HL)) == old(self).regs.spec_get8(reg8_of(
                opcode % 8,
            )),
            opcode != 0x76 && (opcode % 8 == 6) != ((opcode / 8) % 8 == 6) ==> final(io).cycles == (old(io).cycles + 4)
                % 0x1_0000_0000_0000_0000,
            opcode != 0x76 && opcode % 8 != 6 && (opcode / 8) % 8 != 6 ==> final(self).regs == old(self).regs.with8(
                reg8_of((opcode / 8) % 8),
                old(self).regs.spec_get8(reg8_of(opcode % 8)),
            ),
    {
        reveal(register_effect);
        if opcode == 0x76 {
            self.halt(io);
            return;
        }
        let v = self.get_r8(io, opcode % 8);
        self.set_r8(io, (opcode / 8) % 8, v);
    }

    /// Opcodes 0x80..0xBF: the accumulator operations on a register or (HL).
    #[verifier::rlimit(100)]
    fn exec_alu8(&mut self, io: &mut IO, opcode: u8)
        requires
            old(self).wf(),
            old(io).wf(),
            0x80 <= opcode <= 0xBF,
        ensures
            register_effect(opcode, old(self).regs) matches Some(x) ==> final(self).regs == x,
            final(self).wf(),
            final(io).wf(),
            final(io).in_cgb == old(io).in_cgb,
            opcode % 8 != 6 ==> *final(io) == *old(io),
            opcode % 8 == 6 ==> final(io).cycles == (old(io).cycles + 4) % 0x1_0000_0000_0000_0000,
            opcode % 8 == 6 && stable_addr(old(self).regs.spec_get16(Reg16::HL)) ==> final(self).regs == alu_regs(
                (opcode / 8) % 8,
                old(self).regs,
                old(io).spec_read(old(self).regs.spec_get16(Reg16::HL)),
            ),
            opcode % 8 != 6 ==> final(self).regs == (Registers {
                a: alu_spec((opcode / 8) % 8, old(self).regs.a, old(self).regs.spec_get8(reg8_of(opcode % 8)), old(self).regs.f).0,
                f: alu_spec((opcode / 8) % 8, old(self).regs.a, old(self).regs.spec_get8(reg8_of(opcode % 8)), old(self).regs.f).1,
                ..old(self).regs
            }),
    {
        reveal(register_effect);
        let v = self.get_r8(io, opcode % 8);
        self.alu((opcode / 8) % 8, v);
    }

    /// Opcodes 0x00..0x3F: 16-bit loads and arithmetic, INC/DEC, immediate loads,
    /// accumulator rotates and flag operations, relative jumps, STOP.
    #[verifier::rlimit(100)]
    fn exec_block0(&mut self, io: &mut IO, opcode: u8)
        requires
            old(self).wf(),
            old(io).wf(),
            opcode <= 0x3F,
        ensures
            opcode % 8 == 0 ==> jr_effect(opcode, old(self).regs, *old(io), final(self).regs),
            opcode % 16 == 1 ==> ld16_effect(opcode, old(self).regs, *old(io), final(self).regs),
            opcode % 8 == 2 ==> indirect_effect(opcode, old(self).regs, *old(io), final(self).regs, *final(io)),
            final(self).wf(),
            final(io).wf(),
            final(io).in_cgb == old(io).in_cgb,
            register_effect(opcode, old(self).regs) matches Some(r) ==> final(self).regs == r,
            opcode % 8 == 6 && (opcode / 8) % 8 != 6 && stable_addr(old(self).regs.pc) ==> final(self).regs == (Registers {
                pc: ((old(self).regs.pc + 1) % 65536) as u16,
                ..old(self).regs
            }).with8(reg8_of((opcode / 8) % 8), old(io).spec_read(old(self).regs.pc)),
    {
        reveal(register_effect);
        let z = opcode % 8;
        if z == 0 {
            self.exec_jr_misc(io, opcode);
        } else if z == 1 {
            self.exec_pair_load_add(io, opcode);
        } else if z == 2 {
            self.exec_indirect_a(io, opcode);
        } else if z == 3 {
            self.exec_pair_inc_dec(io, opcode);
        } else if z == 4 || z == 5 {
            self.exec_inc_dec(io, opcode);
        } else if z == 6 {
            let v = self.read_next_byte(io);
            self.set_r8(io, (opcode / 8) % 8, v);
        } else {
            self.exec_accumulator(io, opcode);
        }
    }

    /// NOP, LD (nn),SP, STOP, JR and JR cc.
    #[verifier::rlimit(100)]
    fn exec_jr_misc(&mut self, io: &mut IO, opcode: u8)
        requires
            old(self).wf(),
            old(io).wf(),
            opcode <= 0x3F,
            opcode % 8 == 0,
        ensures
            jr_effect(opcode, old(self).regs, *old(io), final(self).regs),
            final(self).wf(),
            final(io).wf(),
            final(io).in_cgb == old(io).in_cgb,
    {
        reveal(jr_effect);
        let y = (opcode / 8) % 8;
        if y == 0 {
        } else if y == 1 {
            let addr = self.read_next_word(io);
            let sp = self.regs.sp;
            self.write_word(io, addr, sp);
        } else if y == 2 {
            io.stop();
        } else if y == 3 {
            self.regs.pc = self.relative(io);
            self.internal_cycle(io);
        } else {
            if self.condition(y - 4) {
                self.regs.pc = self.relative(io);
                self.internal_cycle(io);
            } else {
                self.read_next_byte(io);
            }
        }
    }

    /// LD rr,nn.
    #[verifier::rlimit(100)]
    fn exec_ld16(&mut self, io: &mut IO, opcode: u8)
        requires
            old(self).wf(),
            old(io).wf(),
            opcode <= 0x3F,
            opcode % 16 == 1,
        ensures
            final(self).wf(),
            final(io).wf(),
            final(io).in_cgb == old(io).in_cgb,
            ld16_effect(opcode, old(self).regs, *old(io), final(self).regs),
            final(self).ime == old(self).ime && final(self).prev_ime == old(self).prev_ime,
            final(self).is_halted == old(self).is_halted && final(self).halt_bug == old(self).halt_bug,
    {
        reveal(ld16_effect);
        let ghost r0 = self.regs;
        let v = self.read_next_word(io);
        assert(inc16(r0.pc, 1) == ((r0.pc + 1) % 65536) as u16);
        assert(stable2(r0.pc) ==> v == word_at(*old(io), r0.pc));
        self.regs.set16(reg16_sp((opcode / 8) % 8 / 2), v);
    }

    /// LD rr,nn and ADD HL,rr.
    #[verifier::rlimit(100)]
    fn exec_pair_load_add(&mut self, io: &mut IO, opcode: u8)
        requires
            old(self).wf(),
            old(io).wf(),
            opcode <= 0x3F,
            opcode % 8 == 1,
        ensures
            opcode % 16 == 1 ==> ld16_effect(opcode, old(self).regs, *old(io), final(self).regs),
            final(self).wf(),
            final(io).wf(),
            final(io).in_cgb == old(io).in_cgb,
            register_effect(opcode, old(self).regs) matches Some(r) ==> final(self).regs == r,
    {
        reveal(register_effect);
        proof {
            lemma_flag_bits_nibble();
        }
        let y = (opcode / 8) % 8;
        let p = y / 2;
        if y % 2 == 0 {
            self.exec_ld16(io, opcode);
        } else {
            let hl = self.regs.get16(Reg16::HL);
            let rr = self.regs.get16(reg16_sp(p));
            let (res, f) = add16(hl, rr, self.regs.f);
            self.regs.set16(Reg16::HL, res);
            self.set_f(f);
            self.internal_cycle(io);
        }
    }

    /// LD (BC),A / LD (DE),A / LD (HL+),A / LD (HL-),A and the matching loads into A.
    #[verifier::rlimit(100)]
    fn exec_indirect_a(&mut self, io: &mut IO, opcode: u8)
        requires
            old(self).wf(),
            old(io).wf(),
            opcode <= 0x3F,
            opcode % 8 == 2,
        ensures
            indirect_effect(opcode, old(self).regs, *old(io), final(self).regs, *final(io)),
            final(self).wf(),
            final(io).wf(),
            final(io).in_cgb == old(io).in_cgb,
    {
        reveal(indirect_effect);
        let y = (opcode / 8) % 8;
        let p = y / 2;
        let hl = self.regs.get16(Reg16::HL);
        let addr = if p == 0 {
            self.regs.get16(Reg16::BC)
        } else if p == 1 {
            self.regs.get16(Reg16::DE)
        } else {
            hl
        };
        if y % 2 == 0 {
            let a = self.regs.a;
            self.write_byte(io, addr, a);
        } else {
            self.regs.a = self.read_byte(io, addr);
        }
        if p == 2 {
            self.regs.set16(Reg16::HL, hl.wrapping_add(1));
        } else if p == 3 {
            self.regs.set16(Reg16::HL, hl.wrapping_sub(1));
        }
    }

    /// INC rr and DEC rr.
    #[verifier::rlimit(100)]
    fn exec_pair_inc_dec(&mut self, io: &mut IO, opcode: u8)
        requires
            old(self).wf(),
            old(io).wf(),
            opcode <= 0x3F,
            opcode % 8 == 3,
        ensures
            final(self).wf(),
            final(io).wf(),
            final(io).in_cgb == old(io).in_cgb,
            register_effect(opcode, old(self).regs) matches Some(r) ==> final(self).regs == r,
    {
        let y = (opcode / 8) % 8;
        proof {
            lemma_pair_step_effect(opcode, self.regs);
        }
        let r = reg16_sp(y / 2);
        let v = self.regs.get16(r);
        let n: u16 = if y % 2 == 0 {
            if v == 65535 { 0 } else { v + 1 }
        } else {
            if v == 0 { 65535 } else { v - 1 }
        };
        assert(n == (if y % 2 == 0 { (v + 1) % 65536 } else { (v + 65535) % 65536 }) as u16);
        self.regs.set16(r, n);
        self.internal_cycle(io);
    }

    /// INC r and DEC r, on a register or (HL).
    #[verifier::rlimit(100)]
    fn exec_inc_dec(&mut self, io: &mut IO, opcode: u8)
        requires
            old(self).wf(),
            old(io).wf(),
            opcode <= 0x3F,
            opcode % 8 == 4 || opcode % 8 == 5,
        ensures
            final(self).wf(),
            final(io).wf(),
            final(io).in_cgb == old(io).in_cgb,
            register_effect(opcode, old(self).regs) matches Some(r) ==> final(self).regs == r,
    {
        reveal(register_effect);
        proof {
            lemma_flag_bits_nibble();
        }
        let y = (opcode / 8) % 8;
        let v = self.get_r8(io, y);
        let (res, f) = if opcode % 8 == 4 { inc8(v, self.regs.f) } else { dec8(v, self.regs.f) };
        self.set_r8(io, y, res);
        self.set_f(f);
    }

    /// RLCA, RRCA, RLA, RRA (which clear Z), DAA, CPL, SCF and CCF.
    #[verifier::rlimit(100)]
    fn exec_accumulator(&mut self, io: &mut IO, opcode: u8)
        requires
            old(self).wf(),
            old(io).wf(),
            opcode <= 0x3F,
            opcode % 8 == 7,
        ensures
            final(self).wf(),
            final(io).wf(),
            final(io).in_cgb == old(io).in_cgb,
            register_effect(opcode, old(self).regs) matches Some(r) ==> final(self).regs == r,
    {
        reveal(register_effect);
        proof {
            lemma_flag_bits_nibble();
        }
        let y = (opcode / 8) % 8;
        if y < 4 {
            let op = if y == 0 {
                Shift::Rlc
            } else if y == 1 {
                Shift::Rrc
            } else if y == 2 {
                Shift::Rl
            } else {
                Shift::Rr
            };
            let (res, f) = shift8(op, self.regs.a, self.regs.f);
            self.regs.a = res;
            let f2 = f % 128;
            assert(f2 & 0x0F == 0) by (bit_vector)
                requires
                    f & 0x0F == 0,
                    f2 == f % 128,
            ;
            self.set_f(f2);
        } else if y == 4 {
            let (res, f) = daa8(self.regs.a, self.regs.f);
            self.regs.a = res;
            self.set_f(f);
        } else if y == 5 {
            let (res, f) = cpl8(self.regs.a, self.regs.f);
            self.regs.a = res;
            self.set_f(f);
        } else if y == 6 {
            let f = scf8(self.regs.f);
            self.set_f(f);
        } else {
            let f = ccf8(self.regs.f);
            self.set_f(f);
        }
    }

    /// RET cc, LDH (n),A, ADD SP,e, LDH A,(n), LD HL,SP+e.
    #[verifier::rlimit(100)]
    fn exec_ret_high_page(&mut self, io: &mut IO, opcode: u8)
        requires
            old(self).wf(),
            old(io).wf(),
            opcode >= 0xC0,
            opcode % 8 == 0,
        ensures
            opcode == 0xE8 || opcode == 0xF8 ==> sp_offset_effect(opcode, old(self).regs, *old(io), final(self).regs),
            pop_effect(opcode, old(self).regs, *old(io), final(self).regs),
            high_load_effect(opcode, old(self).regs, *old(io), final(self).regs, *final(io)),
            final(self).wf(),
            final(io).wf(),
            final(io).in_cgb == old(io).in_cgb,
    {
        reveal(pop_effect);
        reveal(high_load_effect);
        proof {
            lemma_flag_bits_nibble();
        }
        let y = (opcode / 8) % 8;
        if y < 4 {
            self.internal_cycle(io);
            if self.condition(y) {
                self.regs.pc = self.ret(io);
            }
        } else if y == 4 {
            let n = self.read_next_byte(io);
            let a = self.regs.a;
            self.write_byte(io, 0xFF00 + n as u16, a);
        } else if y == 6 {
            let n = self.read_next_byte(io);
            self.regs.a = self.read_byte(io, 0xFF00 + n as u16);
        } else {
            self.exec_sp_offset(io, opcode);
        }
    }

    /// ADD SP,e and LD HL,SP+e.
    #[verifier::rlimit(100)]
    fn exec_sp_offset(&mut self, io: &mut IO, opcode: u8)
        requires
            old(self).wf(),
            old(io).wf(),
            opcode == 0xE8 || opcode == 0xF8,
        ensures
            final(self).wf(),
            final(io).wf(),
            final(io).in_cgb == old(io).in_cgb,
            sp_offset_effect(opcode, old(self).regs, *old(io), final(self).regs),
            final(self).ime == old(self).ime && final(self).prev_ime == old(self).prev_ime,
    {
        reveal(sp_offset_effect);
        proof {
            lemma_flag_bits_nibble();
        }
        let e = self.read_next_byte(io);
        let (res, f) = add_sp8(self.regs.sp, e);
        if opcode == 0xE8 {
            self.regs.sp = res;
            self.set_f(f);
            self.internal_cycle(io);
            self.internal_cycle(io);
        } else {
            self.regs.set16(Reg16::HL, res);
            self.set_f(f);
            self.internal_cycle(io);
        }
    }

    /// POP rr, RET, RETI, JP (HL), LD SP,HL.
    #[verifier::rlimit(100)]
    fn exec_pop_ret_jp_hl(&mut self, io: &mut IO, opcode: u8)
        requires
            old(self).wf(),
            old(io).wf(),
            opcode >= 0xC0,
            opcode % 8 == 1,
        ensures
            opcode != 0xD9 ==> pop_effect(opcode, old(self).regs, *old(io), final(self).regs),
            final(self).wf(),
            final(io).wf(),
            final(io).in_cgb == old(io).in_cgb,
            opcode == 0xE9 ==> final(self).regs == (Registers { pc: old(self).regs.spec_get16(Reg16::HL), ..old(self).regs }),
            opcode == 0xF9 ==> final(self).regs == (Registers { sp: old(self).regs.spec_get16(Reg16::HL), ..old(self).regs }),
            opcode == 0xD9 ==> final(self).ime && final(self).prev_ime,
            opcode == 0xD9 ==> reti_effect(old(self).regs, *old(io), final(self).regs),
    {
        reveal(pop_effect);
        let y = (opcode / 8) % 8;
        let p = y / 2;
        if y % 2 == 0 {
            let v = self.stack_pop16(io);
            self.regs.set16(reg16_af(p), v);
        } else if p == 0 {
            self.regs.pc = self.ret(io);
        } else if p == 1 {
            self.regs.pc = self.ret(io);
            self.prev_ime = true;
            self.ime = true;
        } else if p == 2 {
            self.regs.pc = self.regs.get16(Reg16::HL);
        } else {
            self.regs.sp = self.regs.get16(Reg16::HL);
            self.internal_cycle(io);
        }
    }

    /// JP cc,nn, LD (C),A, LD (nn),A, LD A,(C), LD A,(nn).
    #[verifier::rlimit(100)]
    fn exec_jp_ld_a(&mut self, io: &mut IO, opcode: u8)
        requires
            old(self).wf(),
            old(io).wf(),
            opcode >= 0xC0,
            opcode % 8 == 2,
        ensures
            (opcode / 8) % 8 < 4 ==> jump_effect(opcode, old(self).regs, *old(io), final(self).regs, *final(io)),
            high_load_effect(opcode, old(self).regs, *old(io), final(self).regs, *final(io)),
            final(self).wf(),
            final(io).wf(),
            final(io).in_cgb == old(io).in_cgb,
    {
        reveal(jump_effect);
        reveal(high_load_effect);
        let y = (opcode / 8) % 8;
        if y < 4 {
            let addr = self.read_next_word(io);
            if self.condition(y) {
                self.internal_cycle(io);
                self.regs.pc = addr;
            }
        } else if y == 4 {
            let a = self.regs.a;
            self.write_byte(io, 0xFF00 + self.regs.c as u16, a);
        } else if y == 5 {
            let addr = self.read_next_word(io);
            let a = self.regs.a;
            self.write_byte(io, addr, a);
        } else if y == 6 {
            self.regs.a = self.read_byte(io, 0xFF00 + self.regs.c as u16);
        } else {
            let addr = self.read_next_word(io);
            self.regs.a = self.read_byte(io, addr);
        }
    }

    /// CALL cc,nn, PUSH rr and CALL nn (opcodes 0xC4..0xFD with z = 4 or 5).
    #[verifier::rlimit(100)]
    fn exec_call_push(&mut self, io: &mut IO, opcode: u8)
        requires
            old(self).wf(),
            old(io).wf(),
            opcode >= 0xC0,
            opcode % 8 == 4 || opcode % 8 == 5,
            !illegal_opcode(opcode),
        ensures
            final(self).wf(),
            final(io).wf(),
            final(io).in_cgb == old(io).in_cgb,
            final(self).ime == old(self).ime && final(self).prev_ime == old(self).prev_ime,
            (opcode % 8 == 4 && (opcode / 8) % 8 < 4) || opcode == 0xCD ==> jump_effect(
                opcode,
                old(self).regs,
                *old(io),
                final(self).regs,
                *final(io),
            ),
            opcode % 16 == 5 ==> push_effect(opcode, old(self).regs, *final(io), final(self).regs),
    {
        reveal(jump_effect);
        reveal(push_effect);
        let y = (opcode / 8) % 8;
        if opcode % 8 == 4 {
            if self.condition(y) {
                self.regs.pc = self.call(io);
            } else {
                self.read_next_word(io);
            }
        } else if y % 2 == 0 {
            self.internal_cycle(io);
            let v = self.regs.get16(reg16_af(y / 2));
            self.stack_push16(io, v);
        } else {
            self.regs.pc = self.call(io);
        }
    }

    /// Opcodes 0xC0..0xFF: returns, jumps, calls, restarts, stack operations,
    /// high-page loads, SP arithmetic, immediate accumulator operations, DI/EI and
    /// the CB prefix. The eleven unused opcodes are refused.
    #[verifier::rlimit(100)]
    fn exec_block3(&mut self, io: &mut IO, opcode: u8) -> (r: Result<(), CpuError>)
        requires
            old(self).wf(),
            old(io).wf(),
            opcode >= 0xC0,
        ensures
            opcode == 0xE8 || opcode == 0xF8 ==> sp_offset_effect(opcode, old(self).regs, *old(io), final(self).regs),
            (opcode % 8 == 0 || opcode % 8 == 1) && opcode != 0xD9 ==> pop_effect(opcode, old(self).regs, *old(io), final(self).regs),
            opcode % 8 == 0 || opcode % 8 == 2 ==> high_load_effect(opcode, old(self).regs, *old(io), final(self).regs, *final(io)),
            (opcode % 8 == 2 && (opcode / 8) % 8 < 4) || (opcode % 8 == 4 && (opcode / 8) % 8 < 4) || opcode == 0xCD
                ==> jump_effect(opcode, old(self).regs, *old(io), final(self).regs, *final(io)),
            opcode % 16 == 5 ==> push_effect(opcode, old(self).regs, *final(io), final(self).regs),
            final(self).wf(),
            final(io).wf(),
            final(io).in_cgb == old(io).in_cgb,
            r is Err <==> illegal_opcode(opcode),
            opcode == 0xE9 ==> final(self).regs == (Registers { pc: old(self).regs.spec_get16(Reg16::HL), ..old(self).regs }),
            opcode == 0xF9 ==> final(self).regs == (Registers { sp: old(self).regs.spec_get16(Reg16::HL), ..old(self).regs }),
            opcode == 0xF3 ==> !final(self).ime && !final(self).prev_ime,
            opcode == 0xFB ==> final(self).ime && !final(self).prev_ime,
            opcode == 0xD9 ==> final(self).ime && final(self).prev_ime && reti_effect(old(self).regs, *old(io), final(self).regs),
            opcode % 8 == 6 && stable_addr(old(self).regs.pc) ==> final(self).regs == (Registers {
                pc: ((old(self).regs.pc + 1) % 65536) as u16,
                ..alu_regs((opcode / 8) % 8, old(self).regs, old(io).spec_read(old(self).regs.pc))
            }),
            r is Err ==> *final(self) == *old(self) && *final(io) == *old(io),
            opcode == 0xC3 && stable_addr(old(self).regs.pc) && stable_addr(((old(self).regs.pc + 1) % 65536) as u16)
                ==> final(self).regs == (Registers {
                pc: (old(io).spec_read(((old(self).regs.pc + 1) % 65536) as u16) * 256 + old(io).spec_read(
                    old(self).regs.pc,
                )) as u16,
                ..old(self).regs
            }),
            opcode % 8 == 7 ==> final(self).regs == (Registers {
                pc: (((opcode / 8) % 8) * 8) as u16,
                sp: ((old(self).regs.sp + 65534) % 65536) as u16,
                ..old(self).regs
            }),
            opcode == 0xCB && stable_addr(old(self).regs.pc) ==> cb_step(old(self).regs, *old(io), final(self).regs, *final(io)),
            r matches Err(e) ==> e == (CpuError::IllegalOpcode {
                opcode,
                pc: ((old(self).regs.pc + 65535) % 65536) as u16,
            }),
    {
        proof {
            lemma_flag_bits_nibble();
        }
        let y = (opcode / 8) % 8;
        let z = opcode % 8;
        let p = y / 2;
        let q = y % 2;
        if illegal(opcode) {
            return Err(CpuError::IllegalOpcode { opcode, pc: self.regs.pc.wrapping_sub(1) });
        }
        if z == 0 {
            self.exec_ret_high_page(io, opcode);
        } else if z == 1 {
            self.exec_pop_ret_jp_hl(io, opcode);
        } else if z == 2 {
            self.exec_jp_ld_a(io, opcode);
        } else if z == 3 {
            if y == 0 {
                self.regs.pc = self.read_next_word(io);
                self.internal_cycle(io);
            } else if y == 1 {
                self.prefix(io);
            } else if y == 6 {
                self.prev_ime = false;
                self.ime = false;
            } else {
                self.prev_ime = false;
                self.ime = true;
            }
        } else if z == 4 || z == 5 {
            self.exec_call_push(io, opcode);
        } else if z == 6 {
            let n = self.read_next_byte(io);
            self.alu(y, n);
        } else {
            self.rst(io, y as u16 * 8);
        }
        Ok(())
    }

    /// The CB prefix: fetches the second opcode byte and executes it.
    #[verifier::rlimit(100)]
    fn prefix(&mut self, io: &mut IO)
        requires
            old(self).wf(),
            old(io).wf(),
        ensures
            final(self).wf(),
            final(io).wf(),
            final(io).in_cgb == old(io).in_cgb,
            stable_addr(old(self).regs.pc) ==> cb_step(old(self).regs, *old(io), final(self).regs, *final(io)),
    {
        let opcode = self.read_next_byte(io);
        self.exec_cb(io, opcode);
    }

    /// Executes CB-page opcode `opcode`: rotates and shifts, BIT, RES and SET on a
    /// register or (HL).
    #[verifier::rlimit(100)]
    pub fn exec_cb(&mut self, io: &mut IO, opcode: u8)
        requires
            old(self).wf(),
            old(io).wf(),
        ensures
            final(self).wf(),
            final(io).wf(),
            final(io).in_cgb == old(io).in_cgb,
            cb_effect(opcode, old(self).regs) matches Some(x) ==> final(self).regs == x,
            opcode % 8 != 6 ==> *final(io) == *old(io),
            opcode % 8 == 6 ==> final(io).cycles == (old(io).cycles + (if opcode / 64 == 1 { 4int } else { 8 }))
                % 0x1_0000_0000_0000_0000,
            ({
                let hl = old(self).regs.spec_get16(Reg16::HL);
                let v = old(io).spec_read(hl);
                opcode % 8 == 6 && stable_addr(hl) ==> final(self).regs == (Registers {
                    f: cb_flags(opcode, v, old(self).regs.f),
                    ..old(self).regs
                }) && (opcode / 64 != 1 && in_ram(hl) ==> final(io).spec_read(hl) == cb_value(opcode, v, old(self).regs.f))
            }),
            opcode % 8 == 6 && opcode / 64 == 1 ==> forall|a: u16|
                stable_addr(a) ==> #[trigger] final(io).spec_read(a) == old(io).spec_read(a),
            ({
                let hl = old(self).regs.spec_get16(Reg16::HL);
                opcode % 8 == 6 && in_ram(hl) ==> final(io).spec_read(hl) == cb_value(opcode, old(io).spec_read(hl), old(self).regs.f)
            }),
    {
        proof {
            lemma_flag_bits_nibble();
        }
        let x = opcode / 64;
        let y = (opcode / 8) % 8;
        let z = opcode % 8;
        let v = self.get_r8(io, z);
        if x == 0 {
            let op = if y == 0 {
                Shift::Rlc
            } else if y == 1 {
                Shift::Rrc
            } else if y == 2 {
                Shift::Rl
            } else if y == 3 {
                Shift::Rr
            } else if y == 4 {
                Shift::Sla
            } else if y == 5 {
                Shift::Sra
            } else if y == 6 {
                Shift::Swap
            } else {
                Shift::Srl
            };
            let (res, f) = shift8(op, v, self.regs.f);
            self.set_r8(io, z, res);
            self.set_f(f);
        } else if x == 1 {
            let f = bit8(v, y, self.regs.f);
            self.set_f(f);
        } else if x == 2 {
            self.set_r8(io, z, res8(v, y));
        } else {
            self.set_r8(io, z, set8(v, y));
        }
    }

    /// Executes one already-fetched opcode.
    #[verifier::rlimit(100)]
    pub fn decode_exec(&mut self, io: &mut IO, opcode: u8) -> (r: Result<(), CpuError>)
        requires
            old(self).wf(),
            old(io).wf(),
        ensures
            opcode == 0xE8 || opcode == 0xF8 ==> sp_offset_effect(opcode, old(self).regs, *old(io), final(self).regs),
            0x40 <= opcode < 0x80 && opcode != 0x76 && opcode % 8 == 6 && stable_addr(old(self).regs.spec_get16(Reg16::HL))
                ==> final(self).regs == old(self).regs.with8(
                reg8_of((opcode / 8) % 8),
                old(io).spec_read(old(self).regs.spec_get16(Reg16::HL)),
            ),
            opcode < 0x40 && opcode % 8 == 0 ==> jr_effect(opcode, old(self).regs, *old(io), final(self).regs),
            opcode < 0x40 && opcode % 16 == 1 ==> ld16_effect(opcode, old(self).regs, *old(io), final(self).regs),
            opcode < 0x40 && opcode % 8 == 2 ==> indirect_effect(opcode, old(self).regs, *old(io), final(self).regs, *final(io)),
            opcode >= 0xC0 && (opcode % 8 == 0 || opcode % 8 == 1) && opcode != 0xD9 ==> pop_effect(
                opcode,
                old(self).regs,
                *old(io),
                final(self).regs,
            ),
            opcode >= 0xC0 && (opcode % 8 == 0 || opcode % 8 == 2) ==> high_load_effect(
                opcode,
                old(self).regs,
                *old(io),
                final(self).regs,
                *final(io),
            ),
            opcode >= 0xC0 && ((opcode % 8 == 2 && (opcode / 8) % 8 < 4) || (opcode % 8 == 4 && (opcode / 8) % 8 < 4)
                || opcode == 0xCD) ==> jump_effect(opcode, old(self).regs, *old(io), final(self).regs, *final(io)),
            opcode >= 0xC0 && opcode % 16 == 5 ==> push_effect(opcode, old(self).regs, *final(io), final(self).regs),
            final(self).wf(),
            final(io).wf(),
            final(io).in_cgb == old(io).in_cgb,
            r is Err <==> illegal_opcode(opcode),
            register_effect(opcode, old(self).regs) matches Some(x) ==> final(self).regs == x,
            opcode == 0xF3 ==> !final(self).ime && !final(self).prev_ime,
            opcode == 0xFB ==> final(self).ime && !final(self).prev_ime,
            opcode == 0xD9 ==> final(self).ime && final(self).prev_ime && reti_effect(old(self).regs, *old(io), final(self).regs),
            opcode == 0x76 ==> halt_effect(*old(self), *old(io), *final(self)) && *final(io) == *old(io),
            opcode >= 0xC0 && opcode % 8 == 6 && stable_addr(old(self).regs.pc) ==> final(self).regs == (Registers {
                pc: ((old(self).regs.pc + 1) % 65536) as u16,
                ..alu_regs((opcode / 8) % 8, old(self).regs, old(io).spec_read(old(self).regs.pc))
            }),
            ({
                let hl = old(self).regs.spec_get16(Reg16::HL);
                0x80 <= opcode < 0xC0 && opcode % 8 == 6 && stable_addr(hl) ==> final(self).regs == alu_regs(
                    (opcode / 8) % 8,
                    old(self).regs,
                    old(io).spec_read(hl),
                )
            }),
            r is Err ==> *final(self) == *old(self) && *final(io) == *old(io),
            opcode == 0xC3 && stable_addr(old(self).regs.pc) && stable_addr(((old(self).regs.pc + 1) % 65536) as u16)
                ==> final(self).regs == (Registers {
                pc: (old(io).spec_read(((old(self).regs.pc + 1) % 65536) as u16) * 256 + old(io).spec_read(
                    old(self).regs.pc,
                )) as u16,
                ..old(self).regs
            }),
            opcode >= 0xC0 && opcode % 8 == 7 ==> final(self).regs == (Registers {
                pc: (((opcode / 8) % 8) * 8) as u16,
                sp: ((old(self).regs.sp + 65534) % 65536) as u16,
                ..old(self).regs
            }),
            opcode == 0xCB && stable_addr(old(self).regs.pc) ==> cb_step(old(self).regs, *old(io), final(self).regs, *final(io)),
            ({
                let pc = old(self).regs.pc;
                let r1 = Registers { pc: ((pc + 1) % 65536) as u16, ..old(self).regs };
                opcode < 0x40 && opcode % 8 == 6 && (opcode / 8) % 8 != 6 && stable_addr(pc) ==> final(self).regs
                    == r1.with8(reg8_of((opcode / 8) % 8), old(io).spec_read(pc))
            }),
            r matches Err(e) ==> e == (CpuError::IllegalOpcode {
                opcode,
                pc: ((old(self).regs.pc + 65535) % 65536) as u16,
            }),
            0x40 <= opcode < 0xC0 && opcode != 0x76 && opcode % 8 != 6 && (opcode / 8) % 8 != 6 ==> final(io).cycles
                == old(io).cycles,
            0x70 <= opcode <= 0x77 && opcode != 0x76 && in_ram(old(self).regs.spec_get16(Reg16::HL)) ==> final(io).spec_read(
                old(self).regs.spec_get16(Reg16::HL),
            ) == old(self).regs.spec_get8(reg8_of(opcode % 8)),
            0x40 <= opcode < 0xC0 && opcode != 0x76 && (opcode % 8 == 6) != (opcode < 0x80 && (opcode / 8) % 8 == 6)
                ==> final(io).cycles == (old(io).cycles + 4) % 0x1_0000_0000_0000_0000,
    {
        proof {
            if opcode >= 0xC0 {
                lemma_block3_effect(opcode, self.regs);
            }
        }
        if opcode < 0x40 {
            self.exec_block0(io, opcode);
            Ok(())
        } else if opcode < 0x80 {
            self.exec_load8(io, opcode);
            Ok(())
        } else if opcode < 0xC0 {
            self.exec_alu8(io, opcode);
            Ok(())
        } else {
            self.exec_block3(io, opcode)
        }
    }

    /// Services interrupt `bit` (0..5): IME off, two internal cycles, PC pushed,
    /// one internal cycle, then PC at the bit's vector and its IF bit cleared. If
    /// the high-byte push cleared the request (a write to IE), PC goes to 0x0000
    /// instead and IF is left as it is.
    #[verifier::rlimit(100)]
    pub fn handle_interrupt(&mut self, io: &mut IO, bit: u8)
        requires
            old(self).wf(),
            old(io).wf(),
            bit < 5,
        ensures
            final(self).wf(),
            final(io).wf(),
            final(io).in_cgb == old(io).in_cgb,
            !final(self).ime && !final(self).prev_ime,
            final(self).regs == (Registers {
                sp: ((old(self).regs.sp + 65534) % 65536) as u16,
                pc: final(self).regs.pc,
                ..old(self).regs
            }),
            final(self).regs.pc == INTERRUPT_VECTORS@[bit as int] || final(self).regs.pc == 0,
            final(self).is_halted == old(self).is_halted,
            final(self).halt_bug == old(self).halt_bug,
            final(io).cycles == (old(io).cycles + 20) % 0x1_0000_0000_0000_0000,
            ({
                let sp1 = ((old(self).regs.sp + 65535) % 65536) as u16;
                let sp2 = ((old(self).regs.sp + 65534) % 65536) as u16;
                let mask = 1u8 << bit;
                &&& (pushes_avoid_flags(sp1, sp2) && old(io).int_flags & old(io).int_enable & mask != 0 ==> {
                    &&& final(self).regs.pc == INTERRUPT_VECTORS@[bit as int]
                    &&& final(io).int_flags & mask == 0
                    &&& (old(io).int_flags & !mask) & !final(io).int_flags == 0
                })
                &&& (in_ram(sp1) && in_ram(sp2) ==> final(io).spec_read(sp1) == old(self).regs.pc / 256
                    && final(io).spec_read(sp2) == old(self).regs.pc % 256)
            }),
    {
        self.prev_ime = false;
        self.ime = false;
        let ghost io0 = *io;
        self.internal_cycle(io);
        let ghost io_a = *io;
        self.internal_cycle(io);
        let ghost io1 = *io;
        let pc = self.regs.pc;
        let mask: u8 = 1u8 << bit;
        self.stack_push8(io, (pc / 256) as u8);
        let ghost io2 = *io;
        let still_pending = io.int_flags & io.int_enable & mask != 0;
        self.stack_push8(io, (pc % 256) as u8);
        let ghost io_b = *io;
        self.internal_cycle(io);
        let ghost io3 = *io;
        if still_pending {
            io.int_flags = io.int_flags & !mask;
            self.regs.pc = INTERRUPT_VECTORS[bit as usize];
        } else {
            self.regs.pc = 0;
        }
        proof {
            let sp1 = ((old(self).regs.sp + 65535) % 65536) as u16;
            let sp2 = ((old(self).regs.sp + 65534) % 65536) as u16;
            if in_ram(sp1) && in_ram(sp2) {
                lemma_stable_reads(io3, *io, sp1);
                lemma_stable_reads(io3, *io, sp2);
                assert(sp1 != sp2);
            }
            if pushes_avoid_flags(sp1, sp2) && io0.int_flags & io0.int_enable & mask != 0 {
                lemma_flags_grow(io0.int_flags, io_a.int_flags, io1.int_flags);
                lemma_flags_grow(io2.int_flags, io_b.int_flags, io3.int_flags);
                let a = io0.int_flags;
                let b = io1.int_flags;
                let c = io2.int_flags;
                let d = io3.int_flags;
                let e = io0.int_enable;
                assert(c & e & mask != 0) by (bit_vector)
                    requires
                        a & e & mask != 0,
                        a & !b == 0,
                        b & !c == 0,
                ;
                assert((a & !mask) & !(d & !mask) == 0 && (d & !mask) & mask == 0) by (bit_vector)
                    requires
                        a & !b == 0,
                        b & !c == 0,
                        c & !d == 0,
                ;
            }
        }
    }

    /// Runs before each fetch: a pending enabled interrupt wakes HALT, and when the
    /// IME that was in force is set, the lowest-numbered one is serviced; returns
    /// whether it was. IME set by EI takes effect from the next check on.
    #[verifier::rlimit(100)]
    fn handle_interrupts(&mut self, io: &mut IO) -> (dispatched: bool)
        requires
            old(self).wf(),
            old(io).wf(),
        ensures
            final(self).wf(),
            final(io).wf(),
            final(io).in_cgb == old(io).in_cgb,
            ({
                let pending = old(io).int_flags & old(io).int_enable & 0x1F;
                &&& dispatched == (old(self).prev_ime && pending != 0)
                &&& (pending != 0 ==> !final(self).is_halted)
                &&& (pending == 0 ==> final(self).is_halted == old(self).is_halted)
                &&& (!dispatched ==> final(self).regs == old(self).regs && final(self).ime == old(self).ime
                    && final(self).prev_ime == old(self).ime && final(self).halt_bug == old(self).halt_bug
                    && *final(io) == *old(io))
                &&& (dispatched ==> dispatch_effect(old(self).regs, *old(io), final(self).regs, *final(io),
                    lowest_pending(pending)) && !final(self).ime && !final(self).prev_ime
                    && final(self).halt_bug == old(self).halt_bug)
            }),
    {
        let pending = io.int_flags & io.int_enable & 0x1F;
        let mut dispatched = false;
        if pending != 0 {
            self.is_halted = false;
            if self.prev_ime {
                let i: u8 = if pending & 1 != 0 {
                    0
                } else if pending & 2 != 0 {
                    1
                } else if pending & 4 != 0 {
                    2
                } else if pending & 8 != 0 {
                    3
                } else {
                    4
                };
                self.handle_interrupt(io, i);
                dispatched = true;
            }
        }
        self.prev_ime = self.ime;
        dispatched
    }

    /// Fetches and executes one instruction (after the HALT bug, the fetch does not
    /// advance PC).
    #[verifier::rlimit(100)]
    pub fn emulate_instr(&mut self, io: &mut IO) -> (r: Result<(), CpuError>)
        requires
            old(self).wf(),
            old(io).wf(),
        ensures
            final(self).wf(),
            final(io).wf(),
            final(io).in_cgb == old(io).in_cgb,
            executes(old(self).regs, old(self).halt_bug, *old(io), final(self).regs, r),
            r is Err ==> final(self).ime == old(self).ime && final(self).prev_ime == old(self).prev_ime,
            r is Err ==> final(io).cycles == (old(io).cycles + 4) % 0x1_0000_0000_0000_0000 && forall|a: u16|
                stable_addr(a) ==> #[trigger] final(io).spec_read(a) == old(io).spec_read(a),
    {
        let ghost io0 = *io;
        let fetch_pc = self.regs.pc;
        let ghost regs0 = self.regs;
        let opcode = if self.halt_bug {
            self.halt_bug = false;
            self.read_byte(io, self.regs.pc)
        } else {
            self.read_next_byte(io)
        };
        let ghost regs1 = self.regs;
        let r = match self.decode_exec(io, opcode) {
            Ok(()) => Ok(()),
            Err(_) => Err(CpuError::IllegalOpcode { opcode, pc: fetch_pc }),
        };
        assert(regs1 == after_fetch(regs0, old(self).halt_bug));
        assert(stable_addr(regs0.pc) ==> opcode == io0.spec_read(regs0.pc));
        assert(illegal_opcode(opcode) == r is Err);
        r
    }

    /// One CPU step: stalls a machine cycle during general DMA; otherwise checks
    /// interrupts and, when one is serviced, ends the step there; otherwise
    /// executes an instruction, or spends a machine cycle halted.
    #[verifier::rlimit(100)]
    pub fn emulate(&mut self, io: &mut IO) -> (r: Result<(), CpuError>)
        requires
            old(self).wf(),
            old(io).wf(),
        ensures
            final(self).wf(),
            final(io).wf(),
            final(io).in_cgb == old(io).in_cgb,
            old(self).step(*old(io), *final(self), *final(io), r),
    {
        if io.ppu.in_gdma() {
            io.emulate_machine_cycle();
            return Ok(());
        }
        let dispatched = self.handle_interrupts(io);
        if dispatched {
            return Ok(());
        }
        if !self.is_halted {
            self.emulate_instr(io)
        } else {
            io.emulate_machine_cycle();
            Ok(())
        }
    }

    /// Runs the boot ROM until it hands over: PC reaches 0x0100 or the overlay is
    /// unmapped by a write to 0xFF50 (or the host closes), for at most `max_steps`
    /// steps; returns how many steps ran.
    #[verifier::rlimit(100)]
    pub fn emulate_boot_rom(&mut self, io: &mut IO, max_steps: u64) -> (r: Result<u64, CpuError>)
        requires
            old(self).wf(),
            old(io).wf(),
        ensures
            final(self).wf(),
            final(io).wf(),
            final(io).in_cgb == old(io).in_cgb,
            r matches Err(CpuError::IllegalOpcode { opcode, pc }) ==> illegal_opcode(opcode),
            r matches Ok(n) ==> n <= max_steps && (n < max_steps ==> final(self).regs.pc == 0x100
                || final(io).should_close || !final(io).boot_rom_active),
    {
        let mut n: u64 = 0;
        while n < max_steps && !io.should_close && self.regs.pc != 0x100 && io.boot_rom_active
            invariant
                self.wf(),
                io.wf(),
                io.in_cgb == old(io).in_cgb,
                n <= max_steps,
            decreases max_steps - n,
        {
            match self.emulate(io) {
                Ok(()) => {},
                Err(e) => {
                    return Err(e);
                },
            }
            n = n + 1;
        }
        Ok(n)
    }
}

} // verus!
