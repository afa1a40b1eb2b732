//! The SM83 arithmetic/logic unit as pure functions from operands and incoming
//! flags to a result byte and the new flag byte.
use vstd::prelude::*;

verus! {

/// Bit masks of the four flags inside F.
pub const Z_MASK: u8 = 0x80;
pub const N_MASK: u8 = 0x40;
pub const H_MASK: u8 = 0x20;
pub const C_MASK: u8 = 0x10;

/// The F byte that holds exactly the given flags (low nibble zero).
pub open spec fn flag_bits(z: bool, n: bool, h: bool, c: bool) -> u8 {
    ((if z { 0x80int } else { 0 }) + (if n { 0x40int } else { 0 }) + (if h { 0x20int } else { 0 })
        + (if c { 0x10int } else { 0 })) as u8
}

pub open spec fn z_of(f: u8) -> bool {
    f & 0x80 != 0
}

pub open spec fn n_of(f: u8) -> bool {
    f & 0x40 != 0
}

pub open spec fn h_of(f: u8) -> bool {
    f & 0x20 != 0
}

pub open spec fn c_of(f: u8) -> bool {
    f & 0x10 != 0
}

/// Packs four flags into an F byte.
pub fn make_flags(z: bool, n: bool, h: bool, c: bool) -> (r: u8)
    ensures
        r == flag_bits(z, n, h, c),
{
    let mut r: u8 = 0;
    if z {
        r = r + 0x80;
    }
    if n {
        r = r + 0x40;
    }
    if h {
        r = r + 0x20;
    }
    if c {
        r = r + 0x10;
    }
    r
}

/// Reads the carry flag out of an F byte.
pub fn carry_of(f: u8) -> (r: bool)
    ensures
        r == c_of(f),
{
    f & C_MASK != 0
}

/// Reads the half-carry flag out of an F byte.
pub fn half_of(f: u8) -> (r: bool)
    ensures
        r == h_of(f),
{
    f & H_MASK != 0
}

/// Reads the subtract flag out of an F byte.
pub fn sub_of(f: u8) -> (r: bool)
    ensures
        r == n_of(f),
{
    f & N_MASK != 0
}

/// Reads the zero flag out of an F byte.
pub fn zero_of(f: u8) -> (r: bool)
    ensures
        r == z_of(f),
{
    f & Z_MASK != 0
}

/// ADD / ADC: `a + b + carry` with Z from the byte result, H on a carry out of bit 3
/// and C on a carry out of bit 7.
pub open spec fn add_result(a: u8, b: u8, carry: bool) -> u8 {
    ((a + b + (if carry { 1int } else { 0 })) % 256) as u8
}

pub open spec fn add_flags(a: u8, b: u8, carry: bool) -> u8 {
    let c: int = if carry { 1 } else { 0 };
    flag_bits(
        add_result(a, b, carry) == 0,
        false,
        a % 16 + b % 16 + c >= 16,
        a + b + c > 255,
    )
}

/// SUB / SBC / CP: `a - b - carry` with N set, H on a borrow from bit 4 and C on a
/// borrow from bit 8.
pub open spec fn sub_result(a: u8, b: u8, carry: bool) -> u8 {
    ((a - b - (if carry { 1int } else { 0 }) + 512) % 256) as u8
}

pub open spec fn sub_flags(a: u8, b: u8, carry: bool) -> u8 {
    let c: int = if carry { 1 } else { 0 };
    flag_bits(sub_result(a, b, carry) == 0, true, a % 16 < b % 16 + c, a < b + c)
}

/// Adds two bytes and an optional incoming carry.
pub fn add8(a: u8, b: u8, carry: bool) -> (r: (u8, u8))
    ensures
        r.0 == add_result(a, b, carry),
        r.1 == add_flags(a, b, carry),
{
    let c: u16 = if carry { 1 } else { 0 };
    let sum: u16 = a as u16 + b as u16 + c;
    let res: u8 = (sum % 256) as u8;
    let h = (a % 16) as u16 + (b % 16) as u16 + c >= 16;
    (res, make_flags(res == 0, false, h, sum > 255))
}

/// Subtracts a byte and an optional incoming borrow.
pub fn sub8(a: u8, b: u8, carry: bool) -> (r: (u8, u8))
    ensures
        r.0 == sub_result(a, b, carry),
        r.1 == sub_flags(a, b, carry),
{
    let c: u16 = if carry { 1 } else { 0 };
    let diff: u16 = (a as u16 + 512) - b as u16 - c;
    let res: u8 = (diff % 256) as u8;
    let h = ((a % 16) as u16) < (b % 16) as u16 + c;
    (res, make_flags(res == 0, true, h, (a as u16) < b as u16 + c))
}


/// AND: Z from the result, H set, N and C clear.
pub fn and8(a: u8, b: u8) -> (r: (u8, u8))
    ensures
        r.0 == a & b,
        r.1 == flag_bits(a & b == 0, false, true, false),
{
    let res = a & b;
    (res, make_flags(res == 0, false, true, false))
}

/// OR: Z from the result, the other flags clear.
pub fn or8(a: u8, b: u8) -> (r: (u8, u8))
    ensures
        r.0 == a | b,
        r.1 == flag_bits(a | b == 0, false, false, false),
{
    let res = a | b;
    (res, make_flags(res == 0, false, false, false))
}

/// XOR: Z from the result, the other flags clear.
pub fn xor8(a: u8, b: u8) -> (r: (u8, u8))
    ensures
        r.0 == a ^ b,
        r.1 == flag_bits(a ^ b == 0, false, false, false),
{
    let res = a ^ b;
    (res, make_flags(res == 0, false, false, false))
}

/// INC r8: C is kept from the incoming flags.
pub fn inc8(a: u8, f: u8) -> (r: (u8, u8))
    ensures
        r.0 == (a + 1) % 256,
        r.1 == flag_bits(r.0 == 0, false, r.0 % 16 == 0, c_of(f)),
{
    let res: u8 = if a == 255 { 0 } else { a + 1 };
    (res, make_flags(res == 0, false, res % 16 == 0, carry_of(f)))
}

/// DEC r8: C is kept from the incoming flags.
pub fn dec8(a: u8, f: u8) -> (r: (u8, u8))
    ensures
        r.0 == (a + 255) % 256,
        r.1 == flag_bits(r.0 == 0, true, r.0 % 16 == 15, c_of(f)),
{
    let res: u8 = if a == 0 { 255 } else { a - 1 };
    (res, make_flags(res == 0, true, res % 16 == 15, carry_of(f)))
}

/// ADD HL,rr: Z is kept, H on a carry out of bit 11, C on a carry out of bit 15.
pub fn add16(hl: u16, rr: u16, f: u8) -> (r: (u16, u8))
    ensures
        r.0 == (hl + rr) % 65536,
        r.1 == flag_bits(z_of(f), false, hl % 4096 + rr % 4096 >= 4096, hl + rr > 65535),
{
    let sum: u32 = hl as u32 + rr as u32;
    let h = (hl % 4096) as u32 + (rr % 4096) as u32 >= 4096;
    ((sum % 65536) as u16, make_flags(zero_of(f), false, h, sum > 65535))
}

/// The signed value of an offset byte.
pub open spec fn signed(e: u8) -> int {
    if e < 128 { e as int } else { e - 256 }
}

/// ADD SP,e (and LD HL,SP+e): Z and N clear, H and C from the unsigned add of the
/// low byte of SP and the offset byte.
pub fn add_sp8(sp: u16, e: u8) -> (r: (u16, u8))
    ensures
        r.0 == (sp + signed(e) + 65536) % 65536,
        r.1 == flag_bits(false, false, sp % 16 + e % 16 >= 16, sp % 256 + e >= 256),
{
    let ext: u32 = if e < 128 { e as u32 } else { e as u32 + 0xFF00 };
    let res: u16 = ((sp as u32 + ext) % 65536) as u16;
    let h = (sp % 16) as u32 + (e % 16) as u32 >= 16;
    let c = (sp % 256) as u32 + e as u32 >= 256;
    (res, make_flags(false, false, h, c))
}

/// DAA: decimal adjust after an addition (N clear) or a subtraction (N set).
pub open spec fn daa_result(a: u8, f: u8) -> u8 {
    if !n_of(f) {
        let a1: int = if c_of(f) || a > 0x99 { (a + 0x60) % 256 } else { a as int };
        (if h_of(f) || a1 % 16 > 9 { (a1 + 6) % 256 } else { a1 }) as u8
    } else {
        let a1: int = if c_of(f) { (a + 256 - 0x60) % 256 } else { a as int };
        (if h_of(f) { (a1 + 256 - 6) % 256 } else { a1 }) as u8
    }
}

pub open spec fn daa_carry(a: u8, f: u8) -> bool {
    c_of(f) || (!n_of(f) && a > 0x99)
}

pub fn daa8(a: u8, f: u8) -> (r: (u8, u8))
    ensures
        r.0 == daa_result(a, f),
        r.1 == flag_bits(r.0 == 0, n_of(f), false, daa_carry(a, f)),
{
    let n = sub_of(f);
    let mut c = carry_of(f);
    let h = half_of(f);
    let mut res: u8 = a;
    if !n {
        if c || res > 0x99 {
            res = ((res as u16 + 0x60) % 256) as u8;
            c = true;
        }
        if h || res % 16 > 9 {
            res = ((res as u16 + 6) % 256) as u8;
        }
    } else {
        if c {
            res = ((res as u16 + 256 - 0x60) % 256) as u8;
        }
        if h {
            res = ((res as u16 + 256 - 6) % 256) as u8;
        }
    }
    (res, make_flags(res == 0, n, false, c))
}

/// CPL: complement A, set N and H.
pub fn cpl8(a: u8, f: u8) -> (r: (u8, u8))
    ensures
        r.0 == 255 - a,
        r.1 == flag_bits(z_of(f), true, true, c_of(f)),
{
    (255 - a, make_flags(zero_of(f), true, true, carry_of(f)))
}

/// CCF: complement the carry, clear N and H.
pub fn ccf8(f: u8) -> (r: u8)
    ensures
        r == flag_bits(z_of(f), false, false, !c_of(f)),
{
    make_flags(zero_of(f), false, false, !carry_of(f))
}

/// SCF: set the carry, clear N and H.
pub fn scf8(f: u8) -> (r: u8)
    ensures
        r == flag_bits(z_of(f), false, false, true),
{
    make_flags(zero_of(f), false, false, true)
}

/// The eight shift/rotate operations of the CB page, in opcode order.
pub enum Shift {
    Rlc,
    Rrc,
    Rl,
    Rr,
    Sla,
    Sra,
    Swap,
    Srl,
}

/// The byte a shift/rotate produces; `carry` is the incoming C flag.
pub open spec fn shift_result(op: Shift, a: u8, carry: bool) -> u8 {
    let c: int = if carry { 1 } else { 0 };
    (match op {
        Shift::Rlc => (a * 2) % 256 + a / 128,
        Shift::Rrc => a / 2 + (a % 2) * 128,
        Shift::Rl => (a * 2) % 256 + c,
        Shift::Rr => a / 2 + c * 128,
        Shift::Sla => (a * 2) % 256,
        Shift::Sra => a / 2 + (if a >= 128 { 128int } else { 0 }),
        Shift::Swap => (a % 16) * 16 + a / 16,
        Shift::Srl => a / 2 + 0int,
    }) as u8
}

/// The bit a shift/rotate moves out into C (SWAP clears C).
pub open spec fn shift_carry(op: Shift, a: u8) -> bool {
    match op {
        Shift::Rlc | Shift::Rl | Shift::Sla => a >= 128,
        Shift::Swap => false,
        _ => a % 2 == 1,
    }
}

/// A CB-page shift/rotate: Z from the result, N and H clear, C the shifted-out bit.
pub fn shift8(op: Shift, a: u8, f: u8) -> (r: (u8, u8))
    ensures
        r.0 == shift_result(op, a, c_of(f)),
        r.1 == flag_bits(r.0 == 0, false, false, shift_carry(op, a)),
{
    let c: u8 = if carry_of(f) { 1 } else { 0 };
    let (res, out): (u8, bool) = match op {
        Shift::Rlc => (((a as u16 * 2) % 256) as u8 + a / 128, a >= 128),
        Shift::Rrc => (a / 2 + (a % 2) * 128, a % 2 == 1),
        Shift::Rl => (((a as u16 * 2) % 256) as u8 + c, a >= 128),
        Shift::Rr => (a / 2 + c * 128, a % 2 == 1),
        Shift::Sla => (((a as u16 * 2) % 256) as u8, a >= 128),
        Shift::Sra => (a / 2 + (if a >= 128 { 128u8 } else { 0 }), a % 2 == 1),
        Shift::Swap => ((a % 16) * 16 + a / 16, false),
        Shift::Srl => (a / 2, a % 2 == 1),
    };
    (res, make_flags(res == 0, false, false, out))
}

/// BIT n: Z when bit n is clear, N clear, H set, C kept.
pub fn bit8(a: u8, n: u8, f: u8) -> (r: u8)
    requires
        n < 8,
    ensures
        r == flag_bits(a & (1u8 << n) == 0, false, true, c_of(f)),
{
    make_flags(a & (1u8 << n) == 0, false, true, carry_of(f))
}

/// SET n: the byte with bit n set.
pub fn set8(a: u8, n: u8) -> (r: u8)
    requires
        n < 8,
    ensures
        r == a | (1u8 << n),
{
    a | (1u8 << n)
}

/// RES n: the byte with bit n cleared.
pub fn res8(a: u8, n: u8) -> (r: u8)
    requires
        n < 8,
    ensures
        r == a & !(1u8 << n),
{
    a & !(1u8 << n)
}


/// The eight accumulator operations in opcode order (bits 3..5 of 0x80..0xBF):
/// ADD, ADC, SUB, SBC, AND, XOR, OR, CP. Returns the new A and the new F.
pub open spec fn alu_spec(op: u8, a: u8, b: u8, f: u8) -> (u8, u8) {
    if op == 0 {
        (add_result(a, b, false), add_flags(a, b, false))
    } else if op == 1 {
        (add_result(a, b, c_of(f)), add_flags(a, b, c_of(f)))
    } else if op == 2 {
        (sub_result(a, b, false), sub_flags(a, b, false))
    } else if op == 3 {
        (sub_result(a, b, c_of(f)), sub_flags(a, b, c_of(f)))
    } else if op == 4 {
        (a & b, flag_bits(a & b == 0, false, true, false))
    } else if op == 5 {
        (a ^ b, flag_bits(a ^ b == 0, false, false, false))
    } else if op == 6 {
        (a | b, flag_bits(a | b == 0, false, false, false))
    } else {
        (a, sub_flags(a, b, false))
    }
}

pub fn alu_op(op: u8, a: u8, b: u8, f: u8) -> (r: (u8, u8))
    ensures
        r == alu_spec(op, a, b, f),
{
    if op == 0 {
        add8(a, b, false)
    } else if op == 1 {
        add8(a, b, carry_of(f))
    } else if op == 2 {
        sub8(a, b, false)
    } else if op == 3 {
        sub8(a, b, carry_of(f))
    } else if op == 4 {
        and8(a, b)
    } else if op == 5 {
        xor8(a, b)
    } else if op == 6 {
        or8(a, b)
    } else {
        let (_, flags) = sub8(a, b, false);
        (a, flags)
    }
}

/// Packing four flags and reading them back gives the same four flags, and the
/// low nibble of the packed byte is zero.
pub proof fn lemma_flag_bits(z: bool, n: bool, h: bool, c: bool)
    ensures
        z_of(flag_bits(z, n, h, c)) == z,
        n_of(flag_bits(z, n, h, c)) == n,
        h_of(flag_bits(z, n, h, c)) == h,
        c_of(flag_bits(z, n, h, c)) == c,
        flag_bits(z, n, h, c) & 0x0F == 0,
{
    let f = flag_bits(z, n, h, c);
    assert(f == flag_bits(z, n, h, c));
    assert((f & 0x80 != 0) == z && (f & 0x40 != 0) == n && (f & 0x20 != 0) == h && (f & 0x10 != 0)
        == c && f & 0x0F == 0) by (bit_vector)
        requires
            f == ((if z { 0x80int } else { 0 }) + (if n { 0x40int } else { 0 }) + (if h {
                0x20int
            } else { 0 }) + (if c { 0x10int } else { 0 })) as u8,
    ;
}

/// Every packed flag byte has a zero low nibble.
pub proof fn lemma_flag_bits_nibble()
    ensures
        forall|z: bool, n: bool, h: bool, c: bool| #[trigger] flag_bits(z, n, h, c) & 0x0F == 0,
{
    assert forall|z: bool, n: bool, h: bool, c: bool| #[trigger] flag_bits(z, n, h, c) & 0x0F == 0 by {
        lemma_flag_bits(z, n, h, c);
    }
}

/// Reading the four flags of an F byte whose low nibble is zero and packing them
/// again gives back the same byte.
pub proof fn lemma_flags_round_trip(f: u8)
    requires
        f & 0x0F == 0,
    ensures
        flag_bits(z_of(f), n_of(f), h_of(f), c_of(f)) == f,
{
    assert(((if f & 0x80 != 0 { 0x80int } else { 0 }) + (if f & 0x40 != 0 { 0x40int } else { 0 })
        + (if f & 0x20 != 0 { 0x20int } else { 0 }) + (if f & 0x10 != 0 { 0x10int } else { 0 })) as u8
        == f) by (bit_vector)
        requires
            f & 0x0F == 0,
    ;
}

/// The half-carry of an 8-bit add is bit 4 of `a ^ b ^ result`.
pub proof fn lemma_half_carry_xor(a: u8, b: u8, carry: bool)
    ensures
        (a % 16 + b % 16 + (if carry { 1int } else { 0 }) >= 16) == ((a ^ b ^ add_result(a, b, carry))
            & 0x10 != 0),
{
    let r = add_result(a, b, carry);
    let c: u8 = if carry { 1 } else { 0 };
    assert((a % 16 + b % 16 + c >= 16) == ((a ^ b ^ r) & 0x10 != 0)) by (bit_vector)
        requires
            r == ((a + b + c) % 256) as u8,
            c <= 1,
    ;
}

/// Each of ADD, ADC, SUB, SBC, CP, AND, OR and XOR sets Z, N, H and C as the
/// instruction-set flag table gives them, for every pair of operands and every
/// incoming carry.
pub proof fn lemma_alu_flag_table(a: u8, b: u8, carry: bool)
    ensures
        ({
            let r = add_result(a, b, carry);
            let f = add_flags(a, b, carry);
            let c: int = if carry { 1 } else { 0 };
            z_of(f) == (r == 0) && !n_of(f) && h_of(f) == ((a ^ b ^ r) & 0x10 != 0) && c_of(f) == (a
                + b + c > 0xFF)
        }),
        ({
            let r = sub_result(a, b, carry);
            let f = sub_flags(a, b, carry);
            let c: int = if carry { 1 } else { 0 };
            z_of(f) == (r == 0) && n_of(f) && h_of(f) == (a % 16 < b % 16 + c) && c_of(f) == (a < b
                + c)
        }),
        ({
            let f = flag_bits(a & b == 0, false, true, false);
            z_of(f) == (a & b == 0) && !n_of(f) && h_of(f) && !c_of(f)
        }),
        ({
            let f = flag_bits(a | b == 0, false, false, false);
            z_of(f) == (a | b == 0) && !n_of(f) && !h_of(f) && !c_of(f)
        }),
        ({
            let f = flag_bits(a ^ b == 0, false, false, false);
            z_of(f) == (a ^ b == 0) && !n_of(f) && !h_of(f) && !c_of(f)
        }),
{
    let c: int = if carry { 1 } else { 0 };
    lemma_flag_bits(add_result(a, b, carry) == 0, false, a % 16 + b % 16 + c >= 16, a + b + c > 255);
    lemma_half_carry_xor(a, b, carry);
    lemma_flag_bits(sub_result(a, b, carry) == 0, true, a % 16 < b % 16 + c, a < b + c);
    lemma_flag_bits(a & b == 0, false, true, false);
    lemma_flag_bits(a | b == 0, false, false, false);
    lemma_flag_bits(a ^ b == 0, false, false, false);
}

/// After RES n the BIT n test reports a clear bit (Z set); after SET n it reports a
/// set bit (Z clear), for every byte and every bit position.
pub proof fn lemma_bit_after_res_set(b: u8, n: u8, f: u8)
    requires
        n < 8,
    ensures
        (b & !(1u8 << n)) & (1u8 << n) == 0,
        (b | (1u8 << n)) & (1u8 << n) != 0,
        z_of(flag_bits((b & !(1u8 << n)) & (1u8 << n) == 0, false, true, c_of(f))),
        !z_of(flag_bits((b | (1u8 << n)) & (1u8 << n) == 0, false, true, c_of(f))),
{
    assert((b & !(1u8 << n)) & (1u8 << n) == 0 && (b | (1u8 << n)) & (1u8 << n) != 0) by (bit_vector)
        requires
            n < 8,
    ;
    lemma_flag_bits(true, false, true, c_of(f));
    lemma_flag_bits(false, false, true, c_of(f));
}

} // verus!
