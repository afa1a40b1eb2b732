use gbc_core::alu::{
    add8, sub8, and8, or8, xor8, inc8, dec8, add16, add_sp8, daa8, cpl8, ccf8, scf8, shift8, bit8, set8,
    res8, alu_op, Shift,
};
use gbc_core::registers::{Registers, Reg16, Reg8, Flag};

const Z: u8 = 0x80;
const N: u8 = 0x40;
const H: u8 = 0x20;
const C: u8 = 0x10;

#[test]
fn add_sets_zero_half_and_carry() {
    assert_eq!(add8(0x3A, 0xC6, false), (0x00, Z | H | C));
    assert_eq!(add8(0x3C, 0x12, false), (0x4E, 0));
    assert_eq!(add8(0xE1, 0x0F, true), (0xF1, H));
}

#[test]
fn sub_and_sbc_flags() {
    assert_eq!(sub8(0x3E, 0x3E, false), (0x00, Z | N));
    assert_eq!(sub8(0x3E, 0x0F, false), (0x2F, N | H));
    assert_eq!(sub8(0x3E, 0x40, false), (0xFE, N | C));
    assert_eq!(sub8(0x3B, 0x2A, true), (0x10, N));
    assert_eq!(sub8(0x3B, 0x4F, true), (0xEB, N | H | C));
}

#[test]
fn logic_ops_flags() {
    assert_eq!(and8(0x5A, 0x3F), (0x1A, H));
    assert_eq!(and8(0x5A, 0x00), (0x00, Z | H));
    assert_eq!(or8(0x5A, 0x03), (0x5B, 0));
    assert_eq!(xor8(0xFF, 0xFF), (0x00, Z));
}

#[test]
fn cp_keeps_accumulator() {
    assert_eq!(alu_op(7, 0x3C, 0x2F, 0), (0x3C, N | H));
    assert_eq!(alu_op(7, 0x3C, 0x3C, 0), (0x3C, Z | N));
    assert_eq!(alu_op(1, 0xFF, 0x00, C), (0x00, Z | H | C));
}

#[test]
fn inc_dec_keep_carry() {
    assert_eq!(inc8(0xFF, C), (0x00, Z | H | C));
    assert_eq!(inc8(0x50, 0), (0x51, 0));
    assert_eq!(dec8(0x01, 0), (0x00, Z | N));
    assert_eq!(dec8(0x00, C), (0xFF, N | H | C));
}

#[test]
fn sixteen_bit_adds() {
    assert_eq!(add16(0x8A23, 0x0605, Z), (0x9028, Z | H));
    assert_eq!(add16(0x8A23, 0x8A23, 0), (0x1446, H | C));
    assert_eq!(add_sp8(0xFFF8, 0x02), (0xFFFA, 0));
    assert_eq!(add_sp8(0x000F, 0x01), (0x0010, H));
    assert_eq!(add_sp8(0x00FF, 0xFF), (0x00FE, H | C));
}

#[test]
fn daa_after_add_and_sub() {
    let (a, f) = add8(0x45, 0x38, false);
    assert_eq!(daa8(a, f), (0x83, 0));
    let (a, f) = sub8(0x83, 0x38, false);
    assert_eq!(daa8(a, f), (0x45, N));
    let (a, f) = add8(0x99, 0x01, false);
    assert_eq!(daa8(a, f), (0x00, Z | C));
}

#[test]
fn flag_ops() {
    assert_eq!(cpl8(0x35, 0), (0xCA, N | H));
    assert_eq!(ccf8(C | Z), Z);
    assert_eq!(scf8(N | H), C);
}

#[test]
fn shifts_and_rotates() {
    assert_eq!(shift8(Shift::Rlc, 0x85, 0), (0x0B, C));
    assert_eq!(shift8(Shift::Rl, 0x80, 0), (0x00, Z | C));
    assert_eq!(shift8(Shift::Rrc, 0x01, 0), (0x80, C));
    assert_eq!(shift8(Shift::Rr, 0x01, 0), (0x00, Z | C));
    assert_eq!(shift8(Shift::Sla, 0xFF, 0), (0xFE, C));
    assert_eq!(shift8(Shift::Sra, 0x8A, 0), (0xC5, 0));
    assert_eq!(shift8(Shift::Srl, 0x01, 0), (0x00, Z | C));
    assert_eq!(shift8(Shift::Swap, 0xF0, C), (0x0F, 0));
}

#[test]
fn bit_set_res() {
    assert_eq!(bit8(0x80, 7, C), H | C);
    assert_eq!(bit8(0xEF, 4, 0), Z | H);
    assert_eq!(set8(0x00, 3), 0x08);
    assert_eq!(res8(0xFF, 7), 0x7F);
}

#[test]
fn every_pair_matches_flag_table() {
    for a in 0..=255u16 {
        for b in 0..=255u16 {
            for c in 0..=1u16 {
                let (a8, b8, cf) = (a as u8, b as u8, c == 1);
                let res = ((a + b + c) & 0xFF) as u8;
                let (r, f) = add8(a8, b8, cf);
                assert_eq!(r, res);
                assert_eq!(f & Z != 0, res == 0);
                assert_eq!(f & N, 0);
                assert_eq!(f & H != 0, (a8 ^ b8 ^ res) & 0x10 != 0);
                assert_eq!(f & C != 0, a + b + c > 0xFF);
                let (r, f) = sub8(a8, b8, cf);
                assert_eq!(r, a8.wrapping_sub(b8).wrapping_sub(c as u8));
                assert_eq!(f & Z != 0, r == 0);
                assert_ne!(f & N, 0);
                assert_eq!(f & H != 0, (a & 0xF) < (b & 0xF) + c);
                assert_eq!(f & C != 0, a < b + c);
            }
            let (a8, b8) = (a as u8, b as u8);
            assert_eq!(and8(a8, b8).1, if a8 & b8 == 0 { Z | H } else { H });
            assert_eq!(or8(a8, b8).1, if a8 | b8 == 0 { Z } else { 0 });
            assert_eq!(xor8(a8, b8).1, if a8 ^ b8 == 0 { Z } else { 0 });
        }
    }
}

#[test]
fn bit_after_res_and_set() {
    for b in 0..=255u8 {
        for i in 0..8u8 {
            assert_ne!(bit8(res8(b, i), i, 0) & Z, 0);
            assert_eq!(bit8(set8(b, i), i, 0) & Z, 0);
        }
    }
}

#[test]
fn register_pairs_round_trip() {
    let mut r = Registers::new();
    for v in [0x0000u16, 0x1234, 0xFFFF, 0x8001] {
        r.set16(Reg16::BC, v);
        assert_eq!(r.get16(Reg16::BC), v);
        r.set16(Reg16::DE, v);
        assert_eq!(r.get16(Reg16::DE), v);
        r.set16(Reg16::HL, v);
        assert_eq!(r.get16(Reg16::HL), v);
        r.set16(Reg16::SP, v);
        assert_eq!(r.get16(Reg16::SP), v);
        r.set16(Reg16::AF, v);
        assert_eq!(r.get16(Reg16::AF), v & 0xFFF0);
    }
    r.set8(Reg8::H, 0xAB);
    assert_eq!(r.get8(Reg8::H), 0xAB);
    assert_eq!(r.get16(Reg16::HL) >> 8, 0xAB);
}

#[test]
fn flags_round_trip() {
    let mut r = Registers::new();
    for flag in [Flag::Z, Flag::N, Flag::H, Flag::C] {
        r.change_flag(true, flag);
        assert!(r.get_flag(flag));
        r.change_flag(false, flag);
        assert!(!r.get_flag(flag));
    }
    r.set_flags(0xA0);
    assert!(r.get_flag(Flag::Z) && r.get_flag(Flag::H) && !r.get_flag(Flag::N) && !r.get_flag(Flag::C));
    r.clear_flags(0x80);
    assert!(!r.get_flag(Flag::Z) && r.get_flag(Flag::H));
    r.set_flag(Flag::C);
    r.clear_flag(Flag::H);
    assert_eq!(r.f, 0x10);
}

