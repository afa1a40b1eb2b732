use gbc_core::cpu::CpuError;
use gbc_core::gbc::{GbcError, GBC};
use gbc_core::header::CartridgeError;
use gbc_core::joypad::Button;

/// A 32 KiB plain-ROM cartridge whose program starts at 0x0100.
fn cartridge(program: &[u8]) -> Vec<u8> {
    let mut rom = vec![0u8; 0x8000];
    rom[0x100..0x100 + program.len()].copy_from_slice(program);
    let mut x = 0u8;
    for i in 0x134..0x14D {
        x = x.wrapping_add(!rom[i]);
    }
    rom[0x14D] = x;
    rom
}

fn run(g: &mut GBC, steps: usize) {
    for _ in 0..steps {
        g.emulate().unwrap();
    }
}

#[test]
fn post_boot_registers() {
    let g = GBC::new(cartridge(&[0x00]), Vec::new()).unwrap();
    assert_eq!(g.cpu.regs.pc, 0x0100);
    assert_eq!(g.cpu.regs.sp, 0xFFFE);
    assert_eq!((g.cpu.regs.a, g.cpu.regs.f), (0x01, 0xB0));
    assert!(g.is_running());
}

#[test]
fn loads_and_arithmetic() {
    // LD A,5; ADD A,3; LD B,A; SUB B; LD C,0x44; LD HL,0xC000; LD (HL),C; INC (HL); LD D,(HL)
    let prog = [0x3E, 0x05, 0xC6, 0x03, 0x47, 0x90, 0x0E, 0x44, 0x21, 0x00, 0xC0, 0x71, 0x34, 0x56];
    let mut g = GBC::new(cartridge(&prog), Vec::new()).unwrap();
    run(&mut g, 3);
    assert_eq!(g.cpu.regs.b, 8);
    run(&mut g, 1);
    assert_eq!((g.cpu.regs.a, g.cpu.regs.f), (0, 0xC0));
    run(&mut g, 5);
    assert_eq!(g.cpu.regs.d, 0x45);
    assert_eq!(g.io.read(0xC000), 0x45);
}

#[test]
fn call_ret_push_pop() {
    // LD BC,0x12FF; PUSH BC; POP AF; CALL 0x0110; (0x0109) LD E,A; HALT ... (0x0110) LD A,0x77; RET
    let mut prog = vec![0x01, 0xFF, 0x12, 0xC5, 0xF1, 0xCD, 0x10, 0x01, 0x5F, 0x76];
    prog.resize(0x10, 0x00);
    prog.extend_from_slice(&[0x3E, 0x77, 0xC9]);
    let mut g = GBC::new(cartridge(&prog), Vec::new()).unwrap();
    run(&mut g, 3);
    assert_eq!((g.cpu.regs.a, g.cpu.regs.f), (0x12, 0xF0));
    run(&mut g, 4);
    assert_eq!(g.cpu.regs.e, 0x77);
    assert_eq!(g.cpu.regs.sp, 0xFFFE);
}

#[test]
fn serial_output_reaches_host() {
    // LD A,'O'; LDH (01),A; LD A,0x81; LDH (02),A; LD A,'K'; LDH (01),A; LD A,0x81; LDH (02),A
    let prog = [0x3E, b'O', 0xE0, 0x01, 0x3E, 0x81, 0xE0, 0x02, 0x3E, b'K', 0xE0, 0x01, 0x3E, 0x81, 0xE0, 0x02];
    let mut g = GBC::new(cartridge(&prog), Vec::new()).unwrap();
    run(&mut g, 8);
    assert_eq!(g.take_serial_output(), b"OK".to_vec());
}

#[test]
fn unused_opcode_is_refused() {
    let mut g = GBC::new(cartridge(&[0x00, 0xD3]), Vec::new()).unwrap();
    assert!(g.emulate().is_ok());
    assert_eq!(g.emulate(), Err(CpuError::IllegalOpcode { opcode: 0xD3, pc: 0x0101 }));
}

#[test]
fn bad_cartridge_is_refused() {
    let mut rom = cartridge(&[0x00]);
    rom[0x14D] ^= 0xFF;
    assert!(matches!(GBC::new(rom, Vec::new()), Err(GbcError::Cartridge(CartridgeError::BadChecksum { .. }))));
}

#[test]
fn interrupt_dispatch_goes_to_vector() {
    // LD A,0x04; LDH (FF),A; EI; NOP; LD A,0x04; LDH (0F),A; NOP; NOP
    let prog = [0x3E, 0x04, 0xE0, 0xFF, 0xFB, 0x00, 0x3E, 0x04, 0xE0, 0x0F, 0x00, 0x00];
    let mut g = GBC::new(cartridge(&prog), Vec::new()).unwrap();
    run(&mut g, 6);
    assert_eq!(g.cpu.regs.pc, 0x010A);
    run(&mut g, 1);
    assert_eq!(g.cpu.regs.pc, 0x0050);
    assert_eq!(g.cpu.regs.sp, 0xFFFC);
    assert_eq!(g.io.read(0xFFFD), 0x01);
    assert_eq!(g.io.read(0xFFFC), 0x0A);
    assert_eq!(g.io.read(0xFF0F) & 0x04, 0);
    assert!(!g.cpu.ime);
}

#[test]
fn halt_waits_for_interrupt_and_halt_bug_repeats_a_byte() {
    // IME off, nothing pending: HALT halts.
    let mut g = GBC::new(cartridge(&[0x76, 0x00]), Vec::new()).unwrap();
    run(&mut g, 1);
    assert!(g.cpu.is_halted);
    run(&mut g, 10);
    assert_eq!(g.cpu.regs.pc, 0x0101);
    // IME off with an interrupt pending: the byte after HALT runs twice.
    // LD A,1; LDH (FF),A; LDH (0F),A; HALT; INC B
    let prog = [0x3E, 0x01, 0xE0, 0xFF, 0xE0, 0x0F, 0x76, 0x04];
    let mut g = GBC::new(cartridge(&prog), Vec::new()).unwrap();
    run(&mut g, 6);
    assert_eq!(g.cpu.regs.b, 0x02);
}

#[test]
fn cb_prefix_operations() {
    // LD A,0x80; CB 7F (BIT 7,A); CB 87 (RES 0,A); CB C7 (SET 0,A); CB 37 (SWAP A)
    let prog = [0x3E, 0x80, 0xCB, 0x7F, 0xCB, 0x87, 0xCB, 0xC7, 0xCB, 0x37];
    let mut g = GBC::new(cartridge(&prog), Vec::new()).unwrap();
    run(&mut g, 2);
    assert_eq!(g.cpu.regs.f & 0x80, 0);
    run(&mut g, 3);
    assert_eq!(g.cpu.regs.a, 0x18);
}

#[test]
fn joypad_events_raise_interrupt_flag() {
    // LD A,0x20; LDH (00),A  (select the button group)
    let mut g = GBC::new(cartridge(&[0x3E, 0x20, 0xE0, 0x00]), Vec::new()).unwrap();
    run(&mut g, 2);
    g.update_inputs(&vec![(Button::Start, true)]);
    assert_ne!(g.io.read(0xFF0F) & 0x10, 0);
    assert_eq!(g.io.read(0xFF00) & 0x0F, 0x07);
}

#[test]
fn boot_rom_runs_then_unmaps() {
    // boot: JP 0x00FC; at 0x00FC: LD A,1; LDH (50),A -- cartridge at 0x0100: LD B,0x42
    let mut boot = vec![0u8; 0x100];
    boot[..3].copy_from_slice(&[0xC3, 0xFC, 0x00]);
    boot[0xFC..].copy_from_slice(&[0x3E, 0x01, 0xE0, 0x50]);
    let mut g = GBC::new(cartridge(&[0x06, 0x42]), boot).unwrap();
    assert_eq!(g.cpu.regs.pc, 0x0100);
    assert_eq!(g.io.read(0x0000), 0x00);
    run(&mut g, 1);
    assert_eq!(g.cpu.regs.b, 0x42);
}

#[test]
fn frames_complete_every_70224_dots() {
    let mut g = GBC::new(cartridge(&[0x18, 0xFE]), Vec::new()).unwrap();
    let mut frames = 0;
    // JR -2 takes three machine cycles, twelve dots
    for _ in 0..(70224 / 12 * 2) {
        g.emulate().unwrap();
        if g.take_frame_ready() {
            frames += 1;
        }
    }
    assert_eq!(frames, 2);
    assert_eq!(g.framebuffer().len(), 160 * 144 * 3);
}

#[test]
fn cb_opcodes_on_registers() {
    let mut g = GBC::new(cartridge(&[0x00]), Vec::new()).unwrap();
    g.cpu.regs.b = 0x81;
    g.cpu.regs.f = 0;
    g.cpu.exec_cb(&mut g.io, 0x00); // RLC B
    assert_eq!((g.cpu.regs.b, g.cpu.regs.f), (0x03, 0x10));
    g.cpu.exec_cb(&mut g.io, 0x38); // SRL B
    assert_eq!((g.cpu.regs.b, g.cpu.regs.f), (0x01, 0x10));
    g.cpu.exec_cb(&mut g.io, 0x48); // BIT 1,B
    assert_eq!(g.cpu.regs.f, 0xB0);
    g.cpu.exec_cb(&mut g.io, 0xF8); // SET 7,B
    assert_eq!(g.cpu.regs.b, 0x81);
    g.cpu.exec_cb(&mut g.io, 0x80); // RES 0,B
    assert_eq!(g.cpu.regs.b, 0x80);
}

#[test]
fn ei_takes_effect_after_next_instruction() {
    // LD A,1; LDH (FF),A; LDH (0F),A; EI; INC B; INC B
    let prog = [0x3E, 0x01, 0xE0, 0xFF, 0xE0, 0x0F, 0xFB, 0x04, 0x04];
    let mut g = GBC::new(cartridge(&prog), Vec::new()).unwrap();
    run(&mut g, 4);
    assert!(g.cpu.ime && !g.cpu.prev_ime);
    run(&mut g, 1);
    assert_eq!(g.cpu.regs.b, 1);
    run(&mut g, 1);
    assert_eq!(g.cpu.regs.pc, 0x0040);
    assert_eq!(g.cpu.regs.b, 1);
}

#[test]
fn instruction_cycle_counts() {
    // NOP; LD B,C; LD A,(HL); ADD A,(HL); PUSH BC; POP BC; CALL 0x0110; ... 0x0110: RET -> JP 0x0100
    let mut prog = vec![0x00, 0x41, 0x7E, 0x86, 0xC5, 0xC1, 0xCD, 0x10, 0x01, 0xC3, 0x00, 0x01];
    prog.resize(0x10, 0x00);
    prog.push(0xC9);
    let mut g = GBC::new(cartridge(&prog), Vec::new()).unwrap();
    let mut dots = Vec::new();
    for _ in 0..8 {
        let before = g.io.cycles;
        g.emulate().unwrap();
        dots.push(g.io.cycles - before);
    }
    assert_eq!(dots, vec![4, 4, 8, 8, 16, 12, 24, 16]);
    let before = g.io.cycles;
    g.emulate().unwrap();
    assert_eq!(g.io.cycles - before, 16);
    assert_eq!(g.cpu.regs.pc, 0x0100);
}

#[test]
fn immediate_and_hl_logic_ops_and_reti() {
    // LD HL,0xC000; LD (HL),0x0F; LD A,0x3C; AND (HL); OR 0x40; XOR (HL); AND 0x00
    let prog = [0x21, 0x00, 0xC0, 0x36, 0x0F, 0x3E, 0x3C, 0xA6, 0xF6, 0x40, 0xAE, 0xE6, 0x00];
    let mut g = GBC::new(cartridge(&prog), Vec::new()).unwrap();
    run(&mut g, 4);
    assert_eq!((g.cpu.regs.a, g.cpu.regs.f), (0x0C, 0x20));
    run(&mut g, 1);
    assert_eq!((g.cpu.regs.a, g.cpu.regs.f), (0x4C, 0x00));
    run(&mut g, 1);
    assert_eq!((g.cpu.regs.a, g.cpu.regs.f), (0x43, 0x00));
    run(&mut g, 1);
    assert_eq!((g.cpu.regs.a, g.cpu.regs.f), (0x00, 0xA0));
    // RETI: CALL 0x0110 at 0x0100; 0x0110: RETI
    let mut prog = vec![0xCD, 0x10, 0x01, 0x00];
    prog.resize(0x10, 0x00);
    prog.push(0xD9);
    let mut g = GBC::new(cartridge(&prog), Vec::new()).unwrap();
    run(&mut g, 2);
    assert_eq!((g.cpu.regs.pc, g.cpu.regs.sp), (0x0103, 0xFFFE));
    assert!(g.cpu.ime && g.cpu.prev_ime);
}

#[test]
fn cb_opcodes_on_hl() {
    // LD HL,0xC000; LD (HL),0x81; CB 06 (RLC (HL)); CB 46 (BIT 0,(HL)); CB C6 (SET 0,(HL)); CB 86 (RES 0,(HL))
    let prog = [0x21, 0x00, 0xC0, 0x36, 0x81, 0xCB, 0x06, 0xCB, 0x46, 0xCB, 0xC6, 0xCB, 0x86];
    let mut g = GBC::new(cartridge(&prog), Vec::new()).unwrap();
    run(&mut g, 2);
    let c0 = g.io.cycles;
    run(&mut g, 1);
    assert_eq!(g.io.cycles - c0, 16);
    assert_eq!((g.io.read(0xC000), g.cpu.regs.f), (0x03, 0x10));
    let c1 = g.io.cycles;
    run(&mut g, 1);
    assert_eq!(g.io.cycles - c1, 12);
    assert_eq!(g.cpu.regs.f, 0x30);
    run(&mut g, 1);
    assert_eq!(g.io.read(0xC000), 0x03);
    run(&mut g, 1);
    assert_eq!(g.io.read(0xC000), 0x02);
}
