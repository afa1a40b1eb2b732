use gbc_core::apu::{APU, FrameSequencer};
use gbc_core::apu::noise::Noise;
use gbc_core::apu::tone_sweep::ToneSweep;
use gbc_core::apu::wave::Wave;
use gbc_core::bus::IO;
use gbc_core::header::{CartridgeError, Header};
use gbc_core::joypad::{Button, Joypad};
use gbc_core::mbc::{get_mbc, MemoryBankController, MBC1, MBC2, MBC3};
use gbc_core::ppu::{mode3_len, PPU};
use gbc_core::ram::{HRAM, WRAM};
use gbc_core::serial::Serial;
use gbc_core::timer::Timer;

/// A cartridge image of `0x8000 << size_code` bytes with a valid header.
fn rom_image(cart_type: u8, size_code: u8, ram_code: u8, fill_banks: bool) -> Vec<u8> {
    let len = 0x8000usize << size_code;
    let mut rom = vec![0u8; len];
    if fill_banks {
        for (i, b) in rom.iter_mut().enumerate() {
            *b = (i / 0x4000) as u8;
        }
    }
    for (i, c) in b"TESTCART".iter().enumerate() {
        rom[0x134 + i] = *c;
    }
    rom[0x147] = cart_type;
    rom[0x148] = size_code;
    rom[0x149] = ram_code;
    let mut x = 0u8;
    for i in 0x134..0x14D {
        x = x.wrapping_add(!rom[i]);
    }
    rom[0x14D] = x;
    rom
}

#[test]
fn header_decodes_fields() {
    let rom = rom_image(0x03, 2, 3, false);
    let h = Header::new(&rom).unwrap();
    assert_eq!(h.get_cartridge_type(), 0x03);
    assert_eq!(h.get_rom_size(), 0x20000);
    assert_eq!(h.get_ram_size(), 0x8000);
    assert_eq!(h.title, b"TESTCART\0\0\0".to_vec());
    assert!(!h.in_cgb());
}

#[test]
fn header_errors() {
    assert_eq!(Header::new(&vec![0u8; 0x100]).err(), Some(CartridgeError::TooSmall));
    let mut rom = rom_image(0, 0, 0, false);
    rom[0x14D] = rom[0x14D].wrapping_add(1);
    assert!(matches!(Header::new(&rom), Err(CartridgeError::BadChecksum { .. })));
    let mut rom = rom_image(0, 0, 0, false);
    rom.truncate(0x4000);
    assert_eq!(Header::new(&rom).err(), Some(CartridgeError::SizeMismatch));
    let mut rom = rom_image(0, 9, 0, false);
    rom.truncate(0x8000);
    assert_eq!(Header::new(&rom).err(), Some(CartridgeError::BadRomSizeCode(9)));
    let mut rom = rom_image(0, 0, 6, false);
    rom.truncate(0x8000);
    assert_eq!(Header::new(&rom).err(), Some(CartridgeError::BadRamSizeCode(6)));
    let rom = rom_image(0x20, 0, 0, false);
    let h = Header::new(&rom).unwrap();
    assert!(matches!(get_mbc(h, rom), Err(CartridgeError::UnsupportedType(0x20))));
    assert!(matches!(IO::new(rom_image(0xFC, 0, 0, false)), Err(CartridgeError::UnsupportedType(0xFC))));
}

#[test]
fn mbc1_walks_all_banks_in_both_modes() {
    let rom = rom_image(0x01, 6, 0, true);
    let h = Header::new(&rom).unwrap();
    let mut m = MBC1::new(&h, rom, false, false);
    for mode in 0..2u8 {
        m.write(0x6000, mode);
        for bank in 0..128u16 {
            m.write(0x2000, (bank & 0x1F) as u8);
            m.write(0x4000, (bank >> 5) as u8);
            let expected = if bank & 0x1F == 0 { bank + 1 } else { bank };
            assert_eq!(m.read(0x4000) as u16, expected);
            assert_eq!(m.read(0x7FFF) as u16, expected);
            let low = if mode == 1 { (bank >> 5) << 5 } else { 0 };
            assert_eq!(m.read(0x0000) as u16, low);
        }
    }
    m.write(0x6000, 1);
    let mut seen = Vec::new();
    for upper in 0..4u8 {
        m.write(0x4000, upper);
        seen.push(m.read(0x0000));
    }
    assert_eq!(seen, vec![0x00, 0x20, 0x40, 0x60]);
}

#[test]
fn mbc1_ram_enable_and_banking() {
    let rom = rom_image(0x03, 6, 3, true);
    let h = Header::new(&rom).unwrap();
    let mut m = MBC1::new(&h, rom, true, true);
    m.write(0xA000, 0x42);
    assert_eq!(m.read(0xA000), 0xFF);
    m.write(0x0000, 0x0A);
    m.write(0xA000, 0x42);
    assert_eq!(m.read(0xA000), 0x42);
    m.write(0x6000, 1);
    m.write(0x4000, 2);
    assert_eq!(m.read(0xA000), 0x00);
    m.write(0xA000, 0x99);
    m.write(0x4000, 0);
    assert_eq!(m.read(0xA000), 0x42);
    m.write(0x4000, 2);
    assert_eq!(m.read(0xA000), 0x99);
}

#[test]
fn mbc2_banks_and_nibble_ram() {
    let rom = rom_image(0x06, 3, 0, true);
    let h = Header::new(&rom).unwrap();
    let mut m = MBC2::new(&h, rom, true);
    m.write(0x2100, 0x05);
    assert_eq!(m.read(0x4000), 5);
    m.write(0x2100, 0x00);
    assert_eq!(m.read(0x4000), 1);
    m.write(0x0000, 0x0A);
    m.write(0xA010, 0xAB);
    assert_eq!(m.read(0xA010), 0xFB);
    assert_eq!(m.read(0xA200), 0xFF);
}

#[test]
fn mbc3_banks_and_clock() {
    let rom = rom_image(0x10, 6, 3, true);
    let h = Header::new(&rom).unwrap();
    let mut m = MBC3::new(&h, rom, true, true, true);
    m.write(0x2000, 0x45);
    assert_eq!(m.read(0x4000), 0x45);
    m.write(0x2000, 0);
    assert_eq!(m.read(0x4000), 1);
    m.write(0x0000, 0x0A);
    m.write(0x4000, 0x08);
    m.write(0xA000, 59);
    for _ in 0..(32 * 32768) {
        m.emulate_clock();
    }
    m.write(0x6000, 0);
    m.write(0x6000, 1);
    assert_eq!(m.read(0xA000), 0);
    m.write(0x4000, 0x09);
    assert_eq!(m.read(0xA000), 1);
}

#[test]
fn controller_chosen_by_type() {
    for (t, kind) in [(0x00u8, 0), (0x01, 1), (0x05, 2), (0x13, 3), (0x09, 0)] {
        let rom = rom_image(t, 1, 0, true);
        let h = Header::new(&rom).unwrap();
        let m = get_mbc(h, rom).unwrap();
        let k = match m {
            MemoryBankController::RomOnly(_) => 0,
            MemoryBankController::Mbc1(_) => 1,
            MemoryBankController::Mbc2(_) => 2,
            MemoryBankController::Mbc3(_) => 3,
        };
        assert_eq!(k, kind);
        assert_eq!(m.read(0x4000), 1);
    }
}

#[test]
fn div_write_bumps_tima_once() {
    let mut t = Timer::new();
    t.write(0xFF07, 0x05);
    t.write(0xFF05, 0x10);
    // run until the selected bit (3) of the internal counter is 1
    while t.divider_counter & 0x08 == 0 {
        t.emulate();
    }
    t.emulate();
    let before = t.read(0xFF05);
    assert!(t.divider_counter & 0x08 != 0);
    t.write(0xFF04, 0);
    t.emulate();
    assert_eq!(t.read(0xFF05), before + 1);
    t.emulate();
    assert_eq!(t.read(0xFF05), before + 1);
    assert_eq!(t.read(0xFF04), 0);
}

#[test]
fn div_write_overflow_raises_timer_interrupt() {
    let mut io = IO::new(rom_image(0, 0, 0, false)).unwrap();
    io.write(0xFF07, 0x05);
    io.write(0xFF06, 0x33);
    io.write(0xFF0F, 0x00);
    while io.timer.divider_counter & 0x08 == 0 {
        io.emulate_machine_cycle();
    }
    io.write(0xFF05, 0xFF);
    io.emulate_machine_cycle();
    assert_eq!(io.read(0xFF05), 0xFF);
    io.write(0xFF04, 0);
    io.emulate_machine_cycle();
    assert_eq!(io.read(0xFF05), 0x00);
    assert_eq!(io.read(0xFF0F) & 0x04, 0);
    io.emulate_machine_cycle();
    assert_eq!(io.read(0xFF05), 0x33);
    assert_ne!(io.read(0xFF0F) & 0x04, 0);
}

#[test]
fn timer_tac_and_tma_reads() {
    let mut t = Timer::new();
    t.write(0xFF07, 0xFF);
    assert_eq!(t.read(0xFF07), 0xFF);
    t.write(0xFF07, 0x01);
    assert_eq!(t.read(0xFF07), 0xF9);
    t.write(0xFF06, 0x77);
    assert_eq!(t.read(0xFF06), 0x77);
}

#[test]
fn scanline_modes_sum_to_456() {
    for scx in [0u8, 3, 7] {
        let mut p = PPU::new(false);
        p.write(0xFF43, scx);
        p.write(0xFF40, 0x80);
        let mut counts = [0u32; 4];
        for _ in 0..456 {
            p.emulate_clock();
            counts[p.mode as usize] += 1;
        }
        assert_eq!(counts[2], 80);
        assert_eq!(counts[3], 172 + (scx % 8) as u32);
        assert_eq!(counts[0] + counts[2] + counts[3], 456);
    }
    assert_eq!(mode3_len(5, true, 20), 172 + 5 + 6 + 20);
    assert_eq!(mode3_len(7, true, 1000), 289);
}

#[test]
fn frame_has_vblank_and_ly_wraps_early_on_153() {
    let mut p = PPU::new(false);
    p.write(0xFF40, 0x80);
    let mut vblanks = 0;
    let mut dots = 0u32;
    while p.ly != 153 {
        if p.emulate_clock() & 1 != 0 {
            vblanks += 1;
        }
        dots += 1;
    }
    assert_eq!(dots, 153 * 456);
    assert_eq!(vblanks, 1);
    for _ in 0..5 {
        p.emulate_clock();
    }
    assert_eq!(p.read(0xFF44), 0);
    assert_eq!(p.mode, 1);
    for _ in 5..456 {
        p.emulate_clock();
    }
    assert_eq!(p.ly, 0);
    assert_eq!(p.dot, 0);
    p.emulate_clock();
    assert_eq!(p.mode, 2);
}

#[test]
fn stat_interrupt_on_rising_edge_only() {
    let mut p = PPU::new(false);
    p.write(0xFF41, 0x08);
    p.write(0xFF40, 0x80);
    let mut stat = 0;
    for _ in 0..456 {
        if p.emulate_clock() & 2 != 0 {
            stat += 1;
        }
    }
    // HBlank level was already high while the LCD was off; the line then rises once
    assert_eq!(stat, 1);
}

#[test]
fn background_pixel_uses_palette() {
    let mut p = PPU::new(false);
    // tile 1 row 0 fully colour 3; map entry (0,0) uses tile 1
    p.write(0x8010, 0xFF);
    p.write(0x8011, 0xFF);
    p.write(0x9800, 0x01);
    p.write(0xFF47, 0xE4);
    p.write(0xFF40, 0x91);
    for _ in 0..456 {
        p.emulate_clock();
    }
    assert_eq!(&p.pixels[0..3], &[0, 0, 0]);
    assert_eq!(&p.pixels[8 * 3..8 * 3 + 3], &[0xFF, 0xFF, 0xFF]);
}

#[test]
fn frame_sequencer_rates_per_second() {
    let mut s = FrameSequencer::new();
    let (mut length, mut sweep, mut env) = (0, 0, 0);
    for _ in 0..1048576u32 {
        let e = s.clock();
        if e & 1 != 0 {
            length += 1;
        }
        if e & 2 != 0 {
            sweep += 1;
        }
        if e & 4 != 0 {
            env += 1;
        }
    }
    assert_eq!((length, sweep, env), (256, 128, 64));
}

#[test]
fn apu_power_and_wave_ram() {
    let mut a = APU::new(44100);
    a.write(0xFF26, 0x80);
    a.write(0xFF30, 0x12);
    assert_eq!(a.read(0xFF30), 0x12);
    a.write(0xFF24, 0x77);
    a.write(0xFF25, 0xFF);
    assert_eq!(a.read(0xFF24), 0x77);
    a.write(0xFF12, 0xF0);
    a.write(0xFF14, 0x80);
    assert_eq!(a.read(0xFF26) & 0x81, 0x81);
    for _ in 0..1048576 / 10 {
        a.emulate_clock();
    }
    let frames = a.take_samples();
    assert!(frames.len() >= 4409 && frames.len() <= 4411);
    assert_eq!(frames[0].left_volume, 7);
    a.write(0xFF26, 0x00);
    assert_eq!(a.read(0xFF26), 0x00);
    assert_eq!(a.read(0xFF30), 0x12);
}

#[test]
fn joypad_press_raises_interrupt_when_selected() {
    let mut j = Joypad::new();
    j.write(0xFF00, 0x20);
    assert_eq!(j.read(0xFF00), 0xEF);
    assert_eq!(j.update_inputs(&vec![(Button::A, true)]), 0x10);
    assert_eq!(j.read(0xFF00), 0xEE);
    assert_eq!(j.update_inputs(&vec![(Button::Up, true)]), 0);
    assert_eq!(j.update_inputs(&vec![(Button::A, false)]), 0);
    assert_eq!(j.read(0xFF00), 0xEF);
}

#[test]
fn serial_stub_emits_bytes() {
    let mut s = Serial::new();
    s.write(0xFF01, b'O');
    s.write(0xFF02, 0x81);
    s.write(0xFF01, b'K');
    s.write(0xFF02, 0x81);
    assert_eq!(s.read(0xFF02), 0x7F);
    assert_eq!(s.take_output(), b"OK".to_vec());
    assert!(s.take_output().is_empty());
}

#[test]
fn ram_round_trips() {
    let mut h = HRAM::new();
    h.write(0xFF80, 1);
    h.write(0xFFFE, 2);
    assert_eq!((h.read(0xFF80), h.read(0xFFFE)), (1, 2));
    let mut w = WRAM::new(8);
    w.write_bank(3);
    w.write(0xD123, 0x33);
    w.write_bank(0);
    assert_eq!(w.read_bank(), 1);
    assert_eq!(w.read(0xD123), 0);
    w.write_bank(3);
    assert_eq!(w.read(0xD123), 0x33);
    let dmg = WRAM::new(2);
    assert_eq!(dmg.read_bank(), 0xFF);
}

#[test]
fn bus_decode_table() {
    let mut io = IO::new(rom_image(0, 0, 0, true)).unwrap();
    io.write(0xC010, 0x5A);
    assert_eq!(io.read(0xE010), 0x5A);
    io.write(0xFFFF, 0x1F);
    assert_eq!(io.read(0xFFFF), 0x1F);
    io.write(0xFF0F, 0x01);
    assert_eq!(io.read(0xFF0F), 0xE1);
    assert_eq!(io.read(0xFEA0), 0xFF);
    assert_eq!(io.read(0xFF03), 0xFF);
    assert_eq!(io.read(0x4000), 1);
    io.write(0xFF90, 0x77);
    assert_eq!(io.read(0xFF90), 0x77);
    io.write(0xFF46, 0xC0);
    for _ in 0..162 {
        io.emulate_machine_cycle();
    }
    assert_eq!(io.read(0xFE10), 0x5A);
}

#[test]
fn sweep_steps_frequency_and_overflows() {
    let mut ts = ToneSweep::new();
    ts.write(0xFF10, 0x11);
    ts.write(0xFF13, 0x00);
    ts.write(0xFF14, 0x81);
    assert_eq!(ts.freq_latch, 0x100);
    ts.clock_sweep();
    assert_eq!(ts.tone.freq, 0x180);
    assert!(ts.enabled);
    for _ in 0..4 {
        ts.clock_sweep();
    }
    assert!(!ts.enabled);
    assert_eq!(ts.generate_sample(), 0);
}

#[test]
fn mbc1_random_writes_keep_bank_in_range() {
    let rom = rom_image(0x01, 4, 0, true);
    let h = Header::new(&rom).unwrap();
    let mut m = MBC1::new(&h, rom, false, false);
    let mut seed: u32 = 12345;
    for _ in 0..5000 {
        seed = seed.wrapping_mul(1103515245).wrapping_add(12345);
        let addr = ((seed >> 8) % 0x8000) as u16;
        let value = (seed >> 20) as u8;
        m.write(addr, value);
        let number = m.regs.bank2 as u32 * 32 + m.regs.bank1 as u32;
        assert!((1..=127).contains(&number));
        let high = m.read(0x4000) as u32;
        assert_eq!(high, number & 31);
        assert!(high <= m.rom_mask);
        let low = m.read(0x0000) as u32;
        assert_eq!(low, if m.regs.ram_banking { (m.regs.bank2 as u32 * 32) & m.rom_mask } else { 0 });
    }
}

#[test]
fn noise_and_wave_outputs() {
    let mut n = Noise::new();
    n.write(0xFF21, 0xF0);
    n.write(0xFF22, 0x00);
    n.write(0xFF23, 0x80);
    assert_eq!(n.lfsr, 0x7FFF);
    assert_eq!(n.generate_sample(), 0);
    for _ in 0..8 {
        n.emulate_clock();
    }
    assert_eq!(n.lfsr, 0x3FFF);
    assert_eq!(n.generate_sample(), 0);
    let mut w = Wave::new();
    w.write_wave_table(0xFF30, 0xA5);
    w.write(0xFF1C, 0x20);
    w.write(0xFF1E, 0x80);
    assert_eq!(w.generate_sample(), 0x0A);
    w.write(0xFF1C, 0x40);
    assert_eq!(w.generate_sample(), 0x05);
    w.write(0xFF1C, 0x00);
    assert_eq!(w.generate_sample(), 0);
}

#[test]
fn mixer_sums_routed_channels() {
    let mut a = APU::new(44100);
    a.write(0xFF26, 0x80);
    for addr in 0xFF30..=0xFF3Fu16 {
        a.write(addr, 0xFF);
    }
    a.write(0xFF1A, 0x80);
    a.write(0xFF1C, 0x20);
    a.write(0xFF25, 0x40);
    a.write(0xFF24, 0x35);
    a.write(0xFF1E, 0x80);
    for _ in 0..200 {
        a.emulate_clock();
    }
    let frames = a.take_samples();
    assert!(!frames.is_empty());
    for f in frames.iter() {
        assert_eq!(f.left, 15 * f.count as i32);
        assert_eq!(f.right, 0);
        assert_eq!((f.left_volume, f.right_volume), (3, 5));
    }
}

#[test]
fn sprites_priority_by_x_on_dmg() {
    let mut p = PPU::new(false);
    // tile 2: colour 1 everywhere; tile 3: colour 2 everywhere
    for row in 0..8u16 {
        p.write(0x8020 + row * 2, 0xFF);
        p.write(0x8021 + row * 2, 0x00);
        p.write(0x8030 + row * 2, 0x00);
        p.write(0x8031 + row * 2, 0xFF);
    }
    // OAM entry 0 at screen x 4..11 with tile 3; entry 1 at screen x 2..9 with tile 2
    for (i, b) in [16u8, 12, 3, 0, 16, 10, 2, 0].iter().enumerate() {
        p.write(0xFE00 + i as u16, *b);
    }
    p.write(0xFF47, 0x00);
    p.write(0xFF48, 0xE4);
    p.write(0xFF40, 0x93);
    for _ in 0..456 {
        p.emulate_clock();
    }
    let level = |x: usize| p.pixels[x * 3];
    assert_eq!(level(0), 0xFF);
    assert_eq!(level(2), 0xAA);
    assert_eq!(level(5), 0xAA);
    assert_eq!(level(10), 0x55);
    assert_eq!(level(12), 0xFF);
}

#[test]
fn hdma_block_goes_to_the_programmed_destination() {
    let mut p = PPU::new(true);
    p.write_hdma(0xFF51, 0xC1);
    p.write_hdma(0xFF52, 0x20);
    p.write_hdma(0xFF53, 0x1F);
    p.write_hdma(0xFF54, 0xF0);
    p.write_hdma(0xFF55, 0x81);
    p.hdma_pending = true;
    assert_eq!(p.hdma_block(), Some((0xC120, 0x9FF0)));
    p.hdma_pending = true;
    assert_eq!(p.hdma_block(), Some((0xC130, 0x8000)));
    p.hdma_pending = true;
    assert_eq!(p.hdma_block(), None);
}
