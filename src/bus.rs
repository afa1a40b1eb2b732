//! The memory bus: decodes every CPU address to its device, holds IE/IF and the
//! boot-ROM overlay, and advances every peripheral by one machine cycle per CPU
//! memory access or internal cycle.
use vstd::prelude::*;
use crate::apu::APU;
use crate::header::{CartridgeError, Header};
use crate::joypad::{Button, Joypad};
use crate::mbc::{MemoryBankController, get_mbc, supported_type};
use crate::ppu::PPU;
use crate::ram::{HRAM, WRAM};
use crate::serial::Serial;
use crate::timer::Timer;

verus! {

/// Host sample rate the mixer produces frames at.
pub const SAMPLE_RATE: u32 = 44100;
/// Machine cycles a CGB speed switch stalls the CPU for.
pub const SPEED_SWITCH_CYCLES: u32 = 128 * 1024 - 75;

/// Addresses whose bytes no machine cycle changes on its own: cartridge ROM (and
/// the boot overlay), work RAM and high RAM.
pub open spec fn stable_addr(a: u16) -> bool {
    a < 0x8000 || 0xC000 <= a <= 0xDFFF || 0xFF80 <= a <= 0xFFFE
}

/// Changing only the PPU, the timer, the APU, the serial port, the joypad, IF or
/// the cycle count leaves every stable address reading the same.
pub proof fn lemma_stable_reads(a: IO, b: IO, addr: u16)
    requires
        stable_addr(addr),
        b.mbc == a.mbc,
        b.wram == a.wram,
        b.hram == a.hram,
        b.boot_rom == a.boot_rom,
        b.boot_rom_active == a.boot_rom_active,
    ensures
        b.spec_read(addr) == a.spec_read(addr),
{
    reveal(IO::spec_read);
}

pub struct IO {
    pub mbc: MemoryBankController,
    pub apu: APU,
    pub ppu: PPU,
    pub wram: WRAM,
    pub serial: Serial,
    pub joypad: Joypad,
    pub timer: Timer,
    pub int_enable: u8,
    pub hram: HRAM,
    pub int_flags: u8,
    pub in_cgb: bool,
    pub double_speed: bool,
    pub prepare_speed_switch: bool,
    /// The boot ROM mapped over the cartridge while `boot_rom_active`: 256 bytes
    /// at 0x0000, or 2304 bytes whose 0x200..0x900 part also shows through.
    pub boot_rom: Vec<u8>,
    pub boot_rom_active: bool,
    /// Dot clocks elapsed (four per machine cycle), wrapping.
    pub cycles: u64,
    pub should_close: bool,
}

impl IO {
    pub open spec fn wf(&self) -> bool {
        &&& self.mbc.wf()
        &&& self.apu.wf()
        &&& self.ppu.wf()
        &&& self.wram.wf()
        &&& self.timer.wf()
        &&& self.hram.wf()
        &&& self.ppu.cgb == self.in_cgb
        &&& (self.wram.num_banks == 8) == self.in_cgb
    }

    /// Whether `addr` is served by the boot-ROM overlay.
    pub open spec fn in_boot_rom(&self, addr: u16) -> bool {
        &&& self.boot_rom_active
        &&& (addr < 0x100 && self.boot_rom@.len() >= 0x100 || 0x200 <= addr < 0x900 && self.boot_rom@.len() >= 0x900)
    }

    /// The byte a read returns, by address range (the APU range 0xFF10..0xFF3F is
    /// given by the APU's own read).
    #[verifier::opaque]
    pub open spec fn spec_read(&self, addr: u16) -> u8 {
        if self.in_boot_rom(addr) {
            self.boot_rom@[addr as int]
        } else if addr <= 0x7FFF {
            self.mbc.spec_read(addr)
        } else if addr <= 0x9FFF {
            self.ppu.spec_read(addr)
        } else if addr <= 0xBFFF {
            self.mbc.spec_read(addr)
        } else if addr <= 0xDFFF {
            self.wram.spec_read(addr)
        } else if addr <= 0xFDFF {
            self.wram.spec_read((addr - 0x2000) as u16)
        } else if addr <= 0xFE9F {
            self.ppu.spec_read(addr)
        } else if addr == 0xFF00 {
            self.joypad.spec_read()
        } else if addr == 0xFF01 || addr == 0xFF02 {
            self.serial.spec_read(addr)
        } else if 0xFF04 <= addr <= 0xFF07 {
            self.timer.spec_read(addr)
        } else if addr == 0xFF0F {
            self.int_flags | 0xE0
        } else if 0xFF40 <= addr <= 0xFF4B {
            self.ppu.spec_read(addr)
        } else if addr == 0xFF4D {
            if self.in_cgb {
                (0x7E + (if self.double_speed { 0x80int } else { 0 }) + (if self.prepare_speed_switch {
                    1int
                } else {
                    0
                })) as u8
            } else {
                0xFF
            }
        } else if addr == 0xFF4F {
            if self.in_cgb { (0xFE + self.ppu.vram_bank) as u8 } else { 0xFF }
        } else if 0xFF68 <= addr <= 0xFF6B {
            self.ppu.spec_read_palettes(addr)
        } else if addr == 0xFF70 {
            if self.wram.num_banks == 2 { 0xFF } else { self.wram.bank as u8 }
        } else if 0xFF80 <= addr <= 0xFFFE {
            self.hram.spec_read(addr)
        } else if addr == 0xFFFF {
            self.int_enable
        } else {
            0xFF
        }
    }

    /// Builds the bus around a cartridge image: checks the header and picks the
    /// bank controller; CGB hardware is emulated when the header asks for it.
    pub fn new(rom: Vec<u8>) -> (r: Result<IO, CartridgeError>)
        ensures
            r is Ok <==> (crate::header::header_error(rom@) is None && supported_type(rom@[0x147])),
            r matches Ok(io) ==> io.wf() && !io.boot_rom_active && io.in_cgb == (rom@[0x143] & 0x80 != 0),
            r matches Ok(io) ==> forall|a: u16| a < 0x8000 ==> #[trigger] io.spec_read(a) == rom@[a as int],
            r matches Ok(io) ==> forall|a: u16|
                0xC000 <= a <= 0xDFFF || 0xFF80 <= a <= 0xFFFE ==> #[trigger] io.spec_read(a) == 0,
            r matches Err(e) ==> (crate::header::header_error(rom@) matches Some(h) ==> e == h),
            crate::header::header_error(rom@) is None ==> (r matches Err(e) ==> e == CartridgeError::UnsupportedType(
                rom@[0x147],
            )),
    {
        let header = match Header::new(&rom) {
            Ok(h) => h,
            Err(e) => return Err(e),
        };
        let in_cgb = header.in_cgb();
        let mbc = match get_mbc(header, rom) {
            Ok(m) => m,
            Err(e) => return Err(e),
        };
        let io = IO {
                mbc,
                apu: APU::new(SAMPLE_RATE),
                ppu: PPU::new(in_cgb),
                wram: WRAM::new(if in_cgb { 8 } else { 2 }),
                serial: Serial::new(),
                joypad: Joypad::new(),
                timer: Timer::new(),
                int_enable: 0,
                hram: HRAM::new(),
                int_flags: 0xE0,
                in_cgb,
                double_speed: false,
                prepare_speed_switch: false,
                boot_rom: Vec::new(),
                boot_rom_active: false,
                cycles: 8,
                should_close: false,
            };
        proof {
            reveal(IO::spec_read);
        }
        Ok(io)
    }

    #[verifier::rlimit(40)]
    pub fn read(&self, addr: u16) -> (r: u8)
        requires
            self.wf(),
        ensures
            !(0xFF10 <= addr <= 0xFF3F) ==> r == self.spec_read(addr),
            0xFF30 <= addr <= 0xFF3F ==> r == self.apu.wave.wave_table@[addr - 0xFF30],
            addr == 0xFF24 ==> r == self.apu.nr50,
            addr == 0xFF25 ==> r == self.apu.nr51,
    {
        reveal(IO::spec_read);
        if self.boot_rom_active && (addr < 0x100 && self.boot_rom.len() >= 0x100 || 0x200 <= addr && addr < 0x900
            && self.boot_rom.len() >= 0x900) {
            self.boot_rom[addr as usize]
        } else if addr <= 0x7FFF {
            self.mbc.read(addr)
        } else if addr <= 0x9FFF {
            self.ppu.read(addr)
        } else if addr <= 0xBFFF {
            self.mbc.read(addr)
        } else if addr <= 0xDFFF {
            self.wram.read(addr)
        } else if addr <= 0xFDFF {
            self.wram.read(addr - 0x2000)
        } else if addr <= 0xFE9F {
            self.ppu.read(addr)
        } else if addr == 0xFF00 {
            self.joypad.read(addr)
        } else if addr == 0xFF01 || addr == 0xFF02 {
            self.serial.read(addr)
        } else if 0xFF04 <= addr && addr <= 0xFF07 {
            self.timer.read(addr)
        } else if addr == 0xFF0F {
            self.int_flags | 0xE0
        } else if 0xFF10 <= addr && addr <= 0xFF3F {
            self.apu.read(addr)
        } else if 0xFF40 <= addr && addr <= 0xFF4B {
            self.ppu.read(addr)
        } else if addr == 0xFF4D {
            if self.in_cgb {
                0x7E + (if self.double_speed { 0x80u8 } else { 0 }) + (if self.prepare_speed_switch { 1u8 } else { 0 })
            } else {
                0xFF
            }
        } else if addr == 0xFF4F {
            self.ppu.read_vram_bank()
        } else if 0xFF68 <= addr && addr <= 0xFF6B {
            self.ppu.read_cgb_palettes(addr)
        } else if addr == 0xFF70 {
            self.wram.read_bank()
        } else if 0xFF80 <= addr && addr <= 0xFFFE {
            self.hram.read(addr)
        } else if addr == 0xFFFF {
            self.int_enable
        } else {
            0xFF
        }
    }

    #[verifier::rlimit(40)]
    pub fn write(&mut self, addr: u16, value: u8)
        requires
            old(self).wf(),
        ensures
            final(self).wf(),
            final(self).in_cgb == old(self).in_cgb,
            final(self).double_speed == old(self).double_speed,
            addr == 0xFFFF ==> final(self).int_enable == value,
            addr != 0xFFFF ==> final(self).int_enable == old(self).int_enable,
            addr == 0xFF0F ==> final(self).int_flags == value | 0xE0,
            addr != 0xFF0F ==> final(self).int_flags == old(self).int_flags,
            addr == 0xFF50 && value != 0 ==> !final(self).boot_rom_active,
            addr != 0xFF50 ==> final(self).boot_rom_active == old(self).boot_rom_active,
            final(self).boot_rom@ == old(self).boot_rom@,
            final(self).cycles == old(self).cycles,
            0xFF80 <= addr <= 0xFFFE ==> final(self).spec_read(addr) == value,
            (0xC000 <= addr <= 0xDFFF || 0xFF80 <= addr <= 0xFFFE) ==> forall|b: u16|
                stable_addr(b) && b != addr ==> #[trigger] final(self).spec_read(b) == old(self).spec_read(b),
            (0xC000 <= addr <= 0xDFFF || 0xFF80 <= addr <= 0xFFFE) ==> final(self).ppu == old(self).ppu
                && final(self).timer == old(self).timer && final(self).apu == old(self).apu,
            0xC000 <= addr <= 0xDFFF ==> final(self).spec_read(addr) == value,
            addr == 0xFFFF ==> final(self).spec_read(addr) == value,
            addr == 0xFF42 || addr == 0xFF43 || addr == 0xFF45 || addr == 0xFF4A || addr == 0xFF4B || addr == 0xFF06
                ==> final(self).spec_read(addr) == value,
    {
        reveal(IO::spec_read);
        if addr <= 0x7FFF {
            self.mbc.write(addr, value);
        } else if addr <= 0x9FFF {
            self.ppu.write(addr, value);
        } else if addr <= 0xBFFF {
            self.mbc.write(addr, value);
        } else if addr <= 0xDFFF {
            self.wram.write(addr, value);
        } else if addr <= 0xFDFF {
            self.wram.write(addr - 0x2000, value);
        } else if addr <= 0xFE9F {
            self.ppu.write(addr, value);
        } else if addr == 0xFF00 {
            self.joypad.write(addr, value);
        } else if addr == 0xFF01 || addr == 0xFF02 {
            self.serial.write(addr, value);
        } else if 0xFF04 <= addr && addr <= 0xFF07 {
            self.timer.write(addr, value);
        } else if addr == 0xFF0F {
            self.int_flags = value | 0xE0;
        } else if 0xFF10 <= addr && addr <= 0xFF3F {
            self.apu.write(addr, value);
        } else if 0xFF40 <= addr && addr <= 0xFF4B {
            self.ppu.write(addr, value);
        } else if addr == 0xFF4D {
            self.prepare_speed_switch = value % 2 == 1;
        } else if addr == 0xFF4F {
            self.ppu.write_vram_bank(value);
        } else if addr == 0xFF50 {
            if value != 0 {
                self.boot_rom_active = false;
            }
        } else if 0xFF51 <= addr && addr <= 0xFF55 {
            self.ppu.write_hdma(addr, value);
        } else if 0xFF68 <= addr && addr <= 0xFF6B {
            self.ppu.write_cgb_palettes(addr, value);
        } else if addr == 0xFF70 {
            self.wram.write_bank(value);
        } else if 0xFF80 <= addr && addr <= 0xFFFE {
            self.hram.write(addr, value);
        } else if addr == 0xFFFF {
            self.int_enable = value;
        }
    }

    /// Exchanges the boot-ROM image held by the bus with `boot_rom`; the overlay is
    /// active exactly while a 256- or 2304-byte image is held.
    pub fn swap_boot_rom(&mut self, boot_rom: &mut Vec<u8>)
        requires
            old(self).wf(),
        ensures
            final(self).wf(),
            final(self).boot_rom@ == old(boot_rom)@,
            final(boot_rom)@ == old(self).boot_rom@,
            final(self).boot_rom_active == (old(boot_rom)@.len() == 0x100 || old(boot_rom)@.len() == 0x900),
    {
        std::mem::swap(&mut self.boot_rom, boot_rom);
        self.boot_rom_active = self.boot_rom.len() == 0x100 || self.boot_rom.len() == 0x900;
    }

    /// One machine cycle of OAM-DMA: copies the next byte into OAM.
    #[verifier::rlimit(80)]
    fn oam_dma(&mut self)
        requires
            old(self).wf(),
        ensures
            final(self).wf(),
            final(self).in_cgb == old(self).in_cgb,
            final(self).double_speed == old(self).double_speed,
            final(self).int_flags == old(self).int_flags,
            final(self).int_enable == old(self).int_enable,
            final(self).boot_rom == old(self).boot_rom,
            final(self).boot_rom_active == old(self).boot_rom_active,
            final(self).cycles == old(self).cycles,
            final(self).timer == old(self).timer,
            final(self).mbc == old(self).mbc,
            final(self).wram == old(self).wram,
            final(self).hram == old(self).hram,
            final(self).apu == old(self).apu,
            final(self).ppu.same_timing(old(self).ppu),
            final(self).ppu.vram == old(self).ppu.vram,
            ({
                let clk = old(self).ppu.oam_dma_clock;
                let src = (old(self).ppu.oam_dma_page * 256 + clk) as u16;
                old(self).ppu.in_oam_dma && clk < 160 && stable_addr(src) ==> final(self).ppu.oam@[clk as int]
                    == old(self).spec_read(src)
            }),
            !(old(self).ppu.in_oam_dma && old(self).ppu.oam_dma_clock < 160) ==> final(self).ppu.oam == old(self).ppu.oam,
    {
        if !self.ppu.in_oam_dma() {
            return;
        }
        let (should_write, oam_addr, cpu_addr) = self.ppu.oam_dma();
        if should_write {
            let v = self.read(cpu_addr);
            proof {
                if stable_addr(cpu_addr) {
                    lemma_stable_reads(*old(self), *self, cpu_addr);
                }
            }
            self.ppu.oam_write(oam_addr, v);
        }
    }

    /// One machine cycle of general DMA: two bytes at normal speed, one at double
    /// speed.
    #[verifier::rlimit(80)]
    fn gdma(&mut self)
        requires
            old(self).wf(),
        ensures
            final(self).wf(),
            final(self).in_cgb == old(self).in_cgb,
            final(self).double_speed == old(self).double_speed,
            final(self).int_flags == old(self).int_flags,
            final(self).int_enable == old(self).int_enable,
            final(self).boot_rom == old(self).boot_rom,
            final(self).boot_rom_active == old(self).boot_rom_active,
            final(self).cycles == old(self).cycles,
            final(self).timer == old(self).timer,
            final(self).mbc == old(self).mbc,
            final(self).wram == old(self).wram,
            final(self).hram == old(self).hram,
            final(self).apu == old(self).apu,
            final(self).ppu.same_timing(old(self).ppu),
            final(self).ppu.oam == old(self).ppu.oam,
    {
        let n: u8 = if self.double_speed { 1 } else { 2 };
        let mut i: u8 = 0;
        while i < n
            invariant
                self.wf(),
                self.in_cgb == old(self).in_cgb,
                self.double_speed == old(self).double_speed,
                self.int_flags == old(self).int_flags,
                self.int_enable == old(self).int_enable,
                self.boot_rom == old(self).boot_rom,
                self.boot_rom_active == old(self).boot_rom_active,
                self.cycles == old(self).cycles,
                self.timer == old(self).timer,
                self.mbc == old(self).mbc,
                self.wram == old(self).wram,
                self.hram == old(self).hram,
                self.apu == old(self).apu,
                self.ppu.same_timing(old(self).ppu),
                self.ppu.oam == old(self).ppu.oam,
            decreases n - i,
        {
            match self.ppu.gdma() {
                Some((src, dst)) => {
                    let v = self.read(src);
                    self.ppu.write(dst, v);
                },
                None => {},
            }
            i = i + 1;
        }
    }

    /// At the start of an HBlank with HBlank DMA armed, copies one 16-byte block.
    #[verifier::rlimit(80)]
    fn hdma(&mut self)
        requires
            old(self).wf(),
        ensures
            final(self).wf(),
            final(self).in_cgb == old(self).in_cgb,
            final(self).double_speed == old(self).double_speed,
            final(self).int_flags == old(self).int_flags,
            final(self).int_enable == old(self).int_enable,
            final(self).boot_rom == old(self).boot_rom,
            final(self).boot_rom_active == old(self).boot_rom_active,
            final(self).cycles == old(self).cycles,
            final(self).timer == old(self).timer,
            final(self).mbc == old(self).mbc,
            final(self).wram == old(self).wram,
            final(self).hram == old(self).hram,
            final(self).apu == old(self).apu,
            final(self).ppu.same_timing(old(self).ppu),
            final(self).ppu.oam == old(self).ppu.oam,
    {
        match self.ppu.hdma_block() {
            Some((src, dst)) => {
                let mut k: u16 = 0;
                while k < 16
                    invariant
                        0x8000 <= dst && dst + 16 <= 0xA000,
                        self.wf(),
                        self.in_cgb == old(self).in_cgb,
                        self.double_speed == old(self).double_speed,
                        self.int_flags == old(self).int_flags,
                        self.int_enable == old(self).int_enable,
                        self.boot_rom == old(self).boot_rom,
                        self.boot_rom_active == old(self).boot_rom_active,
                        self.cycles == old(self).cycles,
                        self.timer == old(self).timer,
                        self.mbc == old(self).mbc,
                        self.wram == old(self).wram,
                        self.hram == old(self).hram,
                        self.apu == old(self).apu,
                        self.ppu.same_timing(old(self).ppu),
                        self.ppu.oam == old(self).ppu.oam,
                    decreases 16 - k,
                {
                    let v = self.read(src.wrapping_add(k));
                    self.ppu.write(dst + k, v);
                    k = k + 1;
                }
            },
            None => {},
        }
    }

    /// Advances every peripheral by one machine cycle, in order: timer, OAM-DMA,
    /// general and HBlank DMA, four PPU dots, the APU, the cartridge clock.
    /// Interrupt requests they raise are ORed into IF.
    #[verifier::rlimit(40)]
    pub fn emulate_machine_cycle(&mut self)
        requires
            old(self).wf(),
        ensures
            final(self).wf(),
            final(self).in_cgb == old(self).in_cgb,
            final(self).double_speed == old(self).double_speed,
            final(self).int_enable == old(self).int_enable,
            final(self).boot_rom@ == old(self).boot_rom@,
            final(self).boot_rom_active == old(self).boot_rom_active,
            final(self).cycles == (old(self).cycles + 4) % 0x1_0000_0000_0000_0000,
            final(self).timer == old(self).timer.next(),
            final(self).apu.frame_sequencer == old(self).apu.frame_sequencer.next(),
            final(self).wram == old(self).wram,
            final(self).hram == old(self).hram,
            forall|a: u16| stable_addr(a) ==> #[trigger] final(self).spec_read(a) == old(self).spec_read(a),
            old(self).int_flags & !final(self).int_flags == 0,
            exists|q: PPU, p1: PPU, p2: PPU, p3: PPU, r0: u8, r1: u8, r2: u8, r3: u8|
                #![trigger q.dot_step(p1, r0), p1.dot_step(p2, r1), p2.dot_step(p3, r2), p3.dot_step(final(self).ppu, r3)]
                {
                    &&& q.same_timing(old(self).ppu)
                    &&& q.dot_step(p1, r0)
                    &&& p1.dot_step(p2, r1)
                    &&& p2.dot_step(p3, r2)
                    &&& p3.dot_step(final(self).ppu, r3)
                    &&& final(self).int_flags == old(self).int_flags | old(self).timer.raised() | r0 | r1 | r2 | r3
                },
            ({
                let clk = old(self).ppu.oam_dma_clock;
                let src = (old(self).ppu.oam_dma_page * 256 + clk) as u16;
                old(self).ppu.in_oam_dma && clk < 160 && stable_addr(src) ==> final(self).ppu.oam@[clk as int]
                    == old(self).spec_read(src)
            }),
    {
        self.cycles = self.cycles.wrapping_add(4);
        let t = self.timer.emulate();
        self.int_flags = self.int_flags | t;
        let ghost after_timer = *self;
        self.oam_dma();
        let ghost after_oam = *self;
        self.gdma();
        self.hdma();
        let ghost q = self.ppu;
        let ghost f0 = self.int_flags;
        let r0 = self.ppu.emulate_clock();
        let ghost p1 = self.ppu;
        let r1 = self.ppu.emulate_clock();
        let ghost p2 = self.ppu;
        let r2 = self.ppu.emulate_clock();
        let ghost p3 = self.ppu;
        let r3 = self.ppu.emulate_clock();
        self.int_flags = self.int_flags | r0 | r1 | r2 | r3;
        self.apu.emulate_clock();
        self.mbc.emulate_clock();
        proof {
            let o = old(self).int_flags;
            let tr = t;
            let fin = self.int_flags;
            assert(fin == o | tr | r0 | r1 | r2 | r3);
            assert(o & !(o | tr | r0 | r1 | r2 | r3) == 0) by (bit_vector);
            assert(q.same_timing(old(self).ppu));
            let clk = old(self).ppu.oam_dma_clock;
            let src = (old(self).ppu.oam_dma_page * 256 + clk) as u16;
            if old(self).ppu.in_oam_dma && clk < 160 && stable_addr(src) {
                lemma_stable_reads(*old(self), after_timer, src);
                assert(after_oam.ppu.oam@[clk as int] == old(self).spec_read(src));
                assert(q.oam == after_oam.ppu.oam);
                assert(p1.oam == q.oam);
                assert(p2.oam == p1.oam);
                assert(p3.oam == p2.oam);
            }
            assert(q.dot_step(p1, r0) && p1.dot_step(p2, r1) && p2.dot_step(p3, r2) && p3.dot_step(self.ppu, r3));
            assert forall|a: u16| stable_addr(a) implies #[trigger] self.spec_read(a) == old(self).spec_read(a) by {
                reveal(IO::spec_read);
                if a < 0x8000 {
                    assert(self.mbc.spec_read(a) == old(self).mbc.spec_read(a));
                }
            }
        }
    }

    /// STOP with a CGB speed switch armed: toggles double speed and stalls while
    /// the peripherals keep running.
    pub fn stop(&mut self)
        requires
            old(self).wf(),
        ensures
            final(self).wf(),
            final(self).in_cgb == old(self).in_cgb,
            final(self).int_enable == old(self).int_enable,
            final(self).double_speed == (if old(self).in_cgb && old(self).prepare_speed_switch {
                !old(self).double_speed
            } else {
                old(self).double_speed
            }),
    {
        if self.in_cgb && self.prepare_speed_switch {
            self.prepare_speed_switch = false;
            self.double_speed = !self.double_speed;
            let ds = self.double_speed;
            self.apu.set_double_speed(ds);
            let mut i: u32 = 0;
            while i < SPEED_SWITCH_CYCLES
                invariant
                    self.wf(),
                    self.in_cgb == old(self).in_cgb,
                    self.int_enable == old(self).int_enable,
                    self.double_speed == ds,
                decreases SPEED_SWITCH_CYCLES - i,
            {
                self.emulate_machine_cycle();
                i = i + 1;
            }
        }
    }

    /// Delivers button events and raises the joypad interrupt on a falling edge of
    /// a selected line.
    pub fn update_inputs(&mut self, events: &Vec<(Button, bool)>)
        requires
            old(self).wf(),
        ensures
            final(self).wf(),
            final(self).in_cgb == old(self).in_cgb,
            final(self).double_speed == old(self).double_speed,
            final(self).int_enable == old(self).int_enable,
            final(self).joypad == crate::joypad::events_applied(old(self).joypad, events@),
            ({
                let j = final(self).joypad;
                final(self).int_flags == old(self).int_flags | (if old(self).joypad.spec_bits() & !j.spec_bits() != 0 {
                    crate::interrupts::JOYPAD_INT
                } else {
                    0
                })
            }),
    {
        let i = self.joypad.update_inputs(events);
        self.int_flags = self.int_flags | i;
    }
}

} // verus!
