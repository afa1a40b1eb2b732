//! Cartridge bank controllers: plain ROM, MBC1, MBC2 and MBC3 (with its real-time
//! clock), behind one tagged type that the bus dispatches on.
use vstd::prelude::*;
use crate::header::{Header, CartridgeError, rom_banks_of, ram_size_of, lemma_rom_banks};

verus! {

/// A masked value never exceeds its mask.
pub proof fn lemma_and_le(x: u32, m: u32)
    ensures
        x & m <= m,
{
    assert(x & m <= m) by (bit_vector);
}

pub open spec fn in_ram_window(addr: u16) -> bool {
    0xA000 <= addr <= 0xBFFF
}

/// A cartridge without a controller: 32 KiB of fixed ROM and optionally 8 KiB of RAM.
pub struct RomOnly {
    pub rom: Vec<u8>,
    pub ram: Vec<u8>,
    pub has_ram: bool,
    pub has_battery: bool,
}

impl RomOnly {
    pub open spec fn wf(&self) -> bool {
        self.rom@.len() >= 0x8000 && self.ram@.len() == 0x2000
    }

    pub open spec fn spec_read(&self, addr: u16) -> u8 {
        if addr < 0x8000 {
            self.rom@[addr as int]
        } else if in_ram_window(addr) && self.has_ram {
            self.ram@[addr - 0xA000]
        } else {
            0xFF
        }
    }

    pub fn new(header: &Header, rom: Vec<u8>, has_ram: bool, has_battery: bool) -> (r: Self)
        requires
            header.wf(),
            rom@.len() == rom_banks_of(header.rom_size) * 0x4000,
        ensures
            r.wf(),
            r.rom@ == rom@,
            r.ram@ == Seq::new(0x2000, |i: int| 0u8),
            r.has_ram == has_ram,
            r.has_battery == has_battery,
    {
        proof {
            lemma_rom_banks(header.rom_size);
        }
        let ram = vec![0u8; 0x2000];
        assert(ram@ == Seq::new(0x2000, |i: int| 0u8));
        RomOnly { rom, ram, has_ram, has_battery }
    }

    pub fn read(&self, addr: u16) -> (r: u8)
        requires
            self.wf(),
        ensures
            r == self.spec_read(addr),
    {
        if addr < 0x8000 {
            self.rom[addr as usize]
        } else if 0xA000 <= addr && addr <= 0xBFFF && self.has_ram {
            self.ram[(addr - 0xA000) as usize]
        } else {
            0xFF
        }
    }

    pub fn write(&mut self, addr: u16, value: u8)
        requires
            old(self).wf(),
        ensures
            final(self).wf(),
            final(self).rom@ == old(self).rom@,
            final(self).has_ram == old(self).has_ram,
            final(self).ram@ == (if in_ram_window(addr) && old(self).has_ram {
                old(self).ram@.update(addr - 0xA000, value)
            } else {
                old(self).ram@
            }),
    {
        if 0xA000 <= addr && addr <= 0xBFFF && self.has_ram {
            self.ram[(addr - 0xA000) as usize] = value;
        }
    }
}

/// The four MBC1 registers.
#[derive(Clone, Copy, PartialEq, Eq, Structural)]
pub struct Mbc1Regs {
    /// Low five bits of the ROM bank number, never 0.
    pub bank1: u8,
    /// The two-bit upper register: ROM bank bits 5..6, or the RAM bank.
    pub bank2: u8,
    pub ram_enable: bool,
    /// Banking mode: false for ROM banking, true for RAM banking.
    pub ram_banking: bool,
}

impl Mbc1Regs {
    pub open spec fn wf(self) -> bool {
        1 <= self.bank1 <= 31 && self.bank2 <= 3
    }

    /// The ROM bank number the two bank registers form.
    pub open spec fn bank_number(self) -> int {
        self.bank2 * 32 + self.bank1
    }

    /// The registers after a write to the control range 0x0000..0x7FFF.
    pub open spec fn after_write(self, addr: u16, value: u8) -> Mbc1Regs {
        if addr < 0x2000 {
            Mbc1Regs { ram_enable: value & 0x0F == 0x0A, ..self }
        } else if addr < 0x4000 {
            Mbc1Regs { bank1: if value & 0x1F == 0 { 1 } else { value & 0x1F }, ..self }
        } else if addr < 0x6000 {
            Mbc1Regs { bank2: value & 0x03, ..self }
        } else if addr < 0x8000 {
            Mbc1Regs { ram_banking: value & 0x01 != 0, ..self }
        } else {
            self
        }
    }

    /// The bank that the switchable window 0x4000..0x7FFF shows.
    pub open spec fn high_bank(self, rom_mask: u32) -> u32 {
        (self.bank_number() as u32) & rom_mask
    }

    /// The bank that the fixed window 0x0000..0x3FFF shows.
    pub open spec fn low_bank(self, rom_mask: u32) -> u32 {
        if self.ram_banking {
            ((self.bank2 * 32) as u32) & rom_mask
        } else {
            0
        }
    }
}

/// The registers after a sequence of control writes, applied in order.
pub open spec fn mbc1_after_writes(r: Mbc1Regs, writes: Seq<(u16, u8)>) -> Mbc1Regs
    decreases writes.len(),
{
    if writes.len() == 0 {
        r
    } else {
        let last = writes.last();
        mbc1_after_writes(r, writes.drop_last()).after_write(last.0, last.1)
    }
}

pub struct MBC1 {
    pub rom: Vec<u8>,
    pub rom_mask: u32,
    pub ram: Vec<u8>,
    pub regs: Mbc1Regs,
    pub has_ram: bool,
    pub has_battery: bool,
}

impl MBC1 {
    pub open spec fn wf(&self) -> bool {
        &&& self.regs.wf()
        &&& self.rom_mask < 512
        &&& self.rom@.len() == (self.rom_mask + 1) * 0x4000
        &&& (self.has_ram ==> 0 < self.ram@.len() <= 0x20000)
    }

    pub open spec fn ram_offset(&self, addr: u16) -> int {
        ((if self.regs.ram_banking { self.regs.bank2 as int } else { 0 }) * 0x2000 + (addr - 0xA000))
            % (self.ram@.len() as int)
    }

    pub open spec fn spec_read(&self, addr: u16) -> u8 {
        if addr < 0x4000 {
            self.rom@[self.regs.low_bank(self.rom_mask) * 0x4000 + addr]
        } else if addr < 0x8000 {
            self.rom@[self.regs.high_bank(self.rom_mask) * 0x4000 + (addr - 0x4000)]
        } else if in_ram_window(addr) && self.regs.ram_enable && self.has_ram {
            self.ram@[self.ram_offset(addr)]
        } else {
            0xFF
        }
    }

    pub fn new(header: &Header, rom: Vec<u8>, has_ram: bool, has_battery: bool) -> (r: Self)
        requires
            header.wf(),
            rom@.len() == rom_banks_of(header.rom_size) * 0x4000,
        ensures
            r.wf(),
            r.rom@ == rom@,
            r.rom_mask + 1 == rom_banks_of(header.rom_size),
            r.regs == (Mbc1Regs { bank1: 1, bank2: 0, ram_enable: false, ram_banking: false }),
            r.ram@.len() == ram_size_of(header.ram_size),
            r.has_ram == (has_ram && ram_size_of(header.ram_size) > 0),
    {
        let ram_size = header.get_ram_size();
        let banks = crate::header::rom_banks(header.rom_size);
        MBC1 {
            rom,
            rom_mask: (banks - 1) as u32,
            ram: vec![0u8; ram_size],
            regs: Mbc1Regs { bank1: 1, bank2: 0, ram_enable: false, ram_banking: false },
            has_ram: has_ram && ram_size > 0,
            has_battery,
        }
    }

    pub fn read(&self, addr: u16) -> (r: u8)
        requires
            self.wf(),
        ensures
            r == self.spec_read(addr),
    {
        if addr < 0x4000 {
            let bank: u32 = if self.regs.ram_banking {
                (self.regs.bank2 as u32 * 32) & self.rom_mask
            } else {
                0
            };
            proof {
                lemma_and_le((self.regs.bank2 as u32 * 32) as u32, self.rom_mask);
            }
            self.rom[bank as usize * 0x4000 + addr as usize]
        } else if addr < 0x8000 {
            let bank: u32 = (self.regs.bank2 as u32 * 32 + self.regs.bank1 as u32) & self.rom_mask;
            proof {
                lemma_and_le((self.regs.bank2 as u32 * 32 + self.regs.bank1 as u32) as u32, self.rom_mask);
            }
            self.rom[bank as usize * 0x4000 + (addr - 0x4000) as usize]
        } else if 0xA000 <= addr && addr <= 0xBFFF && self.regs.ram_enable && self.has_ram {
            let b: usize = if self.regs.ram_banking { self.regs.bank2 as usize } else { 0 };
            self.ram[(b * 0x2000 + (addr - 0xA000) as usize) % self.ram.len()]
        } else {
            0xFF
        }
    }

    pub fn write(&mut self, addr: u16, value: u8)
        requires
            old(self).wf(),
        ensures
            final(self).wf(),
            final(self).regs == old(self).regs.after_write(addr, value),
            final(self).rom@ == old(self).rom@,
            final(self).rom_mask == old(self).rom_mask,
            final(self).has_ram == old(self).has_ram,
            final(self).ram@ == (if in_ram_window(addr) && old(self).regs.ram_enable && old(self).has_ram {
                old(self).ram@.update(old(self).ram_offset(addr), value)
            } else {
                old(self).ram@
            }),
    {
        if addr < 0x2000 {
            self.regs.ram_enable = value & 0x0F == 0x0A;
        } else if addr < 0x4000 {
            let low = value & 0x1F;
            assert(value & 0x1F <= 31) by (bit_vector);
            self.regs.bank1 = if low == 0 { 1 } else { low };
        } else if addr < 0x6000 {
            assert(value & 0x03 <= 3) by (bit_vector);
            self.regs.bank2 = value & 0x03;
        } else if addr < 0x8000 {
            self.regs.ram_banking = value & 0x01 != 0;
        } else if 0xA000 <= addr && addr <= 0xBFFF && self.regs.ram_enable && self.has_ram {
            let b: usize = if self.regs.ram_banking { self.regs.bank2 as usize } else { 0 };
            let off = (b * 0x2000 + (addr - 0xA000) as usize) % self.ram.len();
            self.ram[off] = value;
        }
    }
}

/// MBC1 banking law: whatever control writes are applied, in any number and
/// order, the registers stay valid; the ROM bank number is in 1..=127; the
/// switchable window shows that number masked to the ROM's banks (so never past
/// the last bank, and never bank 0 on a ROM of at least 32 banks); and the fixed
/// window shows bank 0 in ROM-banking mode or `(upper << 5) & mask` in RAM-banking
/// mode. On smaller ROMs the 0-to-1 rule applies to the five-bit field before the
/// mask, so the window can show bank 0 (on a two-bank ROM, after writing 2).
pub proof fn lemma_mbc1_banking(r: Mbc1Regs, writes: Seq<(u16, u8)>, rom_mask: u32)
    requires
        r.wf(),
    ensures
        ({
            let s = mbc1_after_writes(r, writes);
            &&& s.wf()
            &&& 1 <= s.bank_number() <= 127
            &&& s.high_bank(rom_mask) <= rom_mask
            &&& (rom_mask >= 31 && (rom_mask & 31 == 31) ==> s.high_bank(rom_mask) >= 1)
            &&& s.low_bank(rom_mask) == (if s.ram_banking { ((s.bank2 * 32) as u32) & rom_mask } else { 0 })
        }),
    decreases writes.len(),
{
    if writes.len() > 0 {
        lemma_mbc1_banking(r, writes.drop_last(), rom_mask);
        let p = mbc1_after_writes(r, writes.drop_last());
        let last = writes.last();
        let v = last.1;
        assert(v & 0x1F <= 31 && v & 0x03 <= 3) by (bit_vector);
    }
    let s = mbc1_after_writes(r, writes);
    let n = s.bank_number() as u32;
    lemma_and_le(n, rom_mask);
    let b1 = s.bank1 as u32;
    let b2 = s.bank2 as u32;
    assert(rom_mask & 31 == 31 ==> n & rom_mask >= 1) by (bit_vector)
        requires
            n == b2 * 32 + b1,
            1 <= b1 <= 31,
            b2 <= 3,
    ;
}


/// MBC2: up to 16 ROM banks and 512 half-bytes of built-in RAM.
pub struct MBC2 {
    pub rom: Vec<u8>,
    pub rom_mask: u32,
    /// The bank in the switchable window, never 0.
    pub rom_bank: u32,
    pub ram_enable: bool,
    pub ram: Vec<u8>,
    pub has_battery: bool,
}

impl MBC2 {
    pub open spec fn wf(&self) -> bool {
        &&& 1 <= self.rom_bank <= self.rom_mask < 512
        &&& self.rom@.len() == (self.rom_mask + 1) * 0x4000
        &&& self.ram@.len() == 0x200
    }

    pub open spec fn spec_read(&self, addr: u16) -> u8 {
        if addr >= 0xA200 {
            0xFF
        } else if addr < 0x4000 {
            self.rom@[addr as int]
        } else if addr < 0x8000 {
            self.rom@[self.rom_bank * 0x4000 + (addr - 0x4000)]
        } else if addr >= 0xA000 && self.ram_enable {
            (0xF0 | self.ram@[addr - 0xA000]) as u8
        } else {
            0xFF
        }
    }

    pub fn new(header: &Header, rom: Vec<u8>, has_battery: bool) -> (r: Self)
        requires
            header.wf(),
            rom@.len() == rom_banks_of(header.rom_size) * 0x4000,
        ensures
            r.wf(),
            r.rom@ == rom@,
            r.rom_mask + 1 == rom_banks_of(header.rom_size),
            r.rom_bank == 1,
            !r.ram_enable,
    {
        let banks = crate::header::rom_banks(header.rom_size);
        MBC2 {
            rom,
            rom_mask: (banks - 1) as u32,
            rom_bank: 1,
            ram_enable: false,
            ram: vec![0u8; 0x200],
            has_battery,
        }
    }

    pub fn read(&self, addr: u16) -> (r: u8)
        requires
            self.wf(),
        ensures
            r == self.spec_read(addr),
    {
        if addr >= 0xA200 {
            0xFF
        } else if addr < 0x4000 {
            self.rom[addr as usize]
        } else if addr < 0x8000 {
            self.rom[self.rom_bank as usize * 0x4000 + (addr - 0x4000) as usize]
        } else if addr >= 0xA000 && self.ram_enable {
            0xF0 | self.ram[(addr - 0xA000) as usize]
        } else {
            0xFF
        }
    }

    /// Below 0x4000, address bit 8 picks the register: clear for RAM enable, set for
    /// the ROM bank (low four bits, masked to the ROM, 0 read as 1).
    pub fn write(&mut self, addr: u16, value: u8)
        requires
            old(self).wf(),
        ensures
            final(self).wf(),
            final(self).rom@ == old(self).rom@,
            final(self).rom_mask == old(self).rom_mask,
            addr < 0x4000 && addr & 0x0100 == 0 ==> final(self).ram_enable == (value & 0x0F == 0x0A)
                && final(self).rom_bank == old(self).rom_bank && final(self).ram@ == old(self).ram@,
            addr < 0x4000 && addr & 0x0100 != 0 ==> final(self).ram_enable == old(self).ram_enable
                && final(self).rom_bank == (if (value as u32 & 0x0F) & old(self).rom_mask == 0 {
                1
            } else {
                (value as u32 & 0x0F) & old(self).rom_mask
            }) && final(self).ram@ == old(self).ram@,
            0xA000 <= addr < 0xA200 ==> final(self).ram_enable == old(self).ram_enable
                && final(self).rom_bank == old(self).rom_bank && final(self).ram@ == (if old(self).ram_enable {
                old(self).ram@.update(addr - 0xA000, value & 0x0F)
            } else {
                old(self).ram@
            }),
            (0x4000 <= addr < 0xA000 || addr >= 0xA200) ==> *final(self) == *old(self),
    {
        if addr < 0x4000 {
            if addr & 0x0100 == 0 {
                self.ram_enable = value & 0x0F == 0x0A;
            } else {
                let b = (value as u32 & 0x0F) & self.rom_mask;
                proof {
                    lemma_and_le((value as u32 & 0x0F) as u32, self.rom_mask);
                }
                self.rom_bank = if b == 0 { 1 } else { b };
            }
        } else if 0xA000 <= addr && addr < 0xA200 {
            if self.ram_enable {
                self.ram[(addr - 0xA000) as usize] = value & 0x0F;
            }
        }
    }
}

/// The five clock registers after one second: seconds, minutes, hours, the low
/// eight day bits, and the high byte (day bit 8 in bit 0, halt in bit 6, the
/// day-counter carry in bit 7).
pub open spec fn rtc_after_second(r: Seq<u8>) -> Seq<u8> {
    if r[0] != 59 {
        r.update(0, ((r[0] + 1) % 256) as u8)
    } else if r[1] != 59 {
        r.update(0, 0).update(1, ((r[1] + 1) % 256) as u8)
    } else if r[2] != 23 {
        r.update(0, 0).update(1, 0).update(2, ((r[2] + 1) % 256) as u8)
    } else if r[3] != 0xFF {
        r.update(0, 0).update(1, 0).update(2, 0).update(3, (r[3] + 1) as u8)
    } else if r[4] & 0x01 != 0 {
        r.update(0, 0).update(1, 0).update(2, 0).update(3, 0).update(4, ((r[4] & 0xFE) | 0x80) as u8)
    } else {
        r.update(0, 0).update(1, 0).update(2, 0).update(3, 0).update(4, (r[4] | 0x01) as u8)
    }
}

/// MBC3: up to 128 ROM banks, four RAM banks, and a real-time clock whose five
/// registers share the RAM window.
pub struct MBC3 {
    pub rom: Vec<u8>,
    pub rom_mask: u32,
    /// The selected ROM bank number, 1..=127; the window shows it masked to the ROM.
    pub rom_bank: u32,
    /// RAM bank (0..=3) or clock register (0x08..=0x0C) select.
    pub ram_select: u8,
    pub ram_enable: bool,
    pub ram: Vec<u8>,
    pub rtc: Vec<u8>,
    pub latched_rtc: Vec<u8>,
    pub latch_clock_data: bool,
    pub halt_timer: bool,
    /// Machine cycles since the last clock-divider tick, 0..32.
    pub clock_counter: u8,
    /// Divider ticks since the last second, 0..32768.
    pub rtc_counter: u16,
    pub has_timer: bool,
    pub has_ram: bool,
    pub has_battery: bool,
}

impl MBC3 {
    pub open spec fn wf(&self) -> bool {
        &&& 1 <= self.rom_bank <= 127
        &&& self.rom_mask < 512
        &&& self.rom@.len() == (self.rom_mask + 1) * 0x4000
        &&& (self.has_ram ==> 0 < self.ram@.len() <= 0x20000)
        &&& self.rtc@.len() == 5
        &&& self.latched_rtc@.len() == 5
        &&& self.clock_counter < 32
        &&& self.rtc_counter < 32768
    }

    pub open spec fn ram_offset(&self, addr: u16) -> int {
        (self.ram_select * 0x2000 + (addr - 0xA000)) % (self.ram@.len() as int)
    }

    pub open spec fn spec_read(&self, addr: u16) -> u8 {
        if addr < 0x4000 {
            self.rom@[addr as int]
        } else if addr < 0x8000 {
            self.rom@[(self.rom_bank & self.rom_mask) * 0x4000 + (addr - 0x4000)]
        } else if in_ram_window(addr) && self.ram_enable {
            if self.ram_select <= 3 && self.has_ram {
                self.ram@[self.ram_offset(addr)]
            } else if 0x08 <= self.ram_select <= 0x0C && self.has_timer {
                self.latched_rtc@[self.ram_select - 8]
            } else {
                0xFF
            }
        } else {
            0xFF
        }
    }

    pub fn new(header: &Header, rom: Vec<u8>, has_timer: bool, has_ram: bool, has_battery: bool) -> (r: Self)
        requires
            header.wf(),
            rom@.len() == rom_banks_of(header.rom_size) * 0x4000,
        ensures
            r.wf(),
            r.rom@ == rom@,
            r.rom_mask + 1 == rom_banks_of(header.rom_size),
            r.rom_bank == 1,
            r.ram@.len() == ram_size_of(header.ram_size),
            r.has_ram == (has_ram && ram_size_of(header.ram_size) > 0),
            r.has_timer == has_timer,
            r.rtc@ == seq![0u8, 0, 0, 0, 0],
    {
        let ram_size = header.get_ram_size();
        let banks = crate::header::rom_banks(header.rom_size);
        let rtc = vec![0u8, 0, 0, 0, 0];
        let latched_rtc = vec![0u8, 0, 0, 0, 0];
        assert(rtc@ == seq![0u8, 0, 0, 0, 0]);
        MBC3 {
            rom,
            rom_mask: (banks - 1) as u32,
            rom_bank: 1,
            ram_select: 0,
            ram_enable: false,
            ram: vec![0u8; ram_size],
            rtc,
            latched_rtc,
            latch_clock_data: false,
            halt_timer: false,
            clock_counter: 0,
            rtc_counter: 0,
            has_timer,
            has_ram: has_ram && ram_size > 0,
            has_battery,
        }
    }

    pub fn read(&self, addr: u16) -> (r: u8)
        requires
            self.wf(),
        ensures
            r == self.spec_read(addr),
    {
        if addr < 0x4000 {
            self.rom[addr as usize]
        } else if addr < 0x8000 {
            proof {
                lemma_and_le(self.rom_bank, self.rom_mask);
            }
            self.rom[(self.rom_bank & self.rom_mask) as usize * 0x4000 + (addr - 0x4000) as usize]
        } else if 0xA000 <= addr && addr <= 0xBFFF && self.ram_enable {
            if self.ram_select <= 3 && self.has_ram {
                self.ram[(self.ram_select as usize * 0x2000 + (addr - 0xA000) as usize) % self.ram.len()]
            } else if 0x08 <= self.ram_select && self.ram_select <= 0x0C && self.has_timer {
                self.latched_rtc[(self.ram_select - 8) as usize]
            } else {
                0xFF
            }
        } else {
            0xFF
        }
    }

    #[verifier::rlimit(40)]
    pub fn write(&mut self, addr: u16, value: u8)
        requires
            old(self).wf(),
        ensures
            final(self).wf(),
            final(self).rom@ == old(self).rom@,
            final(self).rom_mask == old(self).rom_mask,
            addr < 0x2000 ==> final(self).ram_enable == (value & 0x0F == 0x0A),
            0x2000 <= addr < 0x4000 ==> final(self).rom_bank == (if value & 0x7F == 0 {
                1
            } else {
                value & 0x7F
            }),
            0x4000 <= addr < 0x6000 ==> final(self).ram_select == value & 0x0F,
            0x6000 <= addr < 0x8000 && old(self).ram_enable && old(self).has_timer && !old(self).latch_clock_data
                && value & 0x01 != 0 ==> final(self).latched_rtc@ == old(self).rtc@,
            in_ram_window(addr) && old(self).ram_enable && old(self).ram_select <= 3 && old(self).has_ram
                ==> final(self).ram@ == old(self).ram@.update(old(self).ram_offset(addr), value),
            in_ram_window(addr) && old(self).ram_enable && 0x08 <= old(self).ram_select <= 0x0C
                && old(self).has_timer ==> final(self).rtc@ == old(self).rtc@.update(
                old(self).ram_select - 8,
                value,
            ) && final(self).halt_timer == (final(self).rtc@[4] & 0x40 != 0),
    {
        if addr < 0x2000 {
            self.ram_enable = value & 0x0F == 0x0A;
        } else if addr < 0x4000 {
            let b = value & 0x7F;
            assert(value & 0x7F <= 127) by (bit_vector);
            self.rom_bank = if b == 0 { 1 } else { b as u32 };
        } else if addr < 0x6000 {
            self.ram_select = value & 0x0F;
        } else if addr < 0x8000 {
            if self.ram_enable && self.has_timer {
                let latch = value & 0x01 != 0;
                if !self.latch_clock_data && latch {
                    let mut i: usize = 0;
                    while i < 5
                        invariant
                            0 <= i <= 5,
                            self.rtc@.len() == 5,
                            self.latched_rtc@.len() == 5,
                            self.rtc@ == old(self).rtc@,
                            forall|k: int| 0 <= k < i ==> self.latched_rtc@[k] == self.rtc@[k],
                            self.rom@ == old(self).rom@,
                            self.rom_mask == old(self).rom_mask,
                            self.ram_enable == old(self).ram_enable,
                            self.wf(),
                        decreases 5 - i,
                    {
                        let v = self.rtc[i];
                        self.latched_rtc[i] = v;
                        i = i + 1;
                    }
                    assert(self.latched_rtc@ == self.rtc@);
                }
                self.latch_clock_data = latch;
            }
        } else if 0xA000 <= addr && addr <= 0xBFFF && self.ram_enable {
            if self.ram_select <= 3 && self.has_ram {
                let off = (self.ram_select as usize * 0x2000 + (addr - 0xA000) as usize) % self.ram.len();
                self.ram[off] = value;
            } else if 0x08 <= self.ram_select && self.ram_select <= 0x0C && self.has_timer {
                self.rtc[(self.ram_select - 8) as usize] = value;
                self.halt_timer = self.rtc[4] & 0x40 != 0;
            }
        }
    }

    /// Advances the clock by one machine cycle: every 32 cycles the divider ticks,
    /// and every 32768 divider ticks one second passes.
    pub fn emulate_clock(&mut self)
        requires
            old(self).wf(),
        ensures
            final(self).wf(),
            final(self).rom@ == old(self).rom@,
            final(self).rom_mask == old(self).rom_mask,
            final(self).rom_bank == old(self).rom_bank,
            final(self).ram_select == old(self).ram_select,
            final(self).ram_enable == old(self).ram_enable,
            final(self).ram@ == old(self).ram@,
            final(self).latched_rtc@ == old(self).latched_rtc@,
            final(self).has_ram == old(self).has_ram,
            final(self).has_timer == old(self).has_timer,
            !old(self).has_timer || old(self).halt_timer ==> *final(self) == *old(self),
            old(self).has_timer && !old(self).halt_timer ==> {
                let tick = old(self).clock_counter == 31;
                let second = tick && old(self).rtc_counter == 32767;
                &&& final(self).clock_counter == (if tick { 0 } else { old(self).clock_counter + 1 })
                &&& final(self).rtc_counter == (if !tick {
                    old(self).rtc_counter as int
                } else if second {
                    0
                } else {
                    old(self).rtc_counter + 1
                })
                &&& final(self).rtc@ == (if second { rtc_after_second(old(self).rtc@) } else { old(self).rtc@ })
            },
    {
        if !self.has_timer || self.halt_timer {
            return;
        }
        if self.clock_counter == 31 {
            self.clock_counter = 0;
            if self.rtc_counter == 32767 {
                self.rtc_counter = 0;
                self.tick_second();
            } else {
                self.rtc_counter = self.rtc_counter + 1;
            }
        } else {
            self.clock_counter = self.clock_counter + 1;
        }
    }

    fn tick_second(&mut self)
        requires
            old(self).wf(),
        ensures
            *final(self) == (MBC3 { rtc: final(self).rtc, ..*old(self) }),
            final(self).rtc@ == rtc_after_second(old(self).rtc@),
            final(self).wf(),
    {
        let r0 = self.rtc[0];
        if r0 != 59 {
            self.rtc[0] = r0.wrapping_add(1);
            return;
        }
        self.rtc[0] = 0;
        let r1 = self.rtc[1];
        if r1 != 59 {
            self.rtc[1] = r1.wrapping_add(1);
            return;
        }
        self.rtc[1] = 0;
        let r2 = self.rtc[2];
        if r2 != 23 {
            self.rtc[2] = r2.wrapping_add(1);
            return;
        }
        self.rtc[2] = 0;
        let r3 = self.rtc[3];
        if r3 != 0xFF {
            self.rtc[3] = r3 + 1;
            return;
        }
        self.rtc[3] = 0;
        let r4 = self.rtc[4];
        if r4 & 0x01 != 0 {
            self.rtc[4] = (r4 & 0xFE) | 0x80;
        } else {
            self.rtc[4] = r4 | 0x01;
        }
    }
}

/// The cartridge's controller, chosen by the header's cartridge type.
pub enum MemoryBankController {
    RomOnly(RomOnly),
    Mbc1(MBC1),
    Mbc2(MBC2),
    Mbc3(MBC3),
}

/// Whether a cartridge type byte names a supported controller.
pub open spec fn supported_type(t: u8) -> bool {
    t == 0x00 || t == 0x01 || t == 0x02 || t == 0x03 || t == 0x05 || t == 0x06 || t == 0x08 || t
        == 0x09 || (0x0F <= t <= 0x13)
}

impl MemoryBankController {
    pub open spec fn wf(&self) -> bool {
        match self {
            MemoryBankController::RomOnly(m) => m.wf(),
            MemoryBankController::Mbc1(m) => m.wf(),
            MemoryBankController::Mbc2(m) => m.wf(),
            MemoryBankController::Mbc3(m) => m.wf(),
        }
    }

    pub open spec fn spec_read(&self, addr: u16) -> u8 {
        match self {
            MemoryBankController::RomOnly(m) => m.spec_read(addr),
            MemoryBankController::Mbc1(m) => m.spec_read(addr),
            MemoryBankController::Mbc2(m) => m.spec_read(addr),
            MemoryBankController::Mbc3(m) => m.spec_read(addr),
        }
    }

    pub fn read(&self, addr: u16) -> (r: u8)
        requires
            self.wf(),
        ensures
            r == self.spec_read(addr),
    {
        match self {
            MemoryBankController::RomOnly(m) => m.read(addr),
            MemoryBankController::Mbc1(m) => m.read(addr),
            MemoryBankController::Mbc2(m) => m.read(addr),
            MemoryBankController::Mbc3(m) => m.read(addr),
        }
    }

    /// Dispatches a write to the controller; its kind never changes.
    pub fn write(&mut self, addr: u16, value: u8)
        requires
            old(self).wf(),
        ensures
            final(self).wf(),
            (*old(self) is RomOnly) == (*final(self) is RomOnly),
            (*old(self) is Mbc1) == (*final(self) is Mbc1),
            (*old(self) is Mbc2) == (*final(self) is Mbc2),
            (*old(self) is Mbc3) == (*final(self) is Mbc3),
            *old(self) matches MemoryBankController::Mbc1(m) ==> (*final(self) matches MemoryBankController::Mbc1(m2)
                && m2.regs == m.regs.after_write(addr, value) && m2.rom@ == m.rom@ && m2.rom_mask == m.rom_mask),
            *old(self) matches MemoryBankController::RomOnly(m) ==> (*final(self) matches MemoryBankController::RomOnly(
                m2,
            ) && m2.rom@ == m.rom@),
    {
        match self {
            MemoryBankController::RomOnly(m) => m.write(addr, value),
            MemoryBankController::Mbc1(m) => m.write(addr, value),
            MemoryBankController::Mbc2(m) => m.write(addr, value),
            MemoryBankController::Mbc3(m) => m.write(addr, value),
        }
    }

    /// One machine cycle of cartridge time; only MBC3's clock uses it.
    pub fn emulate_clock(&mut self)
        requires
            old(self).wf(),
        ensures
            final(self).wf(),
            forall|a: u16| a < 0x8000 ==> #[trigger] final(self).spec_read(a) == old(self).spec_read(a),
    {
        match self {
            MemoryBankController::Mbc3(m) => m.emulate_clock(),
            _ => {},
        }
    }
}

/// Picks and builds the controller that the header's cartridge type names.
pub fn get_mbc(header: Header, rom: Vec<u8>) -> (r: Result<MemoryBankController, CartridgeError>)
    requires
        header.wf(),
        rom@.len() == rom_banks_of(header.rom_size) * 0x4000,
    ensures
        supported_type(header.cartridge_type) <==> r is Ok,
        r matches Err(e) ==> e == CartridgeError::UnsupportedType(header.cartridge_type),
        r matches Ok(m) ==> {
            &&& m.wf()
            &&& (header.cartridge_type == 0x00 || header.cartridge_type == 0x08 || header.cartridge_type
                == 0x09) <==> m is RomOnly
            &&& (0x01 <= header.cartridge_type <= 0x03) <==> m is Mbc1
            &&& (header.cartridge_type == 0x05 || header.cartridge_type == 0x06) <==> m is Mbc2
            &&& (0x0F <= header.cartridge_type <= 0x13) <==> m is Mbc3
            &&& forall|a: u16| a < 0x8000 ==> #[trigger] m.spec_read(a) == rom@[a as int]
            &&& (m matches MemoryBankController::RomOnly(x) ==> x.has_ram == (header.cartridge_type == 0x08
                || header.cartridge_type == 0x09))
        },
{
    proof {
        lemma_rom_banks(header.rom_size);
    }
    let t = header.get_cartridge_type();
    let r = match t {
        0x00 => MemoryBankController::RomOnly(RomOnly::new(&header, rom, false, false)),
        0x01 => MemoryBankController::Mbc1(MBC1::new(&header, rom, false, false)),
        0x02 => MemoryBankController::Mbc1(MBC1::new(&header, rom, true, false)),
        0x03 => MemoryBankController::Mbc1(MBC1::new(&header, rom, true, true)),
        0x05 => MemoryBankController::Mbc2(MBC2::new(&header, rom, false)),
        0x06 => MemoryBankController::Mbc2(MBC2::new(&header, rom, true)),
        0x08 => MemoryBankController::RomOnly(RomOnly::new(&header, rom, true, false)),
        0x09 => MemoryBankController::RomOnly(RomOnly::new(&header, rom, true, true)),
        0x0F => MemoryBankController::Mbc3(MBC3::new(&header, rom, true, false, true)),
        0x10 => MemoryBankController::Mbc3(MBC3::new(&header, rom, true, true, true)),
        0x11 => MemoryBankController::Mbc3(MBC3::new(&header, rom, false, false, false)),
        0x12 => MemoryBankController::Mbc3(MBC3::new(&header, rom, false, true, false)),
        0x13 => MemoryBankController::Mbc3(MBC3::new(&header, rom, false, true, true)),
        _ => {
            return Err(CartridgeError::UnsupportedType(t));
        },
    };
    proof {
        let m: u32 = if r is Mbc1 {
            r->Mbc1_0.rom_mask
        } else if r is Mbc3 {
            r->Mbc3_0.rom_mask
        } else {
            1
        };
        assert(m % 2 == 1);
        assert(1u32 & m == 1) by (bit_vector)
            requires
                m % 2 == 1,
        ;
        assert(((0u8 * 32 + 1u8) as u32) & m == 1);
        assert forall|a: u16| a < 0x8000 implies #[trigger] r.spec_read(a) == rom@[a as int] by {}
    }
    Ok(r)
}

} // verus!
