//! High RAM (0xFF80..0xFFFE) and work RAM (0xC000..0xDFFF, with the upper 4 KiB
//! banked on CGB).
use vstd::prelude::*;

verus! {

pub struct HRAM {
    pub mem: Vec<u8>,
}

impl HRAM {
    pub open spec fn wf(&self) -> bool {
        self.mem@.len() == 0x7F
    }

    pub open spec fn spec_read(&self, addr: u16) -> u8 {
        if 0xFF80 <= addr <= 0xFFFE {
            self.mem@[addr - 0xFF80]
        } else {
            0xFF
        }
    }

    pub fn new() -> (r: Self)
        ensures
            r.wf(),
            forall|i: int| 0 <= i < 0x7F ==> r.mem@[i] == 0,
    {
        HRAM { mem: vec![0u8; 0x7F] }
    }

    pub fn read(&self, addr: u16) -> (r: u8)
        requires
            self.wf(),
        ensures
            r == self.spec_read(addr),
    {
        if 0xFF80 <= addr && addr <= 0xFFFE {
            self.mem[(addr - 0xFF80) as usize]
        } else {
            0xFF
        }
    }

    pub fn write(&mut self, addr: u16, value: u8)
        requires
            old(self).wf(),
        ensures
            final(self).wf(),
            final(self).mem@ == (if 0xFF80 <= addr <= 0xFFFE {
                old(self).mem@.update(addr - 0xFF80, value)
            } else {
                old(self).mem@
            }),
    {
        if 0xFF80 <= addr && addr <= 0xFFFE {
            self.mem[(addr - 0xFF80) as usize] = value;
        }
    }
}

pub struct WRAM {
    pub mem: Vec<u8>,
    /// The bank mapped at 0xD000..0xDFFF, 1..num_banks.
    pub bank: usize,
    /// 2 on DMG, 8 on CGB.
    pub num_banks: usize,
}

impl WRAM {
    pub open spec fn wf(&self) -> bool {
        &&& (self.num_banks == 2 || self.num_banks == 8)
        &&& 1 <= self.bank < self.num_banks
        &&& self.mem@.len() == self.num_banks * 0x1000
    }

    /// Where an address of 0xC000..0xDFFF lands in the backing store.
    pub open spec fn index_of(&self, addr: u16) -> int {
        if addr < 0xD000 {
            addr - 0xC000
        } else {
            self.bank * 0x1000 + (addr - 0xD000)
        }
    }

    pub open spec fn spec_read(&self, addr: u16) -> u8 {
        if 0xC000 <= addr <= 0xDFFF {
            self.mem@[self.index_of(addr)]
        } else {
            0xFF
        }
    }

    pub fn new(num_banks: usize) -> (r: Self)
        requires
            num_banks == 2 || num_banks == 8,
        ensures
            r.wf(),
            r.bank == 1,
            r.num_banks == num_banks,
            forall|i: int| 0 <= i < num_banks * 0x1000 ==> #[trigger] r.mem@[i] == 0,
    {
        WRAM { mem: vec![0u8; num_banks * 0x1000], bank: 1, num_banks }
    }

    pub fn read(&self, addr: u16) -> (r: u8)
        requires
            self.wf(),
        ensures
            r == self.spec_read(addr),
    {
        if 0xC000 <= addr && addr < 0xD000 {
            self.mem[(addr - 0xC000) as usize]
        } else if 0xD000 <= addr && addr <= 0xDFFF {
            self.mem[self.bank * 0x1000 + (addr - 0xD000) as usize]
        } else {
            0xFF
        }
    }

    pub fn write(&mut self, addr: u16, value: u8)
        requires
            old(self).wf(),
        ensures
            final(self).wf(),
            final(self).bank == old(self).bank,
            final(self).num_banks == old(self).num_banks,
            final(self).mem@ == (if 0xC000 <= addr <= 0xDFFF {
                old(self).mem@.update(old(self).index_of(addr), value)
            } else {
                old(self).mem@
            }),
    {
        if 0xC000 <= addr && addr < 0xD000 {
            self.mem[(addr - 0xC000) as usize] = value;
        } else if 0xD000 <= addr && addr <= 0xDFFF {
            self.mem[self.bank * 0x1000 + (addr - 0xD000) as usize] = value;
        }
    }

    /// SVBK write: selects the upper bank on CGB (0 selects 1); ignored on DMG.
    pub fn write_bank(&mut self, bank: u8)
        requires
            old(self).wf(),
        ensures
            final(self).wf(),
            final(self).mem@ == old(self).mem@,
            final(self).num_banks == old(self).num_banks,
            final(self).bank == (if old(self).num_banks == 2 {
                old(self).bank as int
            } else if bank & 0x07 == 0 {
                1
            } else {
                (bank & 0x07) as int
            }),
    {
        if self.num_banks == 2 {
            return;
        }
        let b = (bank & 0x07) as usize;
        assert(bank & 0x07 < 8) by (bit_vector);
        self.bank = if b == 0 { 1 } else { b };
    }

    pub fn read_bank(&self) -> (r: u8)
        requires
            self.wf(),
        ensures
            r == (if self.num_banks == 2 { 0xFF } else { self.bank as u8 }),
    {
        if self.num_banks == 2 {
            0xFF
        } else {
            self.bank as u8
        }
    }
}

/// Writing a byte to high RAM or work RAM and reading the same address back
/// returns that byte.
pub proof fn lemma_ram_round_trip(h: HRAM, w: WRAM, addr: u16, value: u8, h2: HRAM, w2: WRAM)
    requires
        h.wf(),
        w.wf(),
        h2.mem@ == (if 0xFF80 <= addr <= 0xFFFE { h.mem@.update(addr - 0xFF80, value) } else { h.mem@ }),
        w2.bank == w.bank,
        w2.num_banks == w.num_banks,
        w2.mem@ == (if 0xC000 <= addr <= 0xDFFF {
            w.mem@.update(w.index_of(addr), value)
        } else {
            w.mem@
        }),
    ensures
        0xFF80 <= addr <= 0xFFFE ==> h2.spec_read(addr) == value,
        0xC000 <= addr <= 0xDFFF ==> w2.spec_read(addr) == value,
{
}

} // verus!
