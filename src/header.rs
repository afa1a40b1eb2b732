//! The cartridge header at 0x0134..0x014F: title, CGB flag, cartridge type, ROM
//! and RAM size codes, and the header checksum.
use vstd::prelude::*;

verus! {

/// Why a cartridge image was refused at load time.
#[derive(Clone, Copy, PartialEq, Eq, Debug)]
pub enum CartridgeError {
    /// The image is too short to hold a header.
    TooSmall,
    /// The header checksum byte does not match the bytes it covers.
    BadChecksum { expected: u8, computed: u8 },
    /// The ROM size code is not one of 0..=8.
    BadRomSizeCode(u8),
    /// The RAM size code is not one of 0..=5.
    BadRamSizeCode(u8),
    /// The image length is not the size the header announces.
    SizeMismatch,
    /// The cartridge type byte names a controller this core does not emulate.
    UnsupportedType(u8),
}

pub struct Header {
    pub title: Vec<u8>,
    pub supports_cgb: bool,
    pub supports_sgb: bool,
    pub cartridge_type: u8,
    pub rom_size: u8,
    pub ram_size: u8,
}

/// The sum of `!rom[k]` over `0x134 <= k < j`, unreduced.
pub open spec fn checksum_sum(rom: Seq<u8>, j: int) -> int
    decreases j,
{
    if j <= 0x134 {
        0
    } else {
        checksum_sum(rom, j - 1) + (255 - rom[j - 1])
    }
}

/// The header checksum: the byte sum of `!rom[0x134..0x14D]`.
pub open spec fn header_checksum(rom: Seq<u8>) -> u8 {
    (checksum_sum(rom, 0x14D) % 256) as u8
}

/// RAM size code to bytes: 0, 2 KiB, 8 KiB, 32 KiB, 128 KiB, 64 KiB.
pub open spec fn ram_size_of(code: u8) -> nat {
    if code == 1 {
        0x800
    } else if code == 2 {
        0x2000
    } else if code == 3 {
        0x8000
    } else if code == 4 {
        0x20000
    } else if code == 5 {
        0x10000
    } else {
        0
    }
}

/// Number of 16 KiB ROM banks for a ROM size code: `2 << code`.
pub open spec fn rom_banks_of(code: u8) -> nat
    decreases code,
{
    if code == 0 {
        2
    } else {
        2 * rom_banks_of((code - 1) as u8)
    }
}

/// The error `Header::new` reports for an image, if any, in the order it checks.
pub open spec fn header_error(rom: Seq<u8>) -> Option<CartridgeError> {
    if rom.len() < 0x150 {
        Some(CartridgeError::TooSmall)
    } else if header_checksum(rom) != rom[0x14D] {
        Some(CartridgeError::BadChecksum { expected: rom[0x14D], computed: header_checksum(rom) })
    } else if rom[0x148] > 8 {
        Some(CartridgeError::BadRomSizeCode(rom[0x148]))
    } else if rom[0x149] > 5 {
        Some(CartridgeError::BadRamSizeCode(rom[0x149]))
    } else if rom.len() != rom_banks_of(rom[0x148]) * 0x4000 {
        Some(CartridgeError::SizeMismatch)
    } else {
        None
    }
}

/// The bank counts of the nine ROM size codes, spelled out.
pub proof fn lemma_rom_banks(code: u8)
    requires
        code <= 8,
    ensures
        rom_banks_of(code) == (if code == 0 {
            2nat
        } else if code == 1 {
            4nat
        } else if code == 2 {
            8nat
        } else if code == 3 {
            16nat
        } else if code == 4 {
            32nat
        } else if code == 5 {
            64nat
        } else if code == 6 {
            128nat
        } else if code == 7 {
            256nat
        } else {
            512nat
        }),
{
    reveal_with_fuel(rom_banks_of, 9);
}

pub fn rom_banks(code: u8) -> (r: usize)
    requires
        code <= 8,
    ensures
        r == rom_banks_of(code),
        2 <= r <= 512,
{
    let mut r: usize = 2;
    let mut i: u8 = 0;
    while i < code
        invariant
            i <= code <= 8,
            r == rom_banks_of(i),
            2 <= r <= 512,
        decreases code - i,
    {
        proof {
            lemma_rom_banks(i);
            lemma_rom_banks((i + 1) as u8);
        }
        r = r * 2;
        i = i + 1;
        assert(rom_banks_of(i) == 2 * rom_banks_of((i - 1) as u8));
    }
    r
}

impl Header {
    pub open spec fn wf(&self) -> bool {
        self.rom_size <= 8 && self.ram_size <= 5
    }

    /// Decodes and checks the header of a cartridge image.
    pub fn new(rom: &Vec<u8>) -> (r: Result<Header, CartridgeError>)
        ensures
            header_error(rom@) is None <==> r is Ok,
            r matches Err(e) ==> header_error(rom@) == Some(e),
            r matches Ok(h) ==> {
                &&& h.wf()
                &&& h.title@ == rom@.subrange(0x134, 0x13F)
                &&& h.supports_cgb == (rom@[0x143] & 0x80 != 0)
                &&& h.supports_sgb == (rom@[0x146] == 0x03)
                &&& h.cartridge_type == rom@[0x147]
                &&& h.rom_size == rom@[0x148]
                &&& h.ram_size == rom@[0x149]
                &&& rom@.len() == rom_banks_of(h.rom_size) * 0x4000
            },
    {
        if rom.len() < 0x150 {
            return Err(CartridgeError::TooSmall);
        }
        let mut x: u8 = 0;
        let mut i: usize = 0x134;
        while i < 0x14D
            invariant
                0x134 <= i <= 0x14D,
                rom@.len() >= 0x150,
                x == checksum_sum(rom@, i as int) % 256,
            decreases 0x14D - i,
        {
            let b = rom[i];
            x = ((x as u16 + (255 - b) as u16) % 256) as u8;
            i = i + 1;
        }
        if x != rom[0x14D] {
            return Err(CartridgeError::BadChecksum { expected: rom[0x14D], computed: x });
        }
        if rom[0x148] > 8 {
            return Err(CartridgeError::BadRomSizeCode(rom[0x148]));
        }
        if rom[0x149] > 5 {
            return Err(CartridgeError::BadRamSizeCode(rom[0x149]));
        }
        if rom.len() / 0x4000 != rom_banks(rom[0x148]) || rom.len() % 0x4000 != 0 {
            return Err(CartridgeError::SizeMismatch);
        }
        let mut title: Vec<u8> = Vec::new();
        let mut k: usize = 0x134;
        while k < 0x13F
            invariant
                0x134 <= k <= 0x13F,
                rom@.len() >= 0x150,
                title@ == rom@.subrange(0x134, k as int),
            decreases 0x13F - k,
        {
            title.push(rom[k]);
            k = k + 1;
            assert(title@ == rom@.subrange(0x134, k as int));
        }
        Ok(
            Header {
                title,
                supports_cgb: rom[0x143] & 0x80 != 0,
                supports_sgb: rom[0x146] == 0x03,
                cartridge_type: rom[0x147],
                rom_size: rom[0x148],
                ram_size: rom[0x149],
            },
        )
    }

    pub fn get_cartridge_type(&self) -> (r: u8)
        ensures
            r == self.cartridge_type,
    {
        self.cartridge_type
    }

    /// The size of the cartridge's external RAM in bytes.
    pub fn get_ram_size(&self) -> (r: usize)
        requires
            self.wf(),
        ensures
            r == ram_size_of(self.ram_size),
    {
        if self.ram_size == 1 {
            0x800
        } else if self.ram_size == 2 {
            0x2000
        } else if self.ram_size == 3 {
            0x8000
        } else if self.ram_size == 4 {
            0x20000
        } else if self.ram_size == 5 {
            0x10000
        } else {
            0
        }
    }

    /// The size of the cartridge ROM in bytes: 32 KiB shifted left by the size code.
    pub fn get_rom_size(&self) -> (r: usize)
        requires
            self.wf(),
        ensures
            r == rom_banks_of(self.rom_size) * 0x4000,
    {
        rom_banks(self.rom_size) * 0x4000
    }

    /// Whether the cartridge asks for CGB mode.
    pub fn in_cgb(&self) -> (r: bool)
        ensures
            r == self.supports_cgb,
    {
        self.supports_cgb
    }
}

} // verus!
