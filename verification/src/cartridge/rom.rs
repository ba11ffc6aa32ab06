//! Cartridge images in the iNES format.

use crate::ppu::PPUMirroring;
use vstd::prelude::*;

verus! {

/// The size of the iNES header.
pub const HEADER_SIZE: usize = 16;

/// The size of the optional trainer between header and program memory.
pub const TRAINER_SIZE: usize = 512;

/// The unit in which the header counts program memory.
pub const PRG_ROM_PAGE_SIZE: usize = 0x4000;

/// The unit in which the header counts pattern memory.
pub const CHR_ROM_PAGE_SIZE: usize = 0x2000;

/// How the cartridge wires the nametables.
#[derive(Clone, Copy, Debug, PartialEq, Eq, Structural)]
pub enum Mirroring {
    Vertical,
    Horizontal,
    FourScreen,
}

impl Mirroring {
    /// The wiring as the picture-processing unit names it.
    pub open spec fn to_ppu(self) -> PPUMirroring {
        match self {
            Mirroring::Horizontal => PPUMirroring::Horizontal,
            Mirroring::Vertical => PPUMirroring::Vertical,
            Mirroring::FourScreen => PPUMirroring::FourScreen,
        }
    }
}

/// Why an image was not accepted.
#[derive(Clone, Copy, Debug, PartialEq, Eq, Structural)]
pub enum RomError {
    /// The image does not start with the bytes `N`, `E`, `S`, `$1A`.
    BadSignature,
    /// The image asks for a mapper other than mapper 0.
    UnsupportedMapper { mapper: u8 },
    /// The image is shorter than its header says.
    Truncated,
}

pub struct ROM {
    pub prg_rom: Vec<u8>,
    pub chr_rom: Vec<u8>,
    pub mapper: u8,
    pub screen_mirroring: Mirroring,
    /// Whether the processor can write program memory. Images never say
    /// so; it is set on the blank cartridge that programs are poked into.
    pub prg_writable: bool,
}

/// Whether `raw` starts with the four signature bytes.
pub open spec fn ines_signature(raw: Seq<u8>) -> bool {
    &&& raw.len() >= 4
    &&& raw[0] == 0x4e
    &&& raw[1] == 0x45
    &&& raw[2] == 0x53
    &&& raw[3] == 0x1a
}

/// The mapper number: its low nibble is the high nibble of byte 6, its
/// high nibble that of byte 7.
pub open spec fn ines_mapper(raw: Seq<u8>) -> u8 {
    (raw[7] & 0xf0) | (raw[6] >> 4)
}

/// The wiring that byte 6 asks for: bit 3 for four screens, else bit 0 for
/// vertical, else horizontal.
pub open spec fn ines_mirroring(raw: Seq<u8>) -> Mirroring {
    if raw[6] & 0x08 != 0 {
        Mirroring::FourScreen
    } else if raw[6] & 0x01 != 0 {
        Mirroring::Vertical
    } else {
        Mirroring::Horizontal
    }
}

/// Where program memory starts: behind the header, and behind the trainer
/// if bit 2 of byte 6 announces one.
pub open spec fn ines_prg_start(raw: Seq<u8>) -> int {
    16 + if raw[6] & 0x04 != 0 {
        512int
    } else {
        0int
    }
}

/// The length of program memory: byte 4 counts it in units of 16 KiB.
pub open spec fn ines_prg_len(raw: Seq<u8>) -> int {
    raw[4] * 0x4000
}

/// The length of pattern memory: byte 5 counts it in units of 8 KiB.
pub open spec fn ines_chr_len(raw: Seq<u8>) -> int {
    raw[5] * 0x2000
}

/// What loading `raw` comes to: the first of bad signature, short header,
/// unsupported mapper and short payload that applies, or else nothing.
pub open spec fn ines_error(raw: Seq<u8>) -> Option<RomError> {
    if !ines_signature(raw) {
        Some(RomError::BadSignature)
    } else if raw.len() < 16 {
        Some(RomError::Truncated)
    } else if ines_mapper(raw) != 0 {
        Some(RomError::UnsupportedMapper { mapper: ines_mapper(raw) })
    } else if raw.len() < ines_prg_start(raw) + ines_prg_len(raw) + ines_chr_len(raw) {
        Some(RomError::Truncated)
    } else {
        None
    }
}

/// Copies `len` bytes of `raw` from `start` on.
fn copy_range(raw: &Vec<u8>, start: usize, len: usize) -> (out: Vec<u8>)
    requires
        start + len <= raw.len(),
    ensures
        out@ == raw@.subrange(start as int, start + len),
{
    let mut out: Vec<u8> = Vec::new();
    let mut i: usize = 0;
    while i < len
        invariant
            i <= len,
            start + len <= raw.len(),
            out@ == raw@.subrange(start as int, start + i),
        decreases len - i,
    {
        out.push(raw[start + i]);
        i = i + 1;
    }
    out
}

impl ROM {
    /// Reads a cartridge from an iNES image: a 16-byte header, an optional
    /// trainer of 512 bytes, program memory, then pattern memory. Bytes
    /// behind pattern memory are ignored.
    pub fn new(raw: &Vec<u8>) -> (r: Result<ROM, RomError>)
        ensures
            match r {
                Ok(rom) => {
                    &&& ines_error(raw@) is None
                    &&& rom.prg_rom@ == raw@.subrange(
                        ines_prg_start(raw@),
                        ines_prg_start(raw@) + ines_prg_len(raw@),
                    )
                    &&& rom.chr_rom@ == raw@.subrange(
                        ines_prg_start(raw@) + ines_prg_len(raw@),
                        ines_prg_start(raw@) + ines_prg_len(raw@) + ines_chr_len(raw@),
                    )
                    &&& rom.mapper == 0
                    &&& rom.screen_mirroring == ines_mirroring(raw@)
                    &&& !rom.prg_writable
                },
                Err(e) => ines_error(raw@) == Some(e),
            },
    {
        if raw.len() < 4 || raw[0] != 0x4e || raw[1] != 0x45 || raw[2] != 0x53 || raw[3] != 0x1a {
            return Err(RomError::BadSignature);
        }
        if raw.len() < HEADER_SIZE {
            return Err(RomError::Truncated);
        }
        let mapper: u8 = (raw[7] & 0xf0) | (raw[6] >> 4);
        if mapper != 0 {
            return Err(RomError::UnsupportedMapper { mapper });
        }
        let screen_mirroring = if raw[6] & 0x08 != 0 {
            Mirroring::FourScreen
        } else if raw[6] & 0x01 != 0 {
            Mirroring::Vertical
        } else {
            Mirroring::Horizontal
        };
        let prg_rom_size: usize = raw[4] as usize * PRG_ROM_PAGE_SIZE;
        let chr_rom_size: usize = raw[5] as usize * CHR_ROM_PAGE_SIZE;
        let prg_rom_start: usize = HEADER_SIZE + if raw[6] & 0x04 != 0 {
            TRAINER_SIZE
        } else {
            0
        };
        let chr_rom_start: usize = prg_rom_start + prg_rom_size;
        if raw.len() < chr_rom_start + chr_rom_size {
            return Err(RomError::Truncated);
        }
        Ok(
            ROM {
                prg_rom: copy_range(raw, prg_rom_start, prg_rom_size),
                chr_rom: copy_range(raw, chr_rom_start, chr_rom_size),
                mapper,
                screen_mirroring,
                prg_writable: false,
            },
        )
    }

    /// A cartridge of 32 KiB of zeroed, writable program memory and no
    /// pattern memory, to poke programs into.
    pub fn blank() -> (rom: ROM)
        ensures
            rom.prg_rom@ == Seq::new(0x8000, |i: int| 0u8),
            rom.chr_rom@.len() == 0,
            rom.mapper == 0,
            rom.screen_mirroring == Mirroring::Vertical,
            rom.prg_writable,
    {
        let rom = ROM {
            prg_rom: vec![0u8; 0x8000],
            chr_rom: Vec::new(),
            mapper: 0,
            screen_mirroring: Mirroring::Vertical,
            prg_writable: true,
        };
        assert(rom.prg_rom@ =~= Seq::new(0x8000, |i: int| 0u8));
        rom
    }

    /// The wiring of the cartridge as the picture-processing unit names it.
    pub open spec fn to_ppu_mirroring(&self) -> PPUMirroring {
        self.screen_mirroring.to_ppu()
    }

    #[allow(non_snake_case)]
    pub fn to_PPUMirroring(&self) -> (m: PPUMirroring)
        ensures
            m == self.to_ppu_mirroring(),
    {
        match self.screen_mirroring {
            Mirroring::Horizontal => PPUMirroring::Horizontal,
            Mirroring::Vertical => PPUMirroring::Vertical,
            Mirroring::FourScreen => PPUMirroring::FourScreen,
        }
    }
}

} // verus!
