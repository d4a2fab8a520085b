//! The cartridge image: the header-derived fields the core consumes, and the
//! computation that extracts them from raw iNES file bytes. Reading the file
//! itself is the loader collaborator's job.

use vstd::prelude::*;

verus! {

pub const HEADER_SIZE: usize = 16;

pub const HEADER_PRG_ROM: usize = 4;

pub const HEADER_FLAGS_6: usize = 6;

/// A cartridge image: program-storage size in bytes, the raw program-storage
/// bytes, and whether a 512-byte trainer preceded them in the file.
#[derive(Clone)]
pub struct Rom {
    pub prg_rom_size: usize,
    pub prg_rom: Vec<u8>,
    pub trainer: bool,
}

/// The fields decoded from byte 6 of an iNES header.
pub struct Flags6 {
    pub trainer: bool,
}

/// The program-storage size an iNES header declares: byte 4 counts 16 KiB
/// units.
pub open spec fn ines_prg_rom_size(data: Seq<u8>) -> int {
    data[HEADER_PRG_ROM as int] * 0x4000
}

/// Whether an iNES header declares a 512-byte trainer (bit 2 of byte 6).
pub open spec fn ines_trainer(data: Seq<u8>) -> bool {
    data[HEADER_FLAGS_6 as int] & 0x04 != 0
}

/// Where the program-storage bytes start in an iNES file: right after the
/// 16-byte header, skipping the trainer when one is present.
pub open spec fn ines_prg_rom_start(data: Seq<u8>) -> int {
    HEADER_SIZE + if ines_trainer(data) {
        512int
    } else {
        0int
    }
}

impl Rom {
    /// Decodes the program-storage size from an iNES header.
    pub fn read_prg_rom_size(data: Vec<u8>) -> (r: (Vec<u8>, usize))
        requires
            HEADER_PRG_ROM < data@.len(),
        ensures
            r.0@ == data@,
            r.1 == ines_prg_rom_size(data@),
    {
        let prg_rom_size = (data[HEADER_PRG_ROM] as usize) * 16 * 1024;
        (data, prg_rom_size)
    }

    /// Decodes byte 6 of an iNES header.
    pub fn read_flags_6(data: Vec<u8>) -> (r: (Vec<u8>, Flags6))
        requires
            HEADER_FLAGS_6 < data@.len(),
        ensures
            r.0@ == data@,
            r.1.trainer == ines_trainer(data@),
    {
        let flags = data[HEADER_FLAGS_6];
        let trainer = flags & 0b00000100 != 0;
        (data, Flags6 { trainer })
    }

    /// Assembles a cartridge image from the bytes of an iNES file: decodes
    /// the header fields and copies out the program-storage region. The file
    /// must be long enough to hold the storage the header declares.
    pub fn from_ines_bytes(data: Vec<u8>) -> (rom: Rom)
        requires
            HEADER_FLAGS_6 < data@.len(),
            ines_prg_rom_start(data@) + ines_prg_rom_size(data@) <= data@.len(),
        ensures
            rom.prg_rom_size == ines_prg_rom_size(data@),
            rom.trainer == ines_trainer(data@),
            rom.prg_rom@ == data@.subrange(
                ines_prg_rom_start(data@),
                ines_prg_rom_start(data@) + ines_prg_rom_size(data@),
            ),
    {
        let (data, prg_rom_size) = Self::read_prg_rom_size(data);
        let (data, flags6) = Self::read_flags_6(data);
        let prg_rom_start_idx = HEADER_SIZE + if flags6.trainer {
            512
        } else {
            0
        };
        let prg_rom_end_idx = prg_rom_start_idx + prg_rom_size;
        let mut prg_rom: Vec<u8> = Vec::new();
        let mut i: usize = prg_rom_start_idx;
        while i < prg_rom_end_idx
            invariant
                prg_rom_start_idx <= i <= prg_rom_end_idx,
                prg_rom_end_idx <= data@.len(),
                prg_rom_start_idx == ines_prg_rom_start(data@),
                prg_rom_end_idx == ines_prg_rom_start(data@) + ines_prg_rom_size(data@),
                prg_rom@ == data@.subrange(prg_rom_start_idx as int, i as int),
            decreases prg_rom_end_idx - i,
        {
            prg_rom.push(data[i]);
            proof {
                assert(prg_rom@ =~= data@.subrange(prg_rom_start_idx as int, i + 1));
            }
            i = i + 1;
        }
        Rom { prg_rom_size, prg_rom, trainer: flags6.trainer }
    }
}

} // verus!
