//! The memory bus: maps the CPU's cartridge window onto program storage,
//! mirroring images smaller than the window.

use vstd::prelude::*;

verus! {

use crate::PokunesError;

/// Reasons a memory-bus operation fails: loading an image whose size is not
/// 16 KiB or 32 KiB, or reading an address outside the cartridge window.
#[derive(Debug)]
pub enum MemoryErrorReason {
    InvalidRomSize(String, usize),
    InvalidAddress(u16),
}

/// A program-storage image may be 16 KiB or 32 KiB; anything else is refused
/// at load time.
pub open spec fn valid_rom_size(storage: Seq<u8>) -> bool {
    storage.len() == 0x4000 || storage.len() == 0x8000
}

/// The cartridge window: the upper half of the 16-bit address space,
/// 0x8000..=0xFFFF. Reads outside it fail.
pub open spec fn in_window(address: u16) -> bool {
    0x8000 <= address
}

/// The address `count` bytes past `address`, wrapping around the 16-bit
/// address space.
pub open spec fn advanced(address: u16, count: u16) -> u16 {
    if address + count > 0xFFFF {
        (address + count - 0x10000) as u16
    } else {
        (address + count) as u16
    }
}

/// The storage offset an in-window address resolves to. The modulo reproduces
/// mirroring: a 16 KiB image appears twice across the 32 KiB window.
pub open spec fn rom_offset(storage: Seq<u8>, address: u16) -> int {
    ((address - 0x8000) as int) % (storage.len() as int)
}

/// The byte an in-window address reads through the mirroring rule.
pub open spec fn byte_at(storage: Seq<u8>, address: u16) -> u8 {
    storage[rom_offset(storage, address)]
}

/// The little-endian 16-bit value read at `address`: low byte at `address`,
/// high byte at the following address, each resolved independently.
pub open spec fn word_at(storage: Seq<u8>, address: u16) -> u16 {
    (byte_at(storage, address) as u16) | ((byte_at(storage, advanced(address, 1)) as u16) << 8)
}

/// The memory bus. It owns the program-storage bytes (the PRG-ROM region)
/// and is read-only for the CPU core.
pub struct Memory {
    prg_rom: Vec<u8>,
}

impl View for Memory {
    type V = Seq<u8>;

    closed spec fn view(&self) -> Seq<u8> {
        self.prg_rom@
    }
}

impl Memory {
    /// True once a valid image (16 KiB or 32 KiB) has been loaded.
    pub open spec fn is_loaded(&self) -> bool {
        valid_rom_size(self@)
    }
}

impl Default for Memory {
    /// An empty bus, before any cartridge has been inserted.
    fn default() -> (mem: Self)
        ensures
            mem@ == Seq::<u8>::empty(),
    {
        Memory { prg_rom: Vec::new() }
    }
}

/// Replaces the bus contents with a cartridge image. Succeeds exactly on the
/// two supported sizes and refuses every other image.
pub fn load_rom(mem: Memory, prg_rom: Vec<u8>) -> (r: Result<Memory, PokunesError>)
    ensures
        valid_rom_size(prg_rom@) ==> (r matches Ok(loaded) && loaded@ == prg_rom@),
        !valid_rom_size(prg_rom@) ==> (r matches Err(e)
            && (e matches PokunesError::MemoryError(MemoryErrorReason::InvalidRomSize(msg, size))
                && msg@ == "Only 16ko or 32ko roms are supported"@
                && size == prg_rom@.len())),
{
    let len = prg_rom.len();
    if len == 0x4000 || len == 0x8000 {
        Ok(Memory { prg_rom })
    } else {
        Err(PokunesError::MemoryError(MemoryErrorReason::InvalidRomSize(
            "Only 16ko or 32ko roms are supported".to_owned(),
            len,
        )))
    }
}

/// Reads one byte. In-window addresses resolve through the mirroring rule;
/// anything below the window fails with `InvalidAddress`.
pub fn read_u8(mem: Memory, address: u16) -> (r: Result<(Memory, u8), PokunesError>)
    requires
        mem.is_loaded(),
    ensures
        in_window(address) ==> (r matches Ok((m, value))
            && m@ == mem@
            && value == byte_at(mem@, address)),
        !in_window(address) ==> (r matches Err(e)
            && (e matches PokunesError::MemoryError(MemoryErrorReason::InvalidAddress(a))
                && a == address)),
{
    if address >= 0x8000 {
        let offset: usize = (address as usize - 0x8000) % mem.prg_rom.len();
        let value = mem.prg_rom[offset];
        Ok((mem, value))
    } else {
        Err(PokunesError::MemoryError(MemoryErrorReason::InvalidAddress(address)))
    }
}

/// Reads a little-endian 16-bit value: low byte at `address`, high byte at
/// the next address (wrapping around the address space), each through the
/// same mirroring rule as `read_u8`. Fails with `InvalidAddress` at the first
/// of the two byte addresses that falls outside the window.
pub fn read_u16(mem: Memory, address: u16) -> (r: Result<(Memory, u16), PokunesError>)
    requires
        mem.is_loaded(),
    ensures
        in_window(address) && in_window(advanced(address, 1)) ==> (r matches Ok((m, value))
            && m@ == mem@
            && value == word_at(mem@, address)),
        !in_window(address) ==> (r matches Err(e)
            && (e matches PokunesError::MemoryError(MemoryErrorReason::InvalidAddress(a))
                && a == address)),
        in_window(address) && !in_window(advanced(address, 1)) ==> (r matches Err(e)
            && (e matches PokunesError::MemoryError(MemoryErrorReason::InvalidAddress(a))
                && a == advanced(address, 1))),
{
    let (mem, first) = match read_u8(mem, address) {
        Ok(t) => t,
        Err(e) => {
            return Err(e);
        },
    };
    let second_address = address.wrapping_add(1);
    let (mem, second) = match read_u8(mem, second_address) {
        Ok(t) => t,
        Err(e) => {
            return Err(e);
        },
    };
    Ok((mem, (first as u16) | ((second as u16) << 8)))
}

} // verus!
