//! Simplified PLA (Programmable Logic Array) decoding.
//!
//! The real PLA considers ~8 input signals and produces ~16 outputs. For
//! a functional emulator we collapse the cases into a per-region table
//! driven by LORAM/HIRAM/CHAREN and the cartridge lines EXROM/GAME.

use vstd::prelude::*;

verus! {

/// A memory region as seen by the CPU.
#[derive(Copy, Clone, Debug, PartialEq, Eq, Structural)]
pub enum Region {
    /// Plain RAM.
    Ram,
    /// BASIC ROM at $A000-$BFFF.
    BasicRom,
    /// KERNAL ROM at $E000-$FFFF.
    KernalRom,
    /// Character ROM at $D000-$DFFF.
    CharRom,
    /// I/O region at $D000-$DFFF (chips live here).
    Io,
}

/// Cached PLA configuration: the region each address belongs to.
#[derive(Copy, Clone, Debug, PartialEq, Eq, Structural)]
pub struct PlaConfig {
    /// Mode index 0-7 taken from LORAM/HIRAM/CHAREN (we ignore cart for MVP).
    pub mode: u8,
    /// BASIC ROM visible at $A000-$BFFF.
    pub basic_rom: bool,
    /// KERNAL ROM visible at $E000-$FFFF.
    pub kernal_rom: bool,
    /// Character ROM visible at $D000-$DFFF.
    pub char_rom: bool,
    /// I/O visible at $D000-$DFFF.
    pub io: bool,
}

/// The configuration decoded from the mode bits: bit 0 LORAM, bit 1 HIRAM,
/// bit 2 CHAREN.
pub open spec fn pla_from_bits(mode: u8) -> PlaConfig {
    let loram = mode & 0x01 != 0;
    let hiram = mode & 0x02 != 0;
    let charen = mode & 0x04 != 0;
    PlaConfig {
        mode: mode,
        basic_rom: loram && hiram,
        kernal_rom: hiram,
        char_rom: !charen && (loram || hiram),
        io: charen && (loram || hiram),
    }
}

impl PlaConfig {
    /// The region `addr` belongs to under this configuration.
    pub open spec fn region_of(self, addr: u16) -> Region {
        if 0xA000 <= addr <= 0xBFFF && self.basic_rom {
            Region::BasicRom
        } else if 0xD000 <= addr <= 0xDFFF && self.io {
            Region::Io
        } else if 0xD000 <= addr <= 0xDFFF && self.char_rom {
            Region::CharRom
        } else if 0xE000 <= addr && self.kernal_rom {
            Region::KernalRom
        } else {
            Region::Ram
        }
    }

    /// Decode the 3-bit mode + cart lines into a region table.
    pub fn from_bits(mode: u8, _exrom: bool, _game: bool) -> (r: Self)
        ensures
            r == pla_from_bits(mode),
    {
        let loram = mode & 0x01 != 0;
        let hiram = mode & 0x02 != 0;
        let charen = mode & 0x04 != 0;

        // Mirrors the "Zimmers" decoding table for the common (no-cart) case.
        let basic_rom = loram && hiram;
        let kernal_rom = hiram;
        let char_rom = !charen && (loram || hiram);
        let io = charen && (loram || hiram);

        PlaConfig { mode, basic_rom, kernal_rom, char_rom, io }
    }

    /// Classify an address under the current configuration.
    pub fn region(&self, addr: u16) -> (r: Region)
        ensures
            r == self.region_of(addr),
    {
        if 0xA000 <= addr && addr <= 0xBFFF && self.basic_rom {
            Region::BasicRom
        } else if 0xD000 <= addr && addr <= 0xDFFF && self.io {
            Region::Io
        } else if 0xD000 <= addr && addr <= 0xDFFF && self.char_rom {
            Region::CharRom
        } else if 0xE000 <= addr && self.kernal_rom {
            Region::KernalRom
        } else {
            Region::Ram
        }
    }
}

impl Default for PlaConfig {
    /// Power-on: LORAM | HIRAM | CHAREN = 0b111 -> all three ROMs enabled
    /// and I/O mapped at $D000.
    fn default() -> (r: Self)
        ensures
            r == pla_from_bits(0x07),
    {
        Self::from_bits(0x07, true, true)
    }
}

/// The power-on configuration (mode 7): BASIC, KERNAL and I/O visible.
pub proof fn lemma_power_on_pla()
    ensures
        pla_from_bits(0x07) == (PlaConfig { mode: 0x07, basic_rom: true, kernal_rom: true, char_rom: false, io: true }),
{
    assert(0x07u8 & 0x01 != 0 && 0x07u8 & 0x02 != 0 && 0x07u8 & 0x04 != 0) by (bit_vector);
}

/// Only addresses in $A000-$BFFF and $D000-$FFFF are ever banked; the rest of
/// the address space is RAM under every configuration.
pub proof fn law_low_memory_always_ram(cfg: PlaConfig, addr: u16)
    requires
        addr < 0xA000 || (0xC000 <= addr < 0xD000),
    ensures
        cfg.region_of(addr) == Region::Ram,
{
}

/// With LORAM and HIRAM both low, no ROM and no I/O is visible.
pub proof fn law_all_ram_when_loram_hiram_low(mode: u8, addr: u16)
    requires
        mode & 0x03 == 0,
    ensures
        pla_from_bits(mode).region_of(addr) == Region::Ram,
{
    assert(mode & 0x03 == 0 ==> mode & 0x01 == 0 && mode & 0x02 == 0) by (bit_vector);
}

/// The banking of every mode, address range by address range, from the mode
/// bits LORAM (bit 0), HIRAM (bit 1) and CHAREN (bit 2): $A000-$BFFF is
/// BASIC ROM exactly when LORAM and HIRAM are both set, else RAM;
/// $E000-$FFFF is KERNAL ROM exactly when HIRAM is set, else RAM;
/// $D000-$DFFF is RAM when LORAM and HIRAM are both clear, otherwise I/O
/// when CHAREN is set and the character ROM when it is clear; all other
/// addresses are RAM. BASIC is never visible without the KERNAL.
pub proof fn law_banking_table(mode: u8, addr: u16)
    ensures
        ({
            let loram = mode & 0x01 != 0;
            let hiram = mode & 0x02 != 0;
            let charen = mode & 0x04 != 0;
            let r = pla_from_bits(mode).region_of(addr);
            &&& 0xA000 <= addr <= 0xBFFF ==> r == (if loram && hiram { Region::BasicRom } else { Region::Ram })
            &&& 0xE000 <= addr ==> r == (if hiram { Region::KernalRom } else { Region::Ram })
            &&& 0xD000 <= addr <= 0xDFFF ==> r == (if !loram && !hiram {
                Region::Ram
            } else if charen {
                Region::Io
            } else {
                Region::CharRom
            })
            &&& (addr < 0xA000 || 0xC000 <= addr < 0xD000) ==> r == Region::Ram
            &&& pla_from_bits(mode).region_of(0xA000) == Region::BasicRom
                ==> pla_from_bits(mode).region_of(0xE000) == Region::KernalRom
        }),
{
}

} // verus!
