//! Memory banking.

use retro64_core::memory::pla::{PlaConfig, Region};

#[test]
fn default_maps_io_and_roms() {
    let p = PlaConfig::default();
    assert_eq!(p.region(0x0001), Region::Ram);
    assert_eq!(p.region(0xA000), Region::BasicRom);
    assert_eq!(p.region(0xD000), Region::Io);
    assert_eq!(p.region(0xE000), Region::KernalRom);
}

#[test]
fn all_ram_when_loram_hiram_zero() {
    let p = PlaConfig::from_bits(0b000, true, true);
    assert_eq!(p.region(0xA000), Region::Ram);
    assert_eq!(p.region(0xD000), Region::Ram);
    assert_eq!(p.region(0xE000), Region::Ram);
}

#[test]
fn char_rom_when_charen_low() {
    let p = PlaConfig::from_bits(0b011, true, true); // LORAM|HIRAM, CHAREN=0
    assert_eq!(p.region(0xD000), Region::CharRom);
    assert_eq!(p.region(0xA000), Region::BasicRom);
    assert_eq!(p.region(0xE000), Region::KernalRom);
}
