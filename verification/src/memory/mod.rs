//! 64 KB RAM, 1 KB color RAM, ROM slots and PLA-driven bank switching.

pub mod pla;
pub mod rom;

use vstd::prelude::*;
use vstd::array::spec_array_update;
pub use self::pla::{lemma_power_on_pla, pla_from_bits, PlaConfig, Region};
pub use self::rom::{
    builtin_basic, builtin_chargen, builtin_kernal, kernal_stub_byte, RomSet, ROM_4K, ROM_8K,
};

verus! {

/// Size of the address space.
pub const RAM_SIZE: usize = 0x1_0000;
/// Size of the color RAM.
pub const COLOR_RAM_SIZE: usize = 0x0400;

/// Primary memory object: owns 64 KB RAM, 1 KB color RAM and the
/// three banked ROMs. The CPU and VIC-II both read through it.
pub struct Memory {
    /// 64 KB of DRAM underneath all ROM/IO banks.
    pub ram: [u8; 0x1_0000],
    /// 1 KB × 4-bit nibbles at $D800-$DBFF (stored as bytes, masked on read/write).
    pub color_ram: [u8; 0x0400],
    /// BASIC ROM ($A000-$BFFF).
    pub basic: [u8; 0x2000],
    /// KERNAL ROM ($E000-$FFFF).
    pub kernal: [u8; 0x2000],
    /// Character ROM ($D000-$DFFF when CHAREN=0, and for VIC at $1000/$9000).
    pub chargen: [u8; 0x1000],

    /// Cached PLA state derived from LORAM/HIRAM/CHAREN bits and cart lines.
    pub pla: PlaConfig,

    /// CIA2 Port A inverted low 2 bits set the VIC bank base.
    pub vic_bank_base: u16,

    /// EXROM line state (true = high). Drives PLA.
    pub exrom: bool,
    /// GAME line state (true = high). Drives PLA.
    pub game: bool,
}

/// The CPU port's output: bits configured as outputs by the direction
/// register `ddr` come from `port`, the others read as pulled up (bits 0-2
/// and 4).
pub open spec fn port_output(ddr: u8, port: u8) -> u8 {
    (port & ddr) | (!ddr & 0x17)
}

/// The PLA configuration selected by the CPU port registers at $0000/$0001.
pub open spec fn pla_for_port(ddr: u8, port: u8) -> PlaConfig {
    pla_from_bits(port_output(ddr, port) & 0x07)
}

/// The RAM contents after power-on: all zero but the CPU port ($0000 = $2F,
/// bits 0-5 output; $0001 = $37, LORAM | HIRAM | CHAREN).
pub open spec fn power_on_ram() -> Seq<u8> {
    Seq::new(RAM_SIZE as nat, |i: int| if i == 0 { 0x2Fu8 } else if i == 1 { 0x37u8 } else { 0u8 })
}

/// Memory as a machine powers on with the ROM images `roms` (a missing one
/// is the built-in stub): RAM cleared but for the CPU port ($2F/$37),
/// colour RAM cleared, BASIC, KERNAL and character ROMs in place, the
/// banking the port selects, VIC-II bank 0, no cartridge lines asserted.
pub open spec fn powered_on_memory(m: Memory, roms: RomSet) -> bool {
    &&& m.ram@ == power_on_ram()
    &&& m.color_ram@ == Seq::new(COLOR_RAM_SIZE as nat, |i: int| 0u8)
    &&& m.basic@ == (match roms.basic { Some(b) => b@, None => Seq::new(ROM_8K as nat, |i: int| 0u8) })
    &&& m.kernal@ == (match roms.kernal { Some(k) => k@, None => Seq::new(ROM_8K as nat, |i: int| kernal_stub_byte(i)) })
    &&& m.chargen@ == (match roms.chargen { Some(c) => c@, None => Seq::new(ROM_4K as nat, |i: int| 0u8) })
    &&& m.pla == pla_from_bits(0x07)
    &&& m.vic_bank_base == 0
    &&& m.exrom
    &&& m.game
}

impl Memory {
    /// Every memory has its exact size.
    pub open spec fn wf(&self) -> bool {
        &&& self.ram@.len() == RAM_SIZE
        &&& self.color_ram@.len() == COLOR_RAM_SIZE
        &&& self.basic@.len() == ROM_8K
        &&& self.kernal@.len() == ROM_8K
        &&& self.chargen@.len() == ROM_4K
    }

    /// What the CPU reads at `addr` (I/O excepted, which the system bus
    /// dispatches; here the RAM underneath is returned).
    pub open spec fn cpu_read_spec(&self, addr: u16) -> u8 {
        match self.pla.region_of(addr) {
            Region::BasicRom => self.basic@[addr - 0xA000],
            Region::KernalRom => self.kernal@[addr - 0xE000],
            Region::CharRom => self.chargen@[addr - 0xD000],
            _ => self.ram@[addr as int],
        }
    }

    /// The absolute address the VIC-II sees at `addr` of its 16 KB window.
    pub open spec fn vic_address(&self, addr: u16) -> int {
        self.vic_bank_base + (addr & 0x3FFF)
    }

    /// What the VIC-II reads at `addr` of its window: the Character ROM at
    /// $1000-$1FFF of banks 0 and 2, RAM elsewhere.
    pub open spec fn vic_read_spec(&self, addr: u16) -> u8 {
        let a = self.vic_address(addr) as u16;
        if (a & 0x7000) == 0x1000 && (a & 0xC000) != 0x4000 && (a & 0xC000) != 0xC000 {
            self.chargen@[(a & 0x0FFF) as int]
        } else {
            self.ram@[a as int]
        }
    }

    /// Create a new Memory with built-in ROM stubs.
    pub fn new() -> (r: Self)
        ensures
            r.wf(),
            r.ram@ == power_on_ram(),
            r.color_ram@ == Seq::new(COLOR_RAM_SIZE as nat, |i: int| 0u8),
            r.basic@ == Seq::new(ROM_8K as nat, |i: int| 0u8),
            r.kernal@ == Seq::new(ROM_8K as nat, |i: int| kernal_stub_byte(i)),
            r.chargen@ == Seq::new(ROM_4K as nat, |i: int| 0u8),
            r.pla == pla_from_bits(0x07),
            r.vic_bank_base == 0,
            r.exrom,
            r.game,
    {
        let mut mem = Memory {
            ram: [0u8; 0x1_0000],
            color_ram: [0u8; 0x0400],
            basic: builtin_basic(),
            kernal: builtin_kernal(),
            chargen: builtin_chargen(),
            pla: PlaConfig::default(),
            vic_bank_base: 0x0000,
            exrom: true,
            game: true,
        };
        mem.ram[0x0000] = 0x2F; // DDR direction bits (bits 0-5 output)
        mem.ram[0x0001] = 0x37; // LORAM | HIRAM | CHAREN
        mem.recompute_pla();
        assert(mem.ram@ =~= power_on_ram());
        assert(mem.color_ram@ =~= Seq::new(COLOR_RAM_SIZE as nat, |i: int| 0u8));
        assert(port_output(0x2F, 0x37) & 0x07 == 0x07) by (bit_vector);
        mem
    }

    /// Install real Commodore ROMs from a set.
    pub fn install_roms(&mut self, roms: &RomSet)
        ensures
            *final(self) == (Memory {
                basic: match roms.basic { Some(b) => b, None => old(self).basic },
                kernal: match roms.kernal { Some(k) => k, None => old(self).kernal },
                chargen: match roms.chargen { Some(c) => c, None => old(self).chargen },
                ..*old(self)
            }),
    {
        match roms.basic {
            Some(b) => { self.basic = b; },
            None => {},
        }
        match roms.kernal {
            Some(k) => { self.kernal = k; },
            None => {},
        }
        match roms.chargen {
            Some(c) => { self.chargen = c; },
            None => {},
        }
    }

    /// Re-derive the PLA configuration from the current CPU I/O port bits.
    pub fn recompute_pla(&mut self)
        requires
            old(self).ram@.len() == RAM_SIZE,
        ensures
            *final(self) == (Memory {
                pla: pla_for_port(old(self).ram@[0], old(self).ram@[1]),
                ..*old(self)
            }),
    {
        // Port $0001 bits output through the DDR $0000 mask. Bits not
        // configured as outputs read as 1 (pulled up).
        let ddr = self.ram[0x0000];
        let port = self.ram[0x0001];
        let out = (port & ddr) | (!ddr & 0x17);
        self.pla = PlaConfig::from_bits(out & 0x07, self.exrom, self.game);
    }

    /// CPU read with full PLA/IO routing (the caller dispatches IO to chips).
    pub fn cpu_read(&self, addr: u16) -> (r: u8)
        requires
            self.wf(),
        ensures
            r == self.cpu_read_spec(addr),
    {
        match self.pla.region(addr) {
            Region::Ram => self.ram[addr as usize],
            Region::BasicRom => self.basic[(addr - 0xA000) as usize],
            Region::KernalRom => self.kernal[(addr - 0xE000) as usize],
            Region::CharRom => self.chargen[(addr - 0xD000) as usize],
            // IO is dispatched by the system module, but if the caller reaches
            // here we return RAM under the IO region (open bus fallback).
            Region::Io => self.ram[addr as usize],
        }
    }

    /// CPU write. Writes to ROM regions land in the underlying RAM (C64 PLA
    /// always writes RAM regardless of bank).
    pub fn cpu_write(&mut self, addr: u16, val: u8)
        requires
            old(self).wf(),
        ensures
            final(self).wf(),
            final(self).ram@ == old(self).ram@.update(addr as int, val),
            final(self).ram == spec_array_update(old(self).ram, addr as int, val),
            final(self).pla == (if addr <= 1 {
                pla_for_port(final(self).ram@[0], final(self).ram@[1])
            } else {
                old(self).pla
            }),
            *final(self) == (Memory { ram: final(self).ram, pla: final(self).pla, ..*old(self) }),
    {
        self.ram[addr as usize] = val;
        if addr == 0x0000 || addr == 0x0001 {
            self.recompute_pla();
        }
    }

    /// Read a color-RAM nibble (upper 4 bits are open-bus on real hardware,
    /// we return 0).
    pub fn color_read(&self, addr: u16) -> (r: u8)
        requires
            self.wf(),
        ensures
            r == self.color_ram@[(addr & 0x03FF) as int] & 0x0F,
    {
        assert(addr & 0x03FF < 0x0400) by (bit_vector);
        self.color_ram[(addr & 0x03FF) as usize] & 0x0F
    }

    /// Write a color-RAM nibble.
    pub fn color_write(&mut self, addr: u16, val: u8)
        requires
            old(self).wf(),
        ensures
            final(self).wf(),
            *final(self) == (Memory { color_ram: final(self).color_ram, ..*old(self) }),
            final(self).color_ram@ == old(self).color_ram@.update((addr & 0x03FF) as int, val & 0x0F),
            final(self).color_ram == spec_array_update(old(self).color_ram, (addr & 0x03FF) as int, val & 0x0F),
    {
        assert(addr & 0x03FF < 0x0400) by (bit_vector);
        self.color_ram[(addr & 0x03FF) as usize] = val & 0x0F;
    }

    /// Read from the VIC-II's memory view (flat 16 KB window anchored at
    /// `vic_bank_base`). The Character ROM is overlaid at $1000-$1FFF of
    /// bank 0 and bank 2 (absolute $1000 and $9000).
    pub fn vic_read(&self, addr: u16) -> (r: u8)
        requires
            self.wf(),
            self.vic_address(addr) <= 0xFFFF,
        ensures
            r == self.vic_read_spec(addr),
    {
        let a = self.vic_bank_base + (addr & 0x3FFF);
        if (a & 0x7000) == 0x1000 && (a & 0xC000) != 0x4000 && (a & 0xC000) != 0xC000 {
            assert(a & 0x0FFF < 0x1000) by (bit_vector);
            self.chargen[(a & 0x0FFF) as usize]
        } else {
            self.ram[a as usize]
        }
    }

    /// True when the current PLA configuration maps I/O into $D000-$DFFF.
    pub fn io_visible(&self) -> (r: bool)
        ensures
            r == (self.pla.region_of(0xD000) == Region::Io),
    {
        match self.pla.region(0xD000) {
            Region::Io => true,
            _ => false,
        }
    }

    /// True when the current PLA configuration maps Character ROM into
    /// $D000-$DFFF (CHAREN low, but BASIC or KERNAL ROM also enabled).
    pub fn char_rom_visible_at_d000(&self) -> (r: bool)
        ensures
            r == (self.pla.region_of(0xD000) == Region::CharRom),
    {
        match self.pla.region(0xD000) {
            Region::CharRom => true,
            _ => false,
        }
    }
}

impl Default for Memory {
    fn default() -> (r: Self)
        ensures
            r.wf(),
            r.ram@ == power_on_ram(),
            r.pla == pla_from_bits(0x07),
    {
        Self::new()
    }
}

/// With the bank base at most $C000 (one of the four VIC banks) every
/// address of the 16 KB window is inside memory.
pub proof fn lemma_vic_window(m: Memory, addr: u16)
    requires
        m.vic_bank_base <= 0xC000,
    ensures
        m.vic_address(addr) <= 0xFFFF,
{
    assert(addr & 0x3FFF <= 0x3FFF) by (bit_vector);
}

/// A CPU write always lands in RAM, whatever is banked in at the address;
/// reading the address back gives the byte written wherever RAM (or I/O,
/// whose RAM shadow the memory returns) is visible there afterwards.
pub proof fn law_cpu_write_then_read(m: Memory, m2: Memory, addr: u16, val: u8)
    requires
        m.wf(),
        m2.wf(),
        m2.ram@ == m.ram@.update(addr as int, val),
        m2.pla == (if addr <= 1 { pla_for_port(m2.ram@[0], m2.ram@[1]) } else { m.pla }),
        m2 == (Memory { ram: m2.ram, pla: m2.pla, ..m }),
    ensures
        m2.ram@[addr as int] == val,
        m2.pla.region_of(addr) == Region::Ram || m2.pla.region_of(addr) == Region::Io
            ==> m2.cpu_read_spec(addr) == val,
        forall|a: u16| a != addr ==> #[trigger] m2.ram@[a as int] == m.ram@[a as int],
{
}

/// A color-RAM write then read at the same address gives back the low
/// nibble of the byte written.
pub proof fn law_color_write_then_read(m: Memory, m2: Memory, addr: u16, val: u8)
    requires
        m.wf(),
        m2.wf(),
        m2.color_ram@ == m.color_ram@.update((addr & 0x03FF) as int, val & 0x0F),
    ensures
        m2.color_ram@[(addr & 0x03FF) as int] & 0x0F == val & 0x0F,
{
    assert(addr & 0x03FF < 0x0400 && (val & 0x0F) & 0x0F == val & 0x0F) by (bit_vector);
}

} // verus!
