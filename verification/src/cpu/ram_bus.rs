//! A flat 64 KB RAM bus: every address is RAM, reads have no side effects.
//! Handy for running 6510 code outside the full machine.

use vstd::prelude::*;
use vstd::array::spec_array_update;
use super::Bus;
use super::laws::behaves_as_ram;

verus! {

/// 64 KB of RAM and nothing else.
pub struct RamBus {
    /// The memory, indexed by address.
    pub ram: [u8; 0x1_0000],
}

impl RamBus {
    /// All-zero RAM.
    pub fn new() -> (r: Self)
        ensures
            r.ram@ == Seq::new(0x1_0000, |i: int| 0u8),
    {
        let r = RamBus { ram: [0u8; 0x1_0000] };
        assert(r.ram@ =~= Seq::new(0x1_0000, |i: int| 0u8));
        r
    }

    /// Copy `prog` into RAM at `addr`.
    pub fn load(&mut self, addr: u16, prog: &[u8])
        requires
            addr + prog@.len() <= 0x1_0000,
        ensures
            forall|i: int| 0 <= i < 0x1_0000 ==> #[trigger] final(self).ram@[i] == if addr <= i < addr + prog@.len() {
                prog@[i - addr]
            } else {
                old(self).ram@[i]
            },
    {
        let mut k: usize = 0;
        while k < prog.len()
            invariant
                k <= prog@.len(),
                addr + prog@.len() <= 0x1_0000,
                forall|i: int| 0 <= i < 0x1_0000 ==> #[trigger] self.ram@[i] == if addr <= i < addr + k {
                    prog@[i - addr]
                } else {
                    old(self).ram@[i]
                },
            decreases prog@.len() - k,
        {
            self.ram[addr as usize + k] = prog[k];
            k += 1;
        }
    }
}

impl Bus for RamBus {
    open spec fn read_value(&self, addr: u16) -> u8 {
        self.ram@[addr as int]
    }

    open spec fn after_read(&self, addr: u16) -> Self {
        *self
    }

    open spec fn after_write(&self, addr: u16, val: u8) -> Self {
        RamBus { ram: spec_array_update(self.ram, addr as int, val) }
    }

    fn read(&mut self, addr: u16) -> (r: u8) {
        self.ram[addr as usize]
    }

    fn write(&mut self, addr: u16, val: u8) {
        self.ram[addr as usize] = val;
    }
}

/// The flat bus is plain RAM: reads change nothing and a read gives back
/// the last value written at that address.
pub proof fn lemma_ram_bus_is_ram()
    ensures
        behaves_as_ram::<RamBus>(),
{
}

} // verus!
