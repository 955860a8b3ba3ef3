//! Retro 64 extensions: compute offload ($DE00-$DEFF) and host filesystem
//! (virtual IEC device #10).

pub mod compute;
pub mod hostfs;

use vstd::prelude::*;
pub use self::compute::{compute_read, compute_write, fresh_compute, Compute, Op, TrigRequest};
pub use self::hostfs::{HostFs, InMemoryHostFs, NullHostFs};

verus! {

/// Aggregate extension state.
pub struct Extensions {
    /// Compute-offload registers at $DE00-$DEFF.
    pub compute: Compute,
    /// Host filesystem backend. Swap with your own impl for platform access.
    pub hostfs: Box<dyn HostFs>,
    /// Master enable.
    pub enabled: bool,
}

impl Extensions {
    /// Create a new Extensions struct with a [`NullHostFs`].
    pub fn new(enabled: bool) -> (r: Self)
        ensures
            r.enabled == enabled,
            r.compute == fresh_compute(),
    {
        Extensions { compute: Compute::new(), hostfs: Box::new(NullHostFs), enabled }
    }

    /// Read a byte from $DE00-$DEFF.
    pub fn read(&self, addr: u16) -> (r: u8)
        ensures
            r == (if self.enabled { compute_read(self.compute, addr) } else { 0xFF }),
    {
        if !self.enabled {
            return 0xFF;
        }
        self.compute.read(addr)
    }

    /// Write a byte to $DE00-$DEFF.
    pub fn write(&mut self, addr: u16, val: u8, ram: &mut [u8; 0x1_0000])
        ensures
            final(self).enabled == old(self).enabled,
            final(self).hostfs == old(self).hostfs,
            old(self).enabled ==> (final(self).compute, *final(ram))
                == compute_write(old(self).compute, addr, val, *old(ram)),
            !old(self).enabled ==> final(self).compute == old(self).compute && *final(ram) == *old(ram),
    {
        if !self.enabled {
            return;
        }
        self.compute.write(addr, val, ram);
    }
}

impl Default for Extensions {
    /// Disabled extensions.
    fn default() -> (r: Self)
        ensures
            !r.enabled,
            r.compute == fresh_compute(),
    {
        Self::new(false)
    }
}

} // verus!
