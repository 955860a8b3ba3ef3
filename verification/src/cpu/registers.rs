//! Status flag definitions.

use vstd::prelude::*;

verus! {

/// Status register bits, each a one-bit mask of the `p` register.
pub struct Flags;

impl Flags {
    /// Carry.
    pub const C: u8 = 0x01;
    /// Zero.
    pub const Z: u8 = 0x02;
    /// Interrupt disable.
    pub const I: u8 = 0x04;
    /// Decimal mode.
    pub const D: u8 = 0x08;
    /// Break (only set on stack copies).
    pub const B: u8 = 0x10;
    /// Unused (always reads as 1).
    pub const U: u8 = 0x20;
    /// Overflow.
    pub const V: u8 = 0x40;
    /// Negative.
    pub const N: u8 = 0x80;
}

} // verus!
