//! ASCII ↔ PETSCII conversion (unshifted / upper-case mode).

use vstd::prelude::*;

verus! {

/// ASCII to PETSCII: lower-case letters become PETSCII upper case, upper-case
/// letters the shifted (graphics) set, line feed becomes RETURN; the rest is
/// kept.
pub open spec fn to_petscii(c: u8) -> u8 {
    if 0x61 <= c <= 0x7a {
        (c - 0x20) as u8
    } else if 0x41 <= c <= 0x5a {
        (c | 0x80) as u8
    } else if c == 0x0a {
        0x0d
    } else {
        c
    }
}

/// PETSCII to ASCII: RETURN becomes line feed, PETSCII letters lower case,
/// shifted letters upper case; the rest is kept.
pub open spec fn to_ascii(c: u8) -> u8 {
    if c == 0x0d {
        0x0a
    } else if 0x41 <= c <= 0x5a {
        (c + 0x20) as u8
    } else if 0xc1 <= c <= 0xda {
        (c - 0x80) as u8
    } else {
        c
    }
}

/// Convert an ASCII byte to screen-compatible PETSCII.
pub fn ascii_to_petscii(c: u8) -> (r: u8)
    ensures
        r == to_petscii(c),
{
    if 0x61 <= c && c <= 0x7a {
        c - 0x61 + 0x41 // lowercase → uppercase PETSCII
    } else if 0x41 <= c && c <= 0x5a {
        c | 0x80 // uppercase → graphics (shift)
    } else if c == 0x0a {
        0x0d
    } else {
        c
    }
}

/// Convert PETSCII to ASCII.
pub fn petscii_to_ascii(c: u8) -> (r: u8)
    ensures
        r == to_ascii(c),
{
    if c == 0x0d {
        0x0a
    } else if 0x41 <= c && c <= 0x5a {
        c + 0x20 // uppercase PETSCII letters → lowercase ASCII
    } else if 0xc1 <= c && c <= 0xda {
        c - 0x80 // shifted letters → uppercase ASCII
    } else {
        c
    }
}

/// Converting to PETSCII and back gives back every letter, digit, line feed
/// and the other 7-bit characters except those the conversion maps onto one
/// another: a carriage return (it comes back as a line feed), and the bytes
/// $41-$5A it would take for the shifted letters, already in ASCII upper case.
pub proof fn law_petscii_round_trip(c: u8)
    requires
        c < 0x80,
        c != 0x0d,
    ensures
        to_ascii(to_petscii(c)) == c,
{
    if 0x41 <= c <= 0x5a {
        assert((c | 0x80) as u8 == c + 0x80) by (bit_vector)
            requires c < 0x80;
    }
}

} // verus!
