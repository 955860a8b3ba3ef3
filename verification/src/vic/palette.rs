//! VIC-II 16-color Pepto palette in ARGB8888.

use vstd::prelude::*;

verus! {

/// The ARGB8888 value of colour `c & 15` of the 16-colour Pepto-like palette.
pub open spec fn pal(c: u8) -> u32 {
    let i = c & 15;
    if i == 0 { 0xFF000000 }         // black
    else if i == 1 { 0xFFFFFFFF }    // white
    else if i == 2 { 0xFF880000 }    // red
    else if i == 3 { 0xFFAAFFEE }    // cyan
    else if i == 4 { 0xFFCC44CC }    // purple
    else if i == 5 { 0xFF00CC55 }    // green
    else if i == 6 { 0xFF0000AA }    // blue
    else if i == 7 { 0xFFEEEE77 }    // yellow
    else if i == 8 { 0xFFDD8855 }    // orange
    else if i == 9 { 0xFF664400 }    // brown
    else if i == 10 { 0xFFFF7777 }   // light red
    else if i == 11 { 0xFF333333 }   // dark grey
    else if i == 12 { 0xFF777777 }   // medium grey
    else if i == 13 { 0xFFAAFF66 }   // light green
    else if i == 14 { 0xFF0088FF }   // light blue
    else { 0xFFBBBBBB }              // light grey
}

/// The ARGB8888 value of palette entry `c & 15`.
pub fn vic_color(c: u8) -> (r: u32)
    ensures
        r == pal(c),
{
    let i = c & 15;
    if i == 0 { 0xFF000000 }
    else if i == 1 { 0xFFFFFFFF }
    else if i == 2 { 0xFF880000 }
    else if i == 3 { 0xFFAAFFEE }
    else if i == 4 { 0xFFCC44CC }
    else if i == 5 { 0xFF00CC55 }
    else if i == 6 { 0xFF0000AA }
    else if i == 7 { 0xFFEEEE77 }
    else if i == 8 { 0xFFDD8855 }
    else if i == 9 { 0xFF664400 }
    else if i == 10 { 0xFFFF7777 }
    else if i == 11 { 0xFF333333 }
    else if i == 12 { 0xFF777777 }
    else if i == 13 { 0xFFAAFF66 }
    else if i == 14 { 0xFF0088FF }
    else { 0xFFBBBBBB }
}

/// Every palette colour is opaque (alpha $FF).
pub proof fn law_palette_opaque(c: u8)
    ensures
        pal(c) >> 24 == 0xFF,
{
    let i = c & 15;
    assert(0xFF000000u32 >> 24 == 0xFF && 0xFFFFFFFFu32 >> 24 == 0xFF && 0xFF880000u32 >> 24 == 0xFF
        && 0xFFAAFFEEu32 >> 24 == 0xFF && 0xFFCC44CCu32 >> 24 == 0xFF && 0xFF00CC55u32 >> 24 == 0xFF
        && 0xFF0000AAu32 >> 24 == 0xFF && 0xFFEEEE77u32 >> 24 == 0xFF && 0xFFDD8855u32 >> 24 == 0xFF
        && 0xFF664400u32 >> 24 == 0xFF && 0xFFFF7777u32 >> 24 == 0xFF && 0xFF333333u32 >> 24 == 0xFF
        && 0xFF777777u32 >> 24 == 0xFF && 0xFFAAFF66u32 >> 24 == 0xFF && 0xFF0088FFu32 >> 24 == 0xFF
        && 0xFFBBBBBBu32 >> 24 == 0xFF) by (bit_vector);
}

} // verus!
