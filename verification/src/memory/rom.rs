//! ROM images. Real Commodore ROMs can be supplied by the host (read from a
//! directory); in their absence the built-in stubs below produce a minimal,
//! legal bootable system (enough to run the CPU from $FCE2 without crashing;
//! BASIC is not functional without real ROMs).

use vstd::prelude::*;

verus! {

/// Size of the BASIC and KERNAL ROMs.
pub const ROM_8K: usize = 0x2000;
/// Size of the Character ROM.
pub const ROM_4K: usize = 0x1000;

/// Collection of the three C64 ROMs.
#[derive(Debug)]
pub struct RomSet {
    /// 8 KB BASIC ROM.
    pub basic: Option<[u8; 0x2000]>,
    /// 8 KB KERNAL ROM.
    pub kernal: Option<[u8; 0x2000]>,
    /// 4 KB Character ROM.
    pub chargen: Option<[u8; 0x1000]>,
}

/// `v` cut or zero-padded to exactly `n` bytes.
pub open spec fn sized_image(v: Seq<u8>, n: nat) -> Seq<u8> {
    Seq::new(n, |i: int| if i < v.len() { v[i] } else { 0u8 })
}

impl RomSet {
    /// A set with no ROM.
    pub fn empty() -> (r: Self)
        ensures
            r.basic.is_none(),
            r.kernal.is_none(),
            r.chargen.is_none(),
    {
        RomSet { basic: None, kernal: None, chargen: None }
    }

    /// Build a set from the contents of the `basic`, `kernal` and `chargen`
    /// files (`None` where a file is missing). Each image is cut or
    /// zero-padded to the size of its ROM.
    pub fn from_images(basic: Option<Vec<u8>>, kernal: Option<Vec<u8>>, chargen: Option<Vec<u8>>) -> (r: Self)
        ensures
            r.basic.is_some() == basic.is_some(),
            r.kernal.is_some() == kernal.is_some(),
            r.chargen.is_some() == chargen.is_some(),
            basic.is_some() ==> r.basic.unwrap()@ == sized_image(basic.unwrap()@, ROM_8K as nat),
            kernal.is_some() ==> r.kernal.unwrap()@ == sized_image(kernal.unwrap()@, ROM_8K as nat),
            chargen.is_some() ==> r.chargen.unwrap()@ == sized_image(chargen.unwrap()@, ROM_4K as nat),
    {
        let basic = match basic {
            Some(v) => Some(boxed2k(v)),
            None => None,
        };
        let kernal = match kernal {
            Some(v) => Some(boxed2k(v)),
            None => None,
        };
        let chargen = match chargen {
            Some(v) => Some(boxed1k(v)),
            None => None,
        };
        RomSet { basic, kernal, chargen }
    }
}

/// An 8 KB ROM image from file contents (extra bytes are dropped, missing
/// ones zero).
fn boxed2k(v: Vec<u8>) -> (r: [u8; 0x2000])
    ensures
        r@ == sized_image(v@, ROM_8K as nat),
{
    let mut b = [0u8; 0x2000];
    let n = if v.len() < ROM_8K { v.len() } else { ROM_8K };
    let mut i: usize = 0;
    while i < n
        invariant
            i <= n,
            n <= ROM_8K,
            n <= v@.len(),
            n == (if v@.len() < ROM_8K { v@.len() } else { ROM_8K as nat }),
            forall|j: int| 0 <= j < i ==> #[trigger] b@[j] == v@[j],
            forall|j: int| i <= j < ROM_8K ==> #[trigger] b@[j] == 0u8,
        decreases n - i,
    {
        b[i] = v[i];
        i += 1;
    }
    assert(b@ =~= sized_image(v@, ROM_8K as nat));
    b
}

/// A 4 KB ROM image from file contents (extra bytes are dropped, missing
/// ones zero).
fn boxed1k(v: Vec<u8>) -> (r: [u8; 0x1000])
    ensures
        r@ == sized_image(v@, ROM_4K as nat),
{
    let mut b = [0u8; 0x1000];
    let n = if v.len() < ROM_4K { v.len() } else { ROM_4K };
    let mut i: usize = 0;
    while i < n
        invariant
            i <= n,
            n <= ROM_4K,
            n <= v@.len(),
            n == (if v@.len() < ROM_4K { v@.len() } else { ROM_4K as nat }),
            forall|j: int| 0 <= j < i ==> #[trigger] b@[j] == v@[j],
            forall|j: int| i <= j < ROM_4K ==> #[trigger] b@[j] == 0u8,
        decreases n - i,
    {
        b[i] = v[i];
        i += 1;
    }
    assert(b@ =~= sized_image(v@, ROM_4K as nat));
    b
}

/// The byte of the built-in KERNAL stub at offset `i`: all BRK but for a tiny
/// reset routine at $FCE2 (`LDX #$FF; TXS; CLI; loop: JMP loop`) and the
/// NMI, RESET and IRQ vectors all pointing at it.
pub open spec fn kernal_stub_byte(i: int) -> u8 {
    if i == 0x1CE2 { 0xA2 }
    else if i == 0x1CE3 { 0xFF }
    else if i == 0x1CE4 { 0x9A }
    else if i == 0x1CE5 { 0x58 }
    else if i == 0x1CE6 { 0x4C }
    else if i == 0x1CE7 { 0xE6 }
    else if i == 0x1CE8 { 0xFC }
    else if i == 0x1FFA || i == 0x1FFC || i == 0x1FFE { 0xE2 }
    else if i == 0x1FFB || i == 0x1FFD || i == 0x1FFF { 0xFC }
    else { 0x00 }
}

/// Minimal BASIC ROM stub — all BRK to trap unwanted execution.
pub fn builtin_basic() -> (r: [u8; 0x2000])
    ensures
        r@ == Seq::new(ROM_8K as nat, |i: int| 0u8),
{
    let r = [0u8; 0x2000];
    assert(r@ =~= Seq::new(ROM_8K as nat, |i: int| 0u8));
    r
}

/// Minimal KERNAL ROM stub. Provides a reset vector at $FCE2 that sets up
/// the stack and loops. Real software won't run without actual KERNAL ROMs
/// but the CPU is in a sane state after reset.
pub fn builtin_kernal() -> (r: [u8; 0x2000])
    ensures
        r@ == Seq::new(ROM_8K as nat, |i: int| kernal_stub_byte(i)),
{
    let mut k = [0u8; 0x2000];
    // LDX #$FF ; TXS ; CLI ; JMP $FCE6
    k[0x1CE2] = 0xA2;
    k[0x1CE3] = 0xFF;
    k[0x1CE4] = 0x9A;
    k[0x1CE5] = 0x58;
    k[0x1CE6] = 0x4C;
    k[0x1CE7] = 0xE6;
    k[0x1CE8] = 0xFC;
    // Vectors at $FFFA-$FFFF: NMI=$FCE2, RESET=$FCE2, IRQ=$FCE2
    k[0x1FFA] = 0xE2;
    k[0x1FFB] = 0xFC;
    k[0x1FFC] = 0xE2;
    k[0x1FFD] = 0xFC;
    k[0x1FFE] = 0xE2;
    k[0x1FFF] = 0xFC;
    assert(k@ =~= Seq::new(ROM_8K as nat, |i: int| kernal_stub_byte(i)));
    k
}

/// Minimal Character ROM stub — zeroed glyphs (all blank).
pub fn builtin_chargen() -> (r: [u8; 0x1000])
    ensures
        r@ == Seq::new(ROM_4K as nat, |i: int| 0u8),
{
    let r = [0u8; 0x1000];
    assert(r@ =~= Seq::new(ROM_4K as nat, |i: int| 0u8));
    r
}

} // verus!
