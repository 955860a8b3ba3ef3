//! PRG format: 2-byte little-endian load address followed by raw bytes.

use vstd::prelude::*;
use vstd::slice::slice_subrange;
use super::{le16, StorageError};

verus! {

/// Size of the C64 address space.
pub const RAM_BYTES: usize = 0x1_0000;

/// Parsed PRG: load address and body.
pub struct Prg<'a> {
    /// Target load address in RAM.
    pub load_addr: u16,
    /// Program body bytes.
    pub body: &'a [u8],
}

/// Parse a PRG blob: `None` when it is shorter than its two-byte header,
/// else the little-endian load address and the remaining bytes.
pub open spec fn parsed_prg(bytes: Seq<u8>) -> Option<(u16, Seq<u8>)> {
    if bytes.len() < 2 {
        None
    } else {
        Some((le16(bytes[0], bytes[1]), bytes.subrange(2, bytes.len() as int)))
    }
}

/// One past the last address a body of `len` bytes loaded at `load` fills;
/// the part beyond the end of memory is dropped.
pub open spec fn load_end(load: u16, len: nat) -> int {
    if load + len < RAM_BYTES { load + len } else { RAM_BYTES as int }
}

/// RAM after a program of `body` is loaded at `load`: the bytes that fit are
/// copied; a program at the BASIC start ($0801) also gets TXTTAB ($2B/$2C)
/// set to $0801, and VARTAB, ARYTAB and STREND ($2D-$32) and the load end
/// pointer ($AE/$AF) set to its end.
pub open spec fn injected(ram: Seq<u8>, load: u16, body: Seq<u8>) -> Seq<u8> {
    let end = load_end(load, body.len());
    let copied = Seq::new(ram.len(), |i: int| if load <= i < end { body[i - load] } else { ram[i] });
    if load == 0x0801 {
        let eop: u16 = if end == RAM_BYTES { 0 } else { end as u16 };
        copied.update(0x2B, 0x01).update(0x2C, 0x08)
            .update(0x2D, eop as u8).update(0x2E, (eop >> 8) as u8)
            .update(0x2F, eop as u8).update(0x30, (eop >> 8) as u8)
            .update(0x31, eop as u8).update(0x32, (eop >> 8) as u8)
            .update(0xAE, eop as u8).update(0xAF, (eop >> 8) as u8)
    } else {
        copied
    }
}

/// RAM with `RUN` and RETURN queued in the KERNAL keyboard buffer
/// ($0277-$027A) and the buffer count NDX ($C6) set to 4.
pub open spec fn autostarted(ram: Seq<u8>) -> Seq<u8> {
    ram.update(0x0277, 0x52).update(0x0278, 0x55).update(0x0279, 0x4E).update(0x027A, 0x0D)
        .update(0x00C6, 4)
}

/// Parse a PRG blob.
pub fn parse(bytes: &[u8]) -> (r: Result<Prg<'_>, StorageError>)
    ensures
        match r {
            Ok(p) => parsed_prg(bytes@) == Some((p.load_addr, p.body@)),
            Err(e) => parsed_prg(bytes@) is None && e is TooShort,
        },
{
    if bytes.len() < 2 {
        return Err(StorageError::TooShort);
    }
    let load_addr = (bytes[0] as u16) | ((bytes[1] as u16) << 8);
    Ok(Prg { load_addr, body: slice_subrange(bytes, 2, bytes.len()) })
}

/// Inject a parsed PRG into RAM. If `load_addr == 0x0801` (the BASIC start),
/// also update the BASIC pointers at $2B/$2C, $2D/$2E and $AE/$AF so that
/// `RUN` sees the program.
pub fn inject(ram: &mut [u8; 0x1_0000], prg: &Prg)
    ensures
        final(ram)@ == injected(old(ram)@, prg.load_addr, prg.body@),
{
    let start = prg.load_addr as usize;
    let room = RAM_BYTES - start;
    let n = if prg.body.len() < room { prg.body.len() } else { room };
    let end = start + n;
    let ghost old_ram = ram@;
    let mut i: usize = 0;
    while i < n
        invariant
            start == prg.load_addr,
            end == start + n,
            end == load_end(prg.load_addr, prg.body@.len()),
            n <= prg.body@.len(),
            i <= n,
            ram@.len() == RAM_BYTES,
            old_ram.len() == RAM_BYTES,
            forall|j: int| 0 <= j < RAM_BYTES ==> #[trigger] ram@[j] == (if start <= j < start + i {
                prg.body@[j - start]
            } else {
                old_ram[j]
            }),
        decreases n - i,
    {
        ram[start + i] = prg.body[i];
        i += 1;
    }
    let ghost copied = ram@;
    assert(copied =~= Seq::new(old_ram.len(), |j: int| if start <= j < end { prg.body@[j - start] } else { old_ram[j] }));
    if prg.load_addr == 0x0801 {
        let eop: u16 = if end == RAM_BYTES { 0 } else { end as u16 }; // end of program
        // TXTTAB = $2B/$2C = start of BASIC text
        ram[0x002B] = 0x01;
        ram[0x002C] = 0x08;
        // VARTAB / ARYTAB / STREND all point to end of program
        ram[0x002D] = eop as u8;
        ram[0x002E] = (eop >> 8) as u8;
        ram[0x002F] = eop as u8;
        ram[0x0030] = (eop >> 8) as u8;
        ram[0x0031] = eop as u8;
        ram[0x0032] = (eop >> 8) as u8;
        // $AE/$AF = end address of the last load
        ram[0x00AE] = eop as u8;
        ram[0x00AF] = (eop >> 8) as u8;
    }
}

/// Queue `RUN\r` into the KERNAL keyboard buffer at $0277-$027D so that BASIC
/// autostarts after the READY prompt arrives.
pub fn autostart(ram: &mut [u8; 0x1_0000])
    ensures
        final(ram)@ == autostarted(old(ram)@),
{
    ram[0x0277] = 0x52; // R
    ram[0x0278] = 0x55; // U
    ram[0x0279] = 0x4E; // N
    ram[0x027A] = 0x0D; // RETURN
    ram[0x00C6] = 4; // NDX
}

/// Loading a parsed PRG puts its body at its load address: every byte that
/// fits below the end of memory lands at load address + its offset, and
/// outside the program and the BASIC pointers ($2B-$32, $AE/$AF) RAM is
/// unchanged.
pub proof fn law_parse_then_inject(ram: Seq<u8>, bytes: Seq<u8>)
    requires
        ram.len() == RAM_BYTES,
        bytes.len() >= 2,
    ensures
        ({
            let (load, body) = parsed_prg(bytes).unwrap();
            let r = injected(ram, load, body);
            &&& r.len() == RAM_BYTES
            &&& forall|i: int| 0 <= i < body.len() && load + i < RAM_BYTES ==> #[trigger] r[load + i] == bytes[i + 2]
            &&& forall|a: int| 0 <= a < RAM_BYTES && !(load <= a < load + body.len()) && !(0x2B <= a <= 0x32)
                && a != 0xAE && a != 0xAF ==> #[trigger] r[a] == ram[a]
        }),
{
    let (load, body) = parsed_prg(bytes).unwrap();
    assert forall|i: int| 0 <= i < body.len() && load + i < RAM_BYTES implies #[trigger] injected(ram, load, body)[load + i] == bytes[i + 2] by {
        assert(load + i < load_end(load, body.len()));
        if load == 0x0801 {
            assert(load + i > 0x32);
        }
    }
}

} // verus!
