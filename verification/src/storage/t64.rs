//! T64 tape-archive parser.

use vstd::prelude::*;
use super::{le16, StorageError};

verus! {

/// Parsed T64 entry.
#[derive(Debug, Clone)]
pub struct T64Entry {
    /// PETSCII filename (16 bytes).
    pub name: [u8; 16],
    /// Load address.
    pub load_addr: u16,
    /// End address (exclusive).
    pub end_addr: u16,
    /// Offset within the container.
    pub offset: u32,
}

/// A T64 archive.
pub struct T64<'a> {
    /// The container's bytes.
    pub data: &'a [u8],
    /// Parsed directory entries.
    pub entries: Vec<T64Entry>,
}

/// The little-endian 32-bit value of four bytes.
pub open spec fn le32(b0: u8, b1: u8, b2: u8, b3: u8) -> u32 {
    (b0 as u32 | ((b1 as u32) << 8) | ((b2 as u32) << 16) | ((b3 as u32) << 24)) as u32
}

/// Whether the container starts with the signature "C64".
pub open spec fn t64_magic(d: Seq<u8>) -> bool {
    d[0] == 0x43 && d[1] == 0x36 && d[2] == 0x34
}

/// Offset of directory slot `i`.
pub open spec fn t64_slot_offset(i: int) -> int {
    0x40 + i * 32
}

/// The offsets of the used directory slots among the first `n`: a slot is
/// used when it lies wholly inside the container and its type byte is not 0.
pub open spec fn t64_used_slots(d: Seq<u8>, n: nat) -> Seq<int>
    decreases n,
{
    if n == 0 {
        Seq::empty()
    } else {
        let prev = t64_used_slots(d, (n - 1) as nat);
        let off = t64_slot_offset(n - 1);
        if off + 32 > d.len() || d[off] == 0 {
            prev
        } else {
            prev.push(off)
        }
    }
}

/// The number of directory slots in use, as the header records it.
pub open spec fn t64_recorded_entries(d: Seq<u8>) -> nat {
    le16(d[0x24], d[0x25]) as nat
}

/// Whether `e` is the directory entry stored at `off`: load and end address
/// at +2 and +4, container offset at +8, name at +16..+32.
pub open spec fn t64_entry_at(e: T64Entry, d: Seq<u8>, off: int) -> bool {
    &&& e.load_addr == le16(d[off + 2], d[off + 3])
    &&& e.end_addr == le16(d[off + 4], d[off + 5])
    &&& e.offset == le32(d[off + 8], d[off + 9], d[off + 10], d[off + 11])
    &&& e.name@ == d.subrange(off + 16, off + 32)
}

/// Whether `entries` are the used directory slots of `d`, in order.
pub open spec fn t64_directory(d: Seq<u8>, entries: Seq<T64Entry>) -> bool {
    let slots = t64_used_slots(d, t64_recorded_entries(d));
    &&& entries.len() == slots.len()
    &&& forall|k: int| 0 <= k < entries.len() ==> t64_entry_at(#[trigger] entries[k], d, slots[k])
}

/// The PRG blob of entry `e` of container `d`: its load address (two bytes,
/// little-endian) then `end - load` bytes (wrapping) from its offset, or
/// `None` when those bytes run past the end of the container.
pub open spec fn t64_extracted(d: Seq<u8>, e: T64Entry) -> Option<Seq<u8>> {
    let n = e.end_addr.wrapping_sub(e.load_addr) as int;
    let start = e.offset as int;
    if start + n > d.len() {
        None
    } else {
        Some(seq![e.load_addr as u8, (e.load_addr >> 8) as u8] + d.subrange(start, start + n))
    }
}

/// Slots that lie beyond the end of the container add nothing.
proof fn lemma_slots_past_end(d: Seq<u8>, i: nat, k: nat)
    requires
        i <= k,
        t64_slot_offset(i as int) + 32 > d.len(),
    ensures
        t64_used_slots(d, k) == t64_used_slots(d, i),
    decreases k - i,
{
    if k > i {
        lemma_slots_past_end(d, i, (k - 1) as nat);
    }
}

impl<'a> T64<'a> {
    /// The container's bytes.
    pub open spec fn image(&self) -> Seq<u8> {
        self.data@
    }

    /// The parsed directory entries: the public `entries`.
    pub open spec fn listing(&self) -> Seq<T64Entry> {
        self.entries@
    }

    /// Parse a T64 container.
    pub fn new(data: &'a [u8]) -> (r: Result<Self, StorageError>)
        ensures
            match r {
                Ok(t) => {
                    &&& data@.len() >= 64
                    &&& t64_magic(data@)
                    &&& t.image() == data@
                    &&& t64_directory(data@, t.listing())
                },
                Err(e) => {
                    ||| (data@.len() < 64 && e is TooShort)
                    ||| (data@.len() >= 64 && !t64_magic(data@) && e is BadMagic)
                },
            },
    {
        if data.len() < 64 {
            return Err(StorageError::TooShort);
        }
        if !(data[0] == 0x43 && data[1] == 0x36 && data[2] == 0x34) {
            return Err(StorageError::BadMagic);
        }
        let num_used = ((data[0x24] as u16) | ((data[0x25] as u16) << 8)) as usize;
        let ghost d = data@;
        let mut entries: Vec<T64Entry> = Vec::new();
        let mut i: usize = 0;
        while i < num_used
            invariant_except_break
                i <= num_used,
                num_used == t64_recorded_entries(d),
                d == data@,
                entries@.len() == t64_used_slots(d, i as nat).len(),
                forall|k: int| 0 <= k < entries@.len()
                    ==> t64_entry_at(#[trigger] entries@[k], d, t64_used_slots(d, i as nat)[k]),
            ensures
                num_used == t64_recorded_entries(d),
                d == data@,
                entries@.len() == t64_used_slots(d, num_used as nat).len(),
                forall|k: int| 0 <= k < entries@.len()
                    ==> t64_entry_at(#[trigger] entries@[k], d, t64_used_slots(d, num_used as nat)[k]),
            decreases num_used - i,
        {
            let off = 0x40 + i * 32;
            if off + 32 > data.len() {
                proof {
                    lemma_slots_past_end(d, i as nat, num_used as nat);
                }
                break;
            }
            let kind = data[off];
            if kind == 0 {
                i += 1;
                continue;
            }
            let load_addr = (data[off + 2] as u16) | ((data[off + 3] as u16) << 8);
            let end_addr = (data[off + 4] as u16) | ((data[off + 5] as u16) << 8);
            let offset = (data[off + 8] as u32) | ((data[off + 9] as u32) << 8)
                | ((data[off + 10] as u32) << 16) | ((data[off + 11] as u32) << 24);
            let mut name = [0u8; 16];
            let mut k: usize = 0;
            while k < 16
                invariant
                    k <= 16,
                    off + 32 <= data.len(),
                    name@.len() == 16,
                    forall|j: int| 0 <= j < k ==> #[trigger] name@[j] == data@[off + 16 + j],
                decreases 16 - k,
            {
                name[k] = data[off + 16 + k];
                k += 1;
            }
            assert(name@ =~= d.subrange(off + 16, off + 32));
            let ghost prev = entries@;
            entries.push(T64Entry { name, load_addr, end_addr, offset });
            assert(t64_used_slots(d, (i + 1) as nat) == t64_used_slots(d, i as nat).push(off as int));
            i += 1;
        }
        Ok(T64 { data, entries })
    }

    /// Extract entry `idx` as a PRG blob (2-byte header + body).
    pub fn extract(&self, idx: usize) -> (r: Option<Vec<u8>>)
        ensures
            idx >= self.listing().len() ==> r is None,
            idx < self.listing().len() ==> match t64_extracted(self.image(), self.listing()[idx as int]) {
                Some(b) => r is Some && r.unwrap()@ == b,
                None => r is None,
            },
    {
        if idx >= self.entries.len() {
            return None;
        }
        let e = &self.entries[idx];
        let n = e.end_addr.wrapping_sub(e.load_addr) as usize;
        let start = e.offset as usize;
        if start > self.data.len() || n > self.data.len() - start {
            return None;
        }
        let mut out: Vec<u8> = Vec::with_capacity(n + 2);
        out.push(e.load_addr as u8);
        out.push((e.load_addr >> 8) as u8);
        let mut i: usize = 0;
        while i < n
            invariant
                i <= n,
                start + n <= self.data.len(),
                out@.len() == i + 2,
                out@[0] == e.load_addr as u8,
                out@[1] == (e.load_addr >> 8) as u8,
                forall|j: int| 2 <= j < i + 2 ==> #[trigger] out@[j] == self.data@[start + j - 2],
            decreases n - i,
        {
            out.push(self.data[start + i]);
            i += 1;
        }
        assert(out@ =~= seq![e.load_addr as u8, (e.load_addr >> 8) as u8] + self.data@.subrange(start as int, (start + n) as int));
        Some(out)
    }
}


/// The PRG blob of the first used directory entry of container `d`, or
/// `None` when there is none or its bytes run past the container.
pub open spec fn t64_first_program(d: Seq<u8>) -> Option<Seq<u8>> {
    let slots = t64_used_slots(d, t64_recorded_entries(d));
    if slots.len() == 0 {
        None
    } else {
        let off = slots[0];
        let load = le16(d[off + 2], d[off + 3]);
        let end = le16(d[off + 4], d[off + 5]);
        let start = le32(d[off + 8], d[off + 9], d[off + 10], d[off + 11]) as int;
        let n = end.wrapping_sub(load) as int;
        if start + n > d.len() {
            None
        } else {
            Some(seq![load as u8, (load >> 8) as u8] + d.subrange(start, start + n))
        }
    }
}

impl<'a> T64<'a> {
    /// The directory of a parsed container is the used slots of its bytes,
    /// so extracting entry 0 gives its first program.
    pub proof fn lemma_first_program(&self, data: Seq<u8>)
        requires
            self.image() == data,
            t64_directory(data, self.listing()),
        ensures
            self.listing().len() == t64_used_slots(data, t64_recorded_entries(data)).len(),
            self.listing().len() == 0 ==> t64_first_program(data) is None,
            self.listing().len() > 0 ==> t64_extracted(data, self.listing()[0]) == t64_first_program(data),
    {
        if self.listing().len() > 0 {
            assert(t64_entry_at(self.listing()[0], data, t64_used_slots(data, t64_recorded_entries(data))[0]));
        }
    }
}

} // verus!
