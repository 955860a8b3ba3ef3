//! 1541 D64 disk image parser.
//!
//! A standard 35-track image is 174848 bytes. This module knows enough to
//! walk the BAM, list directory entries and follow sector chains — which is
//! used by KERNAL-trap shims to implement LOAD/SAVE without emulating the
//! 1541's 6502 CPU.

use vstd::prelude::*;
use vstd::slice::slice_subrange;
use super::{le16, StorageError};

verus! {

/// Sectors on `track` (tracks are numbered from 1; 0 has none).
pub open spec fn sectors_in(track: int) -> int {
    if 1 <= track <= 17 {
        21
    } else if 18 <= track <= 24 {
        19
    } else if 25 <= track <= 30 {
        18
    } else if 31 <= track <= 35 {
        17
    } else {
        0
    }
}

/// Byte offset of the first sector of `track`: the sizes of the tracks
/// before it.
pub open spec fn track_start(track: nat) -> nat
    decreases track,
{
    if track <= 1 {
        0
    } else {
        track_start((track - 1) as nat) + (sectors_in(track - 1) * 256) as nat
    }
}

/// Byte offset of (track, sector) in the image.
pub open spec fn sector_offset(track: u8, sector: u8) -> int {
    track_start(track as nat) + sector * 256
}

/// The sector count table, one entry per track.
fn sectors_per_track(t: u8) -> (r: u8)
    requires
        t <= 35,
    ensures
        r == sectors_in(t as int),
{
    if t == 0 {
        0 // tracks are 1-indexed
    } else if t <= 17 {
        21
    } else if t <= 24 {
        19
    } else if t <= 30 {
        18
    } else {
        17
    }
}

/// Track starts stay within 21 sectors per preceding track.
proof fn lemma_track_start_bounds(track: nat)
    ensures
        track_start(track) <= track * 5376,
    decreases track,
{
    if track > 1 {
        lemma_track_start_bounds((track - 1) as nat);
    }
}

/// `track_start` never decreases.
proof fn lemma_track_start_mono(a: nat, b: nat)
    requires
        a <= b,
    ensures
        track_start(a) <= track_start(b),
    decreases b - a,
{
    if a < b {
        lemma_track_start_mono(a, (b - 1) as nat);
    }
}

/// The 1541 layout: tracks 1-17 hold 21 sectors of 256 bytes, 18-24 hold
/// 19, 25-30 hold 18 and 31-35 hold 17, so a track starts after all the
/// sectors of the tracks before it, and the 35 tracks together fill the
/// 174848 bytes (683 sectors) of a standard image.
pub proof fn law_track_layout(t: nat)
    requires
        1 <= t <= 36,
    ensures
        t <= 18 ==> track_start(t) == (t - 1) * 21 * 256,
        18 <= t <= 25 ==> track_start(t) == 17 * 21 * 256 + (t - 18) * 19 * 256,
        25 <= t <= 31 ==> track_start(t) == 17 * 21 * 256 + 7 * 19 * 256 + (t - 25) * 18 * 256,
        31 <= t ==> track_start(t) == 17 * 21 * 256 + 7 * 19 * 256 + 6 * 18 * 256 + (t - 31) * 17 * 256,
        track_start(36) == 174848,
        track_start(36) == 683 * 256,
    decreases t,
{
    if t > 1 {
        law_track_layout((t - 1) as nat);
    }
    if t < 36 {
        lemma_image_size();
    }
}

/// The sectors of a standard image tile it: sector 0 of track 1 opens the
/// image, every sector (track 1-35, sector below its track's count) lies
/// whole inside the 174848 bytes, and two different sectors never overlap.
pub proof fn law_sectors_tile_image(t1: u8, s1: u8, t2: u8, s2: u8)
    requires
        1 <= t1 <= 35,
        1 <= t2 <= 35,
        s1 < sectors_in(t1 as int),
        s2 < sectors_in(t2 as int),
    ensures
        sector_offset(1, 0) == 0,
        sector_offset(t1, s1) + 256 <= 174848,
        t1 != t2 || s1 != s2 ==> sector_offset(t1, s1) + 256 <= sector_offset(t2, s2)
            || sector_offset(t2, s2) + 256 <= sector_offset(t1, s1),
{
    lemma_image_size();
    lemma_track_start_mono((t1 + 1) as nat, 36);
    assert(track_start((t1 + 1) as nat) == track_start(t1 as nat) + sectors_in(t1 as int) * 256);
    if t1 < t2 {
        lemma_track_start_mono((t1 + 1) as nat, t2 as nat);
    } else if t2 < t1 {
        lemma_track_start_mono((t2 + 1) as nat, t1 as nat);
        assert(track_start((t2 + 1) as nat) == track_start(t2 as nat) + sectors_in(t2 as int) * 256);
    }
}

/// The end of track 35 is the image size (helper of the layout law).
proof fn lemma_image_size()
    ensures
        track_start(36) == 174848,
{
    reveal_with_fuel(track_start, 37);
}

/// Byte offset of (track, sector) in the image.
pub fn ts_offset(track: u8, sector: u8) -> (r: usize)
    requires
        track <= 36,
    ensures
        r == sector_offset(track, sector),
{
    let mut off: usize = 0;
    let mut t: u8 = 1;
    proof {
        lemma_track_start_bounds(track as nat);
    }
    while t < track
        invariant
            1 <= t,
            t <= track || track == 0,
            track == 0 ==> t == 1,
            track <= 36,
            off == track_start(t as nat),
            track_start(track as nat) <= 36 * 5376,
        decreases track - t,
    {
        proof {
            lemma_track_start_mono((t + 1) as nat, track as nat);
        }
        off = off + sectors_per_track(t) as usize * 256;
        t = t + 1;
    }
    proof {
        if track == 0 {
            assert(t == 1);
        }
    }
    off + sector as usize * 256
}

/// One directory entry.
#[derive(Copy, Clone, Debug)]
pub struct DirEntry {
    /// File type nibble (0x82=PRG, 0x81=SEQ, etc.).
    pub file_type: u8,
    /// File name padded with $A0.
    pub name: [u8; 16],
    /// First (track, sector) of the file's data chain.
    pub first_ts: (u8, u8),
    /// File size in 254-byte blocks.
    pub blocks: u16,
}

/// Parsed D64 image (borrows the bytes).
pub struct D64<'a> {
    data: &'a [u8],
}

/// The smallest image that holds the directory track's first sector.
pub open spec fn d64_min_len() -> int {
    sector_offset(18, 0) + 256
}

/// The 256 bytes of (track, sector), or `None` when the image ends first.
pub open spec fn sector_bytes(d: Seq<u8>, track: u8, sector: u8) -> Option<Seq<u8>> {
    let off = sector_offset(track, sector);
    if off + 256 > d.len() {
        None
    } else {
        Some(d.subrange(off, off + 256))
    }
}

/// Whether `e` is the directory entry whose 32 bytes start at `off`.
pub open spec fn dir_entry_at(e: DirEntry, d: Seq<u8>, off: int) -> bool {
    &&& e.file_type == d[off + 2]
    &&& e.first_ts == (d[off + 3], d[off + 4])
    &&& e.name@ == d.subrange(off + 5, off + 21)
    &&& e.blocks == le16(d[off + 30], d[off + 31])
}

/// The offsets of the used entries (type byte not 0) among the first `n` of
/// the 8 entries of the directory sector at `off`.
pub open spec fn used_entries(d: Seq<u8>, off: int, n: nat) -> Seq<int>
    decreases n,
{
    if n == 0 {
        Seq::empty()
    } else {
        let prev = used_entries(d, off, (n - 1) as nat);
        let e = off + (n - 1) * 32;
        if d[e + 2] == 0 { prev } else { prev.push(e) }
    }
}

/// Whether the directory chain from (t, s), followed for at most `steps`
/// sectors, only names tracks the image layout knows (1..=36).
pub open spec fn dir_chain_ok(d: Seq<u8>, t: u8, s: u8, steps: nat) -> bool
    decreases steps,
{
    if steps == 0 {
        true
    } else if t > 36 {
        false
    } else {
        let off = sector_offset(t, s);
        if off + 256 > d.len() || d[off] == 0 {
            true
        } else {
            dir_chain_ok(d, d[off], d[off + 1], (steps - 1) as nat)
        }
    }
}

/// The offsets of the directory entries met walking the chain from (t, s)
/// for at most `steps` sectors; the walk stops at a missing sector or a
/// link to track 0.
pub open spec fn dir_listing(d: Seq<u8>, t: u8, s: u8, steps: nat) -> Seq<int>
    decreases steps,
{
    if steps == 0 || t > 36 {
        Seq::empty()
    } else {
        let off = sector_offset(t, s);
        if off + 256 > d.len() {
            Seq::empty()
        } else {
            let here = used_entries(d, off, 8);
            if d[off] == 0 {
                here
            } else {
                here + dir_listing(d, d[off], d[off + 1], (steps - 1) as nat)
            }
        }
    }
}

/// Whether `entries` are the directory of image `d`: the entries of the
/// chain from track 18 sector 1, at most 32 sectors, in order.
pub open spec fn d64_directory(d: Seq<u8>, entries: Seq<DirEntry>) -> bool {
    let offs = dir_listing(d, 18, 1, 32);
    &&& entries.len() == offs.len()
    &&& forall|k: int| 0 <= k < entries.len() ==> dir_entry_at(#[trigger] entries[k], d, offs[k])
}

/// Whether the file chain from (t, s) ends within `fuel` more links, naming
/// only known tracks, with its last sector holding at least one byte (its
/// second link byte, the last used index, is at least 1).
pub open spec fn file_chain_ok(d: Seq<u8>, t: u8, s: u8, fuel: nat) -> bool
    decreases fuel,
{
    if t == 0 {
        true
    } else if t > 36 {
        false
    } else {
        let off = sector_offset(t, s);
        if off + 256 > d.len() {
            true
        } else if d[off] == 0 {
            d[off + 1] >= 1
        } else {
            fuel > 0 && file_chain_ok(d, d[off], d[off + 1], (fuel - 1) as nat)
        }
    }
}

/// The bytes of the file whose chain starts at (t, s): bytes 2..256 of each
/// sector, and of the last (link track 0) bytes 2 up to its last used
/// index; a missing sector ends the file.
pub open spec fn file_data(d: Seq<u8>, t: u8, s: u8, fuel: nat) -> Seq<u8>
    decreases fuel,
{
    if t == 0 || t > 36 {
        Seq::empty()
    } else {
        let off = sector_offset(t, s);
        if off + 256 > d.len() {
            Seq::empty()
        } else if d[off] == 0 {
            d.subrange(off + 2, off + d[off + 1] + 1)
        } else if fuel == 0 {
            Seq::empty()
        } else {
            d.subrange(off + 2, off + 256) + file_data(d, d[off], d[off + 1], (fuel - 1) as nat)
        }
    }
}

/// Once a chain ends within `f1` links, more fuel changes nothing.
pub proof fn lemma_file_data_fuel(d: Seq<u8>, t: u8, s: u8, f1: nat, f2: nat)
    requires
        file_chain_ok(d, t, s, f1),
        f1 <= f2,
    ensures
        file_chain_ok(d, t, s, f2),
        file_data(d, t, s, f2) == file_data(d, t, s, f1),
    decreases f1,
{
    if t != 0 && t <= 36 {
        let off = sector_offset(t, s);
        if off + 256 <= d.len() && d[off] != 0 {
            lemma_file_data_fuel(d, d[off], d[off + 1], (f1 - 1) as nat, (f2 - 1) as nat);
        }
    }
}

/// The length of a name padded with $A0: the index of its first $A0 from
/// `i` on, or 16.
pub open spec fn name_end(n: Seq<u8>, i: int) -> int
    decreases 16 - i,
{
    if i >= 16 {
        16
    } else if n[i] == 0xA0 {
        i
    } else {
        name_end(n, i + 1)
    }
}

/// Whether the directory entry at `off` is a PRG file (type bits 0-2 = 2).
pub open spec fn is_prg_entry(d: Seq<u8>, off: int) -> bool {
    d[off + 2] & 0x07 == 2
}

/// The index in `offs`, from `k` on, of the first PRG entry whose unpadded
/// name is `name`.
pub open spec fn first_prg_named(d: Seq<u8>, offs: Seq<int>, name: Seq<u8>, k: nat) -> Option<int>
    decreases offs.len() - k,
{
    if k >= offs.len() {
        None
    } else {
        let n = d.subrange(offs[k as int] + 5, offs[k as int] + 21);
        if is_prg_entry(d, offs[k as int]) && n.subrange(0, name_end(n, 0)) == name {
            Some(k as int)
        } else {
            first_prg_named(d, offs, name, k + 1)
        }
    }
}

/// Append `blk[from..to]` to `out`.
fn append_range(out: &mut Vec<u8>, blk: &[u8], from: usize, to: usize)
    requires
        from <= to <= blk@.len(),
    ensures
        final(out)@ == old(out)@ + blk@.subrange(from as int, to as int),
{
    let mut i = from;
    while i < to
        invariant
            from <= i <= to,
            to <= blk@.len(),
            out@ == old(out)@ + blk@.subrange(from as int, i as int),
        decreases to - i,
    {
        out.push(blk[i]);
        assert(blk@.subrange(from as int, i + 1) =~= blk@.subrange(from as int, i as int).push(blk@[i as int]));
        i += 1;
    }
}

/// The 16 bytes of `blk` from `at`.
fn name_at(blk: &[u8], at: usize) -> (r: [u8; 16])
    requires
        at + 16 <= blk@.len(),
    ensures
        r@ == blk@.subrange(at as int, at + 16),
{
    let mut name = [0u8; 16];
    let mut k: usize = 0;
    while k < 16
        invariant
            k <= 16,
            at + 16 <= blk.len(),
            name@.len() == 16,
            forall|j: int| 0 <= j < k ==> #[trigger] name@[j] == blk@[at + j],
        decreases 16 - k,
    {
        name[k] = blk[at + k];
        k += 1;
    }
    assert(name@ =~= blk@.subrange(at as int, at + 16));
    name
}

impl<'a> D64<'a> {
    /// The image's bytes.
    pub closed spec fn image(&self) -> Seq<u8> {
        self.data@
    }

    /// Wrap a D64 image.
    pub fn new(data: &'a [u8]) -> (r: Result<Self, StorageError>)
        ensures
            match r {
                Ok(d) => data@.len() >= d64_min_len() && d.image() == data@,
                Err(e) => data@.len() < d64_min_len() && e is TooShort,
            },
    {
        proof {
            lemma_track_start_bounds(18);
        }
        if data.len() < ts_offset(18, 0) + 256 {
            return Err(StorageError::TooShort);
        }
        Ok(D64 { data })
    }

    /// Read one sector.
    pub fn sector(&self, track: u8, sector: u8) -> (r: Option<&'a [u8]>)
        requires
            track <= 36,
        ensures
            match sector_bytes(self.image(), track, sector) {
                Some(b) => r is Some && r.unwrap()@ == b,
                None => r is None,
            },
    {
        let off = ts_offset(track, sector);
        if off > self.data.len() || 256 > self.data.len() - off {
            return None;
        }
        Some(slice_subrange(self.data, off, off + 256))
    }

    /// Iterate directory entries.
    pub fn directory(&self) -> (r: Vec<DirEntry>)
        requires
            dir_chain_ok(self.image(), 18, 1, 32),
        ensures
            d64_directory(self.image(), r@),
    {
        let ghost d = self.image();
        let mut out: Vec<DirEntry> = Vec::new();
        let ghost mut offs: Seq<int> = Seq::empty();
        let mut t: u8 = 18;
        let mut s: u8 = 1;
        let mut step: usize = 0;
        assert(offs + dir_listing(d, t, s, 32) =~= dir_listing(d, 18, 1, 32));
        while step < 32
            invariant_except_break
                step <= 32,
                d == self.image(),
                dir_chain_ok(d, t, s, (32 - step) as nat),
                dir_listing(d, 18, 1, 32) == offs + dir_listing(d, t, s, (32 - step) as nat),
                out@.len() == offs.len(),
                forall|k: int| 0 <= k < out@.len() ==> dir_entry_at(#[trigger] out@[k], d, offs[k]),
            ensures
                dir_listing(d, 18, 1, 32) == offs,
                out@.len() == offs.len(),
                forall|k: int| 0 <= k < out@.len() ==> dir_entry_at(#[trigger] out@[k], d, offs[k]),
            decreases 32 - step,
        {
            let ghost rem = (32 - step) as nat;
            let blk = match self.sector(t, s) {
                Some(b) => b,
                None => {
                    assert(offs =~= offs + Seq::<int>::empty());
                    break;
                },
            };
            let ghost off = sector_offset(t, s);
            let ghost start = offs;
            let mut e: usize = 0;
            while e < 8
                invariant
                    e <= 8,
                    d == self.image(),
                    blk@ == d.subrange(off, off + 256),
                    0 <= off,
                    off + 256 <= d.len(),
                    offs == start + used_entries(d, off, e as nat),
                    out@.len() == offs.len(),
                    forall|k: int| 0 <= k < out@.len() ==> dir_entry_at(#[trigger] out@[k], d, offs[k]),
                decreases 8 - e,
            {
                let base = e * 32;
                let ftype = blk[base + 2];
                if ftype == 0 {
                    assert(start + used_entries(d, off, (e + 1) as nat) =~= start + used_entries(d, off, e as nat));
                    e += 1;
                    continue;
                }
                let name = name_at(blk, base + 5);
                let first_ts = (blk[base + 3], blk[base + 4]);
                let blocks = (blk[base + 30] as u16) | ((blk[base + 31] as u16) << 8);
                out.push(DirEntry { file_type: ftype, name, first_ts, blocks });
                proof {
                    assert(name@ =~= d.subrange(off + base + 5, off + base + 21));
                    offs = offs.push(off + base);
                    assert(start + used_entries(d, off, (e + 1) as nat) =~= offs);
                }
                e += 1;
            }
            t = blk[0];
            s = blk[1];
            if t == 0 {
                assert(dir_listing(d, 18, 1, 32) =~= offs);
                break;
            }
            assert(dir_listing(d, 18, 1, 32) =~= offs + dir_listing(d, t, s, (rem - 1) as nat));
            step += 1;
        }
        out
    }

    /// Read the bytes of a file by following its sector chain.
    pub fn read_file(&self, entry: &DirEntry) -> (r: Vec<u8>)
        requires
            exists|f: nat| file_chain_ok(self.image(), entry.first_ts.0, entry.first_ts.1, f),
        ensures
            forall|f: nat| file_chain_ok(self.image(), entry.first_ts.0, entry.first_ts.1, f)
                ==> r@ == file_data(self.image(), entry.first_ts.0, entry.first_ts.1, f),
    {
        let ghost d = self.image();
        let ghost t0 = entry.first_ts.0;
        let ghost s0 = entry.first_ts.1;
        let ghost fuel = choose|f: nat| file_chain_ok(d, t0, s0, f);
        let mut out: Vec<u8> = Vec::new();
        let (mut t, mut s) = entry.first_ts;
        let ghost mut g = fuel;
        assert(out@ + file_data(d, t, s, g) =~= file_data(d, t0, s0, fuel));
        while t != 0
            invariant_except_break
                d == self.image(),
                file_chain_ok(d, t, s, g),
                out@ + file_data(d, t, s, g) == file_data(d, t0, s0, fuel),
            ensures
                out@ == file_data(d, t0, s0, fuel),
            decreases 2 * g + (if t == 0 { 0int } else { 1int }),
        {
            let blk = match self.sector(t, s) {
                Some(b) => b,
                None => {
                    assert(out@ =~= out@ + file_data(d, t, s, g));
                    break;
                },
            };
            let next_t = blk[0];
            let next_s = blk[1];
            let ghost off = sector_offset(t, s);
            let ghost before = out@;
            if next_t == 0 {
                // Last sector: bytes 2..=next_s contain real data.
                append_range(&mut out, blk, 2, next_s as usize + 1);
                assert(blk@.subrange(2, next_s + 1) =~= d.subrange(off + 2, off + next_s + 1));
            } else {
                append_range(&mut out, blk, 2, 256);
                assert(blk@.subrange(2, 256) =~= d.subrange(off + 2, off + 256));
            }
            proof {
                if next_t != 0 {
                    assert(before + file_data(d, t, s, g) =~= out@ + file_data(d, next_t, next_s, (g - 1) as nat));
                    g = (g - 1) as nat;
                } else {
                    assert(out@ + file_data(d, next_t, next_s, g) =~= before + file_data(d, t, s, g));
                }
            }
            t = next_t;
            s = next_s;
        }
        proof {
            assert forall|f: nat| file_chain_ok(d, t0, s0, f) implies out@ == file_data(d, t0, s0, f) by {
                let m = if f < fuel { fuel } else { f };
                lemma_file_data_fuel(d, t0, s0, f, m);
                lemma_file_data_fuel(d, t0, s0, fuel, m);
            }
        }
        out
    }

    /// Locate the first PRG named `name` (PETSCII, no padding) in the directory.
    pub fn find(&self, name: &[u8]) -> (r: Option<DirEntry>)
        requires
            dir_chain_ok(self.image(), 18, 1, 32),
        ensures
            ({
                let offs = dir_listing(self.image(), 18, 1, 32);
                match first_prg_named(self.image(), offs, name@, 0) {
                    Some(k) => r is Some && dir_entry_at(r.unwrap(), self.image(), offs[k]),
                    None => r is None,
                }
            }),
    {
        let ghost d = self.image();
        let ghost offs = dir_listing(d, 18, 1, 32);
        let dir = self.directory();
        let mut i: usize = 0;
        while i < dir.len()
            invariant
                i <= dir@.len(),
                d == self.image(),
                offs == dir_listing(d, 18, 1, 32),
                d64_directory(d, dir@),
                first_prg_named(d, offs, name@, 0) == first_prg_named(d, offs, name@, i as nat),
            decreases dir@.len() - i,
        {
            let e = dir[i];
            let n = &e.name;
            let ghost nm = d.subrange(offs[i as int] + 5, offs[i as int] + 21);
            assert(dir_entry_at(dir@[i as int], d, offs[i as int]));
            assert(n@ == nm);
            let mut trimmed_len: usize = 0;
            while trimmed_len < 16 && n[trimmed_len] != 0xA0
                invariant
                    trimmed_len <= 16,
                    n@ == nm,
                    nm.len() == 16,
                    name_end(nm, 0) == name_end(nm, trimmed_len as int),
                decreases 16 - trimmed_len,
            {
                trimmed_len += 1;
            }
            let mut same = trimmed_len == name.len();
            let mut j: usize = 0;
            while same && j < trimmed_len
                invariant
                    j <= trimmed_len <= 16,
                    n@ == nm,
                    same ==> trimmed_len == name@.len(),
                    same ==> forall|q: int| 0 <= q < j ==> nm[q] == name@[q],
                    !same ==> nm.subrange(0, trimmed_len as int) != name@,
                decreases trimmed_len - j + (if same { 1int } else { 0int }),
            {
                if n[j] != name[j] {
                    same = false;
                    assert(nm.subrange(0, trimmed_len as int)[j as int] != name@[j as int]);
                } else {
                    j += 1;
                }
            }
            if same && e.file_type & 0x07 == 2 {
                assert(nm.subrange(0, trimmed_len as int) =~= name@);
                return Some(e);
            }
            i += 1;
        }
        None
    }

    /// Whether the directory chain only names tracks the layout knows, so
    /// that [`D64::directory`] can walk it.
    pub fn directory_walkable(&self) -> (r: bool)
        ensures
            r == dir_chain_ok(self.image(), 18, 1, 32),
    {
        let ghost d = self.image();
        let mut t: u8 = 18;
        let mut s: u8 = 1;
        let mut step: usize = 0;
        while step < 32
            invariant
                step <= 32,
                d == self.image(),
                dir_chain_ok(d, 18, 1, 32) == dir_chain_ok(d, t, s, (32 - step) as nat),
            decreases 32 - step,
        {
            if t > 36 {
                return false;
            }
            let blk = match self.sector(t, s) {
                Some(b) => b,
                None => {
                    return true;
                },
            };
            if blk[0] == 0 {
                return true;
            }
            t = blk[0];
            s = blk[1];
            step += 1;
        }
        true
    }
}

} // verus!
