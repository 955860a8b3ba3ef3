//! File-format parsers for PRG, D64 and T64 images.

pub mod d64;
pub mod prg;
pub mod t64;

use vstd::prelude::*;
use vstd::string::{StrSliceExecFns, StringExecFns};

verus! {

/// An error of the host's I/O layer, carried through unexamined.
#[verifier::external_type_specification]
#[verifier::external_body]
pub struct ExIoError(std::io::Error);

/// Identify a loaded media kind so callers can dispatch.
#[derive(Copy, Clone, Debug, PartialEq, Eq, Structural)]
pub enum MediaKind {
    /// `.prg` — raw BASIC/ML program with 2-byte load address header.
    Prg,
    /// `.d64` — 1541 floppy image (35 tracks, 683 sectors, 174848 bytes).
    D64,
    /// `.t64` — tape archive container.
    T64,
    /// `.tap` — raw tape pulse stream (not supported).
    Tap,
    /// `.crt` — cartridge image (not supported).
    Crt,
}

/// Errors produced by the storage subsystem.
#[derive(Debug)]
pub enum StorageError {
    /// The data is smaller than any valid header.
    TooShort,
    /// The magic/signature bytes don't match.
    BadMagic,
    /// Feature is deliberately not implemented in this build.
    Unsupported(&'static str),
    /// Underlying I/O error (e.g. from the host filesystem).
    Io(std::io::Error),
}

/// The text of a host I/O error, as the error displays itself.
#[verifier::external_body]
fn io_error_text(e: &std::io::Error) -> String {
    format!("{e}")
}

impl StorageError {
    /// A human-readable description: "input too short", "bad
    /// magic/signature", "unsupported: " and what is unsupported, or
    /// "io error: " and the host's own message.
    pub fn message(&self) -> (r: String)
        ensures
            self is TooShort ==> r@ == "input too short"@,
            self is BadMagic ==> r@ == "bad magic/signature"@,
            self is Unsupported ==> r@ == "unsupported: "@ + self->Unsupported_0@,
            self is Io ==> r@.len() >= "io error: "@.len()
                && r@.subrange(0, "io error: "@.len() as int) == "io error: "@,
    {
        match self {
            StorageError::TooShort => String::from_str("input too short"),
            StorageError::BadMagic => String::from_str("bad magic/signature"),
            StorageError::Unsupported(what) => String::from_str("unsupported: ").concat(what),
            StorageError::Io(e) => {
                let text = io_error_text(e);
                let r = String::from_str("io error: ").concat(text.as_str());
                assert(r@.subrange(0, "io error: "@.len() as int) =~= "io error: "@);
                r
            },
        }
    }
}

impl From<std::io::Error> for StorageError {
    fn from(e: std::io::Error) -> (r: Self) {
        StorageError::Io(e)
    }
}

impl vstd::std_specs::convert::FromSpecImpl<std::io::Error> for StorageError {
    open spec fn obeys_from_spec() -> bool {
        true
    }

    open spec fn from_spec(e: std::io::Error) -> Self {
        StorageError::Io(e)
    }
}

/// The little-endian 16-bit value of two bytes.
pub open spec fn le16(lo: u8, hi: u8) -> u16 {
    ((lo as u16) | ((hi as u16) << 8)) as u16
}

/// ASCII upper-case letters lowered; every other character kept.
pub open spec fn ascii_lower(c: char) -> char {
    if 'A' <= c <= 'Z' { ((c as u32) + 32) as char } else { c }
}

/// The extension of a file name: the characters after its last '.', or
/// the whole name when it has none.
pub open spec fn extension_of(s: Seq<char>) -> Seq<char>
    decreases s.len(),
{
    if s.len() == 0 {
        s
    } else if s.last() == '.' {
        Seq::empty()
    } else {
        extension_of(s.drop_last()).push(s.last())
    }
}

/// Whether `ext`, lower-cased, is `lit`.
pub open spec fn ext_is(ext: Seq<char>, lit: Seq<char>) -> bool {
    ext.len() == lit.len() && forall|i: int| 0 <= i < ext.len() ==> ascii_lower(#[trigger] ext[i]) == lit[i]
}

/// The media kind a file name's extension names (case-insensitive).
pub open spec fn kind_for_extension(ext: Seq<char>) -> Option<MediaKind> {
    if ext_is(ext, seq!['p', 'r', 'g']) || ext_is(ext, seq!['b', 'a', 's']) {
        Some(MediaKind::Prg)
    } else if ext_is(ext, seq!['d', '6', '4']) {
        Some(MediaKind::D64)
    } else if ext_is(ext, seq!['t', '6', '4']) {
        Some(MediaKind::T64)
    } else if ext_is(ext, seq!['t', 'a', 'p']) {
        Some(MediaKind::Tap)
    } else if ext_is(ext, seq!['c', 'r', 't']) {
        Some(MediaKind::Crt)
    } else {
        None
    }
}

/// Lower-case an ASCII letter.
pub(crate) fn lower(c: char) -> (r: char)
    ensures
        r == ascii_lower(c),
{
    if 'A' <= c && c <= 'Z' {
        ((c as u8) + 32) as char
    } else {
        c
    }
}

/// Whether the characters of `name` from `start` to its end, lower-cased,
/// are `a`, `b`, `c`.
fn tail_is(name: &str, start: usize, a: char, b: char, c: char) -> (r: bool)
    requires
        start <= name@.len(),
    ensures
        r == ext_is(name@.subrange(start as int, name@.len() as int), seq![a, b, c]),
{
    let n = name.unicode_len();
    if n - start != 3 {
        return false;
    }
    let ext = Ghost(name@.subrange(start as int, n as int));
    let r = lower(name.get_char(start)) == a && lower(name.get_char(start + 1)) == b
        && lower(name.get_char(start + 2)) == c;
    assert(ext@[0] == name@[start as int] && ext@[1] == name@[start + 1] && ext@[2] == name@[start + 2]);
    if r {
        assert forall|i: int| 0 <= i < ext@.len() implies ascii_lower(#[trigger] ext@[i]) == seq![a, b, c][i] by {
            if i == 0 {} else if i == 1 {} else {}
        }
    } else {
        assert(!(ascii_lower(ext@[0]) == a && ascii_lower(ext@[1]) == b && ascii_lower(ext@[2]) == c));
    }
    r
}

/// Guess [`MediaKind`] from a filename/extension.
pub fn kind_from_name(name: &str) -> (r: Option<MediaKind>)
    ensures
        r == kind_for_extension(extension_of(name@)),
{
    let n = name.unicode_len();
    let mut i = n;
    assert(name@.subrange(0, n as int) =~= name@);
    assert(extension_of(name@) =~= extension_of(name@.subrange(0, n as int)) + name@.subrange(n as int, n as int));
    while i > 0 && name.get_char(i - 1) != '.'
        invariant
            i <= n,
            n == name@.len(),
            extension_of(name@) == extension_of(name@.subrange(0, i as int)) + name@.subrange(i as int, n as int),
        decreases i,
    {
        let ghost pre = name@.subrange(0, i as int);
        assert(pre.drop_last() =~= name@.subrange(0, i - 1));
        assert(name@.subrange(i - 1, n as int) =~= seq![pre.last()] + name@.subrange(i as int, n as int));
        i -= 1;
    }
    proof {
        let pre = name@.subrange(0, i as int);
        if i > 0 {
            assert(pre.last() == '.');
        }
        assert(extension_of(pre) =~= Seq::<char>::empty());
        assert(extension_of(name@) =~= name@.subrange(i as int, n as int));
    }
    if tail_is(name, i, 'p', 'r', 'g') || tail_is(name, i, 'b', 'a', 's') {
        Some(MediaKind::Prg)
    } else if tail_is(name, i, 'd', '6', '4') {
        Some(MediaKind::D64)
    } else if tail_is(name, i, 't', '6', '4') {
        Some(MediaKind::T64)
    } else if tail_is(name, i, 't', 'a', 'p') {
        Some(MediaKind::Tap)
    } else if tail_is(name, i, 'c', 'r', 't') {
        Some(MediaKind::Crt)
    } else {
        None
    }
}

} // verus!
