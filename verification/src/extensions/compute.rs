//! Compute-offload registers at $DE00-$DE2F.

use vstd::prelude::*;
use vstd::array::spec_array_update;

verus! {

/// A sine or cosine the host is asked to compute (the one floating-point
/// operation of the unit): `sin(angle / 256) * 256` or `cos(angle / 256) *
/// 256`, truncated toward zero to a signed 32-bit value.
#[derive(Copy, Clone, Debug, PartialEq, Eq, Structural)]
pub struct TrigRequest {
    /// Whether the cosine (rather than the sine) is asked for.
    pub cosine: bool,
    /// Operand A: the angle in 1/256 radians.
    pub angle: u32,
}

/// Compute-offload state.
#[derive(Clone)]
pub struct Compute {
    /// Operand A ($DE00-$DE03, little-endian).
    pub a: u32,
    /// Operand B ($DE04-$DE07).
    pub b: u32,
    /// Result ($DE0A-$DE0D).
    pub result: u32,
    /// Status ($DE09): 1 once an operation has run.
    pub status: u8,
    /// Fill start address ($DE10/$DE11).
    pub fill_addr: u16,
    /// Fill byte ($DE12).
    pub fill_val: u8,
    /// Fill length ($DE13/$DE14).
    pub fill_len: u16,
    /// Copy source ($DE20/$DE21).
    pub copy_src: u16,
    /// Copy destination ($DE22/$DE23).
    pub copy_dst: u16,
    /// Copy length ($DE24/$DE25).
    pub copy_len: u16,
    /// State of the random number generator.
    pub rng_state: u32,
    /// A sine/cosine operation waiting for the host to supply its result.
    pub trig: Option<TrigRequest>,
}

/// Op codes accepted at $DE08.
#[derive(Copy, Clone, Debug, PartialEq, Eq, Structural)]
pub enum Op {
    /// result = a * b.
    Mul,
    /// result = a / b (division by zero → 0).
    Div,
    /// result = a mod b.
    Mod,
    /// result = sqrt(a).
    Sqrt,
    /// result = sin(a/256 radians) * 256.
    Sin,
    /// result = cos(a/256 radians) * 256.
    Cos,
    /// result = random u32 (LCG-stepped).
    Rng,
    /// result = a + b.
    Add,
}

impl Op {
    /// The code written to $DE08 to run this operation.
    pub fn code(self) -> (r: u8)
        ensures
            r == op_code(self),
    {
        match self {
            Op::Mul => 0,
            Op::Div => 1,
            Op::Mod => 2,
            Op::Sqrt => 3,
            Op::Sin => 4,
            Op::Cos => 5,
            Op::Rng => 6,
            Op::Add => 7,
        }
    }
}

/// The code of each operation.
pub open spec fn op_code(op: Op) -> u8 {
    match op {
        Op::Mul => 0,
        Op::Div => 1,
        Op::Mod => 2,
        Op::Sqrt => 3,
        Op::Sin => 4,
        Op::Cos => 5,
        Op::Rng => 6,
        Op::Add => 7,
    }
}

/// Byte `i & 3` of `v` (little-endian).
pub open spec fn byte_of(v: u32, i: u8) -> u8 {
    (v >> (((i & 3) * 8) as u32)) as u8
}

/// `v` with byte `i & 3` replaced by `b`.
pub open spec fn with_byte(v: u32, i: u8, b: u8) -> u32 {
    let shift = ((i & 3) * 8) as u32;
    (v & !(0xFFu32 << shift)) | ((b as u32) << shift)
}

/// The integer square root: the largest `r` with `r * r <= a`.
pub open spec fn is_isqrt(a: u32, r: u32) -> bool {
    r * r <= a < (r + 1) * (r + 1)
}

/// The next state of the random number generator.
pub open spec fn lcg_next(s: u32) -> u32 {
    s.wrapping_mul(1103515245).wrapping_add(12345)
}

/// The register read at `addr` ($DE00-$DEFF, only the low byte matters):
/// bytes of A, B and the result (the result's bytes are selected by the
/// low two address bits), the status, 0 elsewhere.
pub open spec fn compute_read(c: Compute, addr: u16) -> u8 {
    let reg = (addr & 0xFF) as u8;
    if reg <= 0x03 {
        byte_of(c.a, reg & 3)
    } else if 0x04 <= reg <= 0x07 {
        byte_of(c.b, reg & 3)
    } else if reg == 0x09 {
        c.status
    } else if 0x0A <= reg <= 0x0D {
        byte_of(c.result, reg & 3)
    } else {
        0
    }
}

/// RAM with `len` bytes from `addr` (wrapping at the end of memory) set to
/// `val`.
pub open spec fn filled(ram: Seq<u8>, addr: u16, val: u8, len: u16) -> Seq<u8> {
    Seq::new(ram.len(), |j: int| if ((j - addr) % 0x10000) < len { val } else { ram[j] })
}

/// RAM after a forward byte-by-byte copy of `n` bytes from `src` to `dst`
/// (both wrapping), each byte read after the previous ones were written.
pub open spec fn copied(ram: [u8; 0x1_0000], src: u16, dst: u16, n: nat) -> [u8; 0x1_0000]
    decreases n,
{
    if n == 0 {
        ram
    } else {
        let r = copied(ram, src, dst, (n - 1) as nat);
        let i = (n - 1) as u16;
        spec_array_update(r, dst.wrapping_add(i) as int, r@[src.wrapping_add(i) as int])
    }
}

/// RAM after the first `n` bytes of a fill from `addr` (wrapping) are set to
/// `val`.
pub open spec fn filled_upto(ram: [u8; 0x1_0000], addr: u16, val: u8, n: nat) -> [u8; 0x1_0000]
    decreases n,
{
    if n == 0 {
        ram
    } else {
        spec_array_update(filled_upto(ram, addr, val, (n - 1) as nat), addr.wrapping_add((n - 1) as u16) as int, val)
    }
}

/// The unit after operation `code` runs: arithmetic on A and B, the integer
/// square root of A, an LCG step, or (sine, cosine) a request to the host;
/// any code sets the status to 1.
pub open spec fn after_op(c: Compute, code: u8) -> Compute {
    let c1 = if code == 0 {
        Compute { result: c.a.wrapping_mul(c.b), ..c }
    } else if code == 1 {
        Compute { result: if c.b == 0 { 0 } else { c.a / c.b }, ..c }
    } else if code == 2 {
        Compute { result: if c.b == 0 { 0 } else { c.a % c.b }, ..c }
    } else if code == 3 {
        Compute { result: choose|r: u32| is_isqrt(c.a, r), ..c }
    } else if code == 4 || code == 5 {
        Compute { trig: Some(TrigRequest { cosine: code == 5, angle: c.a }), ..c }
    } else if code == 6 {
        Compute { rng_state: lcg_next(c.rng_state), result: lcg_next(c.rng_state), ..c }
    } else if code == 7 {
        Compute { result: c.a.wrapping_add(c.b), ..c }
    } else {
        c
    };
    Compute { status: 1, ..c1 }
}

/// A register write at `addr`: the unit afterwards and RAM afterwards.
pub open spec fn compute_write(c: Compute, addr: u16, v: u8, ram: [u8; 0x1_0000]) -> (Compute, [u8; 0x1_0000]) {
    let reg = (addr & 0xFF) as u8;
    if reg <= 0x03 {
        (Compute { a: with_byte(c.a, reg & 3, v), ..c }, ram)
    } else if 0x04 <= reg <= 0x07 {
        (Compute { b: with_byte(c.b, reg & 3, v), ..c }, ram)
    } else if reg == 0x08 {
        (after_op(c, v), ram)
    } else if reg == 0x10 {
        (Compute { fill_addr: (c.fill_addr & 0xFF00) | v as u16, ..c }, ram)
    } else if reg == 0x11 {
        (Compute { fill_addr: (c.fill_addr & 0x00FF) | ((v as u16) << 8), ..c }, ram)
    } else if reg == 0x12 {
        (Compute { fill_val: v, ..c }, ram)
    } else if reg == 0x13 {
        (Compute { fill_len: (c.fill_len & 0xFF00) | v as u16, ..c }, ram)
    } else if reg == 0x14 {
        (Compute { fill_len: (c.fill_len & 0x00FF) | ((v as u16) << 8), ..c }, ram)
    } else if reg == 0x15 {
        (Compute { status: 1, ..c }, filled_upto(ram, c.fill_addr, c.fill_val, c.fill_len as nat))
    } else if reg == 0x20 {
        (Compute { copy_src: (c.copy_src & 0xFF00) | v as u16, ..c }, ram)
    } else if reg == 0x21 {
        (Compute { copy_src: (c.copy_src & 0x00FF) | ((v as u16) << 8), ..c }, ram)
    } else if reg == 0x22 {
        (Compute { copy_dst: (c.copy_dst & 0xFF00) | v as u16, ..c }, ram)
    } else if reg == 0x23 {
        (Compute { copy_dst: (c.copy_dst & 0x00FF) | ((v as u16) << 8), ..c }, ram)
    } else if reg == 0x24 {
        (Compute { copy_len: (c.copy_len & 0xFF00) | v as u16, ..c }, ram)
    } else if reg == 0x25 {
        (Compute { copy_len: (c.copy_len & 0x00FF) | ((v as u16) << 8), ..c }, ram)
    } else if reg == 0x26 {
        (Compute { status: 1, ..c }, copied(ram, c.copy_src, c.copy_dst, c.copy_len as nat))
    } else {
        (c, ram)
    }
}

/// Byte `i & 3` of `v`.
fn byte(v: u32, i: u8) -> (r: u8)
    ensures
        r == byte_of(v, i),
{
    assert(i & 3 <= 3) by (bit_vector);
    (v >> (((i & 3) * 8) as u32)) as u8
}

/// `v` with byte `i & 3` replaced by `b`.
fn set_byte(v: u32, i: u8, b: u8) -> (r: u32)
    ensures
        r == with_byte(v, i, b),
{
    assert(i & 3 <= 3) by (bit_vector);
    let shift = ((i & 3) * 8) as u32;
    (v & !(0xFFu32 << shift)) | ((b as u32) << shift)
}

/// The integer square root of `a`, by binary search.
fn isqrt(a: u32) -> (r: u32)
    ensures
        is_isqrt(a, r),
{
    let mut lo: u64 = 0;
    let mut hi: u64 = 0x10000;
    while hi - lo > 1
        invariant
            lo < hi <= 0x10000,
            lo * lo <= a,
            a < hi * hi,
        decreases hi - lo,
    {
        let mid = lo + (hi - lo) / 2;
        assert(mid * mid <= 0x10000 * 0x10000) by (nonlinear_arith)
            requires mid <= 0x10000;
        if mid * mid <= a as u64 {
            lo = mid;
        } else {
            hi = mid;
        }
    }
    assert(hi == lo + 1);
    lo as u32
}

/// A unit after power-on: everything zero, the generator seeded.
pub open spec fn fresh_compute() -> Compute {
    Compute {
        a: 0, b: 0, result: 0, status: 0, fill_addr: 0, fill_val: 0, fill_len: 0,
        copy_src: 0, copy_dst: 0, copy_len: 0, rng_state: 0x12345678, trig: None,
    }
}

impl Compute {
    /// Create a new Compute with a seeded RNG.
    pub fn new() -> (r: Self)
        ensures
            r == fresh_compute(),
    {
        Compute {
            a: 0,
            b: 0,
            result: 0,
            status: 0,
            fill_addr: 0,
            fill_val: 0,
            fill_len: 0,
            copy_src: 0,
            copy_dst: 0,
            copy_len: 0,
            rng_state: 0x12345678,
            trig: None,
        }
    }

    /// Read register at absolute address $DE00-$DEFF.
    pub fn read(&self, addr: u16) -> (r: u8)
        ensures
            r == compute_read(*self, addr),
    {
        let reg = (addr & 0xFF) as u8;
        if reg <= 0x03 {
            byte(self.a, reg & 3)
        } else if 0x04 <= reg && reg <= 0x07 {
            byte(self.b, reg & 3)
        } else if reg == 0x09 {
            self.status
        } else if 0x0A <= reg && reg <= 0x0D {
            byte(self.result, reg & 3)
        } else {
            0
        }
    }

    /// Write register at absolute address.
    pub fn write(&mut self, addr: u16, v: u8, ram: &mut [u8; 0x1_0000])
        ensures
            (*final(self), *final(ram)) == compute_write(*old(self), addr, v, *old(ram)),
    {
        let reg = (addr & 0xFF) as u8;
        if reg <= 0x03 {
            self.a = set_byte(self.a, reg & 3, v);
        } else if 0x04 <= reg && reg <= 0x07 {
            self.b = set_byte(self.b, reg & 3, v);
        } else if reg == 0x08 {
            self.execute_op(v);
        } else if reg == 0x10 {
            self.fill_addr = (self.fill_addr & 0xFF00) | v as u16;
        } else if reg == 0x11 {
            self.fill_addr = (self.fill_addr & 0x00FF) | ((v as u16) << 8);
        } else if reg == 0x12 {
            self.fill_val = v;
        } else if reg == 0x13 {
            self.fill_len = (self.fill_len & 0xFF00) | v as u16;
        } else if reg == 0x14 {
            self.fill_len = (self.fill_len & 0x00FF) | ((v as u16) << 8);
        } else if reg == 0x15 {
            // Trigger fill
            let ghost old_ram = *ram;
            let mut i: u16 = 0;
            while i < self.fill_len
                invariant
                    i <= self.fill_len,
                    *ram == filled_upto(old_ram, self.fill_addr, self.fill_val, i as nat),
                decreases self.fill_len - i,
            {
                let a = self.fill_addr.wrapping_add(i) as usize;
                ram[a] = self.fill_val;
                i += 1;
            }
            self.status = 1;
        } else if reg == 0x20 {
            self.copy_src = (self.copy_src & 0xFF00) | v as u16;
        } else if reg == 0x21 {
            self.copy_src = (self.copy_src & 0x00FF) | ((v as u16) << 8);
        } else if reg == 0x22 {
            self.copy_dst = (self.copy_dst & 0xFF00) | v as u16;
        } else if reg == 0x23 {
            self.copy_dst = (self.copy_dst & 0x00FF) | ((v as u16) << 8);
        } else if reg == 0x24 {
            self.copy_len = (self.copy_len & 0xFF00) | v as u16;
        } else if reg == 0x25 {
            self.copy_len = (self.copy_len & 0x00FF) | ((v as u16) << 8);
        } else if reg == 0x26 {
            let ghost old_ram = *ram;
            let mut i: u16 = 0;
            while i < self.copy_len
                invariant
                    i <= self.copy_len,
                    *ram == copied(old_ram, self.copy_src, self.copy_dst, i as nat),
                decreases self.copy_len - i,
            {
                let s = self.copy_src.wrapping_add(i) as usize;
                let d = self.copy_dst.wrapping_add(i) as usize;
                let b = ram[s];
                ram[d] = b;
                i += 1;
            }
            self.status = 1;
        }
    }

    /// Run operation `code`.
    fn execute_op(&mut self, code: u8)
        ensures
            *final(self) == after_op(*old(self), code),
    {
        if code == 0 {
            self.result = self.a.wrapping_mul(self.b);
        } else if code == 1 {
            self.result = if self.b == 0 { 0 } else { self.a / self.b };
        } else if code == 2 {
            self.result = if self.b == 0 { 0 } else { self.a % self.b };
        } else if code == 3 {
            let r = isqrt(self.a);
            proof {
                lemma_isqrt_unique(self.a, r, choose|q: u32| is_isqrt(self.a, q));
            }
            self.result = r;
        } else if code == 4 || code == 5 {
            // The host supplies sin/cos (see `finish_trig`).
            self.trig = Some(TrigRequest { cosine: code == 5, angle: self.a });
        } else if code == 6 {
            self.rng_state = self.rng_state.wrapping_mul(1103515245).wrapping_add(12345);
            self.result = self.rng_state;
        } else if code == 7 {
            self.result = self.a.wrapping_add(self.b);
        }
        self.status = 1;
    }

    /// Store the host's answer to the pending sine/cosine request as the
    /// result.
    pub fn finish_trig(&mut self, value: u32)
        ensures
            *final(self) == (Compute { result: value, trig: None, ..*old(self) }),
    {
        self.result = value;
        self.trig = None;
    }
}

/// A fill sets exactly the `len` bytes from `addr` (wrapping at the end of
/// memory) to the fill byte and leaves the rest of RAM as it was.
pub proof fn law_fill_sets_range(ram: [u8; 0x1_0000], addr: u16, val: u8, len: u16)
    ensures
        filled_upto(ram, addr, val, len as nat)@ == filled(ram@, addr, val, len),
{
    lemma_fill_prefix(ram, addr, val, len as nat);
    assert(filled_upto(ram, addr, val, len as nat)@ =~= filled(ram@, addr, val, len));
}

/// After `n` steps of a fill, the first `n` bytes from `addr` hold `val`.
proof fn lemma_fill_prefix(ram: [u8; 0x1_0000], addr: u16, val: u8, n: nat)
    requires
        n <= 0xFFFF,
    ensures
        forall|j: int| 0 <= j < 0x1_0000 ==> #[trigger] filled_upto(ram, addr, val, n)@[j]
            == if ((j - addr) % 0x10000) < n { val } else { ram@[j] },
    decreases n,
{
    if n > 0 {
        lemma_fill_prefix(ram, addr, val, (n - 1) as nat);
        let a = addr.wrapping_add((n - 1) as u16) as int;
        assert(a == (addr + n - 1) % 0x10000);
        let prev = filled_upto(ram, addr, val, (n - 1) as nat);
        assert(filled_upto(ram, addr, val, n)@ == prev@.update(a, val));
        let ad = addr as int;
        let nn = n as int;
        assert forall|j: int| 0 <= j < 0x1_0000 implies #[trigger] filled_upto(ram, addr, val, n)@[j]
            == if ((j - addr) % 0x10000) < n { val } else { ram@[j] } by {
            assert(((j - ad) % 0x10000 == nn - 1) == (j == a)) by (nonlinear_arith)
                requires
                    0 <= j < 0x10000,
                    0 <= ad < 0x10000,
                    1 <= nn <= 0xFFFF,
                    a == (ad + nn - 1) % 0x10000;
        }
    }
}

/// There is exactly one integer square root.
proof fn lemma_isqrt_unique(a: u32, r: u32, q: u32)
    requires
        is_isqrt(a, r),
    ensures
        is_isqrt(a, q) ==> q == r,
{
    if is_isqrt(a, q) && q != r {
        if q < r {
            assert((q + 1) * (q + 1) <= r * r) by (nonlinear_arith)
                requires q + 1 <= r;
        } else {
            assert((r + 1) * (r + 1) <= q * q) by (nonlinear_arith)
                requires r + 1 <= q;
        }
    }
}

impl Default for Compute {
    fn default() -> (r: Self)
        ensures
            r == (Compute {
                a: 0, b: 0, result: 0, status: 0, fill_addr: 0, fill_val: 0, fill_len: 0,
                copy_src: 0, copy_dst: 0, copy_len: 0, rng_state: 0, trig: None,
            }),
    {
        Compute {
            a: 0,
            b: 0,
            result: 0,
            status: 0,
            fill_addr: 0,
            fill_val: 0,
            fill_len: 0,
            copy_src: 0,
            copy_dst: 0,
            copy_len: 0,
            rng_state: 0,
            trig: None,
        }
    }
}

} // verus!
