//! MOS 6510 CPU core.
//!
//! All 151 documented 6502 opcodes plus the widely-used undocumented ones
//! (`LAX`, `SAX`, `DCP`, `ISC`, `SLO`, `RLA`, `SRE`, `RRA`, `ANC`, `ALR`,
//! `ARR`, `SBX`, undocumented `NOP`s). BCD mode is implemented for `ADC`/`SBC`.
//!
//! The behaviour of one instruction is stated as a function of the CPU
//! registers and of an abstract bus, whose reads and writes are described by
//! the bus's own spec functions (a read may have side effects on I/O chips).

pub mod addressing;
pub mod bcd;
pub mod decode;
pub mod laws;
pub mod ram_bus;
pub mod registers;

use vstd::prelude::*;
use self::addressing::{
    addr_abs, addr_abs_spec, addr_absx, addr_absx_spec, addr_absy, addr_absy_spec, addr_indx,
    addr_indx_spec, addr_indy, addr_indy_spec, addr_zp, addr_zp_spec, addr_zpx, addr_zpx_spec,
    addr_zpy, addr_zpy_spec,
};
use self::bcd::{
    adc_decimal, adc_decimal_flags, adc_decimal_nz, adc_decimal_spec, sbc_binary_byte, sbc_decimal,
    sbc_decimal_spec,
};
use self::decode::{decode, decode_spec, Instr, Kind, Mode};
use self::registers::Flags;

verus! {

/// Abstract memory bus the CPU talks to. Implementations dispatch I/O
/// reads/writes to the appropriate chip.
pub trait Bus: Sized {
    /// The byte a read of `addr` returns in this state of the bus.
    spec fn read_value(&self, addr: u16) -> u8;

    /// The state of the bus after a read of `addr` (reading an I/O register
    /// may change it).
    spec fn after_read(&self, addr: u16) -> Self;

    /// The state of the bus after writing `val` to `addr`.
    spec fn after_write(&self, addr: u16, val: u8) -> Self;

    /// Read one byte from the bus.
    fn read(&mut self, addr: u16) -> (r: u8)
        ensures
            r == old(self).read_value(addr),
            *final(self) == old(self).after_read(addr),
    ;

    /// Write one byte to the bus.
    fn write(&mut self, addr: u16, val: u8)
        ensures
            *final(self) == old(self).after_write(addr, val),
    ;
}

/// The little-endian word made of two bytes.
pub open spec fn word(lo: u8, hi: u8) -> u16 {
    ((hi as u16) << 8) | (lo as u16)
}

/// Two reads, at `addr` and `addr + 1` (wrapping), combined little-endian:
/// the bus afterwards and the word.
pub open spec fn peek16_spec<B: Bus>(b: B, addr: u16) -> (B, u16) {
    let lo = b.read_value(addr);
    let b1 = b.after_read(addr);
    let hi = b1.read_value(addr.wrapping_add(1));
    (b1.after_read(addr.wrapping_add(1)), word(lo, hi))
}

/// A lightweight peek variant used for disassembly or trap checks.
pub fn peek16<B: Bus>(bus: &mut B, addr: u16) -> (r: u16)
    ensures
        (*final(bus), r) == peek16_spec(*old(bus), addr),
{
    let lo = bus.read(addr) as u16;
    let hi = bus.read(addr.wrapping_add(1)) as u16;
    (hi << 8) | lo
}

/// MOS 6510 state.
pub struct Cpu {
    /// Accumulator.
    pub a: u8,
    /// X index register.
    pub x: u8,
    /// Y index register.
    pub y: u8,
    /// Stack pointer (points into $0100-$01FF).
    pub sp: u8,
    /// Program counter.
    pub pc: u16,
    /// Status flags.
    pub p: u8,
    /// Cycle count since reset: every step adds the cycles it took.
    pub cycles: u64,
    /// IRQ line state (level-triggered while low and I flag clear).
    pub irq_line: bool,
    /// Latched NMI edge (cleared after servicing).
    pub nmi_pending: bool,
    /// Edge detector: an NMI was serviced and its latch not yet seen released.
    pub prev_nmi: bool,
    /// If set, the next step() returns 0 cycles without executing
    /// (used by external trap handlers to single-step).
    pub jam: bool,
}

// ---------------- Semantics ----------------

/// Whether flag `f` is set in status byte `p`.
pub open spec fn flag_of(p: u8, f: u8) -> bool {
    p & f != 0
}

/// Status byte `p` with flag `f` set to `v`.
pub open spec fn with_flag(p: u8, f: u8, v: bool) -> u8 {
    if v { p | f } else { p & !f }
}

/// Status byte `p` with Z and N set from the value `v`.
pub open spec fn with_nz(p: u8, v: u8) -> u8 {
    with_flag(with_flag(p, Flags::Z, v == 0), Flags::N, v & 0x80 != 0)
}

/// Stack address of stack pointer `sp`.
pub open spec fn stack_addr(sp: u8) -> u16 {
    (0x0100 + sp) as u16
}

/// Read the byte at PC and advance PC.
pub open spec fn fetch_spec<B: Bus>(c: Cpu, b: B) -> (Cpu, B, u8) {
    (Cpu { pc: c.pc.wrapping_add(1), ..c }, b.after_read(c.pc), b.read_value(c.pc))
}

/// Read a little-endian word at PC and advance PC by two.
pub open spec fn fetch16_spec<B: Bus>(c: Cpu, b: B) -> (Cpu, B, u16) {
    let (c1, b1, lo) = fetch_spec(c, b);
    let (c2, b2, hi) = fetch_spec(c1, b1);
    (c2, b2, word(lo, hi))
}

/// Push a byte: write it at the stack pointer, then decrement it.
pub open spec fn push_spec<B: Bus>(c: Cpu, b: B, v: u8) -> (Cpu, B) {
    (Cpu { sp: c.sp.wrapping_sub(1), ..c }, b.after_write(stack_addr(c.sp), v))
}

/// Pull a byte: increment the stack pointer, then read there.
pub open spec fn pull_spec<B: Bus>(c: Cpu, b: B) -> (Cpu, B, u8) {
    let sp = c.sp.wrapping_add(1);
    (Cpu { sp: sp, ..c }, b.after_read(stack_addr(sp)), b.read_value(stack_addr(sp)))
}

/// Binary or decimal ADC on the accumulator. In decimal mode the flags
/// follow the NMOS 6502: C from the adjusted sum, V and N from the
/// half-adjusted sum, Z from the binary sum.
pub open spec fn adc_spec(c: Cpu, v: u8) -> Cpu {
    if flag_of(c.p, Flags::D) {
        let (res, cf, vf) = adc_decimal_spec(c.a, v, flag_of(c.p, Flags::C));
        let (n, z) = adc_decimal_nz(c.a, v, flag_of(c.p, Flags::C));
        let p1 = with_flag(with_flag(c.p, Flags::C, cf), Flags::V, vf);
        Cpu { a: res, p: with_flag(with_flag(p1, Flags::Z, z), Flags::N, n), ..c }
    } else {
        let cin: u16 = if flag_of(c.p, Flags::C) { 1 } else { 0 };
        let sum: u16 = (c.a as u16 + v as u16 + cin) as u16;
        let res = sum as u8;
        let p1 = with_flag(c.p, Flags::C, sum > 0xFF);
        let p2 = with_flag(p1, Flags::V, ((!(c.a ^ v)) & (c.a ^ res) & 0x80) != 0);
        Cpu { a: res, p: with_nz(p2, res), ..c }
    }
}

/// SBC: decimal in D mode (C, V, N and Z from the binary difference, as on
/// the NMOS 6502), otherwise ADC of the one's complement.
pub open spec fn sbc_spec(c: Cpu, v: u8) -> Cpu {
    if flag_of(c.p, Flags::D) {
        let (res, cf, vf) = sbc_decimal_spec(c.a, v, flag_of(c.p, Flags::C));
        let p1 = with_flag(with_flag(c.p, Flags::C, cf), Flags::V, vf);
        Cpu { a: res, p: with_nz(p1, sbc_binary_byte(c.a, v, flag_of(c.p, Flags::C))), ..c }
    } else {
        adc_spec(c, !v)
    }
}

/// Compare a register with `v`: C = reg >= v, N/Z from reg - v.
pub open spec fn compare_spec(c: Cpu, reg: u8, v: u8) -> Cpu {
    Cpu { p: with_nz(with_flag(c.p, Flags::C, reg >= v), reg.wrapping_sub(v)), ..c }
}

/// BIT: Z from A & v, N and V copied from bits 7 and 6 of v.
pub open spec fn bit_spec(c: Cpu, v: u8) -> Cpu {
    let p1 = with_flag(c.p, Flags::Z, (c.a & v) == 0);
    let p2 = with_flag(p1, Flags::N, v & 0x80 != 0);
    Cpu { p: with_flag(p2, Flags::V, v & 0x40 != 0), ..c }
}

/// Arithmetic shift left: (result, carry out).
pub open spec fn asl_spec(v: u8) -> (u8, bool) {
    (v << 1, v & 0x80 != 0)
}

/// Logical shift right: (result, carry out).
pub open spec fn lsr_spec(v: u8) -> (u8, bool) {
    (v >> 1, v & 0x01 != 0)
}

/// Rotate left through carry: (result, carry out).
pub open spec fn rol_spec(v: u8, cin: bool) -> (u8, bool) {
    ((v << 1) | (if cin { 1u8 } else { 0u8 }), v & 0x80 != 0)
}

/// Rotate right through carry: (result, carry out).
pub open spec fn ror_spec(v: u8, cin: bool) -> (u8, bool) {
    ((v >> 1) | (if cin { 0x80u8 } else { 0u8 }), v & 0x01 != 0)
}

/// Effective address of a memory addressing mode, with whether indexing
/// crossed a page. Other modes leave the machine unchanged.
pub open spec fn address_spec<B: Bus>(c: Cpu, b: B, mode: Mode) -> (Cpu, B, u16, bool) {
    match mode {
        Mode::Zp => { let (c1, b1, a) = addr_zp_spec(c, b); (c1, b1, a, false) },
        Mode::Zpx => { let (c1, b1, a) = addr_zpx_spec(c, b); (c1, b1, a, false) },
        Mode::Zpy => { let (c1, b1, a) = addr_zpy_spec(c, b); (c1, b1, a, false) },
        Mode::Abs => { let (c1, b1, a) = addr_abs_spec(c, b); (c1, b1, a, false) },
        Mode::Absx => { let (c1, b1, a, x) = addr_absx_spec(c, b); (c1, b1, a, x == 1) },
        Mode::Absy => { let (c1, b1, a, x) = addr_absy_spec(c, b); (c1, b1, a, x == 1) },
        Mode::Indx => { let (c1, b1, a) = addr_indx_spec(c, b); (c1, b1, a, false) },
        Mode::Indy => { let (c1, b1, a, x) = addr_indy_spec(c, b); (c1, b1, a, x == 1) },
        _ => (c, b, 0, false),
    }
}

/// The operand of a reading instruction: the immediate byte, or the byte
/// read at the effective address; with the page-cross indicator.
pub open spec fn read_operand_spec<B: Bus>(c: Cpu, b: B, mode: Mode) -> (Cpu, B, u8, bool) {
    if mode == Mode::Imm {
        let (c1, b1, v) = fetch_spec(c, b);
        (c1, b1, v, false)
    } else {
        let (c1, b1, a, cross) = address_spec(c, b, mode);
        (c1, b1.after_read(a), b1.read_value(a), cross)
    }
}

/// Effect on the registers of a reading instruction with operand `v`.
pub open spec fn apply_read_spec(c: Cpu, k: Kind, v: u8) -> Cpu {
    match k {
        Kind::Lda => Cpu { a: v, p: with_nz(c.p, v), ..c },
        Kind::Ldx => Cpu { x: v, p: with_nz(c.p, v), ..c },
        Kind::Ldy => Cpu { y: v, p: with_nz(c.p, v), ..c },
        Kind::Lax => Cpu { a: v, x: v, p: with_nz(c.p, v), ..c },
        Kind::Adc => adc_spec(c, v),
        Kind::Sbc => sbc_spec(c, v),
        Kind::And => Cpu { a: c.a & v, p: with_nz(c.p, c.a & v), ..c },
        Kind::Ora => Cpu { a: c.a | v, p: with_nz(c.p, c.a | v), ..c },
        Kind::Eor => Cpu { a: c.a ^ v, p: with_nz(c.p, c.a ^ v), ..c },
        Kind::Cmp => compare_spec(c, c.a, v),
        Kind::Cpx => compare_spec(c, c.x, v),
        Kind::Cpy => compare_spec(c, c.y, v),
        Kind::Bit => bit_spec(c, v),
        Kind::Anc => {
            let a = c.a & v;
            Cpu { a: a, p: with_flag(with_nz(c.p, a), Flags::C, a & 0x80 != 0), ..c }
        },
        Kind::Alr => {
            let (r, cf) = lsr_spec(c.a & v);
            Cpu { a: r, p: with_nz(with_flag(c.p, Flags::C, cf), r), ..c }
        },
        Kind::Arr => {
            let (r, _) = ror_spec(c.a & v, flag_of(c.p, Flags::C));
            let p1 = with_flag(c.p, Flags::C, r & 0x40 != 0);
            let p2 = with_flag(p1, Flags::V, ((r & 0x40) ^ ((r & 0x20) << 1)) != 0);
            Cpu { a: r, p: with_nz(p2, r), ..c }
        },
        Kind::Sbx => {
            let t = (c.a & c.x) as u16;
            let r = t.wrapping_sub(v as u16);
            Cpu { x: r as u8, p: with_nz(with_flag(c.p, Flags::C, r < 0x100), r as u8), ..c }
        },
        _ => c,
    }
}

/// The register value a storing instruction writes.
pub open spec fn store_value_spec(c: Cpu, k: Kind) -> u8 {
    match k {
        Kind::Stx => c.x,
        Kind::Sty => c.y,
        Kind::Sax => c.a & c.x,
        _ => c.a,
    }
}

/// Read-modify-write: the value written back for the read value `v`, and the
/// registers afterwards.
pub open spec fn rmw_spec(c: Cpu, k: Kind, v: u8) -> (Cpu, u8) {
    let cin = flag_of(c.p, Flags::C);
    match k {
        Kind::Inc => { let r = v.wrapping_add(1); (Cpu { p: with_nz(c.p, r), ..c }, r) },
        Kind::Dec => { let r = v.wrapping_sub(1); (Cpu { p: with_nz(c.p, r), ..c }, r) },
        Kind::Asl => { let (r, cf) = asl_spec(v); (Cpu { p: with_nz(with_flag(c.p, Flags::C, cf), r), ..c }, r) },
        Kind::Lsr => { let (r, cf) = lsr_spec(v); (Cpu { p: with_nz(with_flag(c.p, Flags::C, cf), r), ..c }, r) },
        Kind::Rol => { let (r, cf) = rol_spec(v, cin); (Cpu { p: with_nz(with_flag(c.p, Flags::C, cf), r), ..c }, r) },
        Kind::Ror => { let (r, cf) = ror_spec(v, cin); (Cpu { p: with_nz(with_flag(c.p, Flags::C, cf), r), ..c }, r) },
        Kind::Dcp => { let r = v.wrapping_sub(1); (compare_spec(c, c.a, r), r) },
        Kind::Isc => { let r = v.wrapping_add(1); (sbc_spec(c, r), r) },
        Kind::Slo => {
            let (r, cf) = asl_spec(v);
            let a = c.a | r;
            (Cpu { a: a, p: with_nz(with_flag(c.p, Flags::C, cf), a), ..c }, r)
        },
        Kind::Rla => {
            let (r, cf) = rol_spec(v, cin);
            let a = c.a & r;
            (Cpu { a: a, p: with_nz(with_flag(c.p, Flags::C, cf), a), ..c }, r)
        },
        Kind::Sre => {
            let (r, cf) = lsr_spec(v);
            let a = c.a ^ r;
            (Cpu { a: a, p: with_nz(with_flag(c.p, Flags::C, cf), a), ..c }, r)
        },
        Kind::Rra => {
            let (r, cf) = ror_spec(v, cin);
            (adc_spec(Cpu { p: with_flag(c.p, Flags::C, cf), ..c }, r), r)
        },
        _ => (c, v),
    }
}

/// Effect of an instruction that touches only the registers.
pub open spec fn implied_spec(c: Cpu, k: Kind) -> Cpu {
    let cin = flag_of(c.p, Flags::C);
    match k {
        Kind::Tax => Cpu { x: c.a, p: with_nz(c.p, c.a), ..c },
        Kind::Txa => Cpu { a: c.x, p: with_nz(c.p, c.x), ..c },
        Kind::Tay => Cpu { y: c.a, p: with_nz(c.p, c.a), ..c },
        Kind::Tya => Cpu { a: c.y, p: with_nz(c.p, c.y), ..c },
        Kind::Tsx => Cpu { x: c.sp, p: with_nz(c.p, c.sp), ..c },
        Kind::Txs => Cpu { sp: c.x, ..c },
        Kind::Inx => Cpu { x: c.x.wrapping_add(1), p: with_nz(c.p, c.x.wrapping_add(1)), ..c },
        Kind::Dex => Cpu { x: c.x.wrapping_sub(1), p: with_nz(c.p, c.x.wrapping_sub(1)), ..c },
        Kind::Iny => Cpu { y: c.y.wrapping_add(1), p: with_nz(c.p, c.y.wrapping_add(1)), ..c },
        Kind::Dey => Cpu { y: c.y.wrapping_sub(1), p: with_nz(c.p, c.y.wrapping_sub(1)), ..c },
        Kind::Clc => Cpu { p: with_flag(c.p, Flags::C, false), ..c },
        Kind::Sec => Cpu { p: with_flag(c.p, Flags::C, true), ..c },
        Kind::Cli => Cpu { p: with_flag(c.p, Flags::I, false), ..c },
        Kind::Sei => Cpu { p: with_flag(c.p, Flags::I, true), ..c },
        Kind::Clv => Cpu { p: with_flag(c.p, Flags::V, false), ..c },
        Kind::Cld => Cpu { p: with_flag(c.p, Flags::D, false), ..c },
        Kind::Sed => Cpu { p: with_flag(c.p, Flags::D, true), ..c },
        Kind::AslA => { let (r, cf) = asl_spec(c.a); Cpu { a: r, p: with_nz(with_flag(c.p, Flags::C, cf), r), ..c } },
        Kind::LsrA => { let (r, cf) = lsr_spec(c.a); Cpu { a: r, p: with_nz(with_flag(c.p, Flags::C, cf), r), ..c } },
        Kind::RolA => { let (r, cf) = rol_spec(c.a, cin); Cpu { a: r, p: with_nz(with_flag(c.p, Flags::C, cf), r), ..c } },
        Kind::RorA => { let (r, cf) = ror_spec(c.a, cin); Cpu { a: r, p: with_nz(with_flag(c.p, Flags::C, cf), r), ..c } },
        Kind::Jam => Cpu { jam: true, ..c },
        _ => c,
    }
}

/// Whether a conditional branch of kind `k` is taken under status `p`.
pub open spec fn branch_taken(p: u8, k: Kind) -> bool {
    match k {
        Kind::Bpl => !flag_of(p, Flags::N),
        Kind::Bmi => flag_of(p, Flags::N),
        Kind::Bvc => !flag_of(p, Flags::V),
        Kind::Bvs => flag_of(p, Flags::V),
        Kind::Bcc => !flag_of(p, Flags::C),
        Kind::Bcs => flag_of(p, Flags::C),
        Kind::Bne => !flag_of(p, Flags::Z),
        _ => flag_of(p, Flags::Z),
    }
}

/// `pc` moved by the signed 8-bit displacement `off`.
pub open spec fn branch_target(pc: u16, off: u8) -> u16 {
    if off < 0x80 { pc.wrapping_add(off as u16) } else { pc.wrapping_sub((0x100 - off) as u16) }
}

/// A relative branch: fetch the displacement; if taken, jump. 2 cycles, 3
/// when taken, 4 when the taken branch lands on another page.
pub open spec fn branch_spec<B: Bus>(c: Cpu, b: B, cond: bool) -> (Cpu, B, u8) {
    let (c1, b1, off) = fetch_spec(c, b);
    if !cond {
        (c1, b1, 2)
    } else {
        let new = branch_target(c1.pc, off);
        (Cpu { pc: new, ..c1 }, b1, if (c1.pc & 0xFF00) != (new & 0xFF00) { 4 } else { 3 })
    }
}

/// Push PC and status (B set for BRK, clear for hardware interrupts), set I,
/// and load PC from `vector`.
pub open spec fn interrupt_spec<B: Bus>(c: Cpu, b: B, vector: u16, brk: bool) -> (Cpu, B) {
    let (c1, b1) = push_spec(c, b, (c.pc >> 8) as u8);
    let (c2, b2) = push_spec(c1, b1, c.pc as u8);
    let p = if brk { c.p | Flags::U | Flags::B } else { (c.p | Flags::U) & !Flags::B };
    let (c3, b3) = push_spec(c2, b2, p);
    let (b4, target) = peek16_spec(b3, vector);
    (Cpu { p: with_flag(c3.p, Flags::I, true), pc: target, ..c3 }, b4)
}

/// Stack and control-flow instructions.
pub open spec fn control_spec<B: Bus>(c: Cpu, b: B, k: Kind) -> (Cpu, B) {
    match k {
        Kind::Pha => push_spec(c, b, c.a),
        Kind::Pla => { let (c1, b1, v) = pull_spec(c, b); (Cpu { a: v, p: with_nz(c1.p, v), ..c1 }, b1) },
        Kind::Php => push_spec(c, b, c.p | Flags::B | Flags::U),
        Kind::Plp => { let (c1, b1, v) = pull_spec(c, b); (Cpu { p: (v & !Flags::B) | Flags::U, ..c1 }, b1) },
        Kind::Jmp => { let (c1, b1, t) = fetch16_spec(c, b); (Cpu { pc: t, ..c1 }, b1) },
        Kind::JmpInd => {
            let (c1, b1, ptr) = fetch16_spec(c, b);
            let lo = b1.read_value(ptr);
            let b2 = b1.after_read(ptr);
            let hi_addr = (ptr & 0xFF00) | (ptr.wrapping_add(1) & 0x00FF);
            let hi = b2.read_value(hi_addr);
            (Cpu { pc: word(lo, hi), ..c1 }, b2.after_read(hi_addr))
        },
        Kind::Jsr => {
            let (c1, b1, target) = fetch16_spec(c, b);
            let ret = c1.pc.wrapping_sub(1);
            let (c2, b2) = push_spec(c1, b1, (ret >> 8) as u8);
            let (c3, b3) = push_spec(c2, b2, ret as u8);
            (Cpu { pc: target, ..c3 }, b3)
        },
        Kind::Rts => {
            let (c1, b1, lo) = pull_spec(c, b);
            let (c2, b2, hi) = pull_spec(c1, b1);
            (Cpu { pc: word(lo, hi).wrapping_add(1), ..c2 }, b2)
        },
        Kind::Rti => {
            let (c1, b1, p) = pull_spec(c, b);
            let (c2, b2, lo) = pull_spec(Cpu { p: (p & !Flags::B) | Flags::U, ..c1 }, b1);
            let (c3, b3, hi) = pull_spec(c2, b2);
            (Cpu { pc: word(lo, hi), ..c3 }, b3)
        },
        Kind::Brk => interrupt_spec(Cpu { pc: c.pc.wrapping_add(1), ..c }, b, 0xFFFE, true),
        _ => (c, b),
    }
}

/// A no-op with the operand handling of its mode: skipped bytes are not
/// read, an indexed absolute operand is fetched but not accessed.
pub open spec fn skip_operand_spec<B: Bus>(c: Cpu, b: B, mode: Mode) -> (Cpu, B, bool) {
    match mode {
        Mode::Skip1 => (Cpu { pc: c.pc.wrapping_add(1), ..c }, b, false),
        Mode::Skip2 => (Cpu { pc: c.pc.wrapping_add(2), ..c }, b, false),
        Mode::Imp => (c, b, false),
        _ => { let (c1, b1, _a, cross) = address_spec(c, b, mode); (c1, b1, cross) },
    }
}

/// Base cycles plus one when the mode's page-cross penalty applies.
pub open spec fn with_penalty(ins: Instr, cross: bool) -> u8 {
    (ins.cycles + (if ins.penalty && cross { 1u8 } else { 0u8 })) as u8
}

/// Execute a decoded instruction whose opcode byte has been fetched; returns
/// the machine afterwards and the cycles consumed.
pub open spec fn instr_spec<B: Bus>(c: Cpu, b: B, ins: Instr) -> (Cpu, B, u8) {
    match ins.kind {
        Kind::Lda | Kind::Ldx | Kind::Ldy | Kind::Lax | Kind::Adc | Kind::Sbc | Kind::And | Kind::Ora
        | Kind::Eor | Kind::Cmp | Kind::Cpx | Kind::Cpy | Kind::Bit | Kind::Anc | Kind::Alr | Kind::Arr
        | Kind::Sbx => {
            let (c1, b1, v, cross) = read_operand_spec(c, b, ins.mode);
            (apply_read_spec(c1, ins.kind, v), b1, with_penalty(ins, cross))
        },
        Kind::Sta | Kind::Stx | Kind::Sty | Kind::Sax => {
            let (c1, b1, a, _) = address_spec(c, b, ins.mode);
            (c1, b1.after_write(a, store_value_spec(c1, ins.kind)), ins.cycles)
        },
        Kind::Inc | Kind::Dec | Kind::Asl | Kind::Lsr | Kind::Rol | Kind::Ror | Kind::Dcp | Kind::Isc
        | Kind::Slo | Kind::Rla | Kind::Sre | Kind::Rra => {
            let (c1, b1, a, _) = address_spec(c, b, ins.mode);
            let v = b1.read_value(a);
            let (c2, r) = rmw_spec(c1, ins.kind, v);
            (c2, b1.after_read(a).after_write(a, r), ins.cycles)
        },
        Kind::Nop => {
            let (c1, b1, cross) = skip_operand_spec(c, b, ins.mode);
            (c1, b1, with_penalty(ins, cross))
        },
        Kind::Bpl | Kind::Bmi | Kind::Bvc | Kind::Bvs | Kind::Bcc | Kind::Bcs | Kind::Bne | Kind::Beq => {
            branch_spec(c, b, branch_taken(c.p, ins.kind))
        },
        Kind::Pha | Kind::Pla | Kind::Php | Kind::Plp | Kind::Jmp | Kind::JmpInd | Kind::Jsr | Kind::Rts
        | Kind::Rti | Kind::Brk => {
            let (c1, b1) = control_spec(c, b, ins.kind);
            (c1, b1, ins.cycles)
        },
        _ => (implied_spec(c, ins.kind), b, ins.cycles),
    }
}

/// Execute the instruction with opcode `opcode` (already fetched).
pub open spec fn execute_spec<B: Bus>(c: Cpu, b: B, opcode: u8) -> (Cpu, B, u8) {
    instr_spec(c, b, decode_spec(opcode))
}

/// One step: a jammed CPU does nothing; a latched NMI edge is serviced
/// through $FFFA; an asserted IRQ with I clear is serviced through $FFFE;
/// otherwise one instruction is fetched and executed.
pub open spec fn step_core_spec<B: Bus>(c: Cpu, b: B) -> (Cpu, B, u8) {
    if c.jam {
        (c, b, 0)
    } else if c.nmi_pending && !c.prev_nmi {
        let (c1, b1) = interrupt_spec(Cpu { prev_nmi: true, ..c }, b, 0xFFFA, false);
        (Cpu { nmi_pending: false, ..c1 }, b1, 7)
    } else {
        let c0 = if !c.nmi_pending { Cpu { prev_nmi: false, ..c } } else { c };
        if c0.irq_line && !flag_of(c0.p, Flags::I) {
            let (c1, b1) = interrupt_spec(c0, b, 0xFFFE, false);
            (c1, b1, 7)
        } else {
            let (c1, b1, opcode) = fetch_spec(c0, b);
            execute_spec(c1, b1, opcode)
        }
    }
}

/// One step as the caller sees it: the instruction or interrupt service,
/// with its cycles added to the running cycle count (which wraps only after
/// 2^64 cycles).
pub open spec fn step_spec<B: Bus>(c: Cpu, b: B) -> (Cpu, B, u8) {
    let (c1, b1, n) = step_core_spec(c, b);
    (Cpu { cycles: c1.cycles.wrapping_add(n as u64), ..c1 }, b1, n)
}

/// The state after reset: PC from $FFFC/$FFFD, SP = $FD, status U|I, all
/// lines and latches clear; registers A/X/Y keep their values.
pub open spec fn reset_spec<B: Bus>(c: Cpu, b: B) -> (Cpu, B) {
    let (b1, pc) = peek16_spec(b, 0xFFFC);
    (Cpu {
        pc: pc,
        sp: 0xFD,
        p: Flags::U | Flags::I,
        cycles: 0,
        irq_line: false,
        nmi_pending: false,
        prev_nmi: false,
        jam: false,
        ..c
    }, b1)
}

impl Cpu {
    /// Create a CPU with zero registers and the unused/interrupt flags set.
    pub fn new() -> (r: Self)
        ensures
            r == (Cpu {
                a: 0, x: 0, y: 0, sp: 0xFD, pc: 0, p: Flags::U | Flags::I, cycles: 0,
                irq_line: false, nmi_pending: false, prev_nmi: false, jam: false,
            }),
    {
        Cpu {
            a: 0,
            x: 0,
            y: 0,
            sp: 0xFD,
            pc: 0,
            p: Flags::U | Flags::I,
            cycles: 0,
            irq_line: false,
            nmi_pending: false,
            prev_nmi: false,
            jam: false,
        }
    }

    /// Reset the CPU: load PC from $FFFC/$FFFD, reset SP to $FD, set I flag.
    pub fn reset<B: Bus>(&mut self, bus: &mut B)
        ensures
            (*final(self), *final(bus)) == reset_spec(*old(self), *old(bus)),
    {
        self.pc = peek16(bus, 0xFFFC);
        self.sp = 0xFD;
        self.p = Flags::U | Flags::I;
        self.cycles = 0;
        self.irq_line = false;
        self.nmi_pending = false;
        self.prev_nmi = false;
        self.jam = false;
    }

    /// Request an IRQ (level). Caller sets `line` true while a chip is
    /// asserting IRQ.
    pub fn set_irq(&mut self, line: bool)
        ensures
            *final(self) == (Cpu { irq_line: line, ..*old(self) }),
    {
        self.irq_line = line;
    }

    /// Latch an NMI edge. Cleared once serviced.
    pub fn trigger_nmi(&mut self)
        ensures
            *final(self) == (Cpu { nmi_pending: true, ..*old(self) }),
    {
        self.nmi_pending = true;
    }

    /// Execute one instruction (including any pending interrupt service).
    /// Returns the number of CPU cycles consumed.
    #[verifier::spinoff_prover]
    #[verifier::rlimit(40)]
    pub fn step<B: Bus>(&mut self, bus: &mut B) -> (cycles: u8)
        ensures
            (*final(self), *final(bus), cycles) == step_spec(*old(self), *old(bus)),
            old(self).cycles + cycles <= u64::MAX ==> final(self).cycles == old(self).cycles + cycles,
    {
        let ghost core = step_core_spec(*old(self), *old(bus));
        let n = self.step_core(bus);
        assert((*self, *bus, n) == core);
        self.cycles = self.cycles.wrapping_add(n as u64);
        n
    }

    /// The instruction or interrupt service of one step.
    fn step_core<B: Bus>(&mut self, bus: &mut B) -> (cycles: u8)
        ensures
            (*final(self), *final(bus), cycles) == step_core_spec(*old(self), *old(bus)),
    {
        if self.jam {
            return 0;
        }
        // NMI is edge-triggered: fire on a rising edge of the latch.
        if self.nmi_pending && !self.prev_nmi {
            self.prev_nmi = true;
            self.service_interrupt(bus, 0xFFFA, false);
            self.nmi_pending = false;
            return 7;
        }
        if !self.nmi_pending {
            self.prev_nmi = false;
        }
        // IRQ fires when line is asserted and I flag is clear.
        if self.irq_line && !self.flag(Flags::I) {
            self.service_interrupt(bus, 0xFFFE, false);
            return 7;
        }
        let opcode = self.fetch(bus);
        self.execute(bus, opcode)
    }

    fn service_interrupt<B: Bus>(&mut self, bus: &mut B, vector: u16, brk: bool)
        ensures
            (*final(self), *final(bus)) == interrupt_spec(*old(self), *old(bus), vector, brk),
    {
        let pc = self.pc;
        self.push(bus, (pc >> 8) as u8);
        self.push(bus, pc as u8);
        let mut p = self.p | Flags::U;
        if brk {
            p |= Flags::B;
        } else {
            p &= !Flags::B;
        }
        self.push(bus, p);
        self.set_flag(Flags::I, true);
        self.pc = peek16(bus, vector);
    }

    /// Whether flag `f` (one of the [`Flags`] masks) is set.
    pub fn flag(&self, f: u8) -> (r: bool)
        ensures
            r == flag_of(self.p, f),
    {
        (self.p & f) != 0
    }

    /// Set or clear flag `f` (one of the [`Flags`] masks).
    pub fn set_flag(&mut self, f: u8, v: bool)
        ensures
            *final(self) == (Cpu { p: with_flag(old(self).p, f, v), ..*old(self) }),
    {
        if v {
            self.p |= f;
        } else {
            self.p &= !f;
        }
    }

    fn set_nz(&mut self, v: u8)
        ensures
            *final(self) == (Cpu { p: with_nz(old(self).p, v), ..*old(self) }),
    {
        self.set_flag(Flags::Z, v == 0);
        self.set_flag(Flags::N, v & 0x80 != 0);
    }

    fn fetch<B: Bus>(&mut self, bus: &mut B) -> (r: u8)
        ensures
            (*final(self), *final(bus), r) == fetch_spec(*old(self), *old(bus)),
    {
        let b = bus.read(self.pc);
        self.pc = self.pc.wrapping_add(1);
        b
    }

    fn fetch16<B: Bus>(&mut self, bus: &mut B) -> (r: u16)
        ensures
            (*final(self), *final(bus), r) == fetch16_spec(*old(self), *old(bus)),
    {
        let lo = self.fetch(bus) as u16;
        let hi = self.fetch(bus) as u16;
        (hi << 8) | lo
    }

    fn push<B: Bus>(&mut self, bus: &mut B, v: u8)
        ensures
            (*final(self), *final(bus)) == push_spec(*old(self), *old(bus), v),
    {
        bus.write(0x0100 + self.sp as u16, v);
        self.sp = self.sp.wrapping_sub(1);
    }

    fn pull<B: Bus>(&mut self, bus: &mut B) -> (r: u8)
        ensures
            (*final(self), *final(bus), r) == pull_spec(*old(self), *old(bus)),
    {
        self.sp = self.sp.wrapping_add(1);
        bus.read(0x0100 + self.sp as u16)
    }

    fn execute<B: Bus>(&mut self, bus: &mut B, opcode: u8) -> (cycles: u8)
        ensures
            (*final(self), *final(bus), cycles) == execute_spec(*old(self), *old(bus), opcode),
    {
        let ins = decode(opcode);
        self.execute_instr(bus, ins)
    }

    fn execute_instr<B: Bus>(&mut self, bus: &mut B, ins: Instr) -> (cycles: u8)
        requires
            ins.cycles <= 8,
        ensures
            (*final(self), *final(bus), cycles) == instr_spec(*old(self), *old(bus), ins),
    {
        match ins.kind {
            Kind::Lda | Kind::Ldx | Kind::Ldy | Kind::Lax | Kind::Adc | Kind::Sbc | Kind::And
            | Kind::Ora | Kind::Eor | Kind::Cmp | Kind::Cpx | Kind::Cpy | Kind::Bit | Kind::Anc
            | Kind::Alr | Kind::Arr | Kind::Sbx => {
                let (v, cross) = self.read_operand(bus, ins.mode);
                self.apply_read(ins.kind, v);
                ins.cycles + if ins.penalty && cross { 1 } else { 0 }
            },
            Kind::Sta | Kind::Stx | Kind::Sty | Kind::Sax => {
                let (a, _) = self.operand_address(bus, ins.mode);
                let v = match ins.kind {
                    Kind::Stx => self.x,
                    Kind::Sty => self.y,
                    Kind::Sax => self.a & self.x,
                    _ => self.a,
                };
                bus.write(a, v);
                ins.cycles
            },
            Kind::Inc | Kind::Dec | Kind::Asl | Kind::Lsr | Kind::Rol | Kind::Ror | Kind::Dcp
            | Kind::Isc | Kind::Slo | Kind::Rla | Kind::Sre | Kind::Rra => {
                let (a, _) = self.operand_address(bus, ins.mode);
                self.read_modify_write(bus, ins.kind, a);
                ins.cycles
            },
            Kind::Nop => {
                let cross = self.skip_operand(bus, ins.mode);
                ins.cycles + if ins.penalty && cross { 1 } else { 0 }
            },
            Kind::Bpl | Kind::Bmi | Kind::Bvc | Kind::Bvs | Kind::Bcc | Kind::Bcs | Kind::Bne
            | Kind::Beq => {
                let cond = match ins.kind {
                    Kind::Bpl => !self.flag(Flags::N),
                    Kind::Bmi => self.flag(Flags::N),
                    Kind::Bvc => !self.flag(Flags::V),
                    Kind::Bvs => self.flag(Flags::V),
                    Kind::Bcc => !self.flag(Flags::C),
                    Kind::Bcs => self.flag(Flags::C),
                    Kind::Bne => !self.flag(Flags::Z),
                    _ => self.flag(Flags::Z),
                };
                self.branch(bus, cond)
            },
            Kind::Pha | Kind::Pla | Kind::Php | Kind::Plp | Kind::Jmp | Kind::JmpInd | Kind::Jsr
            | Kind::Rts | Kind::Rti | Kind::Brk => {
                self.control(bus, ins.kind);
                ins.cycles
            },
            _ => {
                self.implied(ins.kind);
                ins.cycles
            },
        }
    }

    fn operand_address<B: Bus>(&mut self, bus: &mut B, mode: Mode) -> (r: (u16, bool))
        ensures
            (*final(self), *final(bus), r.0, r.1) == address_spec(*old(self), *old(bus), mode),
    {
        match mode {
            Mode::Zp => (addr_zp(self, bus), false),
            Mode::Zpx => (addr_zpx(self, bus), false),
            Mode::Zpy => (addr_zpy(self, bus), false),
            Mode::Abs => (addr_abs(self, bus), false),
            Mode::Absx => { let (a, c) = addr_absx(self, bus); (a, c == 1) },
            Mode::Absy => { let (a, c) = addr_absy(self, bus); (a, c == 1) },
            Mode::Indx => (addr_indx(self, bus), false),
            Mode::Indy => { let (a, c) = addr_indy(self, bus); (a, c == 1) },
            _ => (0, false),
        }
    }

    fn read_operand<B: Bus>(&mut self, bus: &mut B, mode: Mode) -> (r: (u8, bool))
        ensures
            (*final(self), *final(bus), r.0, r.1) == read_operand_spec(*old(self), *old(bus), mode),
    {
        match mode {
            Mode::Imm => (self.fetch(bus), false),
            _ => {
                let (a, cross) = self.operand_address(bus, mode);
                (bus.read(a), cross)
            },
        }
    }

    fn apply_read(&mut self, k: Kind, v: u8)
        ensures
            *final(self) == apply_read_spec(*old(self), k, v),
    {
        match k {
            Kind::Lda => { self.a = v; self.set_nz(v); },
            Kind::Ldx => { self.x = v; self.set_nz(v); },
            Kind::Ldy => { self.y = v; self.set_nz(v); },
            Kind::Lax => { self.a = v; self.x = v; self.set_nz(v); },
            Kind::Adc => self.adc(v),
            Kind::Sbc => self.sbc(v),
            Kind::And => { self.a &= v; self.set_nz(self.a); },
            Kind::Ora => { self.a |= v; self.set_nz(self.a); },
            Kind::Eor => { self.a ^= v; self.set_nz(self.a); },
            Kind::Cmp => self.compare(self.a, v),
            Kind::Cpx => self.compare(self.x, v),
            Kind::Cpy => self.compare(self.y, v),
            Kind::Bit => self.bit(v),
            Kind::Anc => {
                self.a &= v;
                self.set_nz(self.a);
                self.set_flag(Flags::C, self.a & 0x80 != 0);
            },
            Kind::Alr => {
                // ALR = AND + LSR A
                self.a &= v;
                let (r, c) = lsr(self.a);
                self.a = r;
                self.set_flag(Flags::C, c);
                self.set_nz(r);
            },
            Kind::Arr => {
                // ARR = AND + ROR A (flags are special; approximate)
                self.a &= v;
                let cin = self.flag(Flags::C);
                let (r, _) = ror(self.a, cin);
                self.a = r;
                self.set_flag(Flags::C, r & 0x40 != 0);
                self.set_flag(Flags::V, ((r & 0x40) ^ ((r & 0x20) << 1)) != 0);
                self.set_nz(r);
            },
            Kind::Sbx => {
                // SBX (AXS)
                let t = (self.a & self.x) as u16;
                let r = t.wrapping_sub(v as u16);
                self.set_flag(Flags::C, r < 0x100);
                self.x = r as u8;
                self.set_nz(self.x);
            },
            _ => {},
        }
    }

    fn read_modify_write<B: Bus>(&mut self, bus: &mut B, k: Kind, a: u16)
        ensures
            ({
                let v = old(bus).read_value(a);
                let (c2, r) = rmw_spec(*old(self), k, v);
                *final(self) == c2 && *final(bus) == old(bus).after_read(a).after_write(a, r)
            }),
    {
        match k {
            Kind::Inc => {
                let v = bus.read(a).wrapping_add(1);
                bus.write(a, v);
                self.set_nz(v);
            },
            Kind::Dec => {
                let v = bus.read(a).wrapping_sub(1);
                bus.write(a, v);
                self.set_nz(v);
            },
            Kind::Asl => {
                let v = bus.read(a);
                let (r, c) = asl(v);
                bus.write(a, r);
                self.set_flag(Flags::C, c);
                self.set_nz(r);
            },
            Kind::Lsr => {
                let v = bus.read(a);
                let (r, c) = lsr(v);
                bus.write(a, r);
                self.set_flag(Flags::C, c);
                self.set_nz(r);
            },
            Kind::Rol => {
                let v = bus.read(a);
                let cin = self.flag(Flags::C);
                let (r, c) = rol(v, cin);
                bus.write(a, r);
                self.set_flag(Flags::C, c);
                self.set_nz(r);
            },
            Kind::Ror => {
                let v = bus.read(a);
                let cin = self.flag(Flags::C);
                let (r, c) = ror(v, cin);
                bus.write(a, r);
                self.set_flag(Flags::C, c);
                self.set_nz(r);
            },
            Kind::Dcp => self.dcp(bus, a),
            Kind::Isc => self.isc(bus, a),
            Kind::Slo => self.slo(bus, a),
            Kind::Rla => self.rla(bus, a),
            Kind::Sre => self.sre(bus, a),
            Kind::Rra => self.rra(bus, a),
            _ => {
                let v = bus.read(a);
                bus.write(a, v);
            },
        }
    }

    fn skip_operand<B: Bus>(&mut self, bus: &mut B, mode: Mode) -> (cross: bool)
        ensures
            (*final(self), *final(bus), cross) == skip_operand_spec(*old(self), *old(bus), mode),
    {
        match mode {
            Mode::Skip1 => { self.pc = self.pc.wrapping_add(1); false },
            Mode::Skip2 => { self.pc = self.pc.wrapping_add(2); false },
            Mode::Imp => false,
            _ => { let (_a, c) = self.operand_address(bus, mode); c },
        }
    }

    fn implied(&mut self, k: Kind)
        ensures
            *final(self) == implied_spec(*old(self), k),
    {
        match k {
            Kind::Tax => { self.x = self.a; self.set_nz(self.x); },
            Kind::Txa => { self.a = self.x; self.set_nz(self.a); },
            Kind::Tay => { self.y = self.a; self.set_nz(self.y); },
            Kind::Tya => { self.a = self.y; self.set_nz(self.a); },
            Kind::Tsx => { self.x = self.sp; self.set_nz(self.x); },
            Kind::Txs => { self.sp = self.x; },
            Kind::Inx => { self.x = self.x.wrapping_add(1); self.set_nz(self.x); },
            Kind::Dex => { self.x = self.x.wrapping_sub(1); self.set_nz(self.x); },
            Kind::Iny => { self.y = self.y.wrapping_add(1); self.set_nz(self.y); },
            Kind::Dey => { self.y = self.y.wrapping_sub(1); self.set_nz(self.y); },
            Kind::Clc => self.set_flag(Flags::C, false),
            Kind::Sec => self.set_flag(Flags::C, true),
            Kind::Cli => self.set_flag(Flags::I, false),
            Kind::Sei => self.set_flag(Flags::I, true),
            Kind::Clv => self.set_flag(Flags::V, false),
            Kind::Cld => self.set_flag(Flags::D, false),
            Kind::Sed => self.set_flag(Flags::D, true),
            Kind::AslA => {
                let (v, c) = asl(self.a);
                self.a = v;
                self.set_flag(Flags::C, c);
                self.set_nz(v);
            },
            Kind::LsrA => {
                let (v, c) = lsr(self.a);
                self.a = v;
                self.set_flag(Flags::C, c);
                self.set_nz(v);
            },
            Kind::RolA => {
                let cin = self.flag(Flags::C);
                let (v, c) = rol(self.a, cin);
                self.a = v;
                self.set_flag(Flags::C, c);
                self.set_nz(v);
            },
            Kind::RorA => {
                let cin = self.flag(Flags::C);
                let (v, c) = ror(self.a, cin);
                self.a = v;
                self.set_flag(Flags::C, c);
                self.set_nz(v);
            },
            // JAM / KIL opcodes
            Kind::Jam => { self.jam = true; },
            _ => {},
        }
    }

    fn control<B: Bus>(&mut self, bus: &mut B, k: Kind)
        ensures
            (*final(self), *final(bus)) == control_spec(*old(self), *old(bus), k),
    {
        match k {
            Kind::Pha => self.push(bus, self.a),
            Kind::Pla => { self.a = self.pull(bus); self.set_nz(self.a); },
            Kind::Php => self.push(bus, self.p | Flags::B | Flags::U),
            Kind::Plp => { let v = self.pull(bus); self.p = (v & !Flags::B) | Flags::U; },
            Kind::Jmp => { self.pc = self.fetch16(bus); },
            Kind::JmpInd => {
                // JMP (ind) with 6502 page-wrap bug: low byte wraps within page
                let ptr = self.fetch16(bus);
                let lo = bus.read(ptr);
                let hi_addr = (ptr & 0xFF00) | (ptr.wrapping_add(1) & 0x00FF);
                let hi = bus.read(hi_addr);
                self.pc = ((hi as u16) << 8) | (lo as u16);
            },
            Kind::Jsr => {
                let target = self.fetch16(bus);
                let ret = self.pc.wrapping_sub(1);
                self.push(bus, (ret >> 8) as u8);
                self.push(bus, ret as u8);
                self.pc = target;
            },
            Kind::Rts => {
                let lo = self.pull(bus);
                let hi = self.pull(bus);
                self.pc = (((hi as u16) << 8) | (lo as u16)).wrapping_add(1);
            },
            Kind::Rti => {
                let p = self.pull(bus);
                self.p = (p & !Flags::B) | Flags::U;
                let lo = self.pull(bus);
                let hi = self.pull(bus);
                self.pc = ((hi as u16) << 8) | (lo as u16);
            },
            Kind::Brk => {
                self.pc = self.pc.wrapping_add(1);
                self.service_interrupt(bus, 0xFFFE, true);
            },
            _ => {},
        }
    }

    // ---------------- ALU helpers ----------------

    fn adc(&mut self, v: u8)
        ensures
            *final(self) == adc_spec(*old(self), v),
    {
        if self.flag(Flags::D) {
            let (res, c, vflag) = adc_decimal(self.a, v, self.flag(Flags::C));
            let (n, z) = adc_decimal_flags(self.a, v, self.flag(Flags::C));
            self.a = res;
            self.set_flag(Flags::C, c);
            self.set_flag(Flags::V, vflag);
            self.set_flag(Flags::Z, z);
            self.set_flag(Flags::N, n);
        } else {
            let cin: u16 = if self.flag(Flags::C) { 1 } else { 0 };
            let sum: u16 = self.a as u16 + v as u16 + cin;
            let res = sum as u8;
            self.set_flag(Flags::C, sum > 0xFF);
            self.set_flag(Flags::V, ((!(self.a ^ v)) & (self.a ^ res) & 0x80) != 0);
            self.a = res;
            self.set_nz(res);
        }
    }

    fn sbc(&mut self, v: u8)
        ensures
            *final(self) == sbc_spec(*old(self), v),
    {
        if self.flag(Flags::D) {
            let borrow: u8 = if self.flag(Flags::C) { 0 } else { 1 };
            let bin = self.a.wrapping_sub(v).wrapping_sub(borrow);
            let (res, c, vflag) = sbc_decimal(self.a, v, self.flag(Flags::C));
            self.a = res;
            self.set_flag(Flags::C, c);
            self.set_flag(Flags::V, vflag);
            self.set_nz(bin);
        } else {
            // SBC in binary = ADC with one's complement.
            self.adc(!v);
        }
    }

    fn compare(&mut self, reg: u8, v: u8)
        ensures
            *final(self) == compare_spec(*old(self), reg, v),
    {
        let r = reg.wrapping_sub(v);
        self.set_flag(Flags::C, reg >= v);
        self.set_nz(r);
    }

    fn bit(&mut self, v: u8)
        ensures
            *final(self) == bit_spec(*old(self), v),
    {
        self.set_flag(Flags::Z, (self.a & v) == 0);
        self.set_flag(Flags::N, v & 0x80 != 0);
        self.set_flag(Flags::V, v & 0x40 != 0);
    }

    fn branch<B: Bus>(&mut self, bus: &mut B, cond: bool) -> (cycles: u8)
        ensures
            (*final(self), *final(bus), cycles) == branch_spec(*old(self), *old(bus), cond),
    {
        let off = self.fetch(bus);
        if !cond {
            return 2;
        }
        let old = self.pc;
        let new = if off < 0x80 { old.wrapping_add(off as u16) } else { old.wrapping_sub(0x100 - off as u16) };
        self.pc = new;
        let page_cross = (old & 0xFF00) != (new & 0xFF00);
        if page_cross { 4 } else { 3 }
    }

    // ---------------- Undocumented RMW helpers ----------------

    fn dcp<B: Bus>(&mut self, bus: &mut B, a: u16)
        ensures
            ({
                let (c2, r) = rmw_spec(*old(self), Kind::Dcp, old(bus).read_value(a));
                *final(self) == c2 && *final(bus) == old(bus).after_read(a).after_write(a, r)
            }),
    {
        let v = bus.read(a).wrapping_sub(1);
        bus.write(a, v);
        self.compare(self.a, v);
    }

    fn isc<B: Bus>(&mut self, bus: &mut B, a: u16)
        ensures
            ({
                let (c2, r) = rmw_spec(*old(self), Kind::Isc, old(bus).read_value(a));
                *final(self) == c2 && *final(bus) == old(bus).after_read(a).after_write(a, r)
            }),
    {
        let v = bus.read(a).wrapping_add(1);
        bus.write(a, v);
        self.sbc(v);
    }

    fn slo<B: Bus>(&mut self, bus: &mut B, a: u16)
        ensures
            ({
                let (c2, r) = rmw_spec(*old(self), Kind::Slo, old(bus).read_value(a));
                *final(self) == c2 && *final(bus) == old(bus).after_read(a).after_write(a, r)
            }),
    {
        let v = bus.read(a);
        let (r, c) = asl(v);
        bus.write(a, r);
        self.set_flag(Flags::C, c);
        self.a |= r;
        self.set_nz(self.a);
    }

    fn rla<B: Bus>(&mut self, bus: &mut B, a: u16)
        ensures
            ({
                let (c2, r) = rmw_spec(*old(self), Kind::Rla, old(bus).read_value(a));
                *final(self) == c2 && *final(bus) == old(bus).after_read(a).after_write(a, r)
            }),
    {
        let v = bus.read(a);
        let cin = self.flag(Flags::C);
        let (r, c) = rol(v, cin);
        bus.write(a, r);
        self.set_flag(Flags::C, c);
        self.a &= r;
        self.set_nz(self.a);
    }

    fn sre<B: Bus>(&mut self, bus: &mut B, a: u16)
        ensures
            ({
                let (c2, r) = rmw_spec(*old(self), Kind::Sre, old(bus).read_value(a));
                *final(self) == c2 && *final(bus) == old(bus).after_read(a).after_write(a, r)
            }),
    {
        let v = bus.read(a);
        let (r, c) = lsr(v);
        bus.write(a, r);
        self.set_flag(Flags::C, c);
        self.a ^= r;
        self.set_nz(self.a);
    }

    fn rra<B: Bus>(&mut self, bus: &mut B, a: u16)
        ensures
            ({
                let (c2, r) = rmw_spec(*old(self), Kind::Rra, old(bus).read_value(a));
                *final(self) == c2 && *final(bus) == old(bus).after_read(a).after_write(a, r)
            }),
    {
        let v = bus.read(a);
        let cin = self.flag(Flags::C);
        let (r, c) = ror(v, cin);
        bus.write(a, r);
        self.set_flag(Flags::C, c);
        self.adc(r);
    }
}

impl Default for Cpu {
    fn default() -> (r: Self)
        ensures
            r == (Cpu {
                a: 0, x: 0, y: 0, sp: 0xFD, pc: 0, p: Flags::U | Flags::I, cycles: 0,
                irq_line: false, nmi_pending: false, prev_nmi: false, jam: false,
            }),
    {
        Cpu::new()
    }
}

fn asl(v: u8) -> (r: (u8, bool))
    ensures
        r == asl_spec(v),
{
    (v << 1, v & 0x80 != 0)
}

fn lsr(v: u8) -> (r: (u8, bool))
    ensures
        r == lsr_spec(v),
{
    (v >> 1, v & 0x01 != 0)
}

fn rol(v: u8, cin: bool) -> (r: (u8, bool))
    ensures
        r == rol_spec(v, cin),
{
    let r = (v << 1) | if cin { 1 } else { 0 };
    (r, v & 0x80 != 0)
}

fn ror(v: u8, cin: bool) -> (r: (u8, bool))
    ensures
        r == ror_spec(v, cin),
{
    let r = (v >> 1) | if cin { 0x80 } else { 0 };
    (r, v & 0x01 != 0)
}

} // verus!
