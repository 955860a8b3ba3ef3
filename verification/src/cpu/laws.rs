//! Properties of the CPU that span several steps or every state.

use vstd::prelude::*;
use super::{adc_spec, sbc_spec, fetch_spec, execute_spec, flag_of, with_flag, with_nz, stack_addr, step_spec, word, Bus, Cpu};
use super::decode::lemma_decode_cycles;
use super::registers::Flags;

verus! {

/// A bus that behaves as plain memory: reads have no side effects and a read
/// gives back the last byte written at that address.
pub open spec fn behaves_as_ram<B: Bus>() -> bool {
    &&& forall|s: B, a: u16| #[trigger] s.after_read(a) == s
    &&& forall|s: B, a: u16, v: u8| #[trigger] s.after_write(a, v).read_value(a) == v
    &&& forall|s: B, a: u16, v: u8, a2: u16|
        a2 != a ==> #[trigger] s.after_write(a, v).read_value(a2) == s.read_value(a2)
}

/// No interrupt is taken before the next instruction: the CPU runs, no NMI
/// is latched and the IRQ line is released or masked.
pub open spec fn runs_next_instruction(c: Cpu) -> bool {
    !c.jam && !c.nmi_pending && !(c.irq_line && !flag_of(c.p, Flags::I))
}

/// What a step does when no interrupt is taken: fetch the opcode at PC and
/// execute it (the NMI edge memory is released first), counting its cycles.
pub open spec fn plain_step<B: Bus>(c: Cpu, b: B) -> (Cpu, B, u8) {
    let (c1, b1, op) = fetch_spec(Cpu { prev_nmi: false, ..c }, b);
    let (c2, b2, n) = execute_spec(c1, b1, op);
    (Cpu { cycles: c2.cycles.wrapping_add(n as u64), ..c2 }, b2, n)
}

/// Status-byte identities: setting I sets it, and pushing then pulling the
/// status with B set leaves B clear and U set.
proof fn lemma_status_bits(p: u8)
    by (bit_vector)
    ensures
        (p | 0x04u8) & 0x04u8 != 0,
        ((((p | 0x10u8) | 0x20u8) & !0x10u8) | 0x20u8) == (p | 0x20u8) & !0x10u8,
        ((((p | 0x20u8) | 0x10u8) & !0x10u8) | 0x20u8) == (p | 0x20u8) & !0x10u8,
{
}

/// A jammed CPU does nothing: a step consumes no cycles and changes neither
/// the CPU nor the bus.
pub proof fn law_jammed_step_is_idle<B: Bus>(c: Cpu, b: B)
    requires
        c.jam,
    ensures
        step_spec(c, b) == (c, b, 0u8),
{
}

/// Every step of a running CPU consumes between 2 and 8 cycles.
pub proof fn law_step_cycles_bounded<B: Bus>(c: Cpu, b: B)
    requires
        !c.jam,
    ensures
        2 <= step_spec(c, b).2 <= 8,
{
    let c0 = if !c.nmi_pending { Cpu { prev_nmi: false, ..c } } else { c };
    lemma_decode_cycles(fetch_spec(c0, b).2);
}

/// With the I flag set, an asserted IRQ line is ignored: the step executes
/// the next instruction.
pub proof fn law_irq_masked_by_i_flag<B: Bus>(c: Cpu, b: B)
    requires
        !c.jam,
        !c.nmi_pending,
        c.irq_line,
        flag_of(c.p, Flags::I),
    ensures
        step_spec(c, b) == plain_step(c, b),
{
}

/// With the I flag clear, an asserted IRQ line is serviced: the return
/// address and the status (B clear) are pushed, I is set, PC is loaded from
/// $FFFE/$FFFF, and the step takes 7 cycles.
pub proof fn law_irq_taken_when_i_clear<B: Bus>(c: Cpu, b: B)
    requires
        behaves_as_ram::<B>(),
        !c.jam,
        !c.nmi_pending,
        c.irq_line,
        !flag_of(c.p, Flags::I),
    ensures
        ({
            let (c1, b1, cycles) = step_spec(c, b);
            &&& cycles == 7
            &&& c1.pc == word(b.read_value(0xFFFE), b.read_value(0xFFFF))
            &&& c1.sp == c.sp.wrapping_sub(3)
            &&& flag_of(c1.p, Flags::I)
            &&& b1.read_value(stack_addr(c.sp)) == (c.pc >> 8) as u8
            &&& b1.read_value(stack_addr(c.sp.wrapping_sub(1))) == c.pc as u8
            &&& b1.read_value(stack_addr(c.sp.wrapping_sub(2))) == (c.p | Flags::U) & !Flags::B
        }),
{
    let s0 = stack_addr(c.sp);
    let s1 = stack_addr(c.sp.wrapping_sub(1));
    let s2 = stack_addr(c.sp.wrapping_sub(2));
    assert(s0 != s1 && s0 != s2 && s1 != s2);
    assert(0x0100 <= s0 <= 0x01FF && 0x0100 <= s1 <= 0x01FF && 0x0100 <= s2 <= 0x01FF);
    let b1 = b.after_write(s0, (c.pc >> 8) as u8);
    let b2 = b1.after_write(s1, c.pc as u8);
    let b3 = b2.after_write(s2, (c.p | Flags::U) & !Flags::B);
    assert(b3.read_value(0xFFFE) == b.read_value(0xFFFE));
    assert(b3.read_value(0xFFFF) == b.read_value(0xFFFF));
    assert(b3.read_value(s0) == (c.pc >> 8) as u8);
    assert(b3.read_value(s1) == c.pc as u8);
    let p = c.p;
    lemma_status_bits(p);
}

/// The little-endian word of a value's two bytes is the value.
pub proof fn lemma_word_of_bytes(x: u16)
    ensures
        word(x as u8, (x >> 8) as u8) == x,
{
    assert((((x >> 8) as u8 as u16) << 8) | (x as u8 as u16) == x) by (bit_vector);
}

/// JSR followed by RTS at the subroutine returns to the instruction after the
/// JSR, with the stack pointer where it was.
pub proof fn law_jsr_then_rts_returns<B: Bus>(c: Cpu, b: B)
    requires
        behaves_as_ram::<B>(),
        runs_next_instruction(c),
        b.read_value(c.pc) == 0x20,
        ({
            let t = word(b.read_value(c.pc.wrapping_add(1)), b.read_value(c.pc.wrapping_add(2)));
            &&& b.read_value(t) == 0x60
            &&& t != stack_addr(c.sp)
            &&& t != stack_addr(c.sp.wrapping_sub(1))
        }),
    ensures
        ({
            let (c1, b1, _) = step_spec(c, b);
            let (c2, b2, _) = step_spec(c1, b1);
            &&& c1.pc == word(b.read_value(c.pc.wrapping_add(1)), b.read_value(c.pc.wrapping_add(2)))
            &&& c2.pc == c.pc.wrapping_add(3)
            &&& c2.sp == c.sp
        }),
{
    let ret = c.pc.wrapping_add(3).wrapping_sub(1);
    lemma_word_of_bytes(ret);
    let s0 = stack_addr(c.sp);
    let s1 = stack_addr(c.sp.wrapping_sub(1));
    assert(s0 != s1);
    assert(c.sp.wrapping_sub(1).wrapping_sub(1).wrapping_add(1) == c.sp.wrapping_sub(1));
    assert(c.sp.wrapping_sub(1).wrapping_add(1) == c.sp);
    assert(ret.wrapping_add(1) == c.pc.wrapping_add(3));
}

/// PHA followed by PLA gives back the accumulator and the stack pointer.
pub proof fn law_pha_then_pla_restores_a<B: Bus>(c: Cpu, b: B)
    requires
        behaves_as_ram::<B>(),
        runs_next_instruction(c),
        b.read_value(c.pc) == 0x48,
        b.read_value(c.pc.wrapping_add(1)) == 0x68,
        c.pc.wrapping_add(1) != stack_addr(c.sp),
    ensures
        ({
            let (c1, b1, _) = step_spec(c, b);
            let (c2, b2, _) = step_spec(c1, b1);
            &&& c2.a == c.a
            &&& c2.sp == c.sp
            &&& c2.pc == c.pc.wrapping_add(2)
        }),
{
    let s0 = stack_addr(c.sp);
    let c1 = Cpu {
        pc: c.pc.wrapping_add(1),
        sp: c.sp.wrapping_sub(1),
        prev_nmi: false,
        cycles: c.cycles.wrapping_add(3),
        ..c
    };
    let b1 = b.after_write(s0, c.a);
    assert(step_spec(c, b) == (c1, b1, 3u8));
    assert(b1.read_value(c1.pc) == 0x68);
    assert(c.sp.wrapping_sub(1).wrapping_add(1) == c.sp);
    assert(b1.read_value(s0) == c.a);
    let c2 = Cpu {
        pc: c.pc.wrapping_add(1).wrapping_add(1),
        sp: c.sp,
        a: c.a,
        p: with_nz(c.p, c.a),
        cycles: c1.cycles.wrapping_add(4),
        ..c1
    };
    assert(step_spec(c1, b1) == (c2, b1, 4u8));
}

/// PHP followed by PLP restores every flag; B reads back clear and the
/// unused bit set.
pub proof fn law_php_then_plp_restores_flags<B: Bus>(c: Cpu, b: B)
    requires
        behaves_as_ram::<B>(),
        runs_next_instruction(c),
        b.read_value(c.pc) == 0x08,
        b.read_value(c.pc.wrapping_add(1)) == 0x28,
        c.pc.wrapping_add(1) != stack_addr(c.sp),
    ensures
        ({
            let (c1, b1, _) = step_spec(c, b);
            let (c2, b2, _) = step_spec(c1, b1);
            &&& c2.p == (c.p | Flags::U) & !Flags::B
            &&& c2.sp == c.sp
        }),
{
    assert(c.sp.wrapping_sub(1).wrapping_add(1) == c.sp);
    let p = c.p;
    lemma_status_bits(p);
}

/// BRK followed by RTI at the interrupt handler resumes two bytes after the
/// BRK (its padding byte is skipped) with the flags restored, B clear.
pub proof fn law_brk_then_rti_returns<B: Bus>(c: Cpu, b: B)
    requires
        behaves_as_ram::<B>(),
        runs_next_instruction(c),
        b.read_value(c.pc) == 0x00,
        ({
            let t = word(b.read_value(0xFFFE), b.read_value(0xFFFF));
            &&& b.read_value(t) == 0x40
            &&& t != stack_addr(c.sp)
            &&& t != stack_addr(c.sp.wrapping_sub(1))
            &&& t != stack_addr(c.sp.wrapping_sub(2))
        }),
    ensures
        ({
            let (c1, b1, _) = step_spec(c, b);
            let (c2, b2, _) = step_spec(c1, b1);
            &&& c1.pc == word(b.read_value(0xFFFE), b.read_value(0xFFFF))
            &&& c2.pc == c.pc.wrapping_add(2)
            &&& c2.p == (c.p | Flags::U) & !Flags::B
            &&& c2.sp == c.sp
        }),
{
    let ret = c.pc.wrapping_add(1).wrapping_add(1);
    lemma_word_of_bytes(ret);
    let s0 = stack_addr(c.sp);
    let s1 = stack_addr(c.sp.wrapping_sub(1));
    let s2 = stack_addr(c.sp.wrapping_sub(1).wrapping_sub(1));
    let pushed = c.p | Flags::U | Flags::B;
    let b1 = b.after_write(s0, (ret >> 8) as u8).after_write(s1, ret as u8).after_write(s2, pushed);
    let t = word(b.read_value(0xFFFE), b.read_value(0xFFFF));
    assert(0x0100 <= s0 <= 0x01FF && 0x0100 <= s1 <= 0x01FF && 0x0100 <= s2 <= 0x01FF);
    assert(b1.read_value(0xFFFE) == b.read_value(0xFFFE));
    assert(b1.read_value(0xFFFF) == b.read_value(0xFFFF));
    let c1 = Cpu {
        pc: t,
        sp: c.sp.wrapping_sub(1).wrapping_sub(1).wrapping_sub(1),
        p: with_flag(c.p, Flags::I, true),
        prev_nmi: false,
        cycles: c.cycles.wrapping_add(7),
        ..c
    };
    assert(step_spec(c, b) == (c1, b1, 7u8));
    let p = c.p;
    lemma_status_bits(p);
    assert(runs_next_instruction(c1));
    assert(b1.read_value(t) == 0x40);
    assert(b1.read_value(s2) == pushed);
    assert(b1.read_value(s1) == ret as u8);
    assert(b1.read_value(s0) == (ret >> 8) as u8);
    assert(s0 != s1 && s0 != s2 && s1 != s2);
    assert(0x0100 <= s0 <= 0x01FF && 0x0100 <= s1 <= 0x01FF && 0x0100 <= s2 <= 0x01FF);
    assert(c.sp.wrapping_sub(1).wrapping_sub(1).wrapping_sub(1).wrapping_add(1)
        == c.sp.wrapping_sub(1).wrapping_sub(1));
    assert(c.sp.wrapping_sub(1).wrapping_sub(1).wrapping_add(1) == c.sp.wrapping_sub(1));
    assert(c.sp.wrapping_sub(1).wrapping_add(1) == c.sp);
    let p = c.p;
    lemma_status_bits(p);
}

/// An NMI is serviced once per trigger: the step that services it loads PC
/// from $FFFA/$FFFB in 7 cycles and clears the latch, and without another
/// trigger the following step, from any PC and bus, is the one a CPU that
/// never saw an NMI would take.
pub proof fn law_nmi_serviced_once<B: Bus>(c: Cpu, b: B)
    requires
        behaves_as_ram::<B>(),
        !c.jam,
        c.nmi_pending,
        !c.prev_nmi,
    ensures
        ({
            let (c1, b1, cycles) = step_spec(c, b);
            &&& cycles == 7
            &&& c1.pc == word(b.read_value(0xFFFA), b.read_value(0xFFFB))
            &&& !c1.nmi_pending
            &&& forall|pc: u16, b2: B|
                #[trigger] step_spec(Cpu { pc: pc, ..c1 }, b2)
                    == step_spec(Cpu { pc: pc, nmi_pending: false, prev_nmi: false, ..c1 }, b2)
        }),
{
    let s0 = stack_addr(c.sp);
    let s1 = stack_addr(c.sp.wrapping_sub(1));
    let s2 = stack_addr(c.sp.wrapping_sub(2));
    assert(0x0100 <= s0 <= 0x01FF && 0x0100 <= s1 <= 0x01FF && 0x0100 <= s2 <= 0x01FF);
}

/// JMP ($xxFF) takes the high byte of its target from $xx00 of the same page
/// (the 6502 indirect-jump quirk).
pub proof fn law_jmp_indirect_wraps_in_page<B: Bus>(c: Cpu, b: B)
    requires
        behaves_as_ram::<B>(),
        runs_next_instruction(c),
        b.read_value(c.pc) == 0x6C,
        b.read_value(c.pc.wrapping_add(1)) == 0xFF,
    ensures
        ({
            let page = b.read_value(c.pc.wrapping_add(2));
            let (c1, b1, _) = step_spec(c, b);
            c1.pc == word(b.read_value(word(0xFF, page)), b.read_value(word(0x00, page)))
        }),
{
    let page = b.read_value(c.pc.wrapping_add(2));
    let ptr = word(0xFF, page);
    assert((ptr & 0xFF00) | (ptr.wrapping_add(1) & 0x00FF) == word(0x00, page)) by (bit_vector)
        requires ptr == word(0xFF, page);
}

/// Zero-page indexed addressing never leaves the zero page: the address is
/// the operand byte plus the index, modulo 256.
pub proof fn law_zero_page_indexed_wraps<B: Bus>(c: Cpu, b: B)
    ensures
        super::addressing::addr_zpx_spec(c, b).2 == (b.read_value(c.pc) + c.x) % 256,
        super::addressing::addr_zpy_spec(c, b).2 == (b.read_value(c.pc) + c.y) % 256,
{
}

/// The flags a comparison leaves: C, Z and N as given, every other flag as
/// it was.
proof fn lemma_compare_flags(p: u8, cf: bool, diff: u8)
    by (bit_vector)
    ensures
        ({
            let q = with_nz(with_flag(p, Flags::C, cf), diff);
            &&& (q & 0x01 != 0) == cf
            &&& (q & 0x02 != 0) == (diff == 0)
            &&& (q & 0x80 != 0) == (diff & 0x80 != 0)
            &&& q & 0x7C == p & 0x7C
            &&& (diff & 0x80 != 0) == (diff >= 0x80)
        }),
{
}

/// The register an immediate comparison opcode compares: CMP #v ($C9) the
/// accumulator, CPX #v ($E0) X, CPY #v ($C0) Y.
pub open spec fn compared_register(c: Cpu, op: u8) -> u8 {
    if op == 0xC0 { c.y } else if op == 0xE0 { c.x } else { c.a }
}

/// CMP, CPX and CPY with an immediate operand `v` compare their own register
/// `r` with `v`: C is set exactly when `r >= v`, Z exactly when `r == v`, N
/// is bit 7 of `r - v` (mod 256), the other flags and all registers but PC
/// stay, PC moves past the two bytes, and the step takes 2 cycles.
pub proof fn law_compare_immediate<B: Bus>(c: Cpu, b: B)
    requires
        behaves_as_ram::<B>(),
        runs_next_instruction(c),
        b.read_value(c.pc) == 0xC0 || b.read_value(c.pc) == 0xE0 || b.read_value(c.pc) == 0xC9,
    ensures
        ({
            let op = b.read_value(c.pc);
            let v = b.read_value(c.pc.wrapping_add(1));
            let r = compared_register(c, op);
            let (c1, b1, cycles) = step_spec(c, b);
            &&& flag_of(c1.p, Flags::C) == (r >= v)
            &&& flag_of(c1.p, Flags::Z) == (r == v)
            &&& flag_of(c1.p, Flags::N) == (((r - v + 256) % 256) >= 0x80)
            &&& c1.p & 0x7C == c.p & 0x7C
            &&& c1.a == c.a && c1.x == c.x && c1.y == c.y && c1.sp == c.sp
            &&& c1.pc == c.pc.wrapping_add(2)
            &&& cycles == 2
        }),
{
    let op = b.read_value(c.pc);
    let v = b.read_value(c.pc.wrapping_add(1));
    let r = compared_register(c, op);
    let d = r.wrapping_sub(v);
    lemma_compare_flags(c.p, r >= v, d);
    assert(d == (r - v + 256) % 256);
}

/// The flags after a result `r` sets N and Z: Z exactly when `r` is 0, N
/// exactly when bit 7 of `r` is set, the rest as before.
proof fn lemma_nz_flags(p: u8, r: u8)
    by (bit_vector)
    ensures
        (with_nz(p, r) & 0x02 != 0) == (r == 0),
        (with_nz(p, r) & 0x80 != 0) == (r >= 0x80),
        with_nz(p, r) & 0x7D == p & 0x7D,
{
}

/// Binary ADC on bytes: the result is the sum mod 256, C is the carry out,
/// and V tells that the signed sum left -128..127.
proof fn lemma_binary_adc(a: u8, v: u8, p: u8)
    by (bit_vector)
    ensures
        ({
            let cin: u16 = if p & 0x01 != 0 { 1 } else { 0 };
            let sum: u16 = (a as u16 + v as u16 + cin) as u16;
            let res = sum as u8;
            let q = with_nz(with_flag(with_flag(p, 0x01, sum > 0xFF), 0x40, ((!(a ^ v)) & (a ^ res) & 0x80) != 0), res);
            &&& res as int == (a + v + cin) % 256
            &&& (q & 0x01 != 0) == (a + v + cin > 255)
            &&& (q & 0x40 != 0) == ((a < 0x80 && v < 0x80 && a + v + cin >= 0x80)
                || (a >= 0x80 && v >= 0x80 && a + v + cin < 0x180))
            &&& (q & 0x02 != 0) == (res == 0)
            &&& (q & 0x80 != 0) == (res >= 0x80)
            &&& q & 0x3C == p & 0x3C
        }),
{
}

/// The accumulator, X and Y loads and the logic operations with an
/// immediate operand `v`: LDA #v ($A9), LDX #v ($A2) and LDY #v ($A0) put
/// `v` in their register; AND #v ($29), ORA #v ($09) and EOR #v ($49) put
/// the bitwise and, or and exclusive or of A and `v` in A. Z and N follow
/// the value loaded, C, I, D and V stay, the other registers stay, PC moves
/// past the two bytes and the step takes 2 cycles.
pub proof fn law_immediate_load_and_logic<B: Bus>(c: Cpu, b: B)
    requires
        behaves_as_ram::<B>(),
        runs_next_instruction(c),
        ({
            let op = b.read_value(c.pc);
            op == 0xA9 || op == 0xA2 || op == 0xA0 || op == 0x29 || op == 0x09 || op == 0x49
        }),
    ensures
        ({
            let op = b.read_value(c.pc);
            let v = b.read_value(c.pc.wrapping_add(1));
            let r = if op == 0x29 { c.a & v } else if op == 0x09 { c.a | v } else if op == 0x49 { c.a ^ v } else { v };
            let (c1, b1, cycles) = step_spec(c, b);
            &&& c1.a == (if op == 0xA2 || op == 0xA0 { c.a } else { r })
            &&& c1.x == (if op == 0xA2 { r } else { c.x })
            &&& c1.y == (if op == 0xA0 { r } else { c.y })
            &&& flag_of(c1.p, Flags::Z) == (r == 0)
            &&& flag_of(c1.p, Flags::N) == (r >= 0x80)
            &&& c1.p & 0x7D == c.p & 0x7D
            &&& c1.sp == c.sp
            &&& c1.pc == c.pc.wrapping_add(2)
            &&& cycles == 2
        }),
{
    let op = b.read_value(c.pc);
    let v = b.read_value(c.pc.wrapping_add(1));
    let r = if op == 0x29 { c.a & v } else if op == 0x09 { c.a | v } else if op == 0x49 { c.a ^ v } else { v };
    lemma_nz_flags(c.p, r);
}

/// The state an immediate-operand instruction `op` works on after its two
/// bytes are fetched, and the step's result: the operation applied to it.
proof fn lemma_immediate_step<B: Bus>(c: Cpu, b: B)
    requires
        behaves_as_ram::<B>(),
        runs_next_instruction(c),
        b.read_value(c.pc) == 0x69 || b.read_value(c.pc) == 0xE9,
    ensures
        ({
            let op = b.read_value(c.pc);
            let v = b.read_value(c.pc.wrapping_add(1));
            let c0 = Cpu { pc: c.pc.wrapping_add(2), prev_nmi: false, ..c };
            let r = if op == 0x69 { adc_spec(c0, v) } else { sbc_spec(c0, v) };
            step_spec(c, b) == (Cpu { cycles: r.cycles.wrapping_add(2), ..r }, b, 2u8)
        }),
{
}

/// Binary-mode ADC #v ($69) with D clear puts A + v + C (mod 256) in A,
/// sets C exactly on a carry out of 255 and V exactly when the signed sum
/// leaves -128..127; Z and N follow the new A, X and Y stay, PC moves past
/// the two bytes and the step takes 2 cycles.
pub proof fn law_binary_add<B: Bus>(c: Cpu, b: B)
    requires
        behaves_as_ram::<B>(),
        runs_next_instruction(c),
        !flag_of(c.p, Flags::D),
        b.read_value(c.pc) == 0x69,
    ensures
        ({
            let v = b.read_value(c.pc.wrapping_add(1));
            let cin: int = if flag_of(c.p, Flags::C) { 1 } else { 0 };
            let sa: int = if c.a >= 0x80 { c.a - 256 } else { c.a as int };
            let sv: int = if v >= 0x80 { v - 256 } else { v as int };
            let (c1, b1, cycles) = step_spec(c, b);
            &&& c1.a as int == (c.a + v + cin) % 256
            &&& flag_of(c1.p, Flags::C) == (c.a + v + cin > 255)
            &&& flag_of(c1.p, Flags::V) == (sa + sv + cin < -128 || sa + sv + cin > 127)
            &&& flag_of(c1.p, Flags::Z) == (c1.a == 0)
            &&& flag_of(c1.p, Flags::N) == (c1.a >= 0x80)
            &&& c1.x == c.x && c1.y == c.y && c1.sp == c.sp
            &&& c1.pc == c.pc.wrapping_add(2)
            &&& cycles == 2
        }),
{
    let v = b.read_value(c.pc.wrapping_add(1));
    lemma_immediate_step(c, b);
    lemma_binary_adc(c.a, v, c.p);
}

/// Binary-mode SBC #v ($E9) with D clear puts A - v - (1 - C) (mod 256) in
/// A, sets C exactly when no borrow occurs (A >= v + 1 - C) and V exactly
/// when the signed difference leaves -128..127; Z and N follow the new A,
/// X and Y stay, PC moves past the two bytes and the step takes 2 cycles.
pub proof fn law_binary_subtract<B: Bus>(c: Cpu, b: B)
    requires
        behaves_as_ram::<B>(),
        runs_next_instruction(c),
        !flag_of(c.p, Flags::D),
        b.read_value(c.pc) == 0xE9,
    ensures
        ({
            let v = b.read_value(c.pc.wrapping_add(1));
            let cin: int = if flag_of(c.p, Flags::C) { 1 } else { 0 };
            let sa: int = if c.a >= 0x80 { c.a - 256 } else { c.a as int };
            let sv: int = if v >= 0x80 { v - 256 } else { v as int };
            let (c1, b1, cycles) = step_spec(c, b);
            &&& c1.a as int == (c.a - v - (1 - cin) + 256) % 256
            &&& flag_of(c1.p, Flags::C) == (c.a - v - (1 - cin) >= 0)
            &&& flag_of(c1.p, Flags::V) == (sa - sv - (1 - cin) < -128 || sa - sv - (1 - cin) > 127)
            &&& flag_of(c1.p, Flags::Z) == (c1.a == 0)
            &&& flag_of(c1.p, Flags::N) == (c1.a >= 0x80)
            &&& c1.x == c.x && c1.y == c.y && c1.sp == c.sp
            &&& c1.pc == c.pc.wrapping_add(2)
            &&& cycles == 2
        }),
{
    let v = b.read_value(c.pc.wrapping_add(1));
    lemma_immediate_step(c, b);
    lemma_binary_adc(c.a, !v, c.p);
    lemma_complement(v);
}

/// The one's complement of a byte is 255 minus it.
proof fn lemma_complement(v: u8)
    by (bit_vector)
    ensures
        !v == 255 - v,
{
}

} // verus!
