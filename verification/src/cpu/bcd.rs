//! Decimal-mode ADC/SBC helpers.
//!
//! Matches the NMOS 6502 behaviour including the idiosyncratic N/V/Z flag
//! handling (BASIC's floating-point routines depend on this).

use vstd::prelude::*;

verus! {

/// A byte holds two valid binary-coded decimal digits.
pub open spec fn is_bcd(x: u8) -> bool {
    x & 0x0F <= 9 && x >> 4 <= 9
}

/// The number 0..=99 that a valid BCD byte denotes.
pub open spec fn bcd_value(x: u8) -> int {
    (x >> 4) as int * 10 + (x & 0x0F) as int
}

/// Low nibble of a decimal-mode addition after its +6 adjust (may exceed 15).
pub open spec fn adc_lo(a: u8, v: u8, carry_in: bool) -> u16 {
    let lo0: u16 = ((a & 0x0F) as u16 + (v & 0x0F) as u16 + (if carry_in { 1u16 } else { 0u16 })) as u16;
    if lo0 > 9 { (lo0 + 6) as u16 } else { lo0 }
}

/// High nibble of a decimal-mode addition before its +6 adjust.
pub open spec fn adc_hi_raw(a: u8, v: u8, carry_in: bool) -> u16 {
    ((a >> 4) as u16 + (v >> 4) as u16 + (adc_lo(a, v, carry_in) >> 4)) as u16
}

/// High nibble of a decimal-mode addition after its +6 adjust.
pub open spec fn adc_hi(a: u8, v: u8, carry_in: bool) -> u16 {
    let hi0 = adc_hi_raw(a, v, carry_in);
    if hi0 > 9 { (hi0 + 6) as u16 } else { hi0 }
}

/// NMOS decimal-mode addition result: the low nibble is adjusted first, then
/// the high nibble.
pub open spec fn adc_decimal_result(a: u8, v: u8, carry_in: bool) -> u8 {
    ((adc_hi(a, v, carry_in) << 4) | (adc_lo(a, v, carry_in) & 0x0F)) as u8
}

/// Carry out of a decimal-mode addition.
pub open spec fn adc_decimal_carry(a: u8, v: u8, carry_in: bool) -> bool {
    adc_hi(a, v, carry_in) > 0x0F
}

/// The half-adjusted sum of a decimal-mode addition: low nibble adjusted,
/// high nibble not yet.
pub open spec fn adc_decimal_half(a: u8, v: u8, carry_in: bool) -> u8 {
    ((adc_hi_raw(a, v, carry_in) << 4) | (adc_lo(a, v, carry_in) & 0x0F)) as u8
}

/// Overflow of a decimal-mode addition, taken from the half-adjusted sum
/// (the NMOS quirk).
pub open spec fn adc_decimal_overflow(a: u8, v: u8, carry_in: bool) -> bool {
    let half = adc_decimal_half(a, v, carry_in);
    ((a ^ half) & !(a ^ v)) & 0x80 != 0
}

/// The binary sum `a + v + carry` (mod 256), from which the NMOS sets Z in
/// decimal mode.
pub open spec fn adc_binary_byte(a: u8, v: u8, carry_in: bool) -> u8 {
    a.wrapping_add(v).wrapping_add(if carry_in { 1u8 } else { 0u8 })
}

/// The binary difference `a - v - borrow` (mod 256), from which the NMOS
/// sets N and Z in decimal mode.
pub open spec fn sbc_binary_byte(a: u8, v: u8, carry_in: bool) -> u8 {
    a.wrapping_sub(v).wrapping_sub(if carry_in { 0u8 } else { 1u8 })
}

/// The N and Z flags of a decimal-mode addition on the NMOS 6502: N from bit
/// 7 of the half-adjusted sum, Z from the binary sum.
pub open spec fn adc_decimal_nz(a: u8, v: u8, carry_in: bool) -> (bool, bool) {
    (adc_decimal_half(a, v, carry_in) & 0x80 != 0, adc_binary_byte(a, v, carry_in) == 0)
}

/// NMOS decimal-mode addition: (result, carry out, overflow).
pub open spec fn adc_decimal_spec(a: u8, v: u8, carry_in: bool) -> (u8, bool, bool) {
    (adc_decimal_result(a, v, carry_in), adc_decimal_carry(a, v, carry_in), adc_decimal_overflow(a, v, carry_in))
}

/// Low nibble of a decimal-mode subtraction after its -6 adjust.
pub open spec fn sbc_lo(a: u8, v: u8, carry_in: bool) -> i16 {
    let lo0: i16 = ((a & 0x0F) as i16 - (v & 0x0F) as i16 - (1 - (if carry_in { 1i16 } else { 0i16 }))) as i16;
    if lo0 & 0x10 != 0 { (lo0 - 6) as i16 } else { lo0 }
}

/// High nibble of a decimal-mode subtraction after its -6 adjust.
pub open spec fn sbc_hi(a: u8, v: u8, carry_in: bool) -> i16 {
    let hi0: i16 = ((a >> 4) as i16 - (v >> 4) as i16 - ((sbc_lo(a, v, carry_in) & 0x10) >> 4)) as i16;
    if hi0 & 0x10 != 0 { (hi0 - 6) as i16 } else { hi0 }
}

/// The binary difference `a - v - borrow` that drives the NMOS flags.
pub open spec fn sbc_binary(a: u8, v: u8, carry_in: bool) -> i16 {
    (a as i16 - v as i16 - (1 - (if carry_in { 1i16 } else { 0i16 }))) as i16
}

/// NMOS decimal-mode subtraction result, nibble-wise with a -6 adjust.
pub open spec fn sbc_decimal_result(a: u8, v: u8, carry_in: bool) -> u8 {
    (((sbc_hi(a, v, carry_in) as u16) << 4) | ((sbc_lo(a, v, carry_in) as u16) & 0x0F)) as u8
}

/// Carry out (no borrow) of a decimal-mode subtraction.
pub open spec fn sbc_decimal_carry(a: u8, v: u8, carry_in: bool) -> bool {
    sbc_binary(a, v, carry_in) >= 0
}

/// Overflow of a decimal-mode subtraction, from the binary difference.
pub open spec fn sbc_decimal_overflow(a: u8, v: u8, carry_in: bool) -> bool {
    ((a ^ v) & (a ^ (sbc_binary(a, v, carry_in) as u8))) & 0x80 != 0
}

/// NMOS decimal-mode subtraction: (result, carry out, overflow).
pub open spec fn sbc_decimal_spec(a: u8, v: u8, carry_in: bool) -> (u8, bool, bool) {
    (sbc_decimal_result(a, v, carry_in), sbc_decimal_carry(a, v, carry_in), sbc_decimal_overflow(a, v, carry_in))
}

/// Both nibbles of two bytes are at most 15.
proof fn lemma_nibbles(a: u8, v: u8)
    by (bit_vector)
    ensures
        a & 0x0F <= 15 && v & 0x0F <= 15 && a >> 4 <= 15 && v >> 4 <= 15,
{
}

/// An adjusted low-nibble sum carries at most 2 into the high nibble.
proof fn lemma_low_carry(lo: u16)
    by (bit_vector)
    ensures
        lo <= 37 ==> lo >> 4 <= 2,
{
}

/// Decimal-mode ADC.
pub fn adc_decimal(a: u8, v: u8, carry_in: bool) -> (r: (u8, bool, bool))
    ensures
        r == adc_decimal_spec(a, v, carry_in),
        is_bcd(a) && is_bcd(v) ==> {
            let sum = bcd_value(a) + bcd_value(v) + (if carry_in { 1int } else { 0 });
            &&& is_bcd(r.0)
            &&& bcd_value(r.0) == sum % 100
            &&& r.1 == (sum >= 100)
        },
{
    proof {
        lemma_adc_decimal_is_bcd_addition(a, v, carry_in);
    }
    proof { lemma_nibbles(a, v); }
    let ci: u16 = if carry_in { 1 } else { 0 };
    let mut lo: u16 = (a & 0x0F) as u16 + (v & 0x0F) as u16 + ci;
    if lo > 9 {
        lo += 6;
    }
    proof { lemma_low_carry(lo); }
    let mut hi: u16 = (a >> 4) as u16 + (v >> 4) as u16 + (lo >> 4);
    let mut result: u8 = ((hi << 4) | (lo & 0x0F)) as u8;
    let v_overflow = (((a ^ result) & !(a ^ v)) & 0x80) != 0;
    if hi > 9 {
        hi += 6;
    }
    result = ((hi << 4) | (lo & 0x0F)) as u8;
    let c = hi > 0x0F;
    (result, c, v_overflow)
}

/// The N and Z flags of a decimal-mode ADC (NMOS): N from the half-adjusted
/// sum, Z from the binary sum.
pub fn adc_decimal_flags(a: u8, v: u8, carry_in: bool) -> (r: (bool, bool))
    ensures
        r == adc_decimal_nz(a, v, carry_in),
{
    proof { lemma_nibbles(a, v); }
    let ci: u16 = if carry_in { 1 } else { 0 };
    let mut lo: u16 = (a & 0x0F) as u16 + (v & 0x0F) as u16 + ci;
    if lo > 9 {
        lo += 6;
    }
    proof { lemma_low_carry(lo); }
    let hi: u16 = (a >> 4) as u16 + (v >> 4) as u16 + (lo >> 4);
    let half: u8 = ((hi << 4) | (lo & 0x0F)) as u8;
    let bin: u8 = a.wrapping_add(v).wrapping_add(if carry_in { 1u8 } else { 0u8 });
    (half & 0x80 != 0, bin == 0)
}

/// Decimal-mode SBC.
pub fn sbc_decimal(a: u8, v: u8, carry_in: bool) -> (r: (u8, bool, bool))
    ensures
        r == sbc_decimal_spec(a, v, carry_in),
        is_bcd(a) && is_bcd(v) ==> {
            let diff = bcd_value(a) - bcd_value(v) - (if carry_in { 0int } else { 1 });
            &&& is_bcd(r.0)
            &&& bcd_value(r.0) == diff % 100
            &&& r.1 == (diff >= 0)
        },
{
    proof {
        lemma_sbc_decimal_is_bcd_subtraction(a, v, carry_in);
    }
    // Binary result drives the flags on NMOS.
    proof { lemma_nibbles(a, v); }
    let cin: i16 = if carry_in { 1 } else { 0 };
    let bin: i16 = a as i16 - v as i16 - (1 - cin);

    let mut lo: i16 = (a & 0x0F) as i16 - (v & 0x0F) as i16 - (1 - cin);
    if lo & 0x10 != 0 {
        lo -= 6;
    }
    assert(0 <= (lo & 0x10) >> 4 <= 1) by (bit_vector);
    let mut hi: i16 = (a >> 4) as i16 - (v >> 4) as i16 - ((lo & 0x10) >> 4);
    if hi & 0x10 != 0 {
        hi -= 6;
    }

    let result: u8 = (((hi as u16) << 4) | ((lo as u16) & 0x0F)) as u8;
    let c = bin >= 0;
    let v_overflow = (((a ^ v) & (a ^ (bin as u8))) & 0x80) != 0;
    (result, c, v_overflow)
}

/// On valid BCD operands, decimal ADC is decimal addition modulo 100 with
/// the carry reporting a sum of 100 or more.
pub proof fn lemma_adc_decimal_is_bcd_addition(a: u8, v: u8, carry_in: bool)
    ensures
        is_bcd(a) && is_bcd(v) ==> {
            let sum = bcd_value(a) + bcd_value(v) + (if carry_in { 1int } else { 0 });
            let r = adc_decimal_spec(a, v, carry_in);
            &&& is_bcd(r.0)
            &&& bcd_value(r.0) == sum % 100
            &&& r.1 == (sum >= 100)
        },
{
    assert(is_bcd(a) && is_bcd(v) ==> {
        let r = adc_decimal_result(a, v, carry_in);
        &&& r & 0x0F <= 9 && r >> 4 <= 9
        &&& (r >> 4) as int * 10 + (r & 0x0F) as int
            == ((a >> 4) as int * 10 + (a & 0x0F) as int + (v >> 4) as int * 10 + (v & 0x0F) as int
                + (if carry_in { 1int } else { 0 })) % 100
        &&& adc_decimal_carry(a, v, carry_in) == ((a >> 4) as int * 10 + (a & 0x0F) as int + (v >> 4) as int * 10
                + (v & 0x0F) as int + (if carry_in { 1int } else { 0 }) >= 100)
    }) by (bit_vector);
}

/// On valid BCD operands, decimal SBC is decimal subtraction modulo 100
/// with the carry reporting that no borrow occurred.
pub proof fn lemma_sbc_decimal_is_bcd_subtraction(a: u8, v: u8, carry_in: bool)
    ensures
        is_bcd(a) && is_bcd(v) ==> {
            let diff = bcd_value(a) - bcd_value(v) - (if carry_in { 0int } else { 1 });
            let r = sbc_decimal_spec(a, v, carry_in);
            &&& is_bcd(r.0)
            &&& bcd_value(r.0) == diff % 100
            &&& r.1 == (diff >= 0)
        },
{
    assert(is_bcd(a) && is_bcd(v) ==> {
        let r = sbc_decimal_result(a, v, carry_in);
        &&& r & 0x0F <= 9 && r >> 4 <= 9
        &&& (r >> 4) as int * 10 + (r & 0x0F) as int
            == ((a >> 4) as int * 10 + (a & 0x0F) as int - (v >> 4) as int * 10 - (v & 0x0F) as int
                - (if carry_in { 0int } else { 1 })) % 100
        &&& sbc_decimal_carry(a, v, carry_in) == ((a >> 4) as int * 10 + (a & 0x0F) as int - (v >> 4) as int * 10
                - (v & 0x0F) as int - (if carry_in { 0int } else { 1 }) >= 0)
    }) by (bit_vector);
}

} // verus!
