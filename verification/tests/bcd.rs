//! Decimal-mode arithmetic.

use retro64_core::cpu::bcd::{adc_decimal, sbc_decimal};

#[test]
fn simple_bcd_add() {
    // 15 + 27 = 42 BCD, no carry
    let (r, c, _) = adc_decimal(0x15, 0x27, false);
    assert_eq!(r, 0x42);
    assert!(!c);
}

#[test]
fn bcd_add_with_carry_out() {
    // 99 + 01 + 0 = 00 with carry
    let (r, c, _) = adc_decimal(0x99, 0x01, false);
    assert_eq!(r, 0x00);
    assert!(c);
}

#[test]
fn simple_bcd_sub() {
    // 42 - 15 = 27 (carry=1 means no borrow)
    let (r, c, _) = sbc_decimal(0x42, 0x15, true);
    assert_eq!(r, 0x27);
    assert!(c);
}
