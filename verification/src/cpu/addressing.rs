//! Addressing-mode fetchers. Each returns the effective address (and where
//! applicable a page-cross indicator used for conditional cycle penalties).

use vstd::prelude::*;
use super::{Bus, Cpu, fetch_spec, fetch16_spec, word};

verus! {

/// Whether `base` and `ea` lie on different 256-byte pages.
pub open spec fn page_crossed(base: u16, ea: u16) -> bool {
    (base & 0xFF00) != (ea & 0xFF00)
}

/// Zero page: the fetched byte.
pub open spec fn addr_zp_spec<B: Bus>(c: Cpu, b: B) -> (Cpu, B, u16) {
    let (c1, b1, v) = fetch_spec(c, b);
    (c1, b1, v as u16)
}

/// Zero page,X: the fetched byte plus X, wrapping within the zero page.
pub open spec fn addr_zpx_spec<B: Bus>(c: Cpu, b: B) -> (Cpu, B, u16) {
    let (c1, b1, v) = fetch_spec(c, b);
    (c1, b1, v.wrapping_add(c1.x) as u16)
}

/// Zero page,Y: the fetched byte plus Y, wrapping within the zero page.
pub open spec fn addr_zpy_spec<B: Bus>(c: Cpu, b: B) -> (Cpu, B, u16) {
    let (c1, b1, v) = fetch_spec(c, b);
    (c1, b1, v.wrapping_add(c1.y) as u16)
}

/// Absolute: the fetched word.
pub open spec fn addr_abs_spec<B: Bus>(c: Cpu, b: B) -> (Cpu, B, u16) {
    fetch16_spec(c, b)
}

/// Absolute,X: the fetched word plus X (wrapping), and 1 when a page is crossed.
pub open spec fn addr_absx_spec<B: Bus>(c: Cpu, b: B) -> (Cpu, B, u16, u8) {
    let (c1, b1, base) = fetch16_spec(c, b);
    let ea = base.wrapping_add(c1.x as u16);
    (c1, b1, ea, if page_crossed(base, ea) { 1 } else { 0 })
}

/// Absolute,Y: the fetched word plus Y (wrapping), and 1 when a page is crossed.
pub open spec fn addr_absy_spec<B: Bus>(c: Cpu, b: B) -> (Cpu, B, u16, u8) {
    let (c1, b1, base) = fetch16_spec(c, b);
    let ea = base.wrapping_add(c1.y as u16);
    (c1, b1, ea, if page_crossed(base, ea) { 1 } else { 0 })
}

/// (zp,X): the word read from the zero page at fetched byte plus X, both
/// pointer bytes wrapping within the zero page.
pub open spec fn addr_indx_spec<B: Bus>(c: Cpu, b: B) -> (Cpu, B, u16) {
    let (c1, b1, v) = fetch_spec(c, b);
    let zp = v.wrapping_add(c1.x);
    let lo = b1.read_value(zp as u16);
    let b2 = b1.after_read(zp as u16);
    let hi = b2.read_value(zp.wrapping_add(1) as u16);
    (c1, b2.after_read(zp.wrapping_add(1) as u16), word(lo, hi))
}

/// (zp),Y: the word read from the zero page (wrapping) plus Y, and 1 when a
/// page is crossed.
pub open spec fn addr_indy_spec<B: Bus>(c: Cpu, b: B) -> (Cpu, B, u16, u8) {
    let (c1, b1, zp) = fetch_spec(c, b);
    let lo = b1.read_value(zp as u16);
    let b2 = b1.after_read(zp as u16);
    let hi = b2.read_value(zp.wrapping_add(1) as u16);
    let base = word(lo, hi);
    let ea = base.wrapping_add(c1.y as u16);
    (c1, b2.after_read(zp.wrapping_add(1) as u16), ea, if page_crossed(base, ea) { 1 } else { 0 })
}

/// Zero page.
pub fn addr_zp<B: Bus>(cpu: &mut Cpu, bus: &mut B) -> (r: u16)
    ensures
        (*final(cpu), *final(bus), r) == addr_zp_spec(*old(cpu), *old(bus)),
{
    cpu.fetch(bus) as u16
}

/// Zero page,X.
pub fn addr_zpx<B: Bus>(cpu: &mut Cpu, bus: &mut B) -> (r: u16)
    ensures
        (*final(cpu), *final(bus), r) == addr_zpx_spec(*old(cpu), *old(bus)),
{
    cpu.fetch(bus).wrapping_add(cpu.x) as u16
}

/// Zero page,Y.
pub fn addr_zpy<B: Bus>(cpu: &mut Cpu, bus: &mut B) -> (r: u16)
    ensures
        (*final(cpu), *final(bus), r) == addr_zpy_spec(*old(cpu), *old(bus)),
{
    cpu.fetch(bus).wrapping_add(cpu.y) as u16
}

/// Absolute.
pub fn addr_abs<B: Bus>(cpu: &mut Cpu, bus: &mut B) -> (r: u16)
    ensures
        (*final(cpu), *final(bus), r) == addr_abs_spec(*old(cpu), *old(bus)),
{
    cpu.fetch16(bus)
}

/// Absolute,X.
pub fn addr_absx<B: Bus>(cpu: &mut Cpu, bus: &mut B) -> (r: (u16, u8))
    ensures
        (*final(cpu), *final(bus), r.0, r.1) == addr_absx_spec(*old(cpu), *old(bus)),
{
    let base = cpu.fetch16(bus);
    let ea = base.wrapping_add(cpu.x as u16);
    let cross = (base & 0xFF00) != (ea & 0xFF00);
    (ea, if cross { 1 } else { 0 })
}

/// Absolute,Y.
pub fn addr_absy<B: Bus>(cpu: &mut Cpu, bus: &mut B) -> (r: (u16, u8))
    ensures
        (*final(cpu), *final(bus), r.0, r.1) == addr_absy_spec(*old(cpu), *old(bus)),
{
    let base = cpu.fetch16(bus);
    let ea = base.wrapping_add(cpu.y as u16);
    let cross = (base & 0xFF00) != (ea & 0xFF00);
    (ea, if cross { 1 } else { 0 })
}

/// (zp,X).
pub fn addr_indx<B: Bus>(cpu: &mut Cpu, bus: &mut B) -> (r: u16)
    ensures
        (*final(cpu), *final(bus), r) == addr_indx_spec(*old(cpu), *old(bus)),
{
    let zp = cpu.fetch(bus).wrapping_add(cpu.x);
    let lo = bus.read(zp as u16) as u16;
    let hi = bus.read(zp.wrapping_add(1) as u16) as u16;
    (hi << 8) | lo
}

/// (zp),Y.
pub fn addr_indy<B: Bus>(cpu: &mut Cpu, bus: &mut B) -> (r: (u16, u8))
    ensures
        (*final(cpu), *final(bus), r.0, r.1) == addr_indy_spec(*old(cpu), *old(bus)),
{
    let zp = cpu.fetch(bus);
    let lo = bus.read(zp as u16) as u16;
    let hi = bus.read(zp.wrapping_add(1) as u16) as u16;
    let base = (hi << 8) | lo;
    let ea = base.wrapping_add(cpu.y as u16);
    let cross = (base & 0xFF00) != (ea & 0xFF00);
    (ea, if cross { 1 } else { 0 })
}

} // verus!
