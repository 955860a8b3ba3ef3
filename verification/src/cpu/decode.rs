//! Opcode decoding: the 6502 opcode matrix as a table from opcode byte to
//! operation, addressing mode and base cycle count.

use vstd::prelude::*;

verus! {

/// Operand addressing mode.
#[derive(Copy, Clone, Debug, PartialEq, Eq)]
pub enum Mode {
    /// No operand (implied / accumulator / control flow with its own fetches).
    Imp,
    /// Immediate byte following the opcode.
    Imm,
    /// Zero page.
    Zp,
    /// Zero page indexed by X (wraps within the zero page).
    Zpx,
    /// Zero page indexed by Y (wraps within the zero page).
    Zpy,
    /// Absolute.
    Abs,
    /// Absolute indexed by X.
    Absx,
    /// Absolute indexed by Y.
    Absy,
    /// Indexed indirect `(zp,X)`.
    Indx,
    /// Indirect indexed `(zp),Y`.
    Indy,
    /// Skip one operand byte without reading it.
    Skip1,
    /// Skip two operand bytes without reading them.
    Skip2,
}

/// Operation performed by an opcode.
#[derive(Copy, Clone, Debug, PartialEq, Eq)]
pub enum Kind {
    /// `ADC`.
    Adc,
    /// `ALR`.
    Alr,
    /// `ANC`.
    Anc,
    /// `AND`.
    And,
    /// `ARR`.
    Arr,
    /// `ASL`.
    Asl,
    /// `ASL A` (accumulator).
    AslA,
    /// `BCC`.
    Bcc,
    /// `BCS`.
    Bcs,
    /// `BEQ`.
    Beq,
    /// `BIT`.
    Bit,
    /// `BMI`.
    Bmi,
    /// `BNE`.
    Bne,
    /// `BPL`.
    Bpl,
    /// `BRK`.
    Brk,
    /// `BVC`.
    Bvc,
    /// `BVS`.
    Bvs,
    /// `CLC`.
    Clc,
    /// `CLD`.
    Cld,
    /// `CLI`.
    Cli,
    /// `CLV`.
    Clv,
    /// `CMP`.
    Cmp,
    /// `CPX`.
    Cpx,
    /// `CPY`.
    Cpy,
    /// `DCP`.
    Dcp,
    /// `DEC`.
    Dec,
    /// `DEX`.
    Dex,
    /// `DEY`.
    Dey,
    /// `EOR`.
    Eor,
    /// `INC`.
    Inc,
    /// `INX`.
    Inx,
    /// `INY`.
    Iny,
    /// `ISC`.
    Isc,
    /// `JAM`/`KIL`: halts the CPU.
    Jam,
    /// `JMP`.
    Jmp,
    /// `JMP (ind)` with the page-wrap bug.
    JmpInd,
    /// `JSR`.
    Jsr,
    /// `LAX`.
    Lax,
    /// `LDA`.
    Lda,
    /// `LDX`.
    Ldx,
    /// `LDY`.
    Ldy,
    /// `LSR`.
    Lsr,
    /// `LSR A` (accumulator).
    LsrA,
    /// `NOP`.
    Nop,
    /// `ORA`.
    Ora,
    /// `PHA`.
    Pha,
    /// `PHP`.
    Php,
    /// `PLA`.
    Pla,
    /// `PLP`.
    Plp,
    /// `RLA`.
    Rla,
    /// `ROL`.
    Rol,
    /// `ROL A` (accumulator).
    RolA,
    /// `ROR`.
    Ror,
    /// `ROR A` (accumulator).
    RorA,
    /// `RRA`.
    Rra,
    /// `RTI`.
    Rti,
    /// `RTS`.
    Rts,
    /// `SAX`.
    Sax,
    /// `SBC`.
    Sbc,
    /// `SBX`.
    Sbx,
    /// `SEC`.
    Sec,
    /// `SED`.
    Sed,
    /// `SEI`.
    Sei,
    /// `SLO`.
    Slo,
    /// `SRE`.
    Sre,
    /// `STA`.
    Sta,
    /// `STX`.
    Stx,
    /// `STY`.
    Sty,
    /// `TAX`.
    Tax,
    /// `TAY`.
    Tay,
    /// `TSX`.
    Tsx,
    /// `TXA`.
    Txa,
    /// `TXS`.
    Txs,
    /// `TYA`.
    Tya,
}

/// A decoded opcode.
#[derive(Copy, Clone, Debug, PartialEq, Eq)]
pub struct Instr {
    /// The operation.
    pub kind: Kind,
    /// Its addressing mode.
    pub mode: Mode,
    /// Base cycle count (branches add their own taken/page-cross cycles).
    pub cycles: u8,
    /// Whether crossing a page while indexing costs one extra cycle.
    pub penalty: bool,
}

/// The opcode table. Opcodes not listed are executed as two-cycle no-ops.
pub open spec fn decode_spec(op: u8) -> Instr {
    match op {
        0x00 => Instr { kind: Kind::Brk, mode: Mode::Imp, cycles: 7, penalty: false },
        0x01 => Instr { kind: Kind::Ora, mode: Mode::Indx, cycles: 6, penalty: false },
        0x02 => Instr { kind: Kind::Jam, mode: Mode::Imp, cycles: 2, penalty: false },
        0x03 => Instr { kind: Kind::Slo, mode: Mode::Indx, cycles: 8, penalty: false },
        0x04 => Instr { kind: Kind::Nop, mode: Mode::Skip1, cycles: 3, penalty: false },
        0x05 => Instr { kind: Kind::Ora, mode: Mode::Zp, cycles: 3, penalty: false },
        0x06 => Instr { kind: Kind::Asl, mode: Mode::Zp, cycles: 5, penalty: false },
        0x07 => Instr { kind: Kind::Slo, mode: Mode::Zp, cycles: 5, penalty: false },
        0x08 => Instr { kind: Kind::Php, mode: Mode::Imp, cycles: 3, penalty: false },
        0x09 => Instr { kind: Kind::Ora, mode: Mode::Imm, cycles: 2, penalty: false },
        0x0A => Instr { kind: Kind::AslA, mode: Mode::Imp, cycles: 2, penalty: false },
        0x0B => Instr { kind: Kind::Anc, mode: Mode::Imm, cycles: 2, penalty: false },
        0x0C => Instr { kind: Kind::Nop, mode: Mode::Skip2, cycles: 4, penalty: false },
        0x0D => Instr { kind: Kind::Ora, mode: Mode::Abs, cycles: 4, penalty: false },
        0x0E => Instr { kind: Kind::Asl, mode: Mode::Abs, cycles: 6, penalty: false },
        0x0F => Instr { kind: Kind::Slo, mode: Mode::Abs, cycles: 6, penalty: false },
        0x10 => Instr { kind: Kind::Bpl, mode: Mode::Imp, cycles: 2, penalty: false },
        0x11 => Instr { kind: Kind::Ora, mode: Mode::Indy, cycles: 5, penalty: true },
        0x12 => Instr { kind: Kind::Jam, mode: Mode::Imp, cycles: 2, penalty: false },
        0x13 => Instr { kind: Kind::Slo, mode: Mode::Indy, cycles: 8, penalty: false },
        0x14 => Instr { kind: Kind::Nop, mode: Mode::Skip1, cycles: 4, penalty: false },
        0x15 => Instr { kind: Kind::Ora, mode: Mode::Zpx, cycles: 4, penalty: false },
        0x16 => Instr { kind: Kind::Asl, mode: Mode::Zpx, cycles: 6, penalty: false },
        0x17 => Instr { kind: Kind::Slo, mode: Mode::Zpx, cycles: 6, penalty: false },
        0x18 => Instr { kind: Kind::Clc, mode: Mode::Imp, cycles: 2, penalty: false },
        0x19 => Instr { kind: Kind::Ora, mode: Mode::Absy, cycles: 4, penalty: true },
        0x1A => Instr { kind: Kind::Nop, mode: Mode::Imp, cycles: 2, penalty: false },
        0x1B => Instr { kind: Kind::Slo, mode: Mode::Absy, cycles: 7, penalty: false },
        0x1C => Instr { kind: Kind::Nop, mode: Mode::Absx, cycles: 4, penalty: true },
        0x1D => Instr { kind: Kind::Ora, mode: Mode::Absx, cycles: 4, penalty: true },
        0x1E => Instr { kind: Kind::Asl, mode: Mode::Absx, cycles: 7, penalty: false },
        0x1F => Instr { kind: Kind::Slo, mode: Mode::Absx, cycles: 7, penalty: false },
        0x20 => Instr { kind: Kind::Jsr, mode: Mode::Imp, cycles: 6, penalty: false },
        0x21 => Instr { kind: Kind::And, mode: Mode::Indx, cycles: 6, penalty: false },
        0x22 => Instr { kind: Kind::Jam, mode: Mode::Imp, cycles: 2, penalty: false },
        0x23 => Instr { kind: Kind::Rla, mode: Mode::Indx, cycles: 8, penalty: false },
        0x24 => Instr { kind: Kind::Bit, mode: Mode::Zp, cycles: 3, penalty: false },
        0x25 => Instr { kind: Kind::And, mode: Mode::Zp, cycles: 3, penalty: false },
        0x26 => Instr { kind: Kind::Rol, mode: Mode::Zp, cycles: 5, penalty: false },
        0x27 => Instr { kind: Kind::Rla, mode: Mode::Zp, cycles: 5, penalty: false },
        0x28 => Instr { kind: Kind::Plp, mode: Mode::Imp, cycles: 4, penalty: false },
        0x29 => Instr { kind: Kind::And, mode: Mode::Imm, cycles: 2, penalty: false },
        0x2A => Instr { kind: Kind::RolA, mode: Mode::Imp, cycles: 2, penalty: false },
        0x2B => Instr { kind: Kind::Anc, mode: Mode::Imm, cycles: 2, penalty: false },
        0x2C => Instr { kind: Kind::Bit, mode: Mode::Abs, cycles: 4, penalty: false },
        0x2D => Instr { kind: Kind::And, mode: Mode::Abs, cycles: 4, penalty: false },
        0x2E => Instr { kind: Kind::Rol, mode: Mode::Abs, cycles: 6, penalty: false },
        0x2F => Instr { kind: Kind::Rla, mode: Mode::Abs, cycles: 6, penalty: false },
        0x30 => Instr { kind: Kind::Bmi, mode: Mode::Imp, cycles: 2, penalty: false },
        0x31 => Instr { kind: Kind::And, mode: Mode::Indy, cycles: 5, penalty: true },
        0x32 => Instr { kind: Kind::Jam, mode: Mode::Imp, cycles: 2, penalty: false },
        0x33 => Instr { kind: Kind::Rla, mode: Mode::Indy, cycles: 8, penalty: false },
        0x34 => Instr { kind: Kind::Nop, mode: Mode::Skip1, cycles: 4, penalty: false },
        0x35 => Instr { kind: Kind::And, mode: Mode::Zpx, cycles: 4, penalty: false },
        0x36 => Instr { kind: Kind::Rol, mode: Mode::Zpx, cycles: 6, penalty: false },
        0x37 => Instr { kind: Kind::Rla, mode: Mode::Zpx, cycles: 6, penalty: false },
        0x38 => Instr { kind: Kind::Sec, mode: Mode::Imp, cycles: 2, penalty: false },
        0x39 => Instr { kind: Kind::And, mode: Mode::Absy, cycles: 4, penalty: true },
        0x3A => Instr { kind: Kind::Nop, mode: Mode::Imp, cycles: 2, penalty: false },
        0x3B => Instr { kind: Kind::Rla, mode: Mode::Absy, cycles: 7, penalty: false },
        0x3C => Instr { kind: Kind::Nop, mode: Mode::Absx, cycles: 4, penalty: true },
        0x3D => Instr { kind: Kind::And, mode: Mode::Absx, cycles: 4, penalty: true },
        0x3E => Instr { kind: Kind::Rol, mode: Mode::Absx, cycles: 7, penalty: false },
        0x3F => Instr { kind: Kind::Rla, mode: Mode::Absx, cycles: 7, penalty: false },
        0x40 => Instr { kind: Kind::Rti, mode: Mode::Imp, cycles: 6, penalty: false },
        0x41 => Instr { kind: Kind::Eor, mode: Mode::Indx, cycles: 6, penalty: false },
        0x42 => Instr { kind: Kind::Jam, mode: Mode::Imp, cycles: 2, penalty: false },
        0x43 => Instr { kind: Kind::Sre, mode: Mode::Indx, cycles: 8, penalty: false },
        0x44 => Instr { kind: Kind::Nop, mode: Mode::Skip1, cycles: 3, penalty: false },
        0x45 => Instr { kind: Kind::Eor, mode: Mode::Zp, cycles: 3, penalty: false },
        0x46 => Instr { kind: Kind::Lsr, mode: Mode::Zp, cycles: 5, penalty: false },
        0x47 => Instr { kind: Kind::Sre, mode: Mode::Zp, cycles: 5, penalty: false },
        0x48 => Instr { kind: Kind::Pha, mode: Mode::Imp, cycles: 3, penalty: false },
        0x49 => Instr { kind: Kind::Eor, mode: Mode::Imm, cycles: 2, penalty: false },
        0x4A => Instr { kind: Kind::LsrA, mode: Mode::Imp, cycles: 2, penalty: false },
        0x4B => Instr { kind: Kind::Alr, mode: Mode::Imm, cycles: 2, penalty: false },
        0x4C => Instr { kind: Kind::Jmp, mode: Mode::Imp, cycles: 3, penalty: false },
        0x4D => Instr { kind: Kind::Eor, mode: Mode::Abs, cycles: 4, penalty: false },
        0x4E => Instr { kind: Kind::Lsr, mode: Mode::Abs, cycles: 6, penalty: false },
        0x4F => Instr { kind: Kind::Sre, mode: Mode::Abs, cycles: 6, penalty: false },
        0x50 => Instr { kind: Kind::Bvc, mode: Mode::Imp, cycles: 2, penalty: false },
        0x51 => Instr { kind: Kind::Eor, mode: Mode::Indy, cycles: 5, penalty: true },
        0x52 => Instr { kind: Kind::Jam, mode: Mode::Imp, cycles: 2, penalty: false },
        0x53 => Instr { kind: Kind::Sre, mode: Mode::Indy, cycles: 8, penalty: false },
        0x54 => Instr { kind: Kind::Nop, mode: Mode::Skip1, cycles: 4, penalty: false },
        0x55 => Instr { kind: Kind::Eor, mode: Mode::Zpx, cycles: 4, penalty: false },
        0x56 => Instr { kind: Kind::Lsr, mode: Mode::Zpx, cycles: 6, penalty: false },
        0x57 => Instr { kind: Kind::Sre, mode: Mode::Zpx, cycles: 6, penalty: false },
        0x58 => Instr { kind: Kind::Cli, mode: Mode::Imp, cycles: 2, penalty: false },
        0x59 => Instr { kind: Kind::Eor, mode: Mode::Absy, cycles: 4, penalty: true },
        0x5A => Instr { kind: Kind::Nop, mode: Mode::Imp, cycles: 2, penalty: false },
        0x5B => Instr { kind: Kind::Sre, mode: Mode::Absy, cycles: 7, penalty: false },
        0x5C => Instr { kind: Kind::Nop, mode: Mode::Absx, cycles: 4, penalty: true },
        0x5D => Instr { kind: Kind::Eor, mode: Mode::Absx, cycles: 4, penalty: true },
        0x5E => Instr { kind: Kind::Lsr, mode: Mode::Absx, cycles: 7, penalty: false },
        0x5F => Instr { kind: Kind::Sre, mode: Mode::Absx, cycles: 7, penalty: false },
        0x60 => Instr { kind: Kind::Rts, mode: Mode::Imp, cycles: 6, penalty: false },
        0x61 => Instr { kind: Kind::Adc, mode: Mode::Indx, cycles: 6, penalty: false },
        0x62 => Instr { kind: Kind::Jam, mode: Mode::Imp, cycles: 2, penalty: false },
        0x63 => Instr { kind: Kind::Rra, mode: Mode::Indx, cycles: 8, penalty: false },
        0x64 => Instr { kind: Kind::Nop, mode: Mode::Skip1, cycles: 3, penalty: false },
        0x65 => Instr { kind: Kind::Adc, mode: Mode::Zp, cycles: 3, penalty: false },
        0x66 => Instr { kind: Kind::Ror, mode: Mode::Zp, cycles: 5, penalty: false },
        0x67 => Instr { kind: Kind::Rra, mode: Mode::Zp, cycles: 5, penalty: false },
        0x68 => Instr { kind: Kind::Pla, mode: Mode::Imp, cycles: 4, penalty: false },
        0x69 => Instr { kind: Kind::Adc, mode: Mode::Imm, cycles: 2, penalty: false },
        0x6A => Instr { kind: Kind::RorA, mode: Mode::Imp, cycles: 2, penalty: false },
        0x6B => Instr { kind: Kind::Arr, mode: Mode::Imm, cycles: 2, penalty: false },
        0x6C => Instr { kind: Kind::JmpInd, mode: Mode::Imp, cycles: 5, penalty: false },
        0x6D => Instr { kind: Kind::Adc, mode: Mode::Abs, cycles: 4, penalty: false },
        0x6E => Instr { kind: Kind::Ror, mode: Mode::Abs, cycles: 6, penalty: false },
        0x6F => Instr { kind: Kind::Rra, mode: Mode::Abs, cycles: 6, penalty: false },
        0x70 => Instr { kind: Kind::Bvs, mode: Mode::Imp, cycles: 2, penalty: false },
        0x71 => Instr { kind: Kind::Adc, mode: Mode::Indy, cycles: 5, penalty: true },
        0x72 => Instr { kind: Kind::Jam, mode: Mode::Imp, cycles: 2, penalty: false },
        0x73 => Instr { kind: Kind::Rra, mode: Mode::Indy, cycles: 8, penalty: false },
        0x74 => Instr { kind: Kind::Nop, mode: Mode::Skip1, cycles: 4, penalty: false },
        0x75 => Instr { kind: Kind::Adc, mode: Mode::Zpx, cycles: 4, penalty: false },
        0x76 => Instr { kind: Kind::Ror, mode: Mode::Zpx, cycles: 6, penalty: false },
        0x77 => Instr { kind: Kind::Rra, mode: Mode::Zpx, cycles: 6, penalty: false },
        0x78 => Instr { kind: Kind::Sei, mode: Mode::Imp, cycles: 2, penalty: false },
        0x79 => Instr { kind: Kind::Adc, mode: Mode::Absy, cycles: 4, penalty: true },
        0x7A => Instr { kind: Kind::Nop, mode: Mode::Imp, cycles: 2, penalty: false },
        0x7B => Instr { kind: Kind::Rra, mode: Mode::Absy, cycles: 7, penalty: false },
        0x7C => Instr { kind: Kind::Nop, mode: Mode::Absx, cycles: 4, penalty: true },
        0x7D => Instr { kind: Kind::Adc, mode: Mode::Absx, cycles: 4, penalty: true },
        0x7E => Instr { kind: Kind::Ror, mode: Mode::Absx, cycles: 7, penalty: false },
        0x7F => Instr { kind: Kind::Rra, mode: Mode::Absx, cycles: 7, penalty: false },
        0x80 => Instr { kind: Kind::Nop, mode: Mode::Skip1, cycles: 2, penalty: false },
        0x81 => Instr { kind: Kind::Sta, mode: Mode::Indx, cycles: 6, penalty: false },
        0x82 => Instr { kind: Kind::Nop, mode: Mode::Skip1, cycles: 2, penalty: false },
        0x83 => Instr { kind: Kind::Sax, mode: Mode::Indx, cycles: 6, penalty: false },
        0x84 => Instr { kind: Kind::Sty, mode: Mode::Zp, cycles: 3, penalty: false },
        0x85 => Instr { kind: Kind::Sta, mode: Mode::Zp, cycles: 3, penalty: false },
        0x86 => Instr { kind: Kind::Stx, mode: Mode::Zp, cycles: 3, penalty: false },
        0x87 => Instr { kind: Kind::Sax, mode: Mode::Zp, cycles: 3, penalty: false },
        0x88 => Instr { kind: Kind::Dey, mode: Mode::Imp, cycles: 2, penalty: false },
        0x89 => Instr { kind: Kind::Nop, mode: Mode::Skip1, cycles: 2, penalty: false },
        0x8A => Instr { kind: Kind::Txa, mode: Mode::Imp, cycles: 2, penalty: false },
        0x8C => Instr { kind: Kind::Sty, mode: Mode::Abs, cycles: 4, penalty: false },
        0x8D => Instr { kind: Kind::Sta, mode: Mode::Abs, cycles: 4, penalty: false },
        0x8E => Instr { kind: Kind::Stx, mode: Mode::Abs, cycles: 4, penalty: false },
        0x8F => Instr { kind: Kind::Sax, mode: Mode::Abs, cycles: 4, penalty: false },
        0x90 => Instr { kind: Kind::Bcc, mode: Mode::Imp, cycles: 2, penalty: false },
        0x91 => Instr { kind: Kind::Sta, mode: Mode::Indy, cycles: 6, penalty: false },
        0x92 => Instr { kind: Kind::Jam, mode: Mode::Imp, cycles: 2, penalty: false },
        0x94 => Instr { kind: Kind::Sty, mode: Mode::Zpx, cycles: 4, penalty: false },
        0x95 => Instr { kind: Kind::Sta, mode: Mode::Zpx, cycles: 4, penalty: false },
        0x96 => Instr { kind: Kind::Stx, mode: Mode::Zpy, cycles: 4, penalty: false },
        0x97 => Instr { kind: Kind::Sax, mode: Mode::Zpy, cycles: 4, penalty: false },
        0x98 => Instr { kind: Kind::Tya, mode: Mode::Imp, cycles: 2, penalty: false },
        0x99 => Instr { kind: Kind::Sta, mode: Mode::Absy, cycles: 5, penalty: false },
        0x9A => Instr { kind: Kind::Txs, mode: Mode::Imp, cycles: 2, penalty: false },
        0x9D => Instr { kind: Kind::Sta, mode: Mode::Absx, cycles: 5, penalty: false },
        0xA0 => Instr { kind: Kind::Ldy, mode: Mode::Imm, cycles: 2, penalty: false },
        0xA1 => Instr { kind: Kind::Lda, mode: Mode::Indx, cycles: 6, penalty: false },
        0xA2 => Instr { kind: Kind::Ldx, mode: Mode::Imm, cycles: 2, penalty: false },
        0xA3 => Instr { kind: Kind::Lax, mode: Mode::Indx, cycles: 6, penalty: false },
        0xA4 => Instr { kind: Kind::Ldy, mode: Mode::Zp, cycles: 3, penalty: false },
        0xA5 => Instr { kind: Kind::Lda, mode: Mode::Zp, cycles: 3, penalty: false },
        0xA6 => Instr { kind: Kind::Ldx, mode: Mode::Zp, cycles: 3, penalty: false },
        0xA7 => Instr { kind: Kind::Lax, mode: Mode::Zp, cycles: 3, penalty: false },
        0xA8 => Instr { kind: Kind::Tay, mode: Mode::Imp, cycles: 2, penalty: false },
        0xA9 => Instr { kind: Kind::Lda, mode: Mode::Imm, cycles: 2, penalty: false },
        0xAA => Instr { kind: Kind::Tax, mode: Mode::Imp, cycles: 2, penalty: false },
        0xAC => Instr { kind: Kind::Ldy, mode: Mode::Abs, cycles: 4, penalty: false },
        0xAD => Instr { kind: Kind::Lda, mode: Mode::Abs, cycles: 4, penalty: false },
        0xAE => Instr { kind: Kind::Ldx, mode: Mode::Abs, cycles: 4, penalty: false },
        0xAF => Instr { kind: Kind::Lax, mode: Mode::Abs, cycles: 4, penalty: false },
        0xB0 => Instr { kind: Kind::Bcs, mode: Mode::Imp, cycles: 2, penalty: false },
        0xB1 => Instr { kind: Kind::Lda, mode: Mode::Indy, cycles: 5, penalty: true },
        0xB2 => Instr { kind: Kind::Jam, mode: Mode::Imp, cycles: 2, penalty: false },
        0xB3 => Instr { kind: Kind::Lax, mode: Mode::Indy, cycles: 5, penalty: true },
        0xB4 => Instr { kind: Kind::Ldy, mode: Mode::Zpx, cycles: 4, penalty: false },
        0xB5 => Instr { kind: Kind::Lda, mode: Mode::Zpx, cycles: 4, penalty: false },
        0xB6 => Instr { kind: Kind::Ldx, mode: Mode::Zpy, cycles: 4, penalty: false },
        0xB7 => Instr { kind: Kind::Lax, mode: Mode::Zpy, cycles: 4, penalty: false },
        0xB8 => Instr { kind: Kind::Clv, mode: Mode::Imp, cycles: 2, penalty: false },
        0xB9 => Instr { kind: Kind::Lda, mode: Mode::Absy, cycles: 4, penalty: true },
        0xBA => Instr { kind: Kind::Tsx, mode: Mode::Imp, cycles: 2, penalty: false },
        0xBC => Instr { kind: Kind::Ldy, mode: Mode::Absx, cycles: 4, penalty: true },
        0xBD => Instr { kind: Kind::Lda, mode: Mode::Absx, cycles: 4, penalty: true },
        0xBE => Instr { kind: Kind::Ldx, mode: Mode::Absy, cycles: 4, penalty: true },
        0xBF => Instr { kind: Kind::Lax, mode: Mode::Absy, cycles: 4, penalty: true },
        0xC0 => Instr { kind: Kind::Cpy, mode: Mode::Imm, cycles: 2, penalty: false },
        0xC1 => Instr { kind: Kind::Cmp, mode: Mode::Indx, cycles: 6, penalty: false },
        0xC2 => Instr { kind: Kind::Nop, mode: Mode::Skip1, cycles: 2, penalty: false },
        0xC3 => Instr { kind: Kind::Dcp, mode: Mode::Indx, cycles: 8, penalty: false },
        0xC4 => Instr { kind: Kind::Cpy, mode: Mode::Zp, cycles: 3, penalty: false },
        0xC5 => Instr { kind: Kind::Cmp, mode: Mode::Zp, cycles: 3, penalty: false },
        0xC6 => Instr { kind: Kind::Dec, mode: Mode::Zp, cycles: 5, penalty: false },
        0xC7 => Instr { kind: Kind::Dcp, mode: Mode::Zp, cycles: 5, penalty: false },
        0xC8 => Instr { kind: Kind::Iny, mode: Mode::Imp, cycles: 2, penalty: false },
        0xC9 => Instr { kind: Kind::Cmp, mode: Mode::Imm, cycles: 2, penalty: false },
        0xCA => Instr { kind: Kind::Dex, mode: Mode::Imp, cycles: 2, penalty: false },
        0xCB => Instr { kind: Kind::Sbx, mode: Mode::Imm, cycles: 2, penalty: false },
        0xCC => Instr { kind: Kind::Cpy, mode: Mode::Abs, cycles: 4, penalty: false },
        0xCD => Instr { kind: Kind::Cmp, mode: Mode::Abs, cycles: 4, penalty: false },
        0xCE => Instr { kind: Kind::Dec, mode: Mode::Abs, cycles: 6, penalty: false },
        0xCF => Instr { kind: Kind::Dcp, mode: Mode::Abs, cycles: 6, penalty: false },
        0xD0 => Instr { kind: Kind::Bne, mode: Mode::Imp, cycles: 2, penalty: false },
        0xD1 => Instr { kind: Kind::Cmp, mode: Mode::Indy, cycles: 5, penalty: true },
        0xD2 => Instr { kind: Kind::Jam, mode: Mode::Imp, cycles: 2, penalty: false },
        0xD3 => Instr { kind: Kind::Dcp, mode: Mode::Indy, cycles: 8, penalty: false },
        0xD4 => Instr { kind: Kind::Nop, mode: Mode::Skip1, cycles: 4, penalty: false },
        0xD5 => Instr { kind: Kind::Cmp, mode: Mode::Zpx, cycles: 4, penalty: false },
        0xD6 => Instr { kind: Kind::Dec, mode: Mode::Zpx, cycles: 6, penalty: false },
        0xD7 => Instr { kind: Kind::Dcp, mode: Mode::Zpx, cycles: 6, penalty: false },
        0xD8 => Instr { kind: Kind::Cld, mode: Mode::Imp, cycles: 2, penalty: false },
        0xD9 => Instr { kind: Kind::Cmp, mode: Mode::Absy, cycles: 4, penalty: true },
        0xDA => Instr { kind: Kind::Nop, mode: Mode::Imp, cycles: 2, penalty: false },
        0xDB => Instr { kind: Kind::Dcp, mode: Mode::Absy, cycles: 7, penalty: false },
        0xDC => Instr { kind: Kind::Nop, mode: Mode::Absx, cycles: 4, penalty: true },
        0xDD => Instr { kind: Kind::Cmp, mode: Mode::Absx, cycles: 4, penalty: true },
        0xDE => Instr { kind: Kind::Dec, mode: Mode::Absx, cycles: 7, penalty: false },
        0xDF => Instr { kind: Kind::Dcp, mode: Mode::Absx, cycles: 7, penalty: false },
        0xE0 => Instr { kind: Kind::Cpx, mode: Mode::Imm, cycles: 2, penalty: false },
        0xE1 => Instr { kind: Kind::Sbc, mode: Mode::Indx, cycles: 6, penalty: false },
        0xE2 => Instr { kind: Kind::Nop, mode: Mode::Skip1, cycles: 2, penalty: false },
        0xE3 => Instr { kind: Kind::Isc, mode: Mode::Indx, cycles: 8, penalty: false },
        0xE4 => Instr { kind: Kind::Cpx, mode: Mode::Zp, cycles: 3, penalty: false },
        0xE5 => Instr { kind: Kind::Sbc, mode: Mode::Zp, cycles: 3, penalty: false },
        0xE6 => Instr { kind: Kind::Inc, mode: Mode::Zp, cycles: 5, penalty: false },
        0xE7 => Instr { kind: Kind::Isc, mode: Mode::Zp, cycles: 5, penalty: false },
        0xE8 => Instr { kind: Kind::Inx, mode: Mode::Imp, cycles: 2, penalty: false },
        0xE9 => Instr { kind: Kind::Sbc, mode: Mode::Imm, cycles: 2, penalty: false },
        0xEA => Instr { kind: Kind::Nop, mode: Mode::Imp, cycles: 2, penalty: false },
        0xEB => Instr { kind: Kind::Sbc, mode: Mode::Imm, cycles: 2, penalty: false },
        0xEC => Instr { kind: Kind::Cpx, mode: Mode::Abs, cycles: 4, penalty: false },
        0xED => Instr { kind: Kind::Sbc, mode: Mode::Abs, cycles: 4, penalty: false },
        0xEE => Instr { kind: Kind::Inc, mode: Mode::Abs, cycles: 6, penalty: false },
        0xEF => Instr { kind: Kind::Isc, mode: Mode::Abs, cycles: 6, penalty: false },
        0xF0 => Instr { kind: Kind::Beq, mode: Mode::Imp, cycles: 2, penalty: false },
        0xF1 => Instr { kind: Kind::Sbc, mode: Mode::Indy, cycles: 5, penalty: true },
        0xF2 => Instr { kind: Kind::Jam, mode: Mode::Imp, cycles: 2, penalty: false },
        0xF3 => Instr { kind: Kind::Isc, mode: Mode::Indy, cycles: 8, penalty: false },
        0xF4 => Instr { kind: Kind::Nop, mode: Mode::Skip1, cycles: 4, penalty: false },
        0xF5 => Instr { kind: Kind::Sbc, mode: Mode::Zpx, cycles: 4, penalty: false },
        0xF6 => Instr { kind: Kind::Inc, mode: Mode::Zpx, cycles: 6, penalty: false },
        0xF7 => Instr { kind: Kind::Isc, mode: Mode::Zpx, cycles: 6, penalty: false },
        0xF8 => Instr { kind: Kind::Sed, mode: Mode::Imp, cycles: 2, penalty: false },
        0xF9 => Instr { kind: Kind::Sbc, mode: Mode::Absy, cycles: 4, penalty: true },
        0xFA => Instr { kind: Kind::Nop, mode: Mode::Imp, cycles: 2, penalty: false },
        0xFB => Instr { kind: Kind::Isc, mode: Mode::Absy, cycles: 7, penalty: false },
        0xFC => Instr { kind: Kind::Nop, mode: Mode::Absx, cycles: 4, penalty: true },
        0xFD => Instr { kind: Kind::Sbc, mode: Mode::Absx, cycles: 4, penalty: true },
        0xFE => Instr { kind: Kind::Inc, mode: Mode::Absx, cycles: 7, penalty: false },
        0xFF => Instr { kind: Kind::Isc, mode: Mode::Absx, cycles: 7, penalty: false },
        _ => Instr { kind: Kind::Nop, mode: Mode::Imp, cycles: 2, penalty: false },
    }
}

/// Decode an opcode byte.
pub fn decode(op: u8) -> (r: Instr)
    ensures
        r == decode_spec(op),
        r.cycles <= 8,
{
    match op {
        0x00 => Instr { kind: Kind::Brk, mode: Mode::Imp, cycles: 7, penalty: false },
        0x01 => Instr { kind: Kind::Ora, mode: Mode::Indx, cycles: 6, penalty: false },
        0x02 => Instr { kind: Kind::Jam, mode: Mode::Imp, cycles: 2, penalty: false },
        0x03 => Instr { kind: Kind::Slo, mode: Mode::Indx, cycles: 8, penalty: false },
        0x04 => Instr { kind: Kind::Nop, mode: Mode::Skip1, cycles: 3, penalty: false },
        0x05 => Instr { kind: Kind::Ora, mode: Mode::Zp, cycles: 3, penalty: false },
        0x06 => Instr { kind: Kind::Asl, mode: Mode::Zp, cycles: 5, penalty: false },
        0x07 => Instr { kind: Kind::Slo, mode: Mode::Zp, cycles: 5, penalty: false },
        0x08 => Instr { kind: Kind::Php, mode: Mode::Imp, cycles: 3, penalty: false },
        0x09 => Instr { kind: Kind::Ora, mode: Mode::Imm, cycles: 2, penalty: false },
        0x0A => Instr { kind: Kind::AslA, mode: Mode::Imp, cycles: 2, penalty: false },
        0x0B => Instr { kind: Kind::Anc, mode: Mode::Imm, cycles: 2, penalty: false },
        0x0C => Instr { kind: Kind::Nop, mode: Mode::Skip2, cycles: 4, penalty: false },
        0x0D => Instr { kind: Kind::Ora, mode: Mode::Abs, cycles: 4, penalty: false },
        0x0E => Instr { kind: Kind::Asl, mode: Mode::Abs, cycles: 6, penalty: false },
        0x0F => Instr { kind: Kind::Slo, mode: Mode::Abs, cycles: 6, penalty: false },
        0x10 => Instr { kind: Kind::Bpl, mode: Mode::Imp, cycles: 2, penalty: false },
        0x11 => Instr { kind: Kind::Ora, mode: Mode::Indy, cycles: 5, penalty: true },
        0x12 => Instr { kind: Kind::Jam, mode: Mode::Imp, cycles: 2, penalty: false },
        0x13 => Instr { kind: Kind::Slo, mode: Mode::Indy, cycles: 8, penalty: false },
        0x14 => Instr { kind: Kind::Nop, mode: Mode::Skip1, cycles: 4, penalty: false },
        0x15 => Instr { kind: Kind::Ora, mode: Mode::Zpx, cycles: 4, penalty: false },
        0x16 => Instr { kind: Kind::Asl, mode: Mode::Zpx, cycles: 6, penalty: false },
        0x17 => Instr { kind: Kind::Slo, mode: Mode::Zpx, cycles: 6, penalty: false },
        0x18 => Instr { kind: Kind::Clc, mode: Mode::Imp, cycles: 2, penalty: false },
        0x19 => Instr { kind: Kind::Ora, mode: Mode::Absy, cycles: 4, penalty: true },
        0x1A => Instr { kind: Kind::Nop, mode: Mode::Imp, cycles: 2, penalty: false },
        0x1B => Instr { kind: Kind::Slo, mode: Mode::Absy, cycles: 7, penalty: false },
        0x1C => Instr { kind: Kind::Nop, mode: Mode::Absx, cycles: 4, penalty: true },
        0x1D => Instr { kind: Kind::Ora, mode: Mode::Absx, cycles: 4, penalty: true },
        0x1E => Instr { kind: Kind::Asl, mode: Mode::Absx, cycles: 7, penalty: false },
        0x1F => Instr { kind: Kind::Slo, mode: Mode::Absx, cycles: 7, penalty: false },
        0x20 => Instr { kind: Kind::Jsr, mode: Mode::Imp, cycles: 6, penalty: false },
        0x21 => Instr { kind: Kind::And, mode: Mode::Indx, cycles: 6, penalty: false },
        0x22 => Instr { kind: Kind::Jam, mode: Mode::Imp, cycles: 2, penalty: false },
        0x23 => Instr { kind: Kind::Rla, mode: Mode::Indx, cycles: 8, penalty: false },
        0x24 => Instr { kind: Kind::Bit, mode: Mode::Zp, cycles: 3, penalty: false },
        0x25 => Instr { kind: Kind::And, mode: Mode::Zp, cycles: 3, penalty: false },
        0x26 => Instr { kind: Kind::Rol, mode: Mode::Zp, cycles: 5, penalty: false },
        0x27 => Instr { kind: Kind::Rla, mode: Mode::Zp, cycles: 5, penalty: false },
        0x28 => Instr { kind: Kind::Plp, mode: Mode::Imp, cycles: 4, penalty: false },
        0x29 => Instr { kind: Kind::And, mode: Mode::Imm, cycles: 2, penalty: false },
        0x2A => Instr { kind: Kind::RolA, mode: Mode::Imp, cycles: 2, penalty: false },
        0x2B => Instr { kind: Kind::Anc, mode: Mode::Imm, cycles: 2, penalty: false },
        0x2C => Instr { kind: Kind::Bit, mode: Mode::Abs, cycles: 4, penalty: false },
        0x2D => Instr { kind: Kind::And, mode: Mode::Abs, cycles: 4, penalty: false },
        0x2E => Instr { kind: Kind::Rol, mode: Mode::Abs, cycles: 6, penalty: false },
        0x2F => Instr { kind: Kind::Rla, mode: Mode::Abs, cycles: 6, penalty: false },
        0x30 => Instr { kind: Kind::Bmi, mode: Mode::Imp, cycles: 2, penalty: false },
        0x31 => Instr { kind: Kind::And, mode: Mode::Indy, cycles: 5, penalty: true },
        0x32 => Instr { kind: Kind::Jam, mode: Mode::Imp, cycles: 2, penalty: false },
        0x33 => Instr { kind: Kind::Rla, mode: Mode::Indy, cycles: 8, penalty: false },
        0x34 => Instr { kind: Kind::Nop, mode: Mode::Skip1, cycles: 4, penalty: false },
        0x35 => Instr { kind: Kind::And, mode: Mode::Zpx, cycles: 4, penalty: false },
        0x36 => Instr { kind: Kind::Rol, mode: Mode::Zpx, cycles: 6, penalty: false },
        0x37 => Instr { kind: Kind::Rla, mode: Mode::Zpx, cycles: 6, penalty: false },
        0x38 => Instr { kind: Kind::Sec, mode: Mode::Imp, cycles: 2, penalty: false },
        0x39 => Instr { kind: Kind::And, mode: Mode::Absy, cycles: 4, penalty: true },
        0x3A => Instr { kind: Kind::Nop, mode: Mode::Imp, cycles: 2, penalty: false },
        0x3B => Instr { kind: Kind::Rla, mode: Mode::Absy, cycles: 7, penalty: false },
        0x3C => Instr { kind: Kind::Nop, mode: Mode::Absx, cycles: 4, penalty: true },
        0x3D => Instr { kind: Kind::And, mode: Mode::Absx, cycles: 4, penalty: true },
        0x3E => Instr { kind: Kind::Rol, mode: Mode::Absx, cycles: 7, penalty: false },
        0x3F => Instr { kind: Kind::Rla, mode: Mode::Absx, cycles: 7, penalty: false },
        0x40 => Instr { kind: Kind::Rti, mode: Mode::Imp, cycles: 6, penalty: false },
        0x41 => Instr { kind: Kind::Eor, mode: Mode::Indx, cycles: 6, penalty: false },
        0x42 => Instr { kind: Kind::Jam, mode: Mode::Imp, cycles: 2, penalty: false },
        0x43 => Instr { kind: Kind::Sre, mode: Mode::Indx, cycles: 8, penalty: false },
        0x44 => Instr { kind: Kind::Nop, mode: Mode::Skip1, cycles: 3, penalty: false },
        0x45 => Instr { kind: Kind::Eor, mode: Mode::Zp, cycles: 3, penalty: false },
        0x46 => Instr { kind: Kind::Lsr, mode: Mode::Zp, cycles: 5, penalty: false },
        0x47 => Instr { kind: Kind::Sre, mode: Mode::Zp, cycles: 5, penalty: false },
        0x48 => Instr { kind: Kind::Pha, mode: Mode::Imp, cycles: 3, penalty: false },
        0x49 => Instr { kind: Kind::Eor, mode: Mode::Imm, cycles: 2, penalty: false },
        0x4A => Instr { kind: Kind::LsrA, mode: Mode::Imp, cycles: 2, penalty: false },
        0x4B => Instr { kind: Kind::Alr, mode: Mode::Imm, cycles: 2, penalty: false },
        0x4C => Instr { kind: Kind::Jmp, mode: Mode::Imp, cycles: 3, penalty: false },
        0x4D => Instr { kind: Kind::Eor, mode: Mode::Abs, cycles: 4, penalty: false },
        0x4E => Instr { kind: Kind::Lsr, mode: Mode::Abs, cycles: 6, penalty: false },
        0x4F => Instr { kind: Kind::Sre, mode: Mode::Abs, cycles: 6, penalty: false },
        0x50 => Instr { kind: Kind::Bvc, mode: Mode::Imp, cycles: 2, penalty: false },
        0x51 => Instr { kind: Kind::Eor, mode: Mode::Indy, cycles: 5, penalty: true },
        0x52 => Instr { kind: Kind::Jam, mode: Mode::Imp, cycles: 2, penalty: false },
        0x53 => Instr { kind: Kind::Sre, mode: Mode::Indy, cycles: 8, penalty: false },
        0x54 => Instr { kind: Kind::Nop, mode: Mode::Skip1, cycles: 4, penalty: false },
        0x55 => Instr { kind: Kind::Eor, mode: Mode::Zpx, cycles: 4, penalty: false },
        0x56 => Instr { kind: Kind::Lsr, mode: Mode::Zpx, cycles: 6, penalty: false },
        0x57 => Instr { kind: Kind::Sre, mode: Mode::Zpx, cycles: 6, penalty: false },
        0x58 => Instr { kind: Kind::Cli, mode: Mode::Imp, cycles: 2, penalty: false },
        0x59 => Instr { kind: Kind::Eor, mode: Mode::Absy, cycles: 4, penalty: true },
        0x5A => Instr { kind: Kind::Nop, mode: Mode::Imp, cycles: 2, penalty: false },
        0x5B => Instr { kind: Kind::Sre, mode: Mode::Absy, cycles: 7, penalty: false },
        0x5C => Instr { kind: Kind::Nop, mode: Mode::Absx, cycles: 4, penalty: true },
        0x5D => Instr { kind: Kind::Eor, mode: Mode::Absx, cycles: 4, penalty: true },
        0x5E => Instr { kind: Kind::Lsr, mode: Mode::Absx, cycles: 7, penalty: false },
        0x5F => Instr { kind: Kind::Sre, mode: Mode::Absx, cycles: 7, penalty: false },
        0x60 => Instr { kind: Kind::Rts, mode: Mode::Imp, cycles: 6, penalty: false },
        0x61 => Instr { kind: Kind::Adc, mode: Mode::Indx, cycles: 6, penalty: false },
        0x62 => Instr { kind: Kind::Jam, mode: Mode::Imp, cycles: 2, penalty: false },
        0x63 => Instr { kind: Kind::Rra, mode: Mode::Indx, cycles: 8, penalty: false },
        0x64 => Instr { kind: Kind::Nop, mode: Mode::Skip1, cycles: 3, penalty: false },
        0x65 => Instr { kind: Kind::Adc, mode: Mode::Zp, cycles: 3, penalty: false },
        0x66 => Instr { kind: Kind::Ror, mode: Mode::Zp, cycles: 5, penalty: false },
        0x67 => Instr { kind: Kind::Rra, mode: Mode::Zp, cycles: 5, penalty: false },
        0x68 => Instr { kind: Kind::Pla, mode: Mode::Imp, cycles: 4, penalty: false },
        0x69 => Instr { kind: Kind::Adc, mode: Mode::Imm, cycles: 2, penalty: false },
        0x6A => Instr { kind: Kind::RorA, mode: Mode::Imp, cycles: 2, penalty: false },
        0x6B => Instr { kind: Kind::Arr, mode: Mode::Imm, cycles: 2, penalty: false },
        0x6C => Instr { kind: Kind::JmpInd, mode: Mode::Imp, cycles: 5, penalty: false },
        0x6D => Instr { kind: Kind::Adc, mode: Mode::Abs, cycles: 4, penalty: false },
        0x6E => Instr { kind: Kind::Ror, mode: Mode::Abs, cycles: 6, penalty: false },
        0x6F => Instr { kind: Kind::Rra, mode: Mode::Abs, cycles: 6, penalty: false },
        0x70 => Instr { kind: Kind::Bvs, mode: Mode::Imp, cycles: 2, penalty: false },
        0x71 => Instr { kind: Kind::Adc, mode: Mode::Indy, cycles: 5, penalty: true },
        0x72 => Instr { kind: Kind::Jam, mode: Mode::Imp, cycles: 2, penalty: false },
        0x73 => Instr { kind: Kind::Rra, mode: Mode::Indy, cycles: 8, penalty: false },
        0x74 => Instr { kind: Kind::Nop, mode: Mode::Skip1, cycles: 4, penalty: false },
        0x75 => Instr { kind: Kind::Adc, mode: Mode::Zpx, cycles: 4, penalty: false },
        0x76 => Instr { kind: Kind::Ror, mode: Mode::Zpx, cycles: 6, penalty: false },
        0x77 => Instr { kind: Kind::Rra, mode: Mode::Zpx, cycles: 6, penalty: false },
        0x78 => Instr { kind: Kind::Sei, mode: Mode::Imp, cycles: 2, penalty: false },
        0x79 => Instr { kind: Kind::Adc, mode: Mode::Absy, cycles: 4, penalty: true },
        0x7A => Instr { kind: Kind::Nop, mode: Mode::Imp, cycles: 2, penalty: false },
        0x7B => Instr { kind: Kind::Rra, mode: Mode::Absy, cycles: 7, penalty: false },
        0x7C => Instr { kind: Kind::Nop, mode: Mode::Absx, cycles: 4, penalty: true },
        0x7D => Instr { kind: Kind::Adc, mode: Mode::Absx, cycles: 4, penalty: true },
        0x7E => Instr { kind: Kind::Ror, mode: Mode::Absx, cycles: 7, penalty: false },
        0x7F => Instr { kind: Kind::Rra, mode: Mode::Absx, cycles: 7, penalty: false },
        0x80 => Instr { kind: Kind::Nop, mode: Mode::Skip1, cycles: 2, penalty: false },
        0x81 => Instr { kind: Kind::Sta, mode: Mode::Indx, cycles: 6, penalty: false },
        0x82 => Instr { kind: Kind::Nop, mode: Mode::Skip1, cycles: 2, penalty: false },
        0x83 => Instr { kind: Kind::Sax, mode: Mode::Indx, cycles: 6, penalty: false },
        0x84 => Instr { kind: Kind::Sty, mode: Mode::Zp, cycles: 3, penalty: false },
        0x85 => Instr { kind: Kind::Sta, mode: Mode::Zp, cycles: 3, penalty: false },
        0x86 => Instr { kind: Kind::Stx, mode: Mode::Zp, cycles: 3, penalty: false },
        0x87 => Instr { kind: Kind::Sax, mode: Mode::Zp, cycles: 3, penalty: false },
        0x88 => Instr { kind: Kind::Dey, mode: Mode::Imp, cycles: 2, penalty: false },
        0x89 => Instr { kind: Kind::Nop, mode: Mode::Skip1, cycles: 2, penalty: false },
        0x8A => Instr { kind: Kind::Txa, mode: Mode::Imp, cycles: 2, penalty: false },
        0x8C => Instr { kind: Kind::Sty, mode: Mode::Abs, cycles: 4, penalty: false },
        0x8D => Instr { kind: Kind::Sta, mode: Mode::Abs, cycles: 4, penalty: false },
        0x8E => Instr { kind: Kind::Stx, mode: Mode::Abs, cycles: 4, penalty: false },
        0x8F => Instr { kind: Kind::Sax, mode: Mode::Abs, cycles: 4, penalty: false },
        0x90 => Instr { kind: Kind::Bcc, mode: Mode::Imp, cycles: 2, penalty: false },
        0x91 => Instr { kind: Kind::Sta, mode: Mode::Indy, cycles: 6, penalty: false },
        0x92 => Instr { kind: Kind::Jam, mode: Mode::Imp, cycles: 2, penalty: false },
        0x94 => Instr { kind: Kind::Sty, mode: Mode::Zpx, cycles: 4, penalty: false },
        0x95 => Instr { kind: Kind::Sta, mode: Mode::Zpx, cycles: 4, penalty: false },
        0x96 => Instr { kind: Kind::Stx, mode: Mode::Zpy, cycles: 4, penalty: false },
        0x97 => Instr { kind: Kind::Sax, mode: Mode::Zpy, cycles: 4, penalty: false },
        0x98 => Instr { kind: Kind::Tya, mode: Mode::Imp, cycles: 2, penalty: false },
        0x99 => Instr { kind: Kind::Sta, mode: Mode::Absy, cycles: 5, penalty: false },
        0x9A => Instr { kind: Kind::Txs, mode: Mode::Imp, cycles: 2, penalty: false },
        0x9D => Instr { kind: Kind::Sta, mode: Mode::Absx, cycles: 5, penalty: false },
        0xA0 => Instr { kind: Kind::Ldy, mode: Mode::Imm, cycles: 2, penalty: false },
        0xA1 => Instr { kind: Kind::Lda, mode: Mode::Indx, cycles: 6, penalty: false },
        0xA2 => Instr { kind: Kind::Ldx, mode: Mode::Imm, cycles: 2, penalty: false },
        0xA3 => Instr { kind: Kind::Lax, mode: Mode::Indx, cycles: 6, penalty: false },
        0xA4 => Instr { kind: Kind::Ldy, mode: Mode::Zp, cycles: 3, penalty: false },
        0xA5 => Instr { kind: Kind::Lda, mode: Mode::Zp, cycles: 3, penalty: false },
        0xA6 => Instr { kind: Kind::Ldx, mode: Mode::Zp, cycles: 3, penalty: false },
        0xA7 => Instr { kind: Kind::Lax, mode: Mode::Zp, cycles: 3, penalty: false },
        0xA8 => Instr { kind: Kind::Tay, mode: Mode::Imp, cycles: 2, penalty: false },
        0xA9 => Instr { kind: Kind::Lda, mode: Mode::Imm, cycles: 2, penalty: false },
        0xAA => Instr { kind: Kind::Tax, mode: Mode::Imp, cycles: 2, penalty: false },
        0xAC => Instr { kind: Kind::Ldy, mode: Mode::Abs, cycles: 4, penalty: false },
        0xAD => Instr { kind: Kind::Lda, mode: Mode::Abs, cycles: 4, penalty: false },
        0xAE => Instr { kind: Kind::Ldx, mode: Mode::Abs, cycles: 4, penalty: false },
        0xAF => Instr { kind: Kind::Lax, mode: Mode::Abs, cycles: 4, penalty: false },
        0xB0 => Instr { kind: Kind::Bcs, mode: Mode::Imp, cycles: 2, penalty: false },
        0xB1 => Instr { kind: Kind::Lda, mode: Mode::Indy, cycles: 5, penalty: true },
        0xB2 => Instr { kind: Kind::Jam, mode: Mode::Imp, cycles: 2, penalty: false },
        0xB3 => Instr { kind: Kind::Lax, mode: Mode::Indy, cycles: 5, penalty: true },
        0xB4 => Instr { kind: Kind::Ldy, mode: Mode::Zpx, cycles: 4, penalty: false },
        0xB5 => Instr { kind: Kind::Lda, mode: Mode::Zpx, cycles: 4, penalty: false },
        0xB6 => Instr { kind: Kind::Ldx, mode: Mode::Zpy, cycles: 4, penalty: false },
        0xB7 => Instr { kind: Kind::Lax, mode: Mode::Zpy, cycles: 4, penalty: false },
        0xB8 => Instr { kind: Kind::Clv, mode: Mode::Imp, cycles: 2, penalty: false },
        0xB9 => Instr { kind: Kind::Lda, mode: Mode::Absy, cycles: 4, penalty: true },
        0xBA => Instr { kind: Kind::Tsx, mode: Mode::Imp, cycles: 2, penalty: false },
        0xBC => Instr { kind: Kind::Ldy, mode: Mode::Absx, cycles: 4, penalty: true },
        0xBD => Instr { kind: Kind::Lda, mode: Mode::Absx, cycles: 4, penalty: true },
        0xBE => Instr { kind: Kind::Ldx, mode: Mode::Absy, cycles: 4, penalty: true },
        0xBF => Instr { kind: Kind::Lax, mode: Mode::Absy, cycles: 4, penalty: true },
        0xC0 => Instr { kind: Kind::Cpy, mode: Mode::Imm, cycles: 2, penalty: false },
        0xC1 => Instr { kind: Kind::Cmp, mode: Mode::Indx, cycles: 6, penalty: false },
        0xC2 => Instr { kind: Kind::Nop, mode: Mode::Skip1, cycles: 2, penalty: false },
        0xC3 => Instr { kind: Kind::Dcp, mode: Mode::Indx, cycles: 8, penalty: false },
        0xC4 => Instr { kind: Kind::Cpy, mode: Mode::Zp, cycles: 3, penalty: false },
        0xC5 => Instr { kind: Kind::Cmp, mode: Mode::Zp, cycles: 3, penalty: false },
        0xC6 => Instr { kind: Kind::Dec, mode: Mode::Zp, cycles: 5, penalty: false },
        0xC7 => Instr { kind: Kind::Dcp, mode: Mode::Zp, cycles: 5, penalty: false },
        0xC8 => Instr { kind: Kind::Iny, mode: Mode::Imp, cycles: 2, penalty: false },
        0xC9 => Instr { kind: Kind::Cmp, mode: Mode::Imm, cycles: 2, penalty: false },
        0xCA => Instr { kind: Kind::Dex, mode: Mode::Imp, cycles: 2, penalty: false },
        0xCB => Instr { kind: Kind::Sbx, mode: Mode::Imm, cycles: 2, penalty: false },
        0xCC => Instr { kind: Kind::Cpy, mode: Mode::Abs, cycles: 4, penalty: false },
        0xCD => Instr { kind: Kind::Cmp, mode: Mode::Abs, cycles: 4, penalty: false },
        0xCE => Instr { kind: Kind::Dec, mode: Mode::Abs, cycles: 6, penalty: false },
        0xCF => Instr { kind: Kind::Dcp, mode: Mode::Abs, cycles: 6, penalty: false },
        0xD0 => Instr { kind: Kind::Bne, mode: Mode::Imp, cycles: 2, penalty: false },
        0xD1 => Instr { kind: Kind::Cmp, mode: Mode::Indy, cycles: 5, penalty: true },
        0xD2 => Instr { kind: Kind::Jam, mode: Mode::Imp, cycles: 2, penalty: false },
        0xD3 => Instr { kind: Kind::Dcp, mode: Mode::Indy, cycles: 8, penalty: false },
        0xD4 => Instr { kind: Kind::Nop, mode: Mode::Skip1, cycles: 4, penalty: false },
        0xD5 => Instr { kind: Kind::Cmp, mode: Mode::Zpx, cycles: 4, penalty: false },
        0xD6 => Instr { kind: Kind::Dec, mode: Mode::Zpx, cycles: 6, penalty: false },
        0xD7 => Instr { kind: Kind::Dcp, mode: Mode::Zpx, cycles: 6, penalty: false },
        0xD8 => Instr { kind: Kind::Cld, mode: Mode::Imp, cycles: 2, penalty: false },
        0xD9 => Instr { kind: Kind::Cmp, mode: Mode::Absy, cycles: 4, penalty: true },
        0xDA => Instr { kind: Kind::Nop, mode: Mode::Imp, cycles: 2, penalty: false },
        0xDB => Instr { kind: Kind::Dcp, mode: Mode::Absy, cycles: 7, penalty: false },
        0xDC => Instr { kind: Kind::Nop, mode: Mode::Absx, cycles: 4, penalty: true },
        0xDD => Instr { kind: Kind::Cmp, mode: Mode::Absx, cycles: 4, penalty: true },
        0xDE => Instr { kind: Kind::Dec, mode: Mode::Absx, cycles: 7, penalty: false },
        0xDF => Instr { kind: Kind::Dcp, mode: Mode::Absx, cycles: 7, penalty: false },
        0xE0 => Instr { kind: Kind::Cpx, mode: Mode::Imm, cycles: 2, penalty: false },
        0xE1 => Instr { kind: Kind::Sbc, mode: Mode::Indx, cycles: 6, penalty: false },
        0xE2 => Instr { kind: Kind::Nop, mode: Mode::Skip1, cycles: 2, penalty: false },
        0xE3 => Instr { kind: Kind::Isc, mode: Mode::Indx, cycles: 8, penalty: false },
        0xE4 => Instr { kind: Kind::Cpx, mode: Mode::Zp, cycles: 3, penalty: false },
        0xE5 => Instr { kind: Kind::Sbc, mode: Mode::Zp, cycles: 3, penalty: false },
        0xE6 => Instr { kind: Kind::Inc, mode: Mode::Zp, cycles: 5, penalty: false },
        0xE7 => Instr { kind: Kind::Isc, mode: Mode::Zp, cycles: 5, penalty: false },
        0xE8 => Instr { kind: Kind::Inx, mode: Mode::Imp, cycles: 2, penalty: false },
        0xE9 => Instr { kind: Kind::Sbc, mode: Mode::Imm, cycles: 2, penalty: false },
        0xEA => Instr { kind: Kind::Nop, mode: Mode::Imp, cycles: 2, penalty: false },
        0xEB => Instr { kind: Kind::Sbc, mode: Mode::Imm, cycles: 2, penalty: false },
        0xEC => Instr { kind: Kind::Cpx, mode: Mode::Abs, cycles: 4, penalty: false },
        0xED => Instr { kind: Kind::Sbc, mode: Mode::Abs, cycles: 4, penalty: false },
        0xEE => Instr { kind: Kind::Inc, mode: Mode::Abs, cycles: 6, penalty: false },
        0xEF => Instr { kind: Kind::Isc, mode: Mode::Abs, cycles: 6, penalty: false },
        0xF0 => Instr { kind: Kind::Beq, mode: Mode::Imp, cycles: 2, penalty: false },
        0xF1 => Instr { kind: Kind::Sbc, mode: Mode::Indy, cycles: 5, penalty: true },
        0xF2 => Instr { kind: Kind::Jam, mode: Mode::Imp, cycles: 2, penalty: false },
        0xF3 => Instr { kind: Kind::Isc, mode: Mode::Indy, cycles: 8, penalty: false },
        0xF4 => Instr { kind: Kind::Nop, mode: Mode::Skip1, cycles: 4, penalty: false },
        0xF5 => Instr { kind: Kind::Sbc, mode: Mode::Zpx, cycles: 4, penalty: false },
        0xF6 => Instr { kind: Kind::Inc, mode: Mode::Zpx, cycles: 6, penalty: false },
        0xF7 => Instr { kind: Kind::Isc, mode: Mode::Zpx, cycles: 6, penalty: false },
        0xF8 => Instr { kind: Kind::Sed, mode: Mode::Imp, cycles: 2, penalty: false },
        0xF9 => Instr { kind: Kind::Sbc, mode: Mode::Absy, cycles: 4, penalty: true },
        0xFA => Instr { kind: Kind::Nop, mode: Mode::Imp, cycles: 2, penalty: false },
        0xFB => Instr { kind: Kind::Isc, mode: Mode::Absy, cycles: 7, penalty: false },
        0xFC => Instr { kind: Kind::Nop, mode: Mode::Absx, cycles: 4, penalty: true },
        0xFD => Instr { kind: Kind::Sbc, mode: Mode::Absx, cycles: 4, penalty: true },
        0xFE => Instr { kind: Kind::Inc, mode: Mode::Absx, cycles: 7, penalty: false },
        0xFF => Instr { kind: Kind::Isc, mode: Mode::Absx, cycles: 7, penalty: false },
        _ => Instr { kind: Kind::Nop, mode: Mode::Imp, cycles: 2, penalty: false },
    }
}

/// Every opcode takes between 2 and 8 base cycles, and one with a page-cross
/// penalty at most 5, so that the penalty keeps it within 8.
pub proof fn lemma_decode_cycles(op: u8)
    ensures
        2 <= decode_spec(op).cycles <= 8,
        decode_spec(op).penalty ==> decode_spec(op).cycles <= 5,
{
}


/// The operation of a group-one opcode (low bits 01) by its top three bits:
/// ORA, AND, EOR, ADC, STA, LDA, CMP, SBC.
pub open spec fn group_one_kind(aaa: u8) -> Kind {
    if aaa == 0 {
        Kind::Ora
    } else if aaa == 1 {
        Kind::And
    } else if aaa == 2 {
        Kind::Eor
    } else if aaa == 3 {
        Kind::Adc
    } else if aaa == 4 {
        Kind::Sta
    } else if aaa == 5 {
        Kind::Lda
    } else if aaa == 6 {
        Kind::Cmp
    } else {
        Kind::Sbc
    }
}

/// The addressing mode of a group-one opcode by its middle three bits:
/// (zp,X), zp, #imm, abs, (zp),Y, zp,X, abs,Y, abs,X.
pub open spec fn group_one_mode(bbb: u8) -> Mode {
    if bbb == 0 {
        Mode::Indx
    } else if bbb == 1 {
        Mode::Zp
    } else if bbb == 2 {
        Mode::Imm
    } else if bbb == 3 {
        Mode::Abs
    } else if bbb == 4 {
        Mode::Indy
    } else if bbb == 5 {
        Mode::Zpx
    } else if bbb == 6 {
        Mode::Absy
    } else {
        Mode::Absx
    }
}

/// The opcode matrix `aaabbbcc` of the 6502 for the ALU operations: an
/// opcode with low bits 01 performs the operation its top three bits name
/// in the mode its middle three bits name (the one gap, STA #imm at $89,
/// is a two-byte no-op). The index-register comparisons sit in the column
/// below: CPY at $C0, $C4, $CC and CPX at $E0, $E4, $EC, immediate, zero
/// page and absolute.
pub proof fn law_opcode_matrix(op: u8)
    ensures
        op % 4 == 1 && op != 0x89 ==> decode_spec(op).kind == group_one_kind(op / 32)
            && decode_spec(op).mode == group_one_mode((op / 4) % 8),
        (op / 32 == 6 || op / 32 == 7) && (op % 32 == 0 || op % 32 == 4 || op % 32 == 12) ==> {
            &&& decode_spec(op).kind == (if op / 32 == 6 { Kind::Cpy } else { Kind::Cpx })
            &&& decode_spec(op).mode == (if op % 32 == 0 { Mode::Imm } else if op % 32 == 4 { Mode::Zp } else { Mode::Abs })
        },
{
}

} // verus!
