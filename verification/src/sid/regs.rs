//! The SID register file as the CPU sees it: reads, and the decoding of
//! writes for the host's synthesiser.

use vstd::prelude::*;
use super::envelope::{gated, Envelope};
use super::voice::Voice;

verus! {

/// Something the host's synthesiser must replay, in order: a register write,
/// or the passing of CPU cycles.
#[derive(Copy, Clone, Debug, PartialEq, Eq, Structural)]
pub enum SidEvent {
    /// The CPU wrote `val` to `addr` ($D400-$D7FF).
    Write { addr: u16, val: u8 },
    /// `cycles` CPU cycles passed.
    Clock { cycles: u32 },
}

/// A register of one voice.
#[derive(Copy, Clone, Debug, PartialEq, Eq, Structural)]
pub enum VoiceReg {
    /// Frequency, low byte.
    FreqLo,
    /// Frequency, high byte.
    FreqHi,
    /// Pulse width, low byte.
    PulseLo,
    /// Pulse width, high nibble.
    PulseHi,
    /// Control (waveforms, TEST, RING, SYNC, GATE).
    Control,
    /// Attack / decay.
    AttackDecay,
    /// Sustain / release.
    SustainRelease,
}

/// Where a register write lands.
#[derive(Copy, Clone, Debug, PartialEq, Eq, Structural)]
pub enum SidTarget {
    /// A register of voice `voice` (0-2).
    Voice { voice: u8, reg: VoiceReg },
    /// $D415: filter cutoff, low 3 bits.
    CutoffLo,
    /// $D416: filter cutoff, high 8 bits.
    CutoffHi,
    /// $D417: resonance and filter routing.
    ResonanceRouting,
    /// $D418: filter mode and master volume.
    ModeVolume,
    /// Read-only or unused.
    Nothing,
}

/// The value a read of `addr` gives: the paddle registers POTX/POTY
/// ($19/$1A, paddles not wired) read $FF, the write-only rest 0.
pub open spec fn sid_read_value(addr: u16) -> u8 {
    let reg = addr & 0x1F;
    if reg == 0x19 || reg == 0x1A { 0xFF } else { 0x00 }
}

/// The voice register at offset `r` (0-6) of a voice's seven.
pub open spec fn voice_reg_at(r: u8) -> VoiceReg {
    if r == 0 { VoiceReg::FreqLo }
    else if r == 1 { VoiceReg::FreqHi }
    else if r == 2 { VoiceReg::PulseLo }
    else if r == 3 { VoiceReg::PulseHi }
    else if r == 4 { VoiceReg::Control }
    else if r == 5 { VoiceReg::AttackDecay }
    else { VoiceReg::SustainRelease }
}

/// Where a write to `addr` lands (the address is mirrored every 32 bytes):
/// registers $00-$14 are the three voices, seven each.
pub open spec fn sid_target_of(addr: u16) -> SidTarget {
    let reg = (addr & 0x1F) as u8;
    if reg <= 0x14 {
        SidTarget::Voice { voice: reg / 7, reg: voice_reg_at(reg % 7) }
    } else if reg == 0x15 {
        SidTarget::CutoffLo
    } else if reg == 0x16 {
        SidTarget::CutoffHi
    } else if reg == 0x17 {
        SidTarget::ResonanceRouting
    } else if reg == 0x18 {
        SidTarget::ModeVolume
    } else {
        SidTarget::Nothing
    }
}

/// A voice after register `reg` is written with `val`: the frequency and
/// pulse-width bytes and the control register live in the voice; the
/// envelope registers do not touch it.
pub open spec fn voice_written(v: Voice, reg: VoiceReg, val: u8) -> Voice {
    match reg {
        VoiceReg::FreqLo => Voice { freq: (v.freq & 0xFF00) | val as u16, ..v },
        VoiceReg::FreqHi => Voice { freq: (v.freq & 0x00FF) | ((val as u16) << 8), ..v },
        VoiceReg::PulseLo => Voice { pw: (v.pw & 0x0F00) | val as u16, ..v },
        VoiceReg::PulseHi => Voice { pw: (v.pw & 0x00FF) | (((val & 0x0F) as u16) << 8), ..v },
        VoiceReg::Control => Voice { control: val, ..v },
        _ => v,
    }
}

/// Read a SID register. Most registers are write-only; reads return 0.
pub fn sid_read(addr: u16) -> (r: u8)
    ensures
        r == sid_read_value(addr),
{
    let reg = addr & 0x1F;
    if reg == 0x19 || reg == 0x1A {
        0xFF // POTX / POTY (paddles not wired)
    } else {
        0x00
    }
}

/// Decode where a write to `addr` lands.
pub fn sid_target(addr: u16) -> (r: SidTarget)
    ensures
        r == sid_target_of(addr),
{
    let reg = (addr & 0x1F) as u8;
    if reg <= 0x14 {
        let v = reg / 7;
        let r = reg % 7;
        let vr = if r == 0 {
            VoiceReg::FreqLo
        } else if r == 1 {
            VoiceReg::FreqHi
        } else if r == 2 {
            VoiceReg::PulseLo
        } else if r == 3 {
            VoiceReg::PulseHi
        } else if r == 4 {
            VoiceReg::Control
        } else if r == 5 {
            VoiceReg::AttackDecay
        } else {
            VoiceReg::SustainRelease
        };
        SidTarget::Voice { voice: v, reg: vr }
    } else if reg == 0x15 {
        SidTarget::CutoffLo
    } else if reg == 0x16 {
        SidTarget::CutoffHi
    } else if reg == 0x17 {
        SidTarget::ResonanceRouting
    } else if reg == 0x18 {
        SidTarget::ModeVolume
    } else {
        SidTarget::Nothing
    }
}

/// Apply a register write to a voice's oscillator registers.
pub fn write_voice_reg(v: &mut Voice, reg: VoiceReg, val: u8)
    ensures
        *final(v) == voice_written(*old(v), reg, val),
{
    match reg {
        VoiceReg::FreqLo => { v.freq = (v.freq & 0xFF00) | val as u16; },
        VoiceReg::FreqHi => { v.freq = (v.freq & 0x00FF) | ((val as u16) << 8); },
        VoiceReg::PulseLo => { v.pw = (v.pw & 0x0F00) | val as u16; },
        VoiceReg::PulseHi => { v.pw = (v.pw & 0x00FF) | (((val & 0x0F) as u16) << 8); },
        VoiceReg::Control => { v.control = val; },
        _ => {},
    }
}

/// A voice's envelope after register `reg` is written with `val`: bit 0 of
/// the control register is the key bit, and the attack/decay and
/// sustain/release registers are two nibbles each; other registers leave
/// the envelope unchanged.
pub open spec fn envelope_written(e: Envelope, reg: VoiceReg, val: u8) -> Envelope {
    match reg {
        VoiceReg::Control => gated(e, val & 0x01 != 0),
        VoiceReg::AttackDecay => Envelope { attack: val >> 4, decay: val & 0x0F, ..e },
        VoiceReg::SustainRelease => Envelope { sustain: val >> 4, release: val & 0x0F, ..e },
        _ => e,
    }
}

/// Apply a register write to a voice's envelope.
pub fn write_envelope_reg(e: &mut Envelope, reg: VoiceReg, val: u8)
    ensures
        *final(e) == envelope_written(*old(e), reg, val),
{
    match reg {
        VoiceReg::Control => e.gate(val & 0x01 != 0),
        VoiceReg::AttackDecay => e.set_ad(val),
        VoiceReg::SustainRelease => e.set_sr(val),
        _ => {},
    }
}

/// Writing a voice's two frequency bytes sets its 16-bit frequency to them,
/// whatever it was; the pulse width keeps to 12 bits.
pub proof fn law_frequency_bytes_compose(v: Voice, lo: u8, hi: u8)
    ensures
        voice_written(voice_written(v, VoiceReg::FreqLo, lo), VoiceReg::FreqHi, hi).freq
            == (lo as u16) | ((hi as u16) << 8),
        v.pw <= 0xFFF ==> voice_written(v, VoiceReg::PulseHi, hi).pw <= 0xFFF,
        v.pw <= 0xFFF ==> voice_written(v, VoiceReg::PulseLo, lo).pw <= 0xFFF,
{
    let f = v.freq;
    let p = v.pw;
    assert(((((f & 0xFF00) | lo as u16) & 0x00FF) | ((hi as u16) << 8)) == (lo as u16) | ((hi as u16) << 8)) by (bit_vector);
    assert(p <= 0xFFF ==> ((p & 0x00FF) | (((hi & 0x0F) as u16) << 8)) <= 0xFFF) by (bit_vector);
    assert(p <= 0xFFF ==> ((p & 0x0F00) | lo as u16) <= 0xFFF) by (bit_vector);
}

} // verus!
