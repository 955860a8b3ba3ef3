//! SID voice oscillator (phase accumulator + waveform select).

use vstd::prelude::*;

verus! {

/// One SID voice.
#[derive(Copy, Clone)]
pub struct Voice {
    /// 24-bit phase accumulator.
    pub phase: u32,
    /// 16-bit frequency step per CPU cycle.
    pub freq: u16,
    /// 12-bit pulse width threshold.
    pub pw: u16,
    /// Voice control register bits (GATE, SYNC, RING, TEST, W_TRI, W_SAW, W_PUL, W_NOI).
    pub control: u8,
    /// Noise LFSR (23-bit).
    pub lfsr: u32,
}

/// The noise register after one clock: shifted left within 23 bits, the
/// feedback (bit 22 xor bit 17) entering at bit 0.
pub open spec fn lfsr_next(l: u32) -> u32 {
    let feed = ((l >> 22) ^ (l >> 17)) & 1;
    ((l << 1) & 0x7FFFFF) | feed
}

/// The voice after one CPU cycle: with TEST set the phase is held at 0;
/// otherwise it advances by the frequency modulo 2^24, and the noise
/// register is clocked when bit 19 of the phase rises.
pub open spec fn voice_after_step(v: Voice) -> Voice {
    if v.control & 0x08 != 0 {
        Voice { phase: 0, ..v }
    } else {
        let phase = ((v.phase + v.freq) as u32) & 0xFFFFFF;
        if (v.phase & 0x080000) == 0 && (phase & 0x080000) != 0 {
            Voice { phase: phase, lfsr: lfsr_next(v.lfsr), ..v }
        } else {
            Voice { phase: phase, ..v }
        }
    }
}

/// The 12 noise output bits picked from the noise register.
pub open spec fn noise_bits(n: u32) -> u32 {
    ((n & 0x400000) >> 11) | ((n & 0x100000) >> 10) | ((n & 0x010000) >> 7) | ((n & 0x002000) >> 5)
        | ((n & 0x000800) >> 4) | ((n & 0x000080) >> 1) | ((n & 0x000010) << 1) | ((n & 0x000004) << 2)
}

/// The 12-bit waveform output: the selected waveforms (triangle, sawtooth,
/// pulse, noise; control bits 4-7) ANDed together, or the midpoint $800 when
/// none is selected.
pub open spec fn voice_output(v: Voice) -> u16 {
    let w = v.control >> 4;
    let o0: u16 = 0xFFF;
    let o1: u16 = if w & 0x01 != 0 {
        let p = if v.phase & 0x800000 != 0 { !v.phase } else { v.phase };
        o0 & (((p >> 11) & 0xFFF) as u16)
    } else {
        o0
    };
    let o2: u16 = if w & 0x02 != 0 { o1 & (((v.phase >> 12) as u16) & 0xFFF) } else { o1 };
    let o3: u16 = if w & 0x04 != 0 {
        o2 & (if ((v.phase >> 12) as u16) >= v.pw { 0xFFFu16 } else { 0u16 })
    } else {
        o2
    };
    let o4: u16 = if w & 0x08 != 0 { o3 & ((noise_bits(v.lfsr) as u16) & 0xFFF) } else { o3 };
    if w == 0 { 0x800 } else { o4 }
}

impl Voice {
    /// Create an idle voice.
    pub fn new() -> (r: Self)
        ensures
            r == (Voice { phase: 0, freq: 0, pw: 0, control: 0, lfsr: 0x7FFFFF }),
    {
        Voice { phase: 0, freq: 0, pw: 0, control: 0, lfsr: 0x7FFFFF }
    }

    /// Advance phase by one CPU cycle and clock noise if pulse bit 19 toggled.
    pub fn step(&mut self)
        requires
            old(self).phase + old(self).freq <= u32::MAX,
        ensures
            *final(self) == voice_after_step(*old(self)),
    {
        if self.control & 0x08 != 0 {
            // TEST bit: phase locked at 0
            self.phase = 0;
            return;
        }
        let prev = self.phase;
        self.phase = (self.phase + self.freq as u32) & 0xFFFFFF;
        // Noise LFSR clocks on rising edge of bit 19
        if (prev & 0x080000) == 0 && (self.phase & 0x080000) != 0 {
            let feed = ((self.lfsr >> 22) ^ (self.lfsr >> 17)) & 1;
            self.lfsr = ((self.lfsr << 1) & 0x7FFFFF) | feed;
        }
    }

    /// Current waveform output (12-bit unsigned, centered at 0x800).
    pub fn output(&self) -> (r: u16)
        ensures
            r == voice_output(*self),
    {
        let mut out: u16 = 0xFFF;
        let waveforms = self.control >> 4;
        if waveforms & 0x01 != 0 {
            // Triangle: fold top half of phase
            let p = if self.phase & 0x800000 != 0 { !self.phase } else { self.phase };
            out = out & (((p >> 11) & 0xFFF) as u16);
        }
        if waveforms & 0x02 != 0 {
            // Sawtooth: high 12 bits of phase
            out = out & (((self.phase >> 12) as u16) & 0xFFF);
        }
        if waveforms & 0x04 != 0 {
            // Pulse
            let p = (self.phase >> 12) as u16;
            let on = p >= self.pw;
            out = out & (if on { 0xFFF } else { 0x000 });
        }
        if waveforms & 0x08 != 0 {
            // Noise: pick 12 bits out of LFSR
            let n = self.lfsr;
            let nb = ((n & 0x400000) >> 11) | ((n & 0x100000) >> 10) | ((n & 0x010000) >> 7)
                | ((n & 0x002000) >> 5) | ((n & 0x000800) >> 4) | ((n & 0x000080) >> 1)
                | ((n & 0x000010) << 1) | ((n & 0x000004) << 2);
            out = out & ((nb as u16) & 0xFFF);
        }
        if waveforms == 0 {
            0x800
        } else {
            out
        }
    }
}

/// The phase accumulator stays a 24-bit value and the noise register a
/// 23-bit one: a voice that starts within those widths stays within them
/// and never overflows its next step.
pub proof fn law_voice_registers_stay_in_width(v: Voice)
    requires
        v.phase <= 0xFFFFFF,
        v.lfsr <= 0x7FFFFF,
    ensures
        voice_after_step(v).phase <= 0xFFFFFF,
        voice_after_step(v).lfsr <= 0x7FFFFF,
        v.phase + v.freq <= u32::MAX,
{
    let p = ((v.phase + v.freq) as u32);
    let l = v.lfsr;
    assert(p & 0xFFFFFF <= 0xFFFFFF) by (bit_vector);
    assert((((l << 1) & 0x7FFFFF) | (((l >> 22) ^ (l >> 17)) & 1)) <= 0x7FFFFF) by (bit_vector);
}

/// The output is a 12-bit sample.
pub proof fn law_voice_output_is_12_bit(v: Voice)
    ensures
        voice_output(v) <= 0xFFF,
{
    let w = v.control >> 4;
    let o0: u16 = 0xFFF;
    let p = if v.phase & 0x800000 != 0 { !v.phase } else { v.phase };
    let a = ((p >> 11) & 0xFFF) as u16;
    let b = ((v.phase >> 12) as u16) & 0xFFF;
    let c = (noise_bits(v.lfsr) as u16) & 0xFFF;
    assert(forall|x: u16, y: u16| x <= 0xFFF ==> #[trigger] (x & y) <= 0xFFF) by (bit_vector);
}

/// With the TEST bit set the oscillator is held at phase 0.
pub proof fn law_test_bit_holds_phase(v: Voice)
    requires
        v.control & 0x08 != 0,
    ensures
        voice_after_step(v).phase == 0,
        voice_after_step(v).lfsr == v.lfsr,
{
}

} // verus!
