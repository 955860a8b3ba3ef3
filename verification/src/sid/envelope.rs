//! SID ADSR envelope: the phases, the level and the registers. How fast the
//! level moves is a matter of time, which the host measures; each time its
//! clock says a step is due, [`Envelope::cycle`] takes it.

use vstd::prelude::*;

verus! {

/// Envelope phase.
#[derive(Copy, Clone, Debug, PartialEq, Eq, Structural)]
pub enum EnvPhase {
    /// Rising to the peak.
    Attack,
    /// Falling to the sustain level.
    Decay,
    /// Level fixed at the sustain level.
    Sustain,
    /// Falling to zero once the key bit is cleared.
    Release,
    /// Silent.
    Idle,
}

/// SID ADSR envelope generator.
#[derive(Copy, Clone, Debug)]
pub struct Envelope {
    /// Current phase.
    pub phase: EnvPhase,
    /// Current level, 0-255.
    pub value: u8,
    /// Attack rate nibble.
    pub attack: u8,
    /// Decay rate nibble.
    pub decay: u8,
    /// Sustain level nibble.
    pub sustain: u8,
    /// Release rate nibble.
    pub release: u8,
    /// Key bit (control register bit 0) as last written.
    pub gate: bool,
}

/// The level the sustain nibble `s` holds: the nibble repeated, $00-$FF.
pub open spec fn sustain_level(s: u8) -> int {
    s * 0x11
}

/// The envelope after one cycle: in the sustain phase the level is the
/// sustain level; in attack, decay and release, when a step is `due`, the
/// level moves one count (attack up to the peak, where decay begins; decay
/// down to the sustain level, where sustain begins; release down to zero,
/// where the envelope goes idle). Also whether the host's rate clock starts
/// afresh (on reaching the peak).
pub open spec fn env_cycle(e: Envelope, due: bool) -> (Envelope, bool) {
    match e.phase {
        EnvPhase::Attack => if due {
            let v = if e.value < 255 { (e.value + 1) as u8 } else { e.value };
            if v == 255 { (Envelope { value: v, phase: EnvPhase::Decay, ..e }, true) } else { (Envelope { value: v, ..e }, false) }
        } else {
            (e, false)
        },
        EnvPhase::Decay => if due {
            let s = sustain_level(e.sustain);
            let v = if e.value > s { (e.value - 1) as u8 } else { e.value };
            (Envelope { value: v, phase: if v <= s { EnvPhase::Sustain } else { EnvPhase::Decay }, ..e }, false)
        } else {
            (e, false)
        },
        EnvPhase::Sustain => (Envelope { value: sustain_level(e.sustain) as u8, ..e }, false),
        EnvPhase::Release => if due {
            let v = if e.value > 0 { (e.value - 1) as u8 } else { e.value };
            (Envelope { value: v, phase: if v == 0 { EnvPhase::Idle } else { EnvPhase::Release }, ..e }, false)
        } else {
            (e, false)
        },
        EnvPhase::Idle => (e, false),
    }
}

/// The envelope after its key bit is written `on`: on after off starts
/// the attack, off after on starts the release, no change keeps the phase.
pub open spec fn gated(e: Envelope, on: bool) -> Envelope {
    Envelope {
        gate: on,
        phase: if on && !e.gate { EnvPhase::Attack } else if !on && e.gate { EnvPhase::Release } else { e.phase },
        ..e
    }
}

impl Envelope {
    /// Create an idle envelope.
    pub fn new() -> (r: Self)
        ensures
            r == (Envelope { phase: EnvPhase::Idle, value: 0, attack: 0, decay: 0, sustain: 0, release: 0, gate: false }),
    {
        Envelope { phase: EnvPhase::Idle, value: 0, attack: 0, decay: 0, sustain: 0, release: 0, gate: false }
    }

    /// Set attack (high nibble) and decay (low nibble) from $Dx05.
    pub fn set_ad(&mut self, v: u8)
        ensures
            *final(self) == (Envelope { attack: v >> 4, decay: v & 0x0F, ..*old(self) }),
    {
        self.attack = v >> 4;
        self.decay = v & 0x0F;
    }

    /// Set sustain (high nibble) and release (low nibble) from $Dx06.
    pub fn set_sr(&mut self, v: u8)
        ensures
            *final(self) == (Envelope { sustain: v >> 4, release: v & 0x0F, ..*old(self) }),
    {
        self.sustain = v >> 4;
        self.release = v & 0x0F;
    }

    /// Key bit transition: on after off starts the attack, off after on
    /// starts the release, no change keeps the phase.
    pub fn gate(&mut self, on: bool)
        ensures
            *final(self) == gated(*old(self), on),
    {
        if on && !self.gate {
            self.phase = EnvPhase::Attack;
        } else if !on && self.gate {
            self.phase = EnvPhase::Release;
        }
        self.gate = on;
    }

    /// The rate nibble of the current phase, and whether the phase runs at
    /// three times the attack time for that nibble (decay and release do);
    /// `None` in sustain and idle, whose level does not move with time.
    pub fn rate(&self) -> (r: Option<(u8, bool)>)
        ensures
            r == (match self.phase {
                EnvPhase::Attack => Some((self.attack, false)),
                EnvPhase::Decay => Some((self.decay, true)),
                EnvPhase::Release => Some((self.release, true)),
                _ => None,
            }),
    {
        match self.phase {
            EnvPhase::Attack => Some((self.attack, false)),
            EnvPhase::Decay => Some((self.decay, true)),
            EnvPhase::Release => Some((self.release, true)),
            _ => None,
        }
    }

    /// One cycle of the envelope; `due` says whether the host's rate clock
    /// has called for a step. Returns whether that clock starts afresh.
    pub fn cycle(&mut self, due: bool) -> (restart: bool)
        ensures
            (*final(self), restart) == env_cycle(*old(self), due),
    {
        match self.phase {
            EnvPhase::Attack => {
                if due {
                    if self.value < 255 {
                        self.value = self.value + 1;
                    }
                    if self.value == 255 {
                        self.phase = EnvPhase::Decay;
                        return true;
                    }
                }
                false
            },
            EnvPhase::Decay => {
                if due {
                    let sus = self.sustain as u16 * 0x11;
                    if (self.value as u16) > sus {
                        self.value = self.value - 1;
                    }
                    if (self.value as u16) <= sus {
                        self.phase = EnvPhase::Sustain;
                    }
                }
                false
            },
            EnvPhase::Sustain => {
                self.value = (self.sustain as u16 * 0x11) as u8;
                false
            },
            EnvPhase::Release => {
                if due {
                    if self.value > 0 {
                        self.value = self.value - 1;
                    }
                    if self.value == 0 {
                        self.phase = EnvPhase::Idle;
                    }
                }
                false
            },
            EnvPhase::Idle => false,
        }
    }

    /// Current envelope level 0..255.
    pub fn value(&self) -> (r: u8)
        ensures
            r == self.value,
    {
        self.value
    }
}

} // verus!
