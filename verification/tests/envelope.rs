//! SID envelope phases.

use retro64_core::sid::envelope::{EnvPhase, Envelope};

#[test]
fn gate_on_starts_attack() {
    let mut e = Envelope::new();
    e.set_ad(0x00);
    e.gate(true);
    assert_eq!(e.phase, EnvPhase::Attack);
}

#[test]
fn gate_off_starts_release() {
    let mut e = Envelope::new();
    e.gate(true);
    e.gate(false);
    assert_eq!(e.phase, EnvPhase::Release);
}

#[test]
fn envelope_runs_through_its_phases() {
    let mut e = Envelope::new();
    e.set_ad(0x21);
    e.set_sr(0x83);
    assert_eq!((e.attack, e.decay, e.sustain, e.release), (2, 1, 8, 3));
    e.gate(true);
    assert_eq!(e.rate(), Some((2, false)));
    // Without a due step nothing moves.
    assert!(!e.cycle(false));
    assert_eq!(e.value(), 0);
    let mut restarts = 0;
    for _ in 0..255 {
        if e.cycle(true) {
            restarts += 1;
        }
    }
    assert_eq!(restarts, 1);
    assert_eq!(e.value(), 255);
    assert_eq!(e.phase, EnvPhase::Decay);
    assert_eq!(e.rate(), Some((1, true)));
    while e.phase == EnvPhase::Decay {
        e.cycle(true);
    }
    assert_eq!(e.phase, EnvPhase::Sustain);
    assert_eq!(e.value(), 0x88);
    assert_eq!(e.rate(), None);
    e.gate(false);
    assert_eq!(e.rate(), Some((3, true)));
    for _ in 0..0x88 {
        e.cycle(true);
    }
    assert_eq!(e.value(), 0);
    assert_eq!(e.phase, EnvPhase::Idle);
}
