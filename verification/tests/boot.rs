//! Integration smoke tests: boot the emulator and verify basic behaviour
//! without real Commodore ROMs.

use retro64_core::system::FrameEnd;
use retro64_core::{Config, Model, C64};

/// Run until the current frame is complete, answering any sine/cosine
/// request of the compute unit as a host would.
fn complete_frame(emu: &mut C64) {
    loop {
        match emu.run_frame() {
            FrameEnd::Complete => return,
            FrameEnd::Trig(req) => {
                let rad = (req.angle as f64) / 256.0;
                let v = if req.cosine { rad.cos() } else { rad.sin() };
                emu.finish_trig((v * 256.0) as i32 as u32);
            }
        }
    }
}

#[test]
fn c64_boots_with_stub_roms() {
    let mut cfg = Config::default();
    cfg.model = Model::Pal;
    let mut emu = C64::new(cfg);
    // Run ten frames; the stub KERNAL does an infinite JMP loop, which is
    // fine — we just need the system to not panic.
    for _ in 0..10 {
        complete_frame(&mut emu);
    }
    assert_eq!(emu.screen_width(), 403);
    assert_eq!(emu.screen_height(), 284);
}

#[test]
fn ntsc_dimensions() {
    let mut cfg = Config::default();
    cfg.model = Model::Ntsc;
    let emu = C64::new(cfg);
    assert_eq!(emu.screen_width(), 411);
    assert_eq!(emu.screen_height(), 234);
    let m = emu.model();
    let fps = m.cpu_hz() as f32 / (m.lines_per_frame() * m.cycles_per_line()) as f32;
    assert!((fps - 59.826).abs() < 0.1);
}

#[test]
fn framebuffer_is_populated() {
    let mut emu = C64::new(Config::default());
    complete_frame(&mut emu);
    let fb = emu.framebuffer();
    assert_eq!(fb.len(), (403 * 284) as usize);
    // At least the border colour (non-zero).
    assert!(fb.iter().any(|p| *p != 0));
}

#[test]
fn load_prg_accepts_basic_program() {
    // PRG: load address $0801, body = one BASIC byte
    let prg = [0x01u8, 0x08, 0x00, 0x00];
    let mut emu = C64::new(Config::default());
    assert!(emu.load_prg(&prg).is_ok());
}
