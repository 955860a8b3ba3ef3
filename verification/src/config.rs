//! Configuration types for the emulator.

use vstd::prelude::*;
use std::path::PathBuf;

verus! {

/// A host path, carried through the configuration unexamined.
#[verifier::external_type_specification]
#[verifier::external_body]
pub struct ExPathBuf(std::path::PathBuf);

/// Commodore 64 hardware model.
#[derive(Copy, Clone, Debug, PartialEq, Eq, Structural)]
pub enum Model {
    /// 50 Hz European model: 985248 Hz, 312 scanlines, 63 cycles/line.
    Pal,
    /// 60 Hz North American model: 1022727 Hz, 263 scanlines, 65 cycles/line.
    Ntsc,
}

/// Which CIA1 port the host joystick is wired to.
#[derive(Copy, Clone, Debug, PartialEq, Eq, Structural)]
pub enum JoystickPort {
    /// CIA1 Port A (bits 0-4).
    Port1,
    /// CIA1 Port B (bits 0-4).
    Port2,
}

impl Model {
    /// CPU clock frequency in Hz.
    pub open spec fn hz(self) -> u32 {
        match self {
            Model::Pal => 985_248,
            Model::Ntsc => 1_022_727,
        }
    }

    /// Scanlines per frame.
    pub open spec fn lines(self) -> u32 {
        match self {
            Model::Pal => 312,
            Model::Ntsc => 263,
        }
    }

    /// CPU cycles per scanline.
    pub open spec fn line_cycles(self) -> u32 {
        match self {
            Model::Pal => 63,
            Model::Ntsc => 65,
        }
    }

    /// Framebuffer width.
    pub open spec fn width(self) -> u32 {
        match self {
            Model::Pal => 403,
            Model::Ntsc => 411,
        }
    }

    /// Framebuffer height.
    pub open spec fn height(self) -> u32 {
        match self {
            Model::Pal => 284,
            Model::Ntsc => 234,
        }
    }

    /// CPU clock frequency (approximate) in Hz.
    pub fn cpu_hz(self) -> (r: u32)
        ensures
            r == self.hz(),
    {
        match self {
            Model::Pal => 985_248,
            Model::Ntsc => 1_022_727,
        }
    }

    /// Number of scanlines per frame (including vertical blank).
    pub fn lines_per_frame(self) -> (r: u32)
        ensures
            r == self.lines(),
    {
        match self {
            Model::Pal => 312,
            Model::Ntsc => 263,
        }
    }

    /// Nominal CPU cycles per scanline.
    pub fn cycles_per_line(self) -> (r: u32)
        ensures
            r == self.line_cycles(),
    {
        match self {
            Model::Pal => 63,
            Model::Ntsc => 65,
        }
    }

    /// Framebuffer width including horizontal borders.
    pub fn screen_width(self) -> (r: u32)
        ensures
            r == self.width(),
    {
        match self {
            Model::Pal => 403,
            Model::Ntsc => 411,
        }
    }

    /// Framebuffer height including vertical borders.
    pub fn screen_height(self) -> (r: u32)
        ensures
            r == self.height(),
    {
        match self {
            Model::Pal => 284,
            Model::Ntsc => 234,
        }
    }
}

/// Runtime configuration passed to the emulator.
#[derive(Clone, Debug)]
pub struct Config {
    /// Hardware model (PAL or NTSC).
    pub model: Model,
    /// If true, frame limiter is bypassed (frontend hint).
    pub warp: bool,
    /// Enable host filesystem (device #10) and compute offload ($DE00).
    pub extensions_enabled: bool,
    /// Host filesystem root directory (only honoured by extension
    /// backends that can read the host FS).
    pub hostfs_root: Option<PathBuf>,
    /// Which joystick port the host joystick maps to.
    pub joystick_port: JoystickPort,
    /// ROM directory containing `basic`, `kernal`, `chargen` files.
    pub rom_dir: Option<PathBuf>,
    /// Desktop window scale factor.
    pub scale: u32,
    /// Audio output sample rate in Hz.
    pub sample_rate: u32,
}

impl Default for Config {
    /// PAL, no warp, no extensions, joystick in port 2, scale 2, 48 kHz.
    fn default() -> (r: Self)
        ensures
            r.model == Model::Pal,
            !r.warp,
            !r.extensions_enabled,
            r.hostfs_root.is_none(),
            r.joystick_port == JoystickPort::Port2,
            r.rom_dir.is_none(),
            r.scale == 2,
            r.sample_rate == 48_000,
    {
        Config {
            model: Model::Pal,
            warp: false,
            extensions_enabled: false,
            hostfs_root: None,
            joystick_port: JoystickPort::Port2,
            rom_dir: None,
            scale: 2,
            sample_rate: 48_000,
        }
    }
}

} // verus!
