//! Command-line options of the desktop frontend, and the configuration and
//! media choices they make.

use vstd::prelude::*;
use std::path::PathBuf;
use crate::config::{Config, JoystickPort, Model};
use crate::storage::{ext_is, extension_of, kind_for_extension, kind_from_name, lower, MediaKind};

verus! {

/// Command-line options.
#[derive(Debug, Clone)]
pub struct Args {
    /// PRG/D64/T64 file to load at startup.
    pub load: Option<PathBuf>,
    /// Directory containing real Commodore ROMs (basic, kernal, chargen).
    pub rom_dir: Option<PathBuf>,
    /// Model: pal or ntsc.
    pub model: String,
    /// Run at maximum speed (frame limiter disabled).
    pub warp: bool,
    /// Enable host filesystem and compute offload extensions.
    pub extensions: bool,
    /// Directory exposed via virtual IEC device #10.
    pub hostfs: Option<PathBuf>,
    /// Joystick port (1 or 2).
    pub joystick_port: u8,
    /// Window scale factor.
    pub scale: u32,
}

/// Whether a model name is "ntsc", in any mix of upper and lower case.
pub open spec fn names_ntsc(name: Seq<char>) -> bool {
    ext_is(name, seq!['n', 't', 's', 'c'])
}

/// The model a name selects: NTSC for "ntsc" in any case, PAL otherwise.
pub fn model_from_name(name: &str) -> (r: Model)
    ensures
        r == (if names_ntsc(name@) { Model::Ntsc } else { Model::Pal }),
{
    if name.unicode_len() != 4 {
        return Model::Pal;
    }
    let ntsc = lower(name.get_char(0)) == 'n' && lower(name.get_char(1)) == 't'
        && lower(name.get_char(2)) == 's' && lower(name.get_char(3)) == 'c';
    proof {
        let lit = seq!['n', 't', 's', 'c'];
        if ntsc {
            assert forall|i: int| 0 <= i < name@.len() implies ascii_lower_is(name@, lit, i) by {
                if i == 0 {} else if i == 1 {} else if i == 2 {} else {}
            }
        }
    }
    if ntsc { Model::Ntsc } else { Model::Pal }
}

/// Whether character `i` of `s`, lower-cased, is character `i` of `lit`.
spec fn ascii_lower_is(s: Seq<char>, lit: Seq<char>, i: int) -> bool {
    crate::storage::ascii_lower(s[i]) == lit[i]
}

/// The emulator configuration the options select: the model by name, the
/// warp and extension switches, the host directory and ROM directory as
/// given, joystick port 1 when 1 is asked for and port 2 otherwise, and a
/// window scale of at least 1.
pub fn config_from_args(args: Args) -> (cfg: Config)
    ensures
        cfg.model == (if names_ntsc(args.model@) { Model::Ntsc } else { Model::Pal }),
        cfg.warp == args.warp,
        cfg.extensions_enabled == args.extensions,
        cfg.hostfs_root == args.hostfs,
        cfg.joystick_port == (if args.joystick_port == 1 { JoystickPort::Port1 } else { JoystickPort::Port2 }),
        cfg.rom_dir == args.rom_dir,
        cfg.scale == (if args.scale < 1 { 1 } else { args.scale }),
        cfg.sample_rate == 48_000,
{
    let model = model_from_name(args.model.as_str());
    Config {
        model,
        warp: args.warp,
        extensions_enabled: args.extensions,
        hostfs_root: args.hostfs,
        joystick_port: if args.joystick_port == 1 { JoystickPort::Port1 } else { JoystickPort::Port2 },
        rom_dir: args.rom_dir,
        scale: if args.scale < 1 { 1 } else { args.scale },
        sample_rate: 48_000,
    }
}

/// The kind of media a file is loaded as: the kind its name's extension
/// names, and a PRG when the name has no known extension or is not text.
pub fn load_kind(name: Option<&str>) -> (r: MediaKind)
    ensures
        r == (match name {
            Some(n) => match kind_for_extension(extension_of(n@)) {
                Some(k) => k,
                None => MediaKind::Prg,
            },
            None => MediaKind::Prg,
        }),
{
    match name {
        Some(n) => match kind_from_name(n) {
            Some(k) => k,
            None => MediaKind::Prg,
        },
        None => MediaKind::Prg,
    }
}

} // verus!
