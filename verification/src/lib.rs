//! Platform-independent Commodore 64 emulation core.
//!
//! The [`C64`] struct wires all chips together and drives frame-by-frame
//! emulation; each chip, the storage formats and the frontends' option and
//! key handling are specified and proved in their own modules. Floating-point
//! work (the SID's analogue side, the compute unit's sine and cosine) is left
//! to the host, which the emulator tells what to do.

use vstd::prelude::*;

pub mod cia;
pub mod cli;
pub mod config;
pub mod cpu;
pub mod extensions;
pub mod input;
pub mod memory;
pub mod sid;
pub mod storage;
pub mod system;
pub mod util;
pub mod vic;

pub use cia::keyboard::{C64Key, Modifier};
pub use config::{Config, JoystickPort, Model};
pub use storage::{MediaKind, StorageError};
pub use system::C64;
pub use vic::export::{argb_to_rgba, framebuffer_to_bmp};
