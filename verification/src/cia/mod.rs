//! CIA 6526 I/O chip emulation (×2).

pub mod cia;
pub mod joystick;
pub mod keyboard;

pub use self::cia::{Cia, CiaIndex, Timer};
pub use self::joystick::JoystickState;
pub use self::keyboard::{matrix_pos, C64Key, KeyboardMatrix, Modifier};
