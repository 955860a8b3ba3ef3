//! Joystick state (5-bit: up/down/left/right/fire, active-low).

use vstd::prelude::*;

verus! {

/// Joystick port state. Bits set = direction/fire active.
#[derive(Copy, Clone, Debug)]
pub struct JoystickState {
    /// Bit 0=up, 1=down, 2=left, 3=right, 4=fire.
    pub bits: u8,
}

/// The active-low port value of joystick bits: the five direction/fire lines
/// inverted, the three upper lines high.
pub open spec fn joystick_port_value(bits: u8) -> u8 {
    (!bits & 0x1F) | 0xE0
}

impl JoystickState {
    /// Convert to an active-low port value.
    pub fn as_port(&self) -> (r: u8)
        ensures
            r == joystick_port_value(self.bits),
    {
        !self.bits & 0x1F | 0xE0
    }
}

impl Default for JoystickState {
    /// No direction and no fire.
    fn default() -> (r: Self)
        ensures
            r.bits == 0,
    {
        JoystickState { bits: 0 }
    }
}

} // verus!
