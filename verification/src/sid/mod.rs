//! SID 6581 audio: the voice oscillators, the envelope generators and the
//! register file the CPU writes. (The filter and sample production run on
//! the host.)

pub mod envelope;
pub mod regs;
pub mod voice;
