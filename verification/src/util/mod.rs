//! Small helpers: PETSCII conversion and the host audio ring.

pub mod petscii;
pub mod ring;
