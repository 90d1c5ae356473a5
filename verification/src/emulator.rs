//! The interpreter core and the host-facing session around it.

pub mod cpu;
pub mod emu2;
pub mod instruction;
pub mod keymap;
pub mod laws;
pub mod machine;
pub mod options;
pub mod rng;
