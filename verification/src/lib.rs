//! A CHIP-8 virtual machine: the machine state, the instruction decoder and
//! the fetch-decode-execute cycle, each with a contract over a mathematical
//! model of the machine.

pub mod debug;
pub mod emulator;
pub mod keyboard;
