//! Inspection of a running machine.

pub mod debug_window;
