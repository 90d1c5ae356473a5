//! What the host chooses when it starts a session.

use vstd::prelude::*;

verus! {

/// The options of a session.
#[derive(Clone, Copy, Debug)]
pub struct EmulatorOptions {
    /// How many host pixels wide and high one pixel of the machine is shown.
    pub scaling: u32,
}

} // verus!
