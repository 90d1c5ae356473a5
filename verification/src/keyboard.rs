//! A keypad of sixteen keys on its own.

use vstd::prelude::*;

verus! {

/// Sixteen keys, each with a byte that is not zero while the key is down.
pub struct Keyboard {
    keys: [u8; 16],
}

impl View for Keyboard {
    type V = Seq<u8>;

    closed spec fn view(&self) -> Seq<u8> {
        self.keys@
    }
}

impl Keyboard {
    /// A keypad with every key up.
    pub fn new() -> (keyboard: Self)
        ensures
            keyboard@ == Seq::new(16, |k: int| 0u8),
    {
        let keyboard = Keyboard { keys: [0; 16] };
        assert(keyboard.keys@ =~= Seq::new(16, |k: int| 0u8));
        keyboard
    }

    /// Whether the key that the low four bits of `key_code` name is down.
    pub fn is_key_pressed(&self, key_code: u8) -> (pressed: bool)
        ensures
            pressed == (self@[key_code as int % 16] != 0),
    {
        assert((key_code & 0x0F) == key_code % 16) by (bit_vector);
        self.keys[(key_code & 0x0F) as usize] != 0
    }
}

} // verus!
