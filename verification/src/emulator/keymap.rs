//! The host keyboard's layout: which character stands for which of the
//! sixteen keys.

use super::cpu::Cpu;
use super::machine::Machine;
use vstd::prelude::*;

verus! {

/// The key that a character of the host keyboard stands for. The block
/// `1234 / qwer / asdf / zxcv` is laid over the keypad `123C / 456D / 789E /
/// A0BF`.
pub open spec fn key_code_of(c: char) -> Option<u8> {
    if c == '1' {
        Some(0x1u8)
    } else if c == '2' {
        Some(0x2u8)
    } else if c == '3' {
        Some(0x3u8)
    } else if c == '4' {
        Some(0xCu8)
    } else if c == 'q' {
        Some(0x4u8)
    } else if c == 'w' {
        Some(0x5u8)
    } else if c == 'e' {
        Some(0x6u8)
    } else if c == 'r' {
        Some(0xDu8)
    } else if c == 'a' {
        Some(0x7u8)
    } else if c == 's' {
        Some(0x8u8)
    } else if c == 'd' {
        Some(0x9u8)
    } else if c == 'f' {
        Some(0xEu8)
    } else if c == 'z' {
        Some(0xAu8)
    } else if c == 'x' {
        Some(0x0u8)
    } else if c == 'c' {
        Some(0xBu8)
    } else if c == 'v' {
        Some(0xFu8)
    } else {
        None
    }
}

/// The key that a string of the host keyboard stands for: that of its one
/// character, and none where it has more or fewer.
pub open spec fn chip8_key_code(key: Seq<char>) -> Option<u8> {
    if key.len() == 1 {
        key_code_of(key[0])
    } else {
        None
    }
}

/// Whether one of the characters stands for the key `code`.
pub open spec fn names_key(pressed: Seq<char>, code: int) -> bool {
    exists|j: int| 0 <= j < pressed.len() && key_code_of(#[trigger] pressed[j]) == Some(code as u8)
}

/// The key that a character stands for.
pub fn key_code_of_char(c: char) -> (code: Option<u8>)
    ensures
        code == key_code_of(c),
        code matches Some(k) ==> k < 16,
{
    match c {
        '1' => Some(0x1),
        '2' => Some(0x2),
        '3' => Some(0x3),
        '4' => Some(0xC),
        'q' => Some(0x4),
        'w' => Some(0x5),
        'e' => Some(0x6),
        'r' => Some(0xD),
        'a' => Some(0x7),
        's' => Some(0x8),
        'd' => Some(0x9),
        'f' => Some(0xE),
        'z' => Some(0xA),
        'x' => Some(0x0),
        'c' => Some(0xB),
        'v' => Some(0xF),
        _ => None,
    }
}

/// Sets the keypad to the keys that the characters stand for: a key is down
/// exactly where one of the characters names it.
pub fn store_key_press(cpu: &mut Cpu, pressed: &[char])
    ensures
        final(cpu)@.keys.len() == 16,
        forall|k: int| 0 <= k < 16 ==> final(cpu)@.keys[k] == names_key(pressed@, k),
        final(cpu)@ == (Machine { keys: final(cpu)@.keys, ..old(cpu)@ }),
{
    cpu.keys = [false; 16];
    let mut i: usize = 0;
    assert(pressed@.subrange(0, 0).len() == 0);
    while i < pressed.len()
        invariant
            i <= pressed@.len(),
            forall|k: int| 0 <= k < 16 ==> cpu.keys@[k] == names_key(pressed@.subrange(0, i as int), k),
            cpu@ == (Machine { keys: cpu.keys@, ..old(cpu)@ }),
        decreases pressed@.len() - i,
    {
        let ghost before = cpu.keys@;
        let c = pressed[i];
        if let Some(chip8_key) = key_code_of_char(c) {
            cpu.keys[chip8_key as usize] = true;
        }
        proof {
            let shorter = pressed@.subrange(0, i as int);
            let longer = pressed@.subrange(0, i + 1);
            assert forall|k: int| 0 <= k < 16 implies cpu.keys@[k] == names_key(longer, k) by {
                if names_key(shorter, k) {
                    let j = choose|j: int|
                        0 <= j < shorter.len() && key_code_of(#[trigger] shorter[j]) == Some(
                            k as u8,
                        );
                    assert(longer[j] == shorter[j]);
                }
                if key_code_of(c) == Some(k as u8) {
                    assert(longer[i as int] == c);
                }
                if names_key(longer, k) {
                    let j = choose|j: int|
                        0 <= j < longer.len() && key_code_of(#[trigger] longer[j]) == Some(k as u8);
                    if j < i {
                        assert(shorter[j] == longer[j]);
                    }
                }
            }
        }
        i += 1;
    }
    assert(pressed@.subrange(0, i as int) =~= pressed@);
}

} // verus!
