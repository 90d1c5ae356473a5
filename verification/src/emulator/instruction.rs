//! The instruction set: one variant per opcode pattern, and the decoder from a
//! 16-bit opcode word to an instruction.

use vstd::prelude::*;

verus! {

/// A decoded instruction. `x` and `y` select registers, `nn` is an 8-bit
/// immediate, `nnn` a 12-bit address and `n` a 4-bit row count.
#[derive(Clone, Copy, Debug, PartialEq, Eq)]
pub enum Instruction {
    /// `00E0`
    ClearScreen,
    /// `00EE`
    Return,
    /// `1NNN`
    Jump { nnn: u16 },
    /// `2NNN`
    Call { nnn: u16 },
    /// `3XNN`
    SkipEqImm { x: usize, nn: u8 },
    /// `4XNN`
    SkipNeImm { x: usize, nn: u8 },
    /// `5XY0`
    SkipEqReg { x: usize, y: usize },
    /// `6XNN`
    LoadImm { x: usize, nn: u8 },
    /// `7XNN`
    AddImm { x: usize, nn: u8 },
    /// `8XY0`
    Move { x: usize, y: usize },
    /// `8XY1`
    Or { x: usize, y: usize },
    /// `8XY2`
    And { x: usize, y: usize },
    /// `8XY3`
    Xor { x: usize, y: usize },
    /// `8XY4`
    Add { x: usize, y: usize },
    /// `8XY5`
    Sub { x: usize, y: usize },
    /// `8XY6`
    ShiftRight { x: usize, y: usize },
    /// `8XY7`
    SubFrom { x: usize, y: usize },
    /// `8XYE`
    ShiftLeft { x: usize, y: usize },
    /// `9XY0`
    SkipNeReg { x: usize, y: usize },
    /// `ANNN`
    LoadIndex { nnn: u16 },
    /// `BNNN`
    JumpOffset { nnn: u16 },
    /// `CXNN`
    Random { x: usize, nn: u8 },
    /// `DXYN`
    Draw { x: usize, y: usize, n: u8 },
    /// `EX9E`
    SkipKeyDown { x: usize },
    /// `EXA1`
    SkipKeyUp { x: usize },
    /// `FX07`
    ReadDelay { x: usize },
    /// `FX0A`
    WaitKey { x: usize },
    /// `FX15`
    SetDelay { x: usize },
    /// `FX18`
    SetSound { x: usize },
    /// `FX1E`
    AddIndex { x: usize },
    /// `FX29`
    FontAddress { x: usize },
    /// `FX33`
    StoreBcd { x: usize },
    /// `FX55`
    StoreRegisters { x: usize },
    /// `FX65`
    LoadRegisters { x: usize },
}

impl Instruction {
    /// Every operand lies in the range that its field of the opcode can hold.
    pub open spec fn wf(self) -> bool {
        match self {
            Instruction::ClearScreen | Instruction::Return => true,
            Instruction::Jump { nnn }
            | Instruction::Call { nnn }
            | Instruction::LoadIndex { nnn }
            | Instruction::JumpOffset { nnn } => nnn < 0x1000,
            Instruction::SkipEqImm { x, nn }
            | Instruction::SkipNeImm { x, nn }
            | Instruction::LoadImm { x, nn }
            | Instruction::AddImm { x, nn }
            | Instruction::Random { x, nn } => x < 16,
            Instruction::SkipEqReg { x, y }
            | Instruction::Move { x, y }
            | Instruction::Or { x, y }
            | Instruction::And { x, y }
            | Instruction::Xor { x, y }
            | Instruction::Add { x, y }
            | Instruction::Sub { x, y }
            | Instruction::ShiftRight { x, y }
            | Instruction::SubFrom { x, y }
            | Instruction::ShiftLeft { x, y }
            | Instruction::SkipNeReg { x, y } => x < 16 && y < 16,
            Instruction::Draw { x, y, n } => x < 16 && y < 16 && n < 16,
            Instruction::SkipKeyDown { x }
            | Instruction::SkipKeyUp { x }
            | Instruction::ReadDelay { x }
            | Instruction::WaitKey { x }
            | Instruction::SetDelay { x }
            | Instruction::SetSound { x }
            | Instruction::AddIndex { x }
            | Instruction::FontAddress { x }
            | Instruction::StoreBcd { x }
            | Instruction::StoreRegisters { x }
            | Instruction::LoadRegisters { x } => x < 16,
        }
    }
}

/// The `X` field of an opcode: its second hexadecimal digit.
pub open spec fn field_x(opcode: u16) -> usize {
    ((opcode / 0x100) % 0x10) as usize
}

/// The `Y` field of an opcode: its third hexadecimal digit.
pub open spec fn field_y(opcode: u16) -> usize {
    ((opcode / 0x10) % 0x10) as usize
}

/// The `N` field of an opcode: its last hexadecimal digit.
pub open spec fn field_n(opcode: u16) -> u8 {
    (opcode % 0x10) as u8
}

/// The `NN` field of an opcode: its low byte.
pub open spec fn field_nn(opcode: u16) -> u8 {
    (opcode % 0x100) as u8
}

/// The `NNN` field of an opcode: its low twelve bits.
pub open spec fn field_nnn(opcode: u16) -> u16 {
    (opcode % 0x1000) as u16
}

/// The instruction that an opcode word stands for, or `None` where the word
/// matches no pattern of the instruction set. The all-zero word is never an
/// instruction.
pub open spec fn spec_decode(opcode: u16) -> Option<Instruction> {
    let x = field_x(opcode);
    let y = field_y(opcode);
    let n = field_n(opcode);
    let nn = field_nn(opcode);
    let nnn = field_nnn(opcode);
    let top = opcode / 0x1000;
    if top == 0x0 {
        if opcode == 0x00E0 {
            Some(Instruction::ClearScreen)
        } else if opcode == 0x00EE {
            Some(Instruction::Return)
        } else {
            None
        }
    } else if top == 0x1 {
        Some(Instruction::Jump { nnn })
    } else if top == 0x2 {
        Some(Instruction::Call { nnn })
    } else if top == 0x3 {
        Some(Instruction::SkipEqImm { x, nn })
    } else if top == 0x4 {
        Some(Instruction::SkipNeImm { x, nn })
    } else if top == 0x5 {
        if n == 0 {
            Some(Instruction::SkipEqReg { x, y })
        } else {
            None
        }
    } else if top == 0x6 {
        Some(Instruction::LoadImm { x, nn })
    } else if top == 0x7 {
        Some(Instruction::AddImm { x, nn })
    } else if top == 0x8 {
        if n == 0x0 {
            Some(Instruction::Move { x, y })
        } else if n == 0x1 {
            Some(Instruction::Or { x, y })
        } else if n == 0x2 {
            Some(Instruction::And { x, y })
        } else if n == 0x3 {
            Some(Instruction::Xor { x, y })
        } else if n == 0x4 {
            Some(Instruction::Add { x, y })
        } else if n == 0x5 {
            Some(Instruction::Sub { x, y })
        } else if n == 0x6 {
            Some(Instruction::ShiftRight { x, y })
        } else if n == 0x7 {
            Some(Instruction::SubFrom { x, y })
        } else if n == 0xE {
            Some(Instruction::ShiftLeft { x, y })
        } else {
            None
        }
    } else if top == 0x9 {
        if n == 0 {
            Some(Instruction::SkipNeReg { x, y })
        } else {
            None
        }
    } else if top == 0xA {
        Some(Instruction::LoadIndex { nnn })
    } else if top == 0xB {
        Some(Instruction::JumpOffset { nnn })
    } else if top == 0xC {
        Some(Instruction::Random { x, nn })
    } else if top == 0xD {
        Some(Instruction::Draw { x, y, n })
    } else if top == 0xE {
        if nn == 0x9E {
            Some(Instruction::SkipKeyDown { x })
        } else if nn == 0xA1 {
            Some(Instruction::SkipKeyUp { x })
        } else {
            None
        }
    } else {
        if nn == 0x07 {
            Some(Instruction::ReadDelay { x })
        } else if nn == 0x0A {
            Some(Instruction::WaitKey { x })
        } else if nn == 0x15 {
            Some(Instruction::SetDelay { x })
        } else if nn == 0x18 {
            Some(Instruction::SetSound { x })
        } else if nn == 0x1E {
            Some(Instruction::AddIndex { x })
        } else if nn == 0x29 {
            Some(Instruction::FontAddress { x })
        } else if nn == 0x33 {
            Some(Instruction::StoreBcd { x })
        } else if nn == 0x55 {
            Some(Instruction::StoreRegisters { x })
        } else if nn == 0x65 {
            Some(Instruction::LoadRegisters { x })
        } else {
            None
        }
    }
}

/// Every instruction that the decoder yields has operands in range.
pub proof fn lemma_decoded_is_wf(opcode: u16)
    ensures
        spec_decode(opcode) matches Some(instruction) ==> instruction.wf(),
{
}

/// Decodes an opcode word by its top nibble and, where the group needs it, by
/// its low nibble or low byte.
pub fn decode(opcode: u16) -> (decoded: Option<Instruction>)
    ensures
        decoded == spec_decode(opcode),
        decoded matches Some(instruction) ==> instruction.wf(),
{
    let x = ((opcode & 0x0F00) >> 8) as usize;
    let y = ((opcode & 0x00F0) >> 4) as usize;
    let n = (opcode & 0x000F) as u8;
    let nn = (opcode & 0x00FF) as u8;
    let nnn = opcode & 0x0FFF;
    let top = opcode >> 12;
    proof {
        assert(((opcode & 0x0F00) >> 8) == (opcode / 0x100) % 0x10) by (bit_vector);
        assert(((opcode & 0x00F0) >> 4) == (opcode / 0x10) % 0x10) by (bit_vector);
        assert((opcode & 0x000F) == opcode % 0x10) by (bit_vector);
        assert((opcode & 0x00FF) == opcode % 0x100) by (bit_vector);
        assert((opcode & 0x0FFF) == opcode % 0x1000) by (bit_vector);
        assert((opcode >> 12) == opcode / 0x1000) by (bit_vector);
    }
    match top {
        0x0 => {
            if opcode == 0x00E0 {
                Some(Instruction::ClearScreen)
            } else if opcode == 0x00EE {
                Some(Instruction::Return)
            } else {
                None
            }
        },
        0x1 => Some(Instruction::Jump { nnn }),
        0x2 => Some(Instruction::Call { nnn }),
        0x3 => Some(Instruction::SkipEqImm { x, nn }),
        0x4 => Some(Instruction::SkipNeImm { x, nn }),
        0x5 => {
            if n == 0 {
                Some(Instruction::SkipEqReg { x, y })
            } else {
                None
            }
        },
        0x6 => Some(Instruction::LoadImm { x, nn }),
        0x7 => Some(Instruction::AddImm { x, nn }),
        0x8 => match n {
            0x0 => Some(Instruction::Move { x, y }),
            0x1 => Some(Instruction::Or { x, y }),
            0x2 => Some(Instruction::And { x, y }),
            0x3 => Some(Instruction::Xor { x, y }),
            0x4 => Some(Instruction::Add { x, y }),
            0x5 => Some(Instruction::Sub { x, y }),
            0x6 => Some(Instruction::ShiftRight { x, y }),
            0x7 => Some(Instruction::SubFrom { x, y }),
            0xE => Some(Instruction::ShiftLeft { x, y }),
            _ => None,
        },
        0x9 => {
            if n == 0 {
                Some(Instruction::SkipNeReg { x, y })
            } else {
                None
            }
        },
        0xA => Some(Instruction::LoadIndex { nnn }),
        0xB => Some(Instruction::JumpOffset { nnn }),
        0xC => Some(Instruction::Random { x, nn }),
        0xD => Some(Instruction::Draw { x, y, n }),
        0xE => match nn {
            0x9E => Some(Instruction::SkipKeyDown { x }),
            0xA1 => Some(Instruction::SkipKeyUp { x }),
            _ => None,
        },
        _ => match nn {
            0x07 => Some(Instruction::ReadDelay { x }),
            0x0A => Some(Instruction::WaitKey { x }),
            0x15 => Some(Instruction::SetDelay { x }),
            0x18 => Some(Instruction::SetSound { x }),
            0x1E => Some(Instruction::AddIndex { x }),
            0x29 => Some(Instruction::FontAddress { x }),
            0x33 => Some(Instruction::StoreBcd { x }),
            0x55 => Some(Instruction::StoreRegisters { x }),
            0x65 => Some(Instruction::LoadRegisters { x }),
            _ => None,
        },
    }
}

} // verus!
