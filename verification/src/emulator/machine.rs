//! The mathematical model of the machine: its state as sequences and
//! integers, and the effect of every instruction as a function from state to
//! state.

use super::instruction::{spec_decode, Instruction};
use vstd::prelude::*;

verus! {

/// The two ways in which a step can fail.
#[derive(Clone, Copy, Debug, PartialEq, Eq)]
pub enum CpuError {
    /// A return from subroutine found the call stack empty.
    StackUnderflow,
    /// The fetched word matches no pattern of the instruction set.
    UnrecognizedOpcode,
}

/// Progress of the blocking key read.
#[derive(Clone, Copy, Debug, PartialEq, Eq)]
pub enum KeyWait {
    /// No key has been seen down yet.
    Idle,
    /// The key with this index was seen down and has not been released.
    Captured(u8),
}

/// The state of the machine as a mathematical value.
pub struct Machine {
    /// 4096 bytes of memory.
    pub memory: Seq<u8>,
    /// The opcode of the last instruction that ran.
    pub opcode: u16,
    /// The registers `V0` to `VF`.
    pub v: Seq<u8>,
    /// The index register.
    pub i: u16,
    /// The program counter.
    pub pc: u16,
    /// 64 x 32 pixels, row by row from the top left; `true` is on.
    pub screen: Seq<bool>,
    /// The delay timer.
    pub delay_timer: u8,
    /// The sound timer.
    pub sound_timer: u8,
    /// The return addresses, the most recent call last.
    pub stack: Seq<u16>,
    /// The sixteen keys; `true` is down.
    pub keys: Seq<bool>,
    /// Whether the last step may have changed the screen.
    pub draw_flag: bool,
    /// The latch of the blocking key read.
    pub key_wait: KeyWait,
}

/// The value of an integer in 16-bit wraparound arithmetic.
pub open spec fn wrap16(value: int) -> u16 {
    (value % 0x10000) as u16
}

/// The value of an integer in 8-bit wraparound arithmetic.
pub open spec fn wrap8(value: int) -> u8 {
    (value % 0x100) as u8
}

/// The memory cell that a 16-bit address names: addresses wrap at 4096.
pub open spec fn cell(address: int) -> int {
    address % 4096
}

/// The bit of a sprite row that belongs to a column, column 0 being the most
/// significant bit.
pub open spec fn sprite_bit(row_byte: u8, col: int) -> bool {
    (row_byte >> ((7 - col) as u8)) & 1 == 1
}

/// The highest-numbered key among the first `count` keys that is down.
pub open spec fn highest_key_down(keys: Seq<bool>, count: int) -> Option<u8>
    decreases count,
{
    if count <= 0 {
        None
    } else if keys[count - 1] {
        Some((count - 1) as u8)
    } else {
        highest_key_down(keys, count - 1)
    }
}

impl Machine {
    /// Memory, registers, screen and keypad have their fixed sizes.
    pub open spec fn well_sized(self) -> bool {
        &&& self.memory.len() == 4096
        &&& self.v.len() == 16
        &&& self.screen.len() == 2048
        &&& self.keys.len() == 16
    }

    /// The pixel in column `px` of row `py`.
    pub open spec fn pixel(self, px: int, py: int) -> bool {
        self.screen[py * 64 + px]
    }

    /// The machine with register `x` set to `value`.
    pub open spec fn set_v(self, x: int, value: u8) -> Machine {
        Machine { v: self.v.update(x, value), ..self }
    }

    /// The machine with the program counter moved on by one instruction.
    pub open spec fn next(self) -> Machine {
        Machine { pc: wrap16(self.pc + 2), ..self }
    }

    /// The machine with the program counter moved past the next instruction
    /// where `skip` holds, and on to it where not.
    pub open spec fn skip_if(self, skip: bool) -> Machine {
        Machine { pc: wrap16(self.pc + (if skip { 4int } else { 2int })), ..self }
    }

    /// The byte of memory that the index register plus `offset` names.
    pub open spec fn at_index(self, offset: int) -> u8 {
        self.memory[cell(self.i + offset)]
    }

    /// The opcode word at the program counter, high byte first.
    pub open spec fn fetch(self) -> u16 {
        (self.memory[cell(self.pc as int)] * 256 + self.memory[cell(self.pc + 1)]) as u16
    }

    /// `00E0`: every pixel off, redraw wanted.
    pub open spec fn op_00e0(self) -> Machine {
        Machine { screen: Seq::new(2048, |p: int| false), draw_flag: true, ..self }.next()
    }

    /// `00EE`: the program counter becomes the instruction after the most
    /// recent call, which leaves the stack.
    pub open spec fn op_00ee(self) -> Machine {
        Machine { pc: wrap16(self.stack.last() + 2), stack: self.stack.drop_last(), ..self }
    }

    /// `1NNN`: jump.
    pub open spec fn op_1nnn(self, nnn: u16) -> Machine {
        Machine { pc: nnn, ..self }
    }

    /// `2NNN`: the address of the call is pushed, then jump.
    pub open spec fn op_2nnn(self, nnn: u16) -> Machine {
        Machine { stack: self.stack.push(self.pc), pc: nnn, ..self }
    }

    /// `3XNN`: skip where `Vx == NN`.
    pub open spec fn op_3xnn(self, x: int, nn: u8) -> Machine {
        self.skip_if(self.v[x] == nn)
    }

    /// `4XNN`: skip where `Vx != NN`.
    pub open spec fn op_4xnn(self, x: int, nn: u8) -> Machine {
        self.skip_if(self.v[x] != nn)
    }

    /// `5XY0`: skip where `Vx == Vy`.
    pub open spec fn op_5xy0(self, x: int, y: int) -> Machine {
        self.skip_if(self.v[x] == self.v[y])
    }

    /// `6XNN`: `Vx = NN`.
    pub open spec fn op_6xnn(self, x: int, nn: u8) -> Machine {
        self.set_v(x, nn).next()
    }

    /// `7XNN`: `Vx = (Vx + NN) mod 256`; `VF` keeps its value.
    pub open spec fn op_7xnn(self, x: int, nn: u8) -> Machine {
        self.set_v(x, wrap8(self.v[x] + nn)).next()
    }

    /// `8XY0`: `Vx = Vy`.
    pub open spec fn op_8xy0(self, x: int, y: int) -> Machine {
        self.set_v(x, self.v[y]).next()
    }

    /// `8XY1`: `VF` is reset, then `Vx = Vx | Vy`.
    pub open spec fn op_8xy1(self, x: int, y: int) -> Machine {
        let reset = self.set_v(0xF, 0);
        reset.set_v(x, reset.v[x] | reset.v[y]).next()
    }

    /// `8XY2`: `VF` is reset, then `Vx = Vx & Vy`.
    pub open spec fn op_8xy2(self, x: int, y: int) -> Machine {
        let reset = self.set_v(0xF, 0);
        reset.set_v(x, reset.v[x] & reset.v[y]).next()
    }

    /// `8XY3`: `VF` is reset, then `Vx = Vx ^ Vy`.
    pub open spec fn op_8xy3(self, x: int, y: int) -> Machine {
        let reset = self.set_v(0xF, 0);
        reset.set_v(x, reset.v[x] ^ reset.v[y]).next()
    }

    /// `8XY4`: `Vx = (Vx + Vy) mod 256`, then `VF` is 1 where the sum
    /// exceeded 255 and 0 where not.
    pub open spec fn op_8xy4(self, x: int, y: int) -> Machine {
        let sum = self.v[x] + self.v[y];
        self.set_v(x, wrap8(sum)).set_v(0xF, if sum > 255 { 1u8 } else { 0u8 }).next()
    }

    /// `8XY5`: `Vx = (Vx - Vy) mod 256`, then `VF` is 1 where `Vx >= Vy`
    /// held before and 0 where not.
    pub open spec fn op_8xy5(self, x: int, y: int) -> Machine {
        let vx = self.v[x];
        let vy = self.v[y];
        self.set_v(x, wrap8(vx - vy)).set_v(0xF, if vx >= vy { 1u8 } else { 0u8 }).next()
    }

    /// `8XY6`: `Vx` is `Vy` shifted right by one, then `VF` is the bit of
    /// `Vy` that was shifted out.
    pub open spec fn op_8xy6(self, x: int, y: int) -> Machine {
        let vy = self.v[y];
        self.set_v(x, vy / 2).set_v(0xF, vy % 2).next()
    }

    /// `8XY7`: `Vx = (Vy - Vx) mod 256`, then `VF` is 1 where `Vy >= Vx`
    /// held before and 0 where not.
    pub open spec fn op_8xy7(self, x: int, y: int) -> Machine {
        let vx = self.v[x];
        let vy = self.v[y];
        self.set_v(x, wrap8(vy - vx)).set_v(0xF, if vy >= vx { 1u8 } else { 0u8 }).next()
    }

    /// `8XYE`: `Vx` is `Vy` shifted left by one within 8 bits, then `VF` is
    /// the bit of `Vy` that was shifted out.
    pub open spec fn op_8xye(self, x: int, y: int) -> Machine {
        let vy = self.v[y];
        self.set_v(x, wrap8(vy * 2)).set_v(0xF, vy / 128).next()
    }

    /// `9XY0`: skip where `Vx != Vy`.
    pub open spec fn op_9xy0(self, x: int, y: int) -> Machine {
        self.skip_if(self.v[x] != self.v[y])
    }

    /// `ANNN`: `I = NNN`.
    pub open spec fn op_annn(self, nnn: u16) -> Machine {
        Machine { i: nnn, ..self }.next()
    }

    /// `BNNN`: jump to `NNN + V0`.
    pub open spec fn op_bnnn(self, nnn: u16) -> Machine {
        Machine { pc: wrap16(nnn + self.v[0]), ..self }
    }

    /// `CXNN`: `Vx = random & NN`, for the random byte that was drawn.
    pub open spec fn op_cxnn(self, x: int, nn: u8, random: u8) -> Machine {
        self.set_v(x, random & nn).next()
    }

    /// The column at which a sprite drawn through register `x` starts.
    pub open spec fn sprite_left(self, x: int) -> int {
        self.v[x] as int % 64
    }

    /// The row at which a sprite drawn through register `y` starts.
    pub open spec fn sprite_top(self, y: int) -> int {
        self.v[y] as int % 32
    }

    /// Whether a sprite of `n` rows, with its top left corner at
    /// (`left`, `top`) and its rows at the index register, has a set bit on
    /// the pixel in column `px` of row `py`.
    pub open spec fn sprite_covers(self, left: int, top: int, n: int, px: int, py: int) -> bool {
        &&& left <= px < left + 8
        &&& top <= py < top + n
        &&& sprite_bit(self.at_index(py - top), px - left)
    }

    /// Whether such a sprite has a set bit on any pixel of the screen.
    pub open spec fn sprite_touches(self, left: int, top: int, n: int) -> bool {
        exists|px: int, py: int|
            0 <= px < 64 && 0 <= py < 32 && #[trigger] self.sprite_covers(left, top, n, px, py)
    }

    /// `DXYN`: every pixel of the screen under a set bit of the sprite is
    /// toggled, and no other; what of the sprite lies beyond the right or the
    /// bottom edge is not drawn. `VF` is 1 where a pixel was toggled and 0
    /// where none was. Redraw wanted.
    pub open spec fn op_dxyn(self, x: int, y: int, n: int) -> Machine {
        let left = self.sprite_left(x);
        let top = self.sprite_top(y);
        Machine {
            screen: Seq::new(
                2048,
                |p: int| self.screen[p] != self.sprite_covers(left, top, n, p % 64, p / 64),
            ),
            draw_flag: true,
            ..self
        }.set_v(0xF, if self.sprite_touches(left, top, n) { 1u8 } else { 0u8 }).next()
    }

    /// `EX9E`: skip where the key that `Vx` names is down.
    pub open spec fn op_ex9e(self, x: int) -> Machine {
        self.skip_if(self.keys[self.v[x] as int % 16])
    }

    /// `EXA1`: skip where the key that `Vx` names is up.
    pub open spec fn op_exa1(self, x: int) -> Machine {
        self.skip_if(!self.keys[self.v[x] as int % 16])
    }

    /// `FX07`: `Vx = delay timer`.
    pub open spec fn op_fx07(self, x: int) -> Machine {
        self.set_v(x, self.delay_timer).next()
    }

    /// `FX0A`: the blocking key read. With no key latched, the highest key
    /// that is down is latched, if there is one. With a key latched and still
    /// down, nothing changes. With a key latched and released, its index goes
    /// to `Vx`, the latch is cleared and the program counter moves on.
    pub open spec fn op_fx0a(self, x: int) -> Machine {
        match self.key_wait {
            KeyWait::Captured(key) => {
                if self.keys[key as int % 16] {
                    self
                } else {
                    Machine { key_wait: KeyWait::Idle, ..self }.set_v(
                        x,
                        (key as int % 16) as u8,
                    ).next()
                }
            },
            KeyWait::Idle => {
                match highest_key_down(self.keys, 16) {
                    Some(key) => Machine { key_wait: KeyWait::Captured(key), ..self },
                    None => self,
                }
            },
        }
    }

    /// `FX15`: `delay timer = Vx`.
    pub open spec fn op_fx15(self, x: int) -> Machine {
        Machine { delay_timer: self.v[x], ..self }.next()
    }

    /// `FX18`: `sound timer = Vx`.
    pub open spec fn op_fx18(self, x: int) -> Machine {
        Machine { sound_timer: self.v[x], ..self }.next()
    }

    /// `FX1E`: `I = (I + Vx) mod 65536`; `VF` keeps its value.
    pub open spec fn op_fx1e(self, x: int) -> Machine {
        Machine { i: wrap16(self.i + self.v[x]), ..self }.next()
    }

    /// `FX29`: `I` is the address of the glyph for the digit in `Vx`.
    pub open spec fn op_fx29(self, x: int) -> Machine {
        Machine { i: (self.v[x] * 5) as u16, ..self }.next()
    }

    /// `FX33`: the hundreds, tens and ones of `Vx` go to memory at `I`,
    /// `I + 1` and `I + 2`.
    pub open spec fn op_fx33(self, x: int) -> Machine {
        let value = self.v[x];
        Machine {
            memory: self.memory.update(cell(self.i + 2), value % 10).update(
                cell(self.i + 1),
                (value / 10) % 10,
            ).update(cell(self.i as int), value / 100),
            ..self
        }.next()
    }

    /// `FX55`: `V0` to `Vx` go to memory from `I` on, then `I` grows by
    /// `x + 1`.
    pub open spec fn op_fx55(self, x: int) -> Machine {
        Machine {
            memory: Seq::new(
                4096,
                |a: int|
                    if cell(a - self.i) <= x {
                        self.v[cell(a - self.i)]
                    } else {
                        self.memory[a]
                    },
            ),
            i: wrap16(self.i + x + 1),
            ..self
        }.next()
    }

    /// `FX65`: `V0` to `Vx` are read from memory from `I` on, then `I` grows
    /// by `x + 1`.
    pub open spec fn op_fx65(self, x: int) -> Machine {
        Machine {
            v: Seq::new(
                16,
                |r: int|
                    if r <= x {
                        self.at_index(r)
                    } else {
                        self.v[r]
                    },
            ),
            i: wrap16(self.i + x + 1),
            ..self
        }.next()
    }

    /// One tick of the 60 Hz clock: each timer that is not zero goes down by
    /// one.
    pub open spec fn tick(self) -> Machine {
        Machine {
            delay_timer: if self.delay_timer > 0 {
                (self.delay_timer - 1) as u8
            } else {
                0u8
            },
            sound_timer: if self.sound_timer > 0 {
                (self.sound_timer - 1) as u8
            } else {
                0u8
            },
            ..self
        }
    }

    /// The machine with `rom` copied into memory from address `0x200` on.
    pub open spec fn load(self, rom: Seq<u8>) -> Machine {
        Machine {
            memory: Seq::new(
                4096,
                |a: int|
                    if 0x200 <= a < 0x200 + rom.len() {
                        rom[a - 0x200]
                    } else {
                        self.memory[a]
                    },
            ),
            ..self
        }
    }

    /// Whether an instruction can run in this state: all but a return on an
    /// empty stack can.
    pub open spec fn can_run(self, instruction: Instruction) -> bool {
        instruction == Instruction::Return ==> self.stack.len() > 0
    }

    /// The effect of one instruction, given the random byte that `CXNN` would
    /// draw. The result counts only where `can_run` holds.
    pub open spec fn apply(self, instruction: Instruction, random: u8) -> Machine {
        match instruction {
            Instruction::ClearScreen => self.op_00e0(),
            Instruction::Return => self.op_00ee(),
            Instruction::Jump { nnn } => self.op_1nnn(nnn),
            Instruction::Call { nnn } => self.op_2nnn(nnn),
            Instruction::SkipEqImm { x, nn } => self.op_3xnn(x as int, nn),
            Instruction::SkipNeImm { x, nn } => self.op_4xnn(x as int, nn),
            Instruction::SkipEqReg { x, y } => self.op_5xy0(x as int, y as int),
            Instruction::LoadImm { x, nn } => self.op_6xnn(x as int, nn),
            Instruction::AddImm { x, nn } => self.op_7xnn(x as int, nn),
            Instruction::Move { x, y } => self.op_8xy0(x as int, y as int),
            Instruction::Or { x, y } => self.op_8xy1(x as int, y as int),
            Instruction::And { x, y } => self.op_8xy2(x as int, y as int),
            Instruction::Xor { x, y } => self.op_8xy3(x as int, y as int),
            Instruction::Add { x, y } => self.op_8xy4(x as int, y as int),
            Instruction::Sub { x, y } => self.op_8xy5(x as int, y as int),
            Instruction::ShiftRight { x, y } => self.op_8xy6(x as int, y as int),
            Instruction::SubFrom { x, y } => self.op_8xy7(x as int, y as int),
            Instruction::ShiftLeft { x, y } => self.op_8xye(x as int, y as int),
            Instruction::SkipNeReg { x, y } => self.op_9xy0(x as int, y as int),
            Instruction::LoadIndex { nnn } => self.op_annn(nnn),
            Instruction::JumpOffset { nnn } => self.op_bnnn(nnn),
            Instruction::Random { x, nn } => self.op_cxnn(x as int, nn, random),
            Instruction::Draw { x, y, n } => self.op_dxyn(x as int, y as int, n as int),
            Instruction::SkipKeyDown { x } => self.op_ex9e(x as int),
            Instruction::SkipKeyUp { x } => self.op_exa1(x as int),
            Instruction::ReadDelay { x } => self.op_fx07(x as int),
            Instruction::WaitKey { x } => self.op_fx0a(x as int),
            Instruction::SetDelay { x } => self.op_fx15(x as int),
            Instruction::SetSound { x } => self.op_fx18(x as int),
            Instruction::AddIndex { x } => self.op_fx1e(x as int),
            Instruction::FontAddress { x } => self.op_fx29(x as int),
            Instruction::StoreBcd { x } => self.op_fx33(x as int),
            Instruction::StoreRegisters { x } => self.op_fx55(x as int),
            Instruction::LoadRegisters { x } => self.op_fx65(x as int),
        }
    }

    /// The machine as a step leaves it on entry to an instruction: redraw
    /// flag cleared, opcode recorded.
    pub open spec fn entered(self, opcode: u16) -> Machine {
        Machine { draw_flag: false, opcode: opcode, ..self }
    }

    /// One fetch-decode-execute step, given the random byte that `CXNN`
    /// would draw: the next state, or the reason why there is none.
    pub open spec fn step(self, random: u8) -> Result<Machine, CpuError> {
        let opcode = self.fetch();
        match spec_decode(opcode) {
            None => Err(CpuError::UnrecognizedOpcode),
            Some(instruction) => {
                if self.can_run(instruction) {
                    Ok(self.entered(opcode).apply(instruction, random))
                } else {
                    Err(CpuError::StackUnderflow)
                }
            },
        }
    }

    /// Whether the next step draws a random byte.
    pub open spec fn draws_random(self) -> bool {
        spec_decode(self.fetch()) matches Some(Instruction::Random { .. })
    }
}

} // verus!
