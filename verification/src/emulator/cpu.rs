//! The execution engine: the machine's state in memory and the operations
//! that change it, each stated over the model in `machine`.

use super::instruction::{decode, Instruction};
use super::machine::{cell, highest_key_down, sprite_bit, CpuError, KeyWait, Machine};
use super::rng::{new_thread_rng, random_byte};
use rand::rngs::ThreadRng;
use vstd::prelude::*;

verus! {

/// The address at which a program starts.
pub const PROGRAM_START: u16 = 0x200;

/// The width of the screen in pixels.
pub const SCREEN_WIDTH: usize = 64;

/// The height of the screen in pixels.
pub const SCREEN_HEIGHT: usize = 32;

/// The number of pixels of the screen.
pub const SCREEN_SIZE: usize = 2048;

/// The number of bytes of memory.
pub const MEMORY_SIZE: usize = 4096;

/// The address of the first glyph of the built-in font.
pub const FONTSET_START_ADDRESS: u16 = 0x0;

/// The largest program that can be loaded, in bytes.
pub const MAX_ROM_SIZE: usize = 0xFFF - 0x200;

/// The built-in font: sixteen glyphs of five bytes, for the digits 0 to F.
pub open spec fn font_table() -> Seq<u8> {
    seq![
        0xF0u8, 0x90, 0x90, 0x90, 0xF0,
        0x20, 0x60, 0x20, 0x20, 0x70,
        0xF0, 0x10, 0xF0, 0x80, 0xF0,
        0xF0, 0x10, 0xF0, 0x10, 0xF0,
        0x90, 0x90, 0xF0, 0x10, 0x10,
        0xF0, 0x80, 0xF0, 0x10, 0xF0,
        0xF0, 0x80, 0xF0, 0x90, 0xF0,
        0xF0, 0x10, 0x20, 0x40, 0x40,
        0xF0, 0x90, 0xF0, 0x90, 0xF0,
        0xF0, 0x90, 0xF0, 0x10, 0xF0,
        0xF0, 0x90, 0xF0, 0x90, 0x90,
        0xE0, 0x90, 0xE0, 0x90, 0xE0,
        0xF0, 0x80, 0x80, 0x80, 0xF0,
        0xE0, 0x90, 0x90, 0x90, 0xE0,
        0xF0, 0x80, 0xF0, 0x80, 0xF0,
        0xF0, 0x80, 0xF0, 0x80, 0x80,
    ]
}

/// The machine as it is before any program is loaded: the font at the bottom
/// of memory, the program counter at the program start, all else zero.
pub open spec fn initial_machine() -> Machine {
    Machine {
        memory: Seq::new(
            4096,
            |a: int|
                if a < 80 {
                    font_table()[a]
                } else {
                    0u8
                },
        ),
        opcode: 0,
        v: Seq::new(16, |r: int| 0u8),
        i: 0,
        pc: 0x200,
        screen: Seq::new(2048, |p: int| false),
        delay_timer: 0,
        sound_timer: 0,
        stack: Seq::empty(),
        keys: Seq::new(16, |k: int| false),
        draw_flag: false,
        key_wait: KeyWait::Idle,
    }
}

/// Whether the part of a sprite that precedes column `cols` of row `rows`,
/// rows from the top and columns from the left, has a set bit on the pixel in
/// column `px` of row `py`.
spec fn covers_upto(m: Machine, left: int, top: int, rows: int, cols: int, px: int, py: int) -> bool {
    &&& left <= px < left + 8
    &&& top <= py
    &&& (py < top + rows || (py == top + rows && px < left + cols))
    &&& sprite_bit(m.at_index(py - top), px - left)
}

/// Whether that part of the sprite has a set bit on any pixel of the screen.
spec fn touches_upto(m: Machine, left: int, top: int, rows: int, cols: int) -> bool {
    exists|px: int, py: int|
        0 <= px < 64 && 0 <= py < 32 && #[trigger] covers_upto(m, left, top, rows, cols, px, py)
}

/// The screen after that part of the sprite was drawn on the screen of `m`.
spec fn screen_upto(m: Machine, left: int, top: int, rows: int, cols: int) -> Seq<bool> {
    Seq::new(2048, |p: int| m.screen[p] != covers_upto(m, left, top, rows, cols, p % 64, p / 64))
}

/// Drawing one more column of a row adds the pixel under that column's bit.
proof fn lemma_touches_next_col(m: Machine, left: int, top: int, rows: int, cols: int)
    requires
        0 <= left < 64,
        0 <= top,
        0 <= rows,
        top + rows < 32,
        0 <= cols < 8,
        left + cols < 64,
    ensures
        touches_upto(m, left, top, rows, cols + 1) == (touches_upto(m, left, top, rows, cols)
            || sprite_bit(m.at_index(rows), cols)),
{
    if touches_upto(m, left, top, rows, cols) {
        let (px, py) = choose|px: int, py: int|
            0 <= px < 64 && 0 <= py < 32 && #[trigger] covers_upto(
                m,
                left,
                top,
                rows,
                cols,
                px,
                py,
            );
        assert(covers_upto(m, left, top, rows, cols + 1, px, py));
    }
    if sprite_bit(m.at_index(rows), cols) {
        assert(covers_upto(m, left, top, rows, cols + 1, left + cols, top + rows));
    }
    if touches_upto(m, left, top, rows, cols + 1) {
        let (px, py) = choose|px: int, py: int|
            0 <= px < 64 && 0 <= py < 32 && #[trigger] covers_upto(
                m,
                left,
                top,
                rows,
                cols + 1,
                px,
                py,
            );
        if !(px == left + cols && py == top + rows) {
            assert(covers_upto(m, left, top, rows, cols, px, py));
        }
    }
}

/// Two parts of a sprite that cover the same pixels of the screen touch it
/// alike and leave the same screen.
proof fn lemma_same_cover(
    m: Machine,
    left: int,
    top: int,
    rows1: int,
    cols1: int,
    rows2: int,
    cols2: int,
)
    requires
        forall|px: int, py: int|
            0 <= px < 64 && 0 <= py < 32 ==> covers_upto(m, left, top, rows1, cols1, px, py)
                == covers_upto(m, left, top, rows2, cols2, px, py),
    ensures
        touches_upto(m, left, top, rows1, cols1) == touches_upto(m, left, top, rows2, cols2),
        screen_upto(m, left, top, rows1, cols1) == screen_upto(m, left, top, rows2, cols2),
{
    if touches_upto(m, left, top, rows1, cols1) {
        let (px, py) = choose|px: int, py: int|
            0 <= px < 64 && 0 <= py < 32 && #[trigger] covers_upto(
                m,
                left,
                top,
                rows1,
                cols1,
                px,
                py,
            );
        assert(covers_upto(m, left, top, rows2, cols2, px, py));
    }
    if touches_upto(m, left, top, rows2, cols2) {
        let (px, py) = choose|px: int, py: int|
            0 <= px < 64 && 0 <= py < 32 && #[trigger] covers_upto(
                m,
                left,
                top,
                rows2,
                cols2,
                px,
                py,
            );
        assert(covers_upto(m, left, top, rows1, cols1, px, py));
    }
    assert(screen_upto(m, left, top, rows1, cols1) =~= screen_upto(m, left, top, rows2, cols2));
}

/// A whole sprite is the part of it that precedes its row `n`.
proof fn lemma_whole_sprite(m: Machine, left: int, top: int, n: int)
    ensures
        m.sprite_touches(left, top, n) == touches_upto(m, left, top, n, 0),
        Seq::new(2048, |p: int| m.screen[p] != m.sprite_covers(left, top, n, p % 64, p / 64))
            == screen_upto(m, left, top, n, 0),
{
    assert forall|px: int, py: int|
        m.sprite_covers(left, top, n, px, py) == covers_upto(m, left, top, n, 0, px, py) by {}
    if m.sprite_touches(left, top, n) {
        let (px, py) = choose|px: int, py: int|
            0 <= px < 64 && 0 <= py < 32 && #[trigger] m.sprite_covers(left, top, n, px, py);
        assert(covers_upto(m, left, top, n, 0, px, py));
    }
    if touches_upto(m, left, top, n, 0) {
        let (px, py) = choose|px: int, py: int|
            0 <= px < 64 && 0 <= py < 32 && #[trigger] covers_upto(m, left, top, n, 0, px, py);
        assert(m.sprite_covers(left, top, n, px, py));
    }
    assert(Seq::new(2048, |p: int| m.screen[p] != m.sprite_covers(left, top, n, p % 64, p / 64))
        =~= screen_upto(m, left, top, n, 0));
}

/// The CHIP-8 machine.
pub struct Cpu {
    /// 4096 bytes of memory.
    pub memory: [u8; MEMORY_SIZE],
    /// The opcode of the last instruction that ran.
    pub opcode: u16,
    /// The registers `V0` to `VF`.
    pub v: [u8; 16],
    /// The index register `I`.
    pub i: u16,
    /// The program counter.
    pub pc: u16,
    /// The screen, row by row from the top left; `true` is on.
    pub screen: [bool; SCREEN_SIZE],
    /// The delay timer.
    pub delay_timer: u8,
    /// The sound timer.
    pub sound_timer: u8,
    /// The call stack.
    pub stack: Vec<u16>,
    /// The sixteen keys; `true` is down.
    pub keys: [bool; 16],
    /// Whether the last step may have changed the screen.
    pub draw_flag: bool,
    /// The latch of the blocking key read.
    pub key_wait: KeyWait,
    /// The generator behind `CXNN`.
    pub rng: ThreadRng,
}

impl View for Cpu {
    type V = Machine;

    open spec fn view(&self) -> Machine {
        Machine {
            memory: self.memory@,
            opcode: self.opcode,
            v: self.v@,
            i: self.i,
            pc: self.pc,
            screen: self.screen@,
            delay_timer: self.delay_timer,
            sound_timer: self.sound_timer,
            stack: self.stack@,
            keys: self.keys@,
            draw_flag: self.draw_flag,
            key_wait: self.key_wait,
        }
    }
}

impl Cpu {
    /// A machine with the font loaded and nothing else.
    pub fn new() -> (cpu: Self)
        ensures
            cpu@ == initial_machine(),
    {
        let mut cpu = Cpu {
            memory: [0; 4096],
            v: [0; 16],
            i: 0,
            pc: PROGRAM_START,
            screen: [false; 2048],
            delay_timer: 0,
            sound_timer: 0,
            stack: Vec::new(),
            keys: [false; 16],
            opcode: 0,
            draw_flag: false,
            rng: new_thread_rng(),
            key_wait: KeyWait::Idle,
        };
        let font: [u8; 80] = [
            0xF0, 0x90, 0x90, 0x90, 0xF0,
            0x20, 0x60, 0x20, 0x20, 0x70,
            0xF0, 0x10, 0xF0, 0x80, 0xF0,
            0xF0, 0x10, 0xF0, 0x10, 0xF0,
            0x90, 0x90, 0xF0, 0x10, 0x10,
            0xF0, 0x80, 0xF0, 0x10, 0xF0,
            0xF0, 0x80, 0xF0, 0x90, 0xF0,
            0xF0, 0x10, 0x20, 0x40, 0x40,
            0xF0, 0x90, 0xF0, 0x90, 0xF0,
            0xF0, 0x90, 0xF0, 0x10, 0xF0,
            0xF0, 0x90, 0xF0, 0x90, 0x90,
            0xE0, 0x90, 0xE0, 0x90, 0xE0,
            0xF0, 0x80, 0x80, 0x80, 0xF0,
            0xE0, 0x90, 0x90, 0x90, 0xE0,
            0xF0, 0x80, 0xF0, 0x80, 0xF0,
            0xF0, 0x80, 0xF0, 0x80, 0x80,
        ];
        assert(font@ =~= font_table());
        let mut a: usize = 0;
        proof {
            assert(cpu.v@ =~= initial_machine().v);
            assert(cpu.screen@ =~= initial_machine().screen);
            assert(cpu.keys@ =~= initial_machine().keys);
            assert(cpu.stack@ =~= initial_machine().stack);
        }
        while a < 80
            invariant
                a <= 80,
                font@ == font_table(),
                forall|b: int| 0 <= b < a ==> cpu.memory@[b] == font_table()[b],
                forall|b: int| a <= b < 4096 ==> cpu.memory@[b] == 0,
                cpu@ == (Machine { memory: cpu.memory@, ..initial_machine() }),
            decreases 80 - a,
        {
            cpu.memory[a] = font[a];
            a += 1;
        }
        assert(cpu.memory@ =~= initial_machine().memory);
        cpu
    }

    /// The byte at an address; addresses wrap at 4096.
    pub fn read(&self, address: u16) -> (value: u8)
        ensures
            value == self@.memory[cell(address as int)],
    {
        assert((address & 0x0FFF) == address % 4096) by (bit_vector);
        self.memory[(address & 0x0FFF) as usize]
    }

    /// Stores a byte at an address; addresses wrap at 4096.
    pub fn write(&mut self, address: u16, value: u8)
        ensures
            final(self)@ == (Machine {
                memory: old(self)@.memory.update(cell(address as int), value),
                ..old(self)@
            }),
    {
        assert((address & 0x0FFF) == address % 4096) by (bit_vector);
        self.memory[(address & 0x0FFF) as usize] = value;
    }

    /// One tick of the 60 Hz clock: each timer that is not zero goes down by
    /// one.
    pub fn tick_timers(&mut self)
        ensures
            final(self)@ == old(self)@.tick(),
    {
        if self.delay_timer > 0 {
            self.delay_timer -= 1;
        }
        if self.sound_timer > 0 {
            self.sound_timer -= 1;
        }
    }

    /// Moves the program counter on by one instruction.
    fn inc_pc(&mut self)
        ensures
            final(self)@ == old(self)@.next(),
    {
        self.pc = self.pc.wrapping_add(2);
    }

    /// Moves the program counter past the next instruction where `skip`
    /// holds, and on to it where not.
    fn skip_if(&mut self, skip: bool)
        ensures
            final(self)@ == old(self)@.skip_if(skip),
    {
        if skip {
            self.pc = self.pc.wrapping_add(4);
        } else {
            self.pc = self.pc.wrapping_add(2);
        }
    }

    /// `00E0`: clears the screen.
    fn op_00e0(&mut self)
        ensures
            final(self)@ == old(self)@.op_00e0(),
    {
        self.screen = [false; 2048];
        self.draw_flag = true;
        assert(self.screen@ =~= Seq::new(2048, |p: int| false));
        self.inc_pc();
    }

    /// `00EE`: returns from a subroutine, or fails on an empty stack and
    /// leaves the machine as it was.
    fn op_00ee(&mut self) -> (outcome: Result<(), CpuError>)
        ensures
            old(self)@.stack.len() == 0 ==> outcome == Err::<(), CpuError>(
                CpuError::StackUnderflow,
            ) && final(self)@ == old(self)@,
            old(self)@.stack.len() > 0 ==> outcome.is_ok() && final(self)@ == old(self)@.op_00ee(),
    {
        if let Some(value) = self.stack.pop() {
            self.pc = value.wrapping_add(2);
            Ok(())
        } else {
            assert(self.stack@ =~= old(self).stack@);
            Err(CpuError::StackUnderflow)
        }
    }

    /// `1NNN`: jumps.
    fn op_1nnn(&mut self, nnn: u16)
        ensures
            final(self)@ == old(self)@.op_1nnn(nnn),
    {
        self.pc = nnn;
    }

    /// `2NNN`: calls a subroutine.
    fn op_2nnn(&mut self, nnn: u16)
        ensures
            final(self)@ == old(self)@.op_2nnn(nnn),
    {
        self.stack.push(self.pc);
        self.pc = nnn;
    }

    /// `3XNN`: skips where `Vx == NN`.
    fn op_3xnn(&mut self, x: usize, nn: u8)
        requires
            x < 16,
        ensures
            final(self)@ == old(self)@.op_3xnn(x as int, nn),
    {
        let skip = self.v[x] == nn;
        self.skip_if(skip);
    }

    /// `4XNN`: skips where `Vx != NN`.
    fn op_4xnn(&mut self, x: usize, nn: u8)
        requires
            x < 16,
        ensures
            final(self)@ == old(self)@.op_4xnn(x as int, nn),
    {
        let skip = self.v[x] != nn;
        self.skip_if(skip);
    }

    /// `5XY0`: skips where `Vx == Vy`.
    fn op_5xy0(&mut self, x: usize, y: usize)
        requires
            x < 16,
            y < 16,
        ensures
            final(self)@ == old(self)@.op_5xy0(x as int, y as int),
    {
        let skip = self.v[x] == self.v[y];
        self.skip_if(skip);
    }

    /// `6XNN`: `Vx = NN`.
    fn op_6xnn(&mut self, x: usize, nn: u8)
        requires
            x < 16,
        ensures
            final(self)@ == old(self)@.op_6xnn(x as int, nn),
    {
        self.v[x] = nn;
        self.inc_pc();
    }

    /// `7XNN`: adds `NN` to `Vx` with wraparound.
    fn op_7xnn(&mut self, x: usize, nn: u8)
        requires
            x < 16,
        ensures
            final(self)@ == old(self)@.op_7xnn(x as int, nn),
    {
        self.v[x] = self.v[x].wrapping_add(nn);
        self.inc_pc();
    }

    /// `8XY0`: `Vx = Vy`.
    fn op_8xy0(&mut self, x: usize, y: usize)
        requires
            x < 16,
            y < 16,
        ensures
            final(self)@ == old(self)@.op_8xy0(x as int, y as int),
    {
        self.v[x] = self.v[y];
        self.inc_pc();
    }

    /// `8XY1`: resets `VF`, then `Vx = Vx | Vy`.
    fn op_8xy1(&mut self, x: usize, y: usize)
        requires
            x < 16,
            y < 16,
        ensures
            final(self)@ == old(self)@.op_8xy1(x as int, y as int),
    {
        self.v[0xF] = 0;
        self.v[x] = self.v[x] | self.v[y];
        self.inc_pc();
    }

    /// `8XY2`: resets `VF`, then `Vx = Vx & Vy`.
    fn op_8xy2(&mut self, x: usize, y: usize)
        requires
            x < 16,
            y < 16,
        ensures
            final(self)@ == old(self)@.op_8xy2(x as int, y as int),
    {
        self.v[0xF] = 0;
        self.v[x] = self.v[x] & self.v[y];
        self.inc_pc();
    }

    /// `8XY3`: resets `VF`, then `Vx = Vx ^ Vy`.
    fn op_8xy3(&mut self, x: usize, y: usize)
        requires
            x < 16,
            y < 16,
        ensures
            final(self)@ == old(self)@.op_8xy3(x as int, y as int),
    {
        self.v[0xF] = 0;
        self.v[x] = self.v[x] ^ self.v[y];
        self.inc_pc();
    }

    /// `8XY4`: `Vx = Vx + Vy` with wraparound, `VF` the carry.
    fn op_8xy4(&mut self, x: usize, y: usize)
        requires
            x < 16,
            y < 16,
        ensures
            final(self)@ == old(self)@.op_8xy4(x as int, y as int),
    {
        let sum: u16 = self.v[x] as u16 + self.v[y] as u16;
        let carry_flag: u8 = if sum > 255 {
            1
        } else {
            0
        };
        assert((sum & 0x00FF) == sum % 256) by (bit_vector);
        self.v[x] = (sum & 0x00FF) as u8;
        self.v[0xF] = carry_flag;
        self.inc_pc();
    }

    /// `8XY5`: `Vx = Vx - Vy` with wraparound, `VF` 1 where nothing was
    /// borrowed.
    fn op_8xy5(&mut self, x: usize, y: usize)
        requires
            x < 16,
            y < 16,
        ensures
            final(self)@ == old(self)@.op_8xy5(x as int, y as int),
    {
        let vx = self.v[x];
        let vy = self.v[y];
        self.v[x] = vx.wrapping_sub(vy);
        self.v[0xF] = if vx >= vy {
            1
        } else {
            0
        };
        self.inc_pc();
    }

    /// `8XY6`: `Vx = Vy >> 1`, `VF` the bit shifted out.
    fn op_8xy6(&mut self, x: usize, y: usize)
        requires
            x < 16,
            y < 16,
        ensures
            final(self)@ == old(self)@.op_8xy6(x as int, y as int),
    {
        let vy = self.v[y];
        assert((vy >> 1) == vy / 2) by (bit_vector);
        assert((vy & 0b0000_0001) == vy % 2) by (bit_vector);
        let carry_flag = vy & 0b0000_0001;
        self.v[x] = vy >> 1;
        self.v[0xF] = carry_flag;
        self.inc_pc();
    }

    /// `8XY7`: `Vx = Vy - Vx` with wraparound, `VF` 1 where nothing was
    /// borrowed.
    fn op_8xy7(&mut self, x: usize, y: usize)
        requires
            x < 16,
            y < 16,
        ensures
            final(self)@ == old(self)@.op_8xy7(x as int, y as int),
    {
        let vx = self.v[x];
        let vy = self.v[y];
        self.v[x] = vy.wrapping_sub(vx);
        self.v[0xF] = if vy >= vx {
            1
        } else {
            0
        };
        self.inc_pc();
    }

    /// `8XYE`: `Vx = Vy << 1` within 8 bits, `VF` the bit shifted out.
    fn op_8xye(&mut self, x: usize, y: usize)
        requires
            x < 16,
            y < 16,
        ensures
            final(self)@ == old(self)@.op_8xye(x as int, y as int),
    {
        let vy = self.v[y];
        assert((vy << 1) == (vy * 2) % 256) by (bit_vector);
        assert((vy >> 7) == vy / 128) by (bit_vector);
        let carry_flag = vy >> 7;
        self.v[x] = vy << 1;
        self.v[0xF] = carry_flag;
        self.inc_pc();
    }

    /// `9XY0`: skips where `Vx != Vy`.
    fn op_9xy0(&mut self, x: usize, y: usize)
        requires
            x < 16,
            y < 16,
        ensures
            final(self)@ == old(self)@.op_9xy0(x as int, y as int),
    {
        let skip = self.v[x] != self.v[y];
        self.skip_if(skip);
    }

    /// `ANNN`: `I = NNN`.
    fn op_annn(&mut self, nnn: u16)
        ensures
            final(self)@ == old(self)@.op_annn(nnn),
    {
        self.i = nnn;
        self.inc_pc();
    }

    /// `BNNN`: jumps to `NNN + V0`.
    fn op_bnnn(&mut self, nnn: u16)
        ensures
            final(self)@ == old(self)@.op_bnnn(nnn),
    {
        self.pc = nnn.wrapping_add(self.v[0] as u16);
    }

    /// `CXNN`: stores in `Vx` the random byte that was drawn, masked by `NN`.
    fn op_cxnn(&mut self, x: usize, nn: u8, random: u8)
        requires
            x < 16,
        ensures
            final(self)@ == old(self)@.op_cxnn(x as int, nn, random),
    {
        self.v[x] = random & nn;
        self.inc_pc();
    }

    /// The place of a pixel in the screen buffer; coordinates wrap at the
    /// screen's width and height.
    fn get_screen_index(x: u8, y: u8) -> (index: usize)
        ensures
            index == (y as int % 32) * 64 + (x as int % 64),
    {
        ((y as usize % SCREEN_HEIGHT) * SCREEN_WIDTH) + (x as usize % SCREEN_WIDTH)
    }

    /// Toggles a pixel where `value` is not zero and leaves it where it is
    /// zero. Returns whether the pixel changed.
    fn set_screen_pixel(&mut self, x: u8, y: u8, value: u8) -> (changed: bool)
        ensures
            changed == (value > 0),
            final(self)@ == (Machine {
                screen: old(self)@.screen.update(
                    (y as int % 32) * 64 + (x as int % 64),
                    old(self)@.screen[(y as int % 32) * 64 + (x as int % 64)] != (value > 0),
                ),
                ..old(self)@
            }),
    {
        let index = Cpu::get_screen_index(x, y);
        let before = self.screen[index];
        if value > 0 {
            self.screen[index] = !before;
        }
        assert(self.screen@ =~= old(self)@.screen.update(index as int, before != (value > 0)));
        self.screen[index] != before
    }

    /// `DXYN`: draws a sprite of `height` rows from memory at `I` with its
    /// top left corner at (`Vx mod 64`, `Vy mod 32`), clipped at the right
    /// and bottom edges. `VF` tells whether a pixel changed.
    fn op_dxyn(&mut self, x: usize, y: usize, height: u8)
        requires
            x < 16,
            y < 16,
        ensures
            final(self)@ == old(self)@.op_dxyn(x as int, y as int, height as int),
    {
        let x_pos = self.v[x] % 64;
        let y_pos = self.v[y] % 32;
        let ghost m = self@;
        let ghost left = x_pos as int;
        let ghost top = y_pos as int;
        self.v[0xF] = 0;
        proof {
            assert(!touches_upto(m, left, top, 0, 0));
            assert(self.screen@ =~= screen_upto(m, left, top, 0, 0));
        }
        let mut row: u8 = 0;
        while row < height && y_pos + row < 32
            invariant
                x_pos < 64,
                y_pos < 32,
                left == x_pos,
                top == y_pos,
                row <= height,
                y_pos + row <= 32,
                self.screen@ == screen_upto(m, left, top, row as int, 0),
                self.v@ == m.v.update(
                    0xF,
                    if touches_upto(m, left, top, row as int, 0) {
                        1u8
                    } else {
                        0u8
                    },
                ),
                self@ == (Machine { screen: self.screen@, v: self.v@, ..m }),
                m.well_sized(),
            decreases height - row,
        {
            let pixel = self.read(self.i.wrapping_add(row as u16));
            assert(pixel == m.at_index(row as int));
            let mut col: u8 = 0;
            while col < 8 && x_pos + col < 64
                invariant
                    x_pos < 64,
                    y_pos < 32,
                    left == x_pos,
                    top == y_pos,
                    row < height,
                    y_pos + row < 32,
                    col <= 8,
                    x_pos + col <= 64,
                    pixel == m.at_index(row as int),
                    self.screen@ == screen_upto(m, left, top, row as int, col as int),
                    self.v@ == m.v.update(
                        0xF,
                        if touches_upto(m, left, top, row as int, col as int) {
                            1u8
                        } else {
                            0u8
                        },
                    ),
                    self@ == (Machine { screen: self.screen@, v: self.v@, ..m }),
                    m.well_sized(),
                decreases 8 - col,
            {
                let ghost screen_before = self.screen@;
                let bit = (pixel >> (7 - col)) & 1;
                assert((bit > 0) == sprite_bit(pixel, col as int)) by {
                    assert(((pixel >> (7 - col) as u8) & 1) == 0 || ((pixel >> (7 - col) as u8)
                        & 1) == 1) by (bit_vector);
                }
                if self.set_screen_pixel(x_pos + col, y_pos + row, bit) {
                    self.v[0xF] = 1;
                }
                proof {
                    lemma_touches_next_col(m, left, top, row as int, col as int);
                    let here = (top + row) * 64 + (left + col);
                    assert(self.screen@ == screen_before.update(
                        here,
                        screen_before[here] != (bit > 0),
                    ));
                    assert forall|p: int| 0 <= p < 2048 implies self.screen@[p] == screen_upto(
                        m,
                        left,
                        top,
                        row as int,
                        col + 1,
                    )[p] by {
                        if p == here {
                            assert(p % 64 == left + col && p / 64 == top + row);
                        } else {
                            assert(!(p % 64 == left + col && p / 64 == top + row));
                        }
                    }
                    assert(self.screen@ =~= screen_upto(m, left, top, row as int, col + 1));
                    assert(self.v@ =~= m.v.update(
                        0xF,
                        if touches_upto(m, left, top, row as int, col + 1) {
                            1u8
                        } else {
                            0u8
                        },
                    ));
                }
                col += 1;
            }
            proof {
                lemma_same_cover(m, left, top, row as int, col as int, row + 1, 0);
            }
            row += 1;
        }
        proof {
            lemma_same_cover(m, left, top, row as int, 0, height as int, 0);
            lemma_whole_sprite(m, left, top, height as int);
        }
        self.draw_flag = true;
        self.inc_pc();
    }

    /// `EX9E`: skips where the key that `Vx` names is down.
    fn op_ex9e(&mut self, x: usize)
        requires
            x < 16,
        ensures
            final(self)@ == old(self)@.op_ex9e(x as int),
    {
        let vx = self.v[x];
        assert((vx & 0x0F) == vx % 16) by (bit_vector);
        let key = self.keys[(vx & 0x0F) as usize];
        self.skip_if(key);
    }

    /// `EXA1`: skips where the key that `Vx` names is up.
    fn op_exa1(&mut self, x: usize)
        requires
            x < 16,
        ensures
            final(self)@ == old(self)@.op_exa1(x as int),
    {
        let vx = self.v[x];
        assert((vx & 0x0F) == vx % 16) by (bit_vector);
        let key = self.keys[(vx & 0x0F) as usize];
        self.skip_if(!key);
    }

    /// `FX07`: `Vx = delay timer`.
    fn op_fx07(&mut self, x: usize)
        requires
            x < 16,
        ensures
            final(self)@ == old(self)@.op_fx07(x as int),
    {
        self.v[x] = self.delay_timer;
        self.inc_pc();
    }

    /// `FX0A`: the blocking key read. The program counter moves on only
    /// once a key was seen down and then released.
    fn op_fx0a(&mut self, x: usize)
        requires
            x < 16,
        ensures
            final(self)@ == old(self)@.op_fx0a(x as int),
    {
        match self.key_wait {
            KeyWait::Captured(key) => {
                assert((key & 0x0F) == key % 16) by (bit_vector);
                let key_index = (key & 0x0F) as usize;
                if !self.keys[key_index] {
                    self.key_wait = KeyWait::Idle;
                    self.v[x] = key_index as u8;
                    self.inc_pc();
                }
            },
            KeyWait::Idle => {
                let mut i: usize = 0;
                while i < 16
                    invariant
                        i <= 16,
                        self.key_wait == (match highest_key_down(self.keys@, i as int) {
                            Some(key) => KeyWait::Captured(key),
                            None => KeyWait::Idle,
                        }),
                        self@ == (Machine { key_wait: self.key_wait, ..old(self)@ }),
                    decreases 16 - i,
                {
                    if self.keys[i] {
                        self.key_wait = KeyWait::Captured(i as u8);
                    }
                    i += 1;
                }
            },
        }
    }

    /// `FX15`: `delay timer = Vx`.
    fn op_fx15(&mut self, x: usize)
        requires
            x < 16,
        ensures
            final(self)@ == old(self)@.op_fx15(x as int),
    {
        self.delay_timer = self.v[x];
        self.inc_pc();
    }

    /// `FX18`: `sound timer = Vx`.
    fn op_fx18(&mut self, x: usize)
        requires
            x < 16,
        ensures
            final(self)@ == old(self)@.op_fx18(x as int),
    {
        self.sound_timer = self.v[x];
        self.inc_pc();
    }

    /// `FX1E`: adds `Vx` to `I` with wraparound.
    fn op_fx1e(&mut self, x: usize)
        requires
            x < 16,
        ensures
            final(self)@ == old(self)@.op_fx1e(x as int),
    {
        self.i = self.i.wrapping_add(self.v[x] as u16);
        self.inc_pc();
    }

    /// `FX29`: points `I` at the glyph for the digit in `Vx`.
    fn op_fx29(&mut self, x: usize)
        requires
            x < 16,
        ensures
            final(self)@ == old(self)@.op_fx29(x as int),
    {
        self.i = FONTSET_START_ADDRESS + (self.v[x] as u16 * 5);
        self.inc_pc();
    }

    /// `FX33`: stores the hundreds, tens and ones of `Vx` at `I`, `I + 1`
    /// and `I + 2`.
    fn op_fx33(&mut self, x: usize)
        requires
            x < 16,
        ensures
            final(self)@ == old(self)@.op_fx33(x as int),
    {
        let mut value = self.v[x];
        self.write(self.i.wrapping_add(2), value % 10);
        value /= 10;
        self.write(self.i.wrapping_add(1), value % 10);
        value /= 10;
        self.write(self.i, value % 10);
        self.inc_pc();
    }

    /// `FX55`: stores `V0` to `Vx` in memory from `I` on, then adds `x + 1`
    /// to `I`.
    fn op_fx55(&mut self, x: usize)
        requires
            x < 16,
        ensures
            final(self)@ == old(self)@.op_fx55(x as int),
    {
        let ghost m = self@;
        let mut offset: usize = 0;
        while offset < x + 1
            invariant
                x < 16,
                offset <= x + 1,
                m.well_sized(),
                forall|a: int|
                    0 <= a < 4096 ==> self.memory@[a] == (if cell(a - m.i) < offset {
                        m.v[cell(a - m.i)]
                    } else {
                        m.memory[a]
                    }),
                self@ == (Machine { memory: self.memory@, ..m }),
            decreases x + 1 - offset,
        {
            self.write(self.i.wrapping_add(offset as u16), self.v[offset]);
            offset += 1;
        }
        self.i = self.i.wrapping_add(x as u16 + 1);
        assert(self.memory@ =~= m.op_fx55(x as int).memory);
        self.inc_pc();
    }

    /// `FX65`: reads `V0` to `Vx` from memory from `I` on, then adds `x + 1`
    /// to `I`.
    fn op_fx65(&mut self, x: usize)
        requires
            x < 16,
        ensures
            final(self)@ == old(self)@.op_fx65(x as int),
    {
        let ghost m = self@;
        let mut offset: usize = 0;
        while offset < x + 1
            invariant
                x < 16,
                offset <= x + 1,
                m.well_sized(),
                forall|r: int|
                    0 <= r < 16 ==> self.v@[r] == (if r < offset {
                        m.at_index(r)
                    } else {
                        m.v[r]
                    }),
                self@ == (Machine { v: self.v@, ..m }),
            decreases x + 1 - offset,
        {
            self.v[offset] = self.read(self.i.wrapping_add(offset as u16));
            offset += 1;
        }
        self.i = self.i.wrapping_add(x as u16 + 1);
        assert(self.v@ =~= m.op_fx65(x as int).v);
        self.inc_pc();
    }

    /// Copies a program into memory from the program start on. The program
    /// must fit below the top of memory.
    pub fn load_rom(&mut self, rom: &[u8])
        requires
            rom@.len() <= MAX_ROM_SIZE,
        ensures
            final(self)@ == old(self)@.load(rom@),
    {
        let ghost m = self@;
        let mut i: usize = 0;
        while i < rom.len()
            invariant
                i <= rom@.len() <= MAX_ROM_SIZE,
                m.well_sized(),
                forall|a: int|
                    0 <= a < 4096 ==> self.memory@[a] == (if 0x200 <= a < 0x200 + i {
                        rom@[a - 0x200]
                    } else {
                        m.memory[a]
                    }),
                self@ == (Machine { memory: self.memory@, ..m }),
            decreases rom@.len() - i,
        {
            self.write(PROGRAM_START + (i as u16), rom[i]);
            i += 1;
        }
        assert(self.memory@ =~= m.load(rom@).memory);
    }

    /// Runs one decoded instruction, with `random` for the byte that `CXNN`
    /// would draw. A return on an empty stack fails and leaves the machine
    /// as it was; every other instruction succeeds.
    pub fn execute(&mut self, instruction: Instruction, random: u8) -> (outcome: Result<
        (),
        CpuError,
    >)
        requires
            instruction.wf(),
        ensures
            old(self)@.can_run(instruction) ==> outcome.is_ok() && final(self)@ == old(
                self,
            )@.apply(instruction, random),
            !old(self)@.can_run(instruction) ==> outcome == Err::<(), CpuError>(
                CpuError::StackUnderflow,
            ) && final(self)@ == old(self)@,
    {
        match instruction {
            Instruction::ClearScreen => self.op_00e0(),
            Instruction::Return => {
                return self.op_00ee();
            },
            Instruction::Jump { nnn } => self.op_1nnn(nnn),
            Instruction::Call { nnn } => self.op_2nnn(nnn),
            Instruction::SkipEqImm { x, nn } => self.op_3xnn(x, nn),
            Instruction::SkipNeImm { x, nn } => self.op_4xnn(x, nn),
            Instruction::SkipEqReg { x, y } => self.op_5xy0(x, y),
            Instruction::LoadImm { x, nn } => self.op_6xnn(x, nn),
            Instruction::AddImm { x, nn } => self.op_7xnn(x, nn),
            Instruction::Move { x, y } => self.op_8xy0(x, y),
            Instruction::Or { x, y } => self.op_8xy1(x, y),
            Instruction::And { x, y } => self.op_8xy2(x, y),
            Instruction::Xor { x, y } => self.op_8xy3(x, y),
            Instruction::Add { x, y } => self.op_8xy4(x, y),
            Instruction::Sub { x, y } => self.op_8xy5(x, y),
            Instruction::ShiftRight { x, y } => self.op_8xy6(x, y),
            Instruction::SubFrom { x, y } => self.op_8xy7(x, y),
            Instruction::ShiftLeft { x, y } => self.op_8xye(x, y),
            Instruction::SkipNeReg { x, y } => self.op_9xy0(x, y),
            Instruction::LoadIndex { nnn } => self.op_annn(nnn),
            Instruction::JumpOffset { nnn } => self.op_bnnn(nnn),
            Instruction::Random { x, nn } => self.op_cxnn(x, nn, random),
            Instruction::Draw { x, y, n } => self.op_dxyn(x, y, n),
            Instruction::SkipKeyDown { x } => self.op_ex9e(x),
            Instruction::SkipKeyUp { x } => self.op_exa1(x),
            Instruction::ReadDelay { x } => self.op_fx07(x),
            Instruction::WaitKey { x } => self.op_fx0a(x),
            Instruction::SetDelay { x } => self.op_fx15(x),
            Instruction::SetSound { x } => self.op_fx18(x),
            Instruction::AddIndex { x } => self.op_fx1e(x),
            Instruction::FontAddress { x } => self.op_fx29(x),
            Instruction::StoreBcd { x } => self.op_fx33(x),
            Instruction::StoreRegisters { x } => self.op_fx55(x),
            Instruction::LoadRegisters { x } => self.op_fx65(x),
        }
        Ok(())
    }

    /// Reads the opcode word at the program counter, high byte first.
    pub fn fetch(&self) -> (opcode: u16)
        ensures
            opcode == self@.fetch(),
    {
        let high = self.read(self.pc) as u16;
        let low = self.read(self.pc.wrapping_add(1)) as u16;
        assert(((high << 8) | low) == high * 256 + low) by (bit_vector)
            requires
                high < 256,
                low < 256,
        ;
        (high << 8) | low
    }

    /// One fetch-decode-execute step with `random` for the byte that `CXNN`
    /// would draw. On success the machine is the next state of the model;
    /// on failure it is as it was.
    pub fn run_instruction_with(&mut self, random: u8) -> (outcome: Result<(), CpuError>)
        ensures
            match old(self)@.step(random) {
                Ok(next) => outcome.is_ok() && final(self)@ == next,
                Err(error) => outcome == Err::<(), CpuError>(error) && final(self)@ == old(self)@,
            },
    {
        let opcode = self.fetch();
        match decode(opcode) {
            None => Err(CpuError::UnrecognizedOpcode),
            Some(instruction) => {
                if self.stack.len() == 0 {
                    if let Instruction::Return = instruction {
                        return Err(CpuError::StackUnderflow);
                    }
                }
                self.draw_flag = false;
                self.opcode = opcode;
                self.execute(instruction, random)
            },
        }
    }

    /// One fetch-decode-execute step. A random byte is drawn where the
    /// instruction is `CXNN`, and only there. On success the machine is the
    /// next state of the model for the byte that was drawn; on failure it is
    /// as it was.
    pub fn run_instruction(&mut self) -> (outcome: Result<(), CpuError>)
        ensures
            exists|random: u8|
                match #[trigger] old(self)@.step(random) {
                    Ok(next) => outcome.is_ok() && final(self)@ == next,
                    Err(error) => outcome == Err::<(), CpuError>(error) && final(self)@ == old(
                        self,
                    )@,
                },
            !old(self)@.draws_random() ==> match old(self)@.step(0) {
                Ok(next) => outcome.is_ok() && final(self)@ == next,
                Err(error) => outcome == Err::<(), CpuError>(error) && final(self)@ == old(self)@,
            },
    {
        let opcode = self.fetch();
        let random: u8 = match decode(opcode) {
            Some(Instruction::Random { .. }) => random_byte(&mut self.rng),
            _ => 0,
        };
        let outcome = self.run_instruction_with(random);
        assert(match old(self)@.step(random) {
            Ok(next) => outcome.is_ok() && self@ == next,
            Err(error) => outcome == Err::<(), CpuError>(error) && self@ == old(self)@,
        });
        outcome
    }
}

} // verus!
