//! Laws of the instruction set, proved of the model in `machine`.

use super::instruction::{spec_decode, Instruction};
use super::machine::{highest_key_down, sprite_bit, wrap16, KeyWait, Machine};
use vstd::prelude::*;

verus! {

/// The opcode words `6XNN` and `7X00` decode to a load of `NN` into `Vx` and
/// an addition of zero to `Vx`, and after the two `Vx` holds `NN`: adding
/// zero changes nothing.
pub proof fn lemma_load_then_add_zero(m: Machine, x: usize, nn: u8, r1: u8, r2: u8)
    requires
        m.well_sized(),
        x < 16,
    ensures
        spec_decode((0x6000 + x * 0x100 + nn) as u16) == Some(Instruction::LoadImm { x, nn }),
        spec_decode((0x7000 + x * 0x100) as u16) == Some(Instruction::AddImm { x, nn: 0 }),
        m.apply(Instruction::LoadImm { x, nn }, r1).apply(Instruction::AddImm { x, nn: 0 }, r2).v[x as int]
            == nn,
{
    let xs = x as u16;
    let load = (0x6000 + x * 0x100 + nn) as u16;
    let add_zero = (0x7000 + x * 0x100) as u16;
    assert(load / 0x1000 == 6 && (load / 0x100) % 0x10 == xs && load % 0x100 == nn) by (bit_vector)
        requires
            xs < 16,
            load == 0x6000 + xs * 0x100 + nn,
    ;
    assert(add_zero / 0x1000 == 7 && (add_zero / 0x100) % 0x10 == xs && add_zero % 0x100 == 0)
        by (bit_vector)
        requires
            xs < 16,
            add_zero == 0x7000 + xs * 0x100,
    ;
}

/// `8XY4` sets `VF` to 1 exactly where the sum of `Vx` and `Vy` exceeds 255,
/// and to 0 elsewhere. Where `X` is not `F`, `Vx` then holds the sum modulo
/// 256.
pub proof fn lemma_add_carry(m: Machine, x: int, y: int)
    requires
        m.well_sized(),
        0 <= x < 16,
        0 <= y < 16,
    ensures
        m.op_8xy4(x, y).v[0xF] == 1 <==> m.v[x] + m.v[y] > 255,
        m.op_8xy4(x, y).v[0xF] == 0 <==> m.v[x] + m.v[y] <= 255,
        x != 0xF ==> m.op_8xy4(x, y).v[x] == (m.v[x] + m.v[y]) % 256,
{
}

/// `8XY5` sets `VF` to 1 exactly where `Vx >= Vy` held before, and to 0
/// elsewhere. Where `X` is not `F`, `Vx` then holds the difference modulo
/// 256, also where `Vx < Vy`.
pub proof fn lemma_sub_borrow(m: Machine, x: int, y: int)
    requires
        m.well_sized(),
        0 <= x < 16,
        0 <= y < 16,
    ensures
        m.op_8xy5(x, y).v[0xF] == 1 <==> m.v[x] >= m.v[y],
        m.op_8xy5(x, y).v[0xF] == 0 <==> m.v[x] < m.v[y],
        x != 0xF ==> m.op_8xy5(x, y).v[x] == (m.v[x] - m.v[y]) % 256,
{
}

/// Storing `V0` to `Vx` with `FX55`, clearing the registers, setting `I`
/// back and loading with `FX65` restores `V0` to `Vx`. Each of the two
/// leaves `I` at its value before plus `x + 1`.
pub proof fn lemma_store_load_round_trip(m: Machine, x: int, cleared: Seq<u8>)
    requires
        m.well_sized(),
        0 <= x < 16,
        cleared.len() == 16,
    ensures
        ({
            let stored = m.op_fx55(x);
            let loaded = (Machine { v: cleared, i: m.i, ..stored }).op_fx65(x);
            &&& stored.i == wrap16(m.i + x + 1)
            &&& loaded.i == wrap16(m.i + x + 1)
            &&& forall|r: int| 0 <= r <= x ==> loaded.v[r] == m.v[r]
            &&& forall|r: int| x < r < 16 ==> loaded.v[r] == cleared[r]
        }),
{
}

/// `00E0` leaves every pixel off and the redraw flag set, and so does a
/// second `00E0` after it.
pub proof fn lemma_clear_screen_twice(m: Machine, r1: u8, r2: u8)
    requires
        m.well_sized(),
    ensures
        ({
            let once = m.entered(0x00E0).apply(Instruction::ClearScreen, r1);
            let twice = once.entered(0x00E0).apply(Instruction::ClearScreen, r2);
            &&& once.draw_flag
            &&& twice.draw_flag
            &&& once.screen.len() == 2048
            &&& twice.screen == once.screen
            &&& forall|p: int| 0 <= p < 2048 ==> !once.screen[p] && !twice.screen[p]
        }),
{
    let once = m.entered(0x00E0).apply(Instruction::ClearScreen, r1);
    let twice = once.entered(0x00E0).apply(Instruction::ClearScreen, r2);
    assert(twice.screen =~= once.screen);
}

/// Drawing a sprite twice at one place gives back the screen as it was, and
/// the second draw sets `VF` to 1 wherever the first turned a pixel on. The
/// place is the same where neither coordinate register is `VF`, which the
/// first draw overwrites.
pub proof fn lemma_draw_twice(m: Machine, x: int, y: int, n: int)
    requires
        m.well_sized(),
        0 <= x < 0xF,
        0 <= y < 0xF,
        0 <= n,
    ensures
        ({
            let once = m.op_dxyn(x, y, n);
            let twice = once.op_dxyn(x, y, n);
            &&& twice.screen == m.screen
            &&& (exists|p: int| 0 <= p < 2048 && !m.screen[p] && once.screen[p]) ==> twice.v[0xF]
                == 1
            &&& twice.v[0xF] == once.v[0xF]
        }),
{
    let once = m.op_dxyn(x, y, n);
    let twice = once.op_dxyn(x, y, n);
    let left = m.sprite_left(x);
    let top = m.sprite_top(y);
    assert(once.sprite_left(x) == left && once.sprite_top(y) == top);
    assert forall|px: int, py: int|
        once.sprite_covers(left, top, n, px, py) == m.sprite_covers(left, top, n, px, py) by {}
    assert(twice.screen =~= m.screen);
    if m.sprite_touches(left, top, n) {
        let (px, py) = choose|px: int, py: int|
            0 <= px < 64 && 0 <= py < 32 && #[trigger] m.sprite_covers(left, top, n, px, py);
        assert(once.sprite_covers(left, top, n, px, py));
    }
    if once.sprite_touches(left, top, n) {
        let (px, py) = choose|px: int, py: int|
            0 <= px < 64 && 0 <= py < 32 && #[trigger] once.sprite_covers(left, top, n, px, py);
        assert(m.sprite_covers(left, top, n, px, py));
    }
    if exists|p: int| 0 <= p < 2048 && !m.screen[p] && once.screen[p] {
        let p = choose|p: int| 0 <= p < 2048 && !m.screen[p] && once.screen[p];
        assert(m.sprite_covers(left, top, n, p % 64, p / 64));
    }
}

/// A draw changes a pixel exactly where the pixel lies under a set bit of
/// the sprite, at most 8 columns to the right of the sprite's left edge and
/// `n` rows below its top. What of the sprite would lie beyond the right or
/// the bottom edge of the screen appears nowhere: no pixel to the left of
/// the sprite or above it changes.
pub proof fn lemma_draw_clips(m: Machine, x: int, y: int, n: int)
    requires
        m.well_sized(),
        0 <= x < 16,
        0 <= y < 16,
        0 <= n,
    ensures
        ({
            let drawn = m.op_dxyn(x, y, n);
            let left = m.v[x] as int % 64;
            let top = m.v[y] as int % 32;
            &&& drawn.screen.len() == 2048
            &&& forall|px: int, py: int|
                0 <= px < 64 && 0 <= py < 32 ==> (#[trigger] drawn.pixel(px, py) != m.pixel(
                    px,
                    py,
                )) == (left <= px < left + 8 && top <= py < top + n && sprite_bit(
                    m.at_index(py - top),
                    px - left,
                ))
            &&& forall|px: int, py: int|
                0 <= px < 64 && 0 <= py < 32 && (px < left || py < top) ==> #[trigger] drawn.pixel(
                    px,
                    py,
                ) == m.pixel(px, py)
        }),
{
    let drawn = m.op_dxyn(x, y, n);
    assert forall|px: int, py: int| 0 <= px < 64 && 0 <= py < 32 implies (#[trigger] drawn.pixel(
        px,
        py,
    ) == (m.screen[py * 64 + px] != m.sprite_covers(
        m.sprite_left(x),
        m.sprite_top(y),
        n,
        px,
        py,
    ))) by {
        assert((py * 64 + px) % 64 == px && (py * 64 + px) / 64 == py);
    }
}

/// The machine after `count` ticks of the 60 Hz clock.
pub open spec fn ticks(m: Machine, count: nat) -> Machine
    decreases count,
{
    if count == 0 {
        m
    } else {
        ticks(m, (count - 1) as nat).tick()
    }
}

/// After `count` ticks each timer is down by `count`, or at zero where it
/// held less; nothing else has changed.
pub proof fn lemma_ticks_count_down(m: Machine, count: nat)
    ensures
        ticks(m, count) == (Machine {
            delay_timer: if m.delay_timer >= count {
                (m.delay_timer - count) as u8
            } else {
                0u8
            },
            sound_timer: if m.sound_timer >= count {
                (m.sound_timer - count) as u8
            } else {
                0u8
            },
            ..m
        }),
    decreases count,
{
    if count > 0 {
        lemma_ticks_count_down(m, (count - 1) as nat);
    }
}

/// While no key is down and none is latched, the blocking key read changes
/// nothing: the program counter stays on the instruction.
pub proof fn lemma_key_wait_blocks(m: Machine, x: int)
    requires
        m.well_sized(),
        0 <= x < 16,
        m.key_wait == KeyWait::Idle,
        forall|k: int| 0 <= k < 16 ==> !m.keys[k],
    ensures
        m.op_fx0a(x) == m,
{
    lemma_no_key_down(m.keys, 16);
}

/// With one key down and none latched, the blocking key read latches that
/// key and stays on the instruction; while the key stays down it changes
/// nothing more; once the key is up it puts the key's index into `Vx`,
/// clears the latch and moves the program counter on by one instruction.
pub proof fn lemma_key_wait_press_release(
    m: Machine,
    x: int,
    key: int,
    held: Seq<bool>,
    released: Seq<bool>,
)
    requires
        m.well_sized(),
        0 <= x < 16,
        0 <= key < 16,
        m.key_wait == KeyWait::Idle,
        m.keys[key],
        forall|k: int| 0 <= k < 16 && k != key ==> !m.keys[k],
        held.len() == 16,
        held[key],
        released.len() == 16,
        !released[key],
    ensures
        ({
            let pressed = m.op_fx0a(x);
            let holding = (Machine { keys: held, ..pressed }).op_fx0a(x);
            let done = (Machine { keys: released, ..holding }).op_fx0a(x);
            &&& pressed == Machine { key_wait: KeyWait::Captured(key as u8), ..m }
            &&& holding == Machine { keys: held, ..pressed }
            &&& done.pc == wrap16(m.pc + 2)
            &&& done.v == m.v.update(x, key as u8)
            &&& done.key_wait == KeyWait::Idle
        }),
{
    lemma_one_key_down(m.keys, 16, key);
}

/// Only `CXNN` looks at the random byte: where the next instruction is
/// another, a step comes out the same whatever byte is drawn.
pub proof fn lemma_step_ignores_random(m: Machine, r1: u8, r2: u8)
    requires
        !m.draws_random(),
    ensures
        m.step(r1) == m.step(r2),
{
}

/// No instruction changes the size of memory, of the register file, of the
/// screen or of the keypad.
pub proof fn lemma_apply_keeps_sizes(m: Machine, instruction: Instruction, random: u8)
    requires
        m.well_sized(),
        instruction.wf(),
    ensures
        m.apply(instruction, random).well_sized(),
{
}

/// Every instruction sets the program counter exactly once: a jump, a call
/// and a return set it to their target, a skip moves it on by 2 or by 4,
/// the blocking key read leaves it or moves it on by 2, and every other
/// instruction moves it on by 2.
pub proof fn lemma_program_counter_moves(m: Machine, instruction: Instruction, random: u8)
    requires
        m.well_sized(),
        instruction.wf(),
    ensures
        ({
            let after = m.apply(instruction, random).pc;
            match instruction {
                Instruction::Jump { nnn } | Instruction::Call { nnn } => after == nnn,
                Instruction::JumpOffset { nnn } => after == nnn + m.v[0],
                Instruction::Return => after == wrap16(m.stack.last() + 2),
                Instruction::SkipEqImm { .. }
                | Instruction::SkipNeImm { .. }
                | Instruction::SkipEqReg { .. }
                | Instruction::SkipNeReg { .. }
                | Instruction::SkipKeyDown { .. }
                | Instruction::SkipKeyUp { .. } => after == wrap16(m.pc + 2) || after == wrap16(
                    m.pc + 4,
                ),
                Instruction::WaitKey { .. } => after == m.pc || after == wrap16(m.pc + 2),
                _ => after == wrap16(m.pc + 2),
            }
        }),
{
}

/// A step changes the call stack only by a call, which pushes the address
/// of the call, and by a return, which pops it.
pub proof fn lemma_stack_discipline(m: Machine, instruction: Instruction, random: u8)
    requires
        m.well_sized(),
        instruction.wf(),
        m.can_run(instruction),
    ensures
        ({
            let after = m.apply(instruction, random).stack;
            match instruction {
                Instruction::Call { .. } => after == m.stack.push(m.pc),
                Instruction::Return => after.push(m.stack.last()) == m.stack,
                _ => after == m.stack,
            }
        }),
{
    if instruction == Instruction::Return {
        assert(m.stack.drop_last().push(m.stack.last()) =~= m.stack);
    }
}

/// Where none of the first `count` keys is down, there is no highest one.
proof fn lemma_no_key_down(keys: Seq<bool>, count: int)
    requires
        forall|k: int| 0 <= k < count ==> !keys[k],
    ensures
        highest_key_down(keys, count) is None,
    decreases count,
{
    if count > 0 {
        lemma_no_key_down(keys, count - 1);
    }
}

/// Where `key` is the only one of the first `count` keys that is down, it is
/// the highest one, and there is none below it.
proof fn lemma_one_key_down(keys: Seq<bool>, count: int, key: int)
    requires
        0 <= count <= 256,
        0 <= key,
        forall|k: int| 0 <= k < count && k != key ==> !keys[k],
        key < count ==> keys[key],
    ensures
        highest_key_down(keys, count) == (if key < count {
            Some(key as u8)
        } else {
            None
        }),
    decreases count,
{
    if count > 0 {
        lemma_one_key_down(keys, count - 1, key);
    }
}

} // verus!
