//! A session: the options and the program that the host chose, the machine
//! that runs it, and what the host's loop asks of the machine on every turn.

use super::cpu::{initial_machine, Cpu, MAX_ROM_SIZE};
use super::keymap;
use super::machine::{CpuError, Machine};
use super::options::EmulatorOptions;
use vstd::prelude::*;

verus! {

broadcast use {vstd::string::axiom_spec_iter, vstd::string::next_postcondition};

/// The number of turns of the host's loop between two ticks of the timers.
pub const TURNS_PER_TICK: u16 = 30;

/// A session as a mathematical value.
pub struct Emu2View {
    /// The scaling that the host chose.
    pub scaling: u32,
    /// The program, once one was loaded.
    pub rom: Option<Seq<u8>>,
}

/// A session before it runs.
pub struct Emu2 {
    options: EmulatorOptions,
    rom: Option<Vec<u8>>,
}

/// What a turn of the host's loop leaves behind where its step gave the
/// machine `next`, with `frames` turns counted since the last tick: the
/// machine, ticked where 30 turns were counted; the new count; and whether
/// the screen wants a redraw.
pub open spec fn turn(next: Machine, frames: u16) -> (Machine, u16, bool) {
    if frames >= TURNS_PER_TICK {
        (next.tick(), 0u16, next.draw_flag)
    } else {
        (next, (frames + 1) as u16, next.draw_flag)
    }
}

/// The frame that shows a screen: four bytes to a pixel, all `0xFF` where
/// the pixel is on and all zero where it is off.
pub open spec fn frame_of(screen: Seq<bool>) -> Seq<u8> {
    Seq::new(
        8192,
        |j: int|
            if screen[j / 4] {
                0xFFu8
            } else {
                0x00u8
            },
    )
}

impl View for Emu2 {
    type V = Emu2View;

    closed spec fn view(&self) -> Emu2View {
        Emu2View {
            scaling: self.options.scaling,
            rom: match self.rom {
                Some(rom) => Some(rom@),
                None => None,
            },
        }
    }
}

impl Emu2 {
    /// A session with the given options and no program.
    pub fn new(options: EmulatorOptions) -> (emu: Self)
        ensures
            emu@ == (Emu2View { scaling: options.scaling, rom: None }),
    {
        Self { options, rom: None }
    }

    /// Takes the bytes of a program, in place of any taken before.
    pub fn load_rom(&mut self, program_data: Vec<u8>)
        ensures
            final(self)@ == (Emu2View { rom: Some(program_data@), ..old(self)@ }),
    {
        self.rom = Some(program_data);
    }

    /// The scaling that the host chose.
    pub fn scaling(&self) -> (scaling: u32)
        ensures
            scaling == self@.scaling,
    {
        self.options.scaling
    }

    /// A fresh machine with the session's program in its memory, where a
    /// program was loaded and fits; else none.
    pub fn boot(&self) -> (cpu: Option<Cpu>)
        ensures
            match self@.rom {
                Some(rom) if rom.len() <= MAX_ROM_SIZE => cpu matches Some(c) && c@
                    == initial_machine().load(rom),
                _ => cpu is None,
            },
    {
        match &self.rom {
            Some(rom) => {
                if rom.len() <= MAX_ROM_SIZE {
                    let mut cpu = Cpu::new();
                    cpu.load_rom(rom.as_slice());
                    Some(cpu)
                } else {
                    None
                }
            },
            None => None,
        }
    }

    /// One turn of the host's loop: a step of the machine, and on every
    /// 31st turn a tick of its timers. Returns whether the screen wants a
    /// redraw. Where the step fails, machine and count stay as they were.
    pub fn update(cpu: &mut Cpu, frames: &mut u16) -> (outcome: Result<bool, CpuError>)
        ensures
            exists|random: u8|
                match #[trigger] old(cpu)@.step(random) {
                    Ok(next) => (final(cpu)@, *final(frames), outcome) == (
                        turn(next, *old(frames)).0,
                        turn(next, *old(frames)).1,
                        Ok::<bool, CpuError>(turn(next, *old(frames)).2),
                    ),
                    Err(error) => outcome == Err::<bool, CpuError>(error) && final(cpu)@ == old(
                        cpu,
                    )@ && *final(frames) == *old(frames),
                },
            !old(cpu)@.draws_random() ==> match old(cpu)@.step(0) {
                Ok(next) => (final(cpu)@, *final(frames), outcome) == (
                    turn(next, *old(frames)).0,
                    turn(next, *old(frames)).1,
                    Ok::<bool, CpuError>(turn(next, *old(frames)).2),
                ),
                Err(error) => outcome == Err::<bool, CpuError>(error) && final(cpu)@ == old(cpu)@
                    && *final(frames) == *old(frames),
            },
    {
        match cpu.run_instruction() {
            Err(error) => Err(error),
            Ok(()) => {
                let redraw = cpu.draw_flag;
                if *frames >= TURNS_PER_TICK {
                    cpu.tick_timers();
                    *frames = 0;
                } else {
                    *frames += 1;
                }
                Ok(redraw)
            },
        }
    }

    /// The frame that shows the machine's screen, four bytes to a pixel.
    pub fn draw(cpu: &Cpu) -> (frame: Vec<u8>)
        ensures
            frame@ == frame_of(cpu@.screen),
    {
        let mut frame: Vec<u8> = Vec::new();
        let mut i: usize = 0;
        while i < 2048
            invariant
                i <= 2048,
                frame@.len() == 4 * i,
                forall|j: int|
                    0 <= j < 4 * i ==> frame@[j] == (if cpu@.screen[j / 4] {
                        0xFFu8
                    } else {
                        0x00u8
                    }),
            decreases 2048 - i,
        {
            let color: u8 = if cpu.screen[i] {
                0xFF
            } else {
                0x00
            };
            frame.push(color);
            frame.push(color);
            frame.push(color);
            frame.push(color);
            i += 1;
        }
        assert(frame@ =~= frame_of(cpu@.screen));
        frame
    }

    /// Takes a key event of the host: where the key's name stands for a key
    /// of the keypad, that key is now down or up as the event says.
    pub fn input(cpu: &mut Cpu, key: &str, pressed: bool)
        ensures
            final(cpu)@ == (match keymap::chip8_key_code(key@) {
                Some(code) => Machine {
                    keys: old(cpu)@.keys.update(code as int, pressed),
                    ..old(cpu)@
                },
                None => old(cpu)@,
            }),
    {
        if let Some(chip8_key) = Emu2::get_chip8_key_code(key) {
            cpu.keys[chip8_key as usize] = pressed;
        }
    }

    /// The key of the keypad that a key name of the host stands for.
    pub fn get_chip8_key_code(key: &str) -> (code: Option<u8>)
        ensures
            code == keymap::chip8_key_code(key@),
            code matches Some(k) ==> k < 16,
    {
        let mut chars = key.chars();
        let first = chars.next();
        let second = chars.next();
        match (first, second) {
            (Some(c), None) => keymap::key_code_of_char(c),
            _ => None,
        }
    }
}

} // verus!
