//! What an inspector shows of a machine: a copy of its registers, taken when
//! the host asks for it.

use crate::emulator::cpu::Cpu;
use vstd::prelude::*;

verus! {

/// The inspector's state as a mathematical value.
pub struct DebugView {
    /// Whether the inspector is shown.
    pub is_open: bool,
    /// The opcode that was copied last.
    pub current_opcode: u16,
    /// The registers that were copied last.
    pub registers: Seq<u8>,
    /// The index register.
    pub index_register: u16,
    /// The program counter that was copied last.
    pub counter: u16,
    /// The delay timer.
    pub delay_timer: u8,
    /// The sound timer.
    pub sound_timer: u8,
    /// The call stack.
    pub stack: Seq<u16>,
    /// The keys.
    pub keys: Seq<bool>,
    /// The redraw flag.
    pub draw_flag: bool,
}

/// The inspector.
pub struct DebugWindow {
    is_open: bool,
    current_opcode: u16,
    registers: [u8; 16],
    index_register: u16,
    counter: u16,
    delay_timer: u8,
    sound_timer: u8,
    stack: Vec<u16>,
    keys: [bool; 16],
    draw_flag: bool,
}

/// The inspector's state before anything was copied: closed, all zero.
pub open spec fn blank_view() -> DebugView {
    DebugView {
        is_open: false,
        current_opcode: 0,
        registers: Seq::new(16, |r: int| 0u8),
        index_register: 0,
        counter: 0,
        delay_timer: 0,
        sound_timer: 0,
        stack: Seq::empty(),
        keys: Seq::new(16, |k: int| false),
        draw_flag: false,
    }
}

impl View for DebugWindow {
    type V = DebugView;

    closed spec fn view(&self) -> DebugView {
        DebugView {
            is_open: self.is_open,
            current_opcode: self.current_opcode,
            registers: self.registers@,
            index_register: self.index_register,
            counter: self.counter,
            delay_timer: self.delay_timer,
            sound_timer: self.sound_timer,
            stack: self.stack@,
            keys: self.keys@,
            draw_flag: self.draw_flag,
        }
    }
}

impl DebugWindow {
    /// A closed inspector that has copied nothing yet.
    pub fn new() -> (window: Self)
        ensures
            window@ == blank_view(),
    {
        let window = Self {
            is_open: false,
            current_opcode: 0,
            registers: [0; 16],
            index_register: 0,
            counter: 0,
            delay_timer: 0,
            sound_timer: 0,
            stack: Vec::new(),
            keys: [false; 16],
            draw_flag: false,
        };
        proof {
            assert(window.registers@ =~= blank_view().registers);
            assert(window.keys@ =~= blank_view().keys);
            assert(window.stack@ =~= blank_view().stack);
        }
        window
    }

    /// Opens a closed inspector and closes an open one.
    pub fn toggle_open(&mut self)
        ensures
            final(self)@ == (DebugView { is_open: !old(self)@.is_open, ..old(self)@ }),
    {
        self.is_open = !self.is_open;
    }

    /// Copies the machine's opcode, program counter and registers.
    pub fn update(&mut self, cpu: &Cpu)
        ensures
            final(self)@ == (DebugView {
                current_opcode: cpu@.opcode,
                counter: cpu@.pc,
                registers: cpu@.v,
                ..old(self)@
            }),
    {
        self.current_opcode = cpu.opcode;
        self.counter = cpu.pc;
        self.registers = cpu.v;
    }

    /// Whether the inspector is shown.
    pub fn is_open(&self) -> (open: bool)
        ensures
            open == self@.is_open,
    {
        self.is_open
    }

    /// The opcode that was copied last.
    pub fn current_opcode(&self) -> (opcode: u16)
        ensures
            opcode == self@.current_opcode,
    {
        self.current_opcode
    }

    /// The program counter that was copied last.
    pub fn counter(&self) -> (counter: u16)
        ensures
            counter == self@.counter,
    {
        self.counter
    }

    /// The registers that were copied last.
    pub fn registers(&self) -> (registers: [u8; 16])
        ensures
            registers@ == self@.registers,
    {
        self.registers
    }
}

} // verus!
