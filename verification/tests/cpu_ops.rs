use chipo::emulator::cpu::{Cpu, MAX_ROM_SIZE, PROGRAM_START, SCREEN_HEIGHT, SCREEN_WIDTH};
use chipo::emulator::instruction::{decode, Instruction};
use chipo::emulator::machine::{CpuError, KeyWait};
use rand::Rng;

fn machine_with(program: &[u8]) -> Cpu {
    let mut cpu = Cpu::new();
    cpu.load_rom(program);
    cpu
}

#[test]
fn rng() {
    let mut cpu = Cpu::new();

    for _ in 0..10 {
        let n: u8 = cpu.rng.gen();

        #[allow(unused_comparisons)]
        if n < 0 || n > 255 {
            panic!("Random number generator out of bounds [0-255]");
        } else {
            println!("Number generated: {}", n);
        }
    }
}

#[test]
fn new_machine_holds_the_font_and_starts_at_the_program() {
    let cpu = Cpu::new();
    assert_eq!(cpu.pc, 0x200);
    assert_eq!(PROGRAM_START, 0x200);
    assert_eq!(SCREEN_WIDTH, 64);
    assert_eq!(SCREEN_HEIGHT, 32);
    assert_eq!(&cpu.memory[0..5], &[0xF0, 0x90, 0x90, 0x90, 0xF0]);
    assert_eq!(&cpu.memory[5..10], &[0x20, 0x60, 0x20, 0x20, 0x70]);
    assert_eq!(&cpu.memory[75..80], &[0xF0, 0x80, 0xF0, 0x80, 0x80]);
    assert!(cpu.memory[80..].iter().all(|b| *b == 0));
    assert_eq!(cpu.v, [0u8; 16]);
    assert_eq!(cpu.i, 0);
    assert_eq!(cpu.opcode, 0);
    assert!(cpu.stack.is_empty());
    assert!(cpu.screen.iter().all(|p| !*p));
    assert!(cpu.keys.iter().all(|k| !*k));
    assert!(!cpu.draw_flag);
    assert_eq!(cpu.delay_timer, 0);
    assert_eq!(cpu.sound_timer, 0);
    assert_eq!(cpu.key_wait, KeyWait::Idle);
}

#[test]
fn read_and_write_wrap_at_the_top_of_memory() {
    let mut cpu = Cpu::new();
    cpu.write(0x0300, 0xAB);
    assert_eq!(cpu.read(0x0300), 0xAB);
    assert_eq!(cpu.memory[0x300], 0xAB);
    cpu.write(0x1234, 0xCD);
    assert_eq!(cpu.memory[0x234], 0xCD);
    assert_eq!(cpu.read(0xF234), 0xCD);
    assert_eq!(cpu.read(0x0000), 0xF0);
}

#[test]
fn load_rom_copies_the_program_to_0x200() {
    let cpu = machine_with(&[0x12, 0x34, 0x56]);
    assert_eq!(&cpu.memory[0x200..0x204], &[0x12, 0x34, 0x56, 0x00]);
    assert_eq!(cpu.memory[0x1FF], 0);
    assert_eq!(cpu.memory[0], 0xF0);
    assert_eq!(cpu.pc, 0x200);
    let big = vec![0x77u8; MAX_ROM_SIZE];
    let cpu = machine_with(&big);
    assert_eq!(cpu.memory[0x200], 0x77);
    assert_eq!(cpu.memory[0x200 + MAX_ROM_SIZE - 1], 0x77);
    assert_eq!(cpu.memory[0x1FF], 0);
}

#[test]
fn fetch_reads_the_high_byte_first() {
    let cpu = machine_with(&[0xA1, 0x23]);
    assert_eq!(cpu.fetch(), 0xA123);
}

#[test]
fn decode_knows_every_pattern() {
    assert_eq!(decode(0x00E0), Some(Instruction::ClearScreen));
    assert_eq!(decode(0x00EE), Some(Instruction::Return));
    assert_eq!(decode(0x1ABC), Some(Instruction::Jump { nnn: 0xABC }));
    assert_eq!(decode(0x2ABC), Some(Instruction::Call { nnn: 0xABC }));
    assert_eq!(decode(0x3A12), Some(Instruction::SkipEqImm { x: 0xA, nn: 0x12 }));
    assert_eq!(decode(0x4A12), Some(Instruction::SkipNeImm { x: 0xA, nn: 0x12 }));
    assert_eq!(decode(0x5AB0), Some(Instruction::SkipEqReg { x: 0xA, y: 0xB }));
    assert_eq!(decode(0x6A12), Some(Instruction::LoadImm { x: 0xA, nn: 0x12 }));
    assert_eq!(decode(0x7A12), Some(Instruction::AddImm { x: 0xA, nn: 0x12 }));
    assert_eq!(decode(0x8AB0), Some(Instruction::Move { x: 0xA, y: 0xB }));
    assert_eq!(decode(0x8AB1), Some(Instruction::Or { x: 0xA, y: 0xB }));
    assert_eq!(decode(0x8AB2), Some(Instruction::And { x: 0xA, y: 0xB }));
    assert_eq!(decode(0x8AB3), Some(Instruction::Xor { x: 0xA, y: 0xB }));
    assert_eq!(decode(0x8AB4), Some(Instruction::Add { x: 0xA, y: 0xB }));
    assert_eq!(decode(0x8AB5), Some(Instruction::Sub { x: 0xA, y: 0xB }));
    assert_eq!(decode(0x8AB6), Some(Instruction::ShiftRight { x: 0xA, y: 0xB }));
    assert_eq!(decode(0x8AB7), Some(Instruction::SubFrom { x: 0xA, y: 0xB }));
    assert_eq!(decode(0x8ABE), Some(Instruction::ShiftLeft { x: 0xA, y: 0xB }));
    assert_eq!(decode(0x9AB0), Some(Instruction::SkipNeReg { x: 0xA, y: 0xB }));
    assert_eq!(decode(0xAABC), Some(Instruction::LoadIndex { nnn: 0xABC }));
    assert_eq!(decode(0xBABC), Some(Instruction::JumpOffset { nnn: 0xABC }));
    assert_eq!(decode(0xCA12), Some(Instruction::Random { x: 0xA, nn: 0x12 }));
    assert_eq!(decode(0xDAB5), Some(Instruction::Draw { x: 0xA, y: 0xB, n: 5 }));
    assert_eq!(decode(0xEA9E), Some(Instruction::SkipKeyDown { x: 0xA }));
    assert_eq!(decode(0xEAA1), Some(Instruction::SkipKeyUp { x: 0xA }));
    assert_eq!(decode(0xFA07), Some(Instruction::ReadDelay { x: 0xA }));
    assert_eq!(decode(0xFA0A), Some(Instruction::WaitKey { x: 0xA }));
    assert_eq!(decode(0xFA15), Some(Instruction::SetDelay { x: 0xA }));
    assert_eq!(decode(0xFA18), Some(Instruction::SetSound { x: 0xA }));
    assert_eq!(decode(0xFA1E), Some(Instruction::AddIndex { x: 0xA }));
    assert_eq!(decode(0xFA29), Some(Instruction::FontAddress { x: 0xA }));
    assert_eq!(decode(0xFA33), Some(Instruction::StoreBcd { x: 0xA }));
    assert_eq!(decode(0xFA55), Some(Instruction::StoreRegisters { x: 0xA }));
    assert_eq!(decode(0xFA65), Some(Instruction::LoadRegisters { x: 0xA }));
}

#[test]
fn decode_refuses_what_matches_no_pattern() {
    for opcode in [
        0x0000u16, 0x0001, 0x00E1, 0x01E0, 0x0123, 0x5AB1, 0x5ABF, 0x8AB8, 0x8AB9, 0x8ABA, 0x8ABF,
        0x9AB1, 0xEA00, 0xEA9F, 0xEAA0, 0xFA00, 0xFA08, 0xFA66, 0xFAFF,
    ] {
        assert_eq!(decode(opcode), None, "{:#06X}", opcode);
    }
}

#[test]
fn unrecognized_opcode_fails_and_changes_nothing() {
    for word in [[0x00u8, 0x00], [0x5A, 0xB1], [0x8A, 0xB8], [0xEA, 0x00], [0xFA, 0xFF], [0x01, 0x23]] {
        let mut cpu = machine_with(&word);
        cpu.draw_flag = true;
        cpu.v[3] = 9;
        assert_eq!(cpu.run_instruction(), Err(CpuError::UnrecognizedOpcode));
        assert_eq!(cpu.pc, 0x200);
        assert!(cpu.draw_flag);
        assert_eq!(cpu.opcode, 0);
        assert_eq!(cpu.v[3], 9);
    }
}

#[test]
fn return_on_empty_stack_fails_and_changes_nothing() {
    let mut cpu = machine_with(&[0x00, 0xEE]);
    cpu.draw_flag = true;
    assert_eq!(cpu.run_instruction(), Err(CpuError::StackUnderflow));
    assert_eq!(cpu.pc, 0x200);
    assert!(cpu.draw_flag);
    assert_eq!(cpu.opcode, 0);
    assert!(cpu.stack.is_empty());
    assert_eq!(cpu.execute(Instruction::Return, 0), Err(CpuError::StackUnderflow));
    assert_eq!(cpu.pc, 0x200);
}

#[test]
fn step_clears_the_redraw_flag_and_records_the_opcode() {
    let mut cpu = machine_with(&[0x61, 0x23]);
    cpu.draw_flag = true;
    assert_eq!(cpu.run_instruction(), Ok(()));
    assert!(!cpu.draw_flag);
    assert_eq!(cpu.opcode, 0x6123);
    assert_eq!(cpu.v[1], 0x23);
    assert_eq!(cpu.pc, 0x202);
}

#[test]
fn clear_screen_turns_every_pixel_off() {
    let mut cpu = machine_with(&[0x00, 0xE0]);
    cpu.screen[0] = true;
    cpu.screen[1000] = true;
    cpu.screen[2047] = true;
    assert_eq!(cpu.run_instruction(), Ok(()));
    assert!(cpu.screen.iter().all(|p| !*p));
    assert!(cpu.draw_flag);
    assert_eq!(cpu.pc, 0x202);
}

#[test]
fn jump_sets_the_program_counter() {
    let mut cpu = machine_with(&[0x1A, 0xBC]);
    assert_eq!(cpu.run_instruction(), Ok(()));
    assert_eq!(cpu.pc, 0xABC);
    assert!(cpu.stack.is_empty());
}

#[test]
fn call_and_return_resume_after_the_call() {
    let mut cpu = machine_with(&[0x22, 0x06, 0x00, 0x00, 0x00, 0x00, 0x00, 0xEE]);
    assert_eq!(cpu.run_instruction(), Ok(()));
    assert_eq!(cpu.pc, 0x206);
    assert_eq!(cpu.stack, vec![0x200]);
    assert_eq!(cpu.run_instruction(), Ok(()));
    assert_eq!(cpu.pc, 0x202);
    assert!(cpu.stack.is_empty());
}

#[test]
fn skips_on_immediate() {
    let mut cpu = machine_with(&[0x31, 0x07, 0x00, 0x00, 0x31, 0x08, 0x41, 0x07, 0x41, 0x08]);
    cpu.v[1] = 7;
    cpu.run_instruction().unwrap();
    assert_eq!(cpu.pc, 0x204);
    cpu.run_instruction().unwrap();
    assert_eq!(cpu.pc, 0x206);
    cpu.run_instruction().unwrap();
    assert_eq!(cpu.pc, 0x208);
    cpu.run_instruction().unwrap();
    assert_eq!(cpu.pc, 0x20C);
}

#[test]
fn skips_on_registers() {
    let mut cpu = machine_with(&[0x51, 0x20, 0x00, 0x00, 0x51, 0x30, 0x91, 0x20, 0x91, 0x30]);
    cpu.v[1] = 7;
    cpu.v[2] = 7;
    cpu.v[3] = 8;
    cpu.run_instruction().unwrap();
    assert_eq!(cpu.pc, 0x204);
    cpu.run_instruction().unwrap();
    assert_eq!(cpu.pc, 0x206);
    cpu.run_instruction().unwrap();
    assert_eq!(cpu.pc, 0x208);
    cpu.run_instruction().unwrap();
    assert_eq!(cpu.pc, 0x20C);
}

#[test]
fn load_then_add_zero_keeps_the_value() {
    for x in 0..16u8 {
        for nn in [0x00u8, 0x01, 0x7F, 0x80, 0xFF] {
            let mut cpu = machine_with(&[0x60 | x, nn, 0x70 | x, 0x00]);
            cpu.run_instruction().unwrap();
            cpu.run_instruction().unwrap();
            assert_eq!(cpu.v[x as usize], nn);
            assert_eq!(cpu.pc, 0x204);
        }
    }
}

#[test]
fn add_immediate_wraps_and_leaves_the_flag() {
    let mut cpu = machine_with(&[0x71, 0x02]);
    cpu.v[1] = 0xFF;
    cpu.v[0xF] = 0x55;
    cpu.run_instruction().unwrap();
    assert_eq!(cpu.v[1], 0x01);
    assert_eq!(cpu.v[0xF], 0x55);
}

#[test]
fn move_copies_a_register() {
    let mut cpu = machine_with(&[0x81, 0x20]);
    cpu.v[2] = 0x42;
    cpu.run_instruction().unwrap();
    assert_eq!(cpu.v[1], 0x42);
    assert_eq!(cpu.pc, 0x202);
}

#[test]
fn logic_operations_reset_the_flag() {
    let mut cpu = machine_with(&[0x81, 0x21, 0x83, 0x42, 0x85, 0x63]);
    cpu.v[1] = 0b1100;
    cpu.v[2] = 0b1010;
    cpu.v[3] = 0b1100;
    cpu.v[4] = 0b1010;
    cpu.v[5] = 0b1100;
    cpu.v[6] = 0b1010;
    cpu.v[0xF] = 1;
    cpu.run_instruction().unwrap();
    assert_eq!(cpu.v[1], 0b1110);
    assert_eq!(cpu.v[0xF], 0);
    cpu.v[0xF] = 1;
    cpu.run_instruction().unwrap();
    assert_eq!(cpu.v[3], 0b1000);
    assert_eq!(cpu.v[0xF], 0);
    cpu.v[0xF] = 1;
    cpu.run_instruction().unwrap();
    assert_eq!(cpu.v[5], 0b0110);
    assert_eq!(cpu.v[0xF], 0);
}

#[test]
fn logic_operation_reads_the_flag_after_its_reset() {
    let mut cpu = machine_with(&[0x81, 0xF1]);
    cpu.v[1] = 0x10;
    cpu.v[0xF] = 0x0F;
    cpu.run_instruction().unwrap();
    assert_eq!(cpu.v[1], 0x10);
    assert_eq!(cpu.v[0xF], 0);
}

#[test]
fn add_sets_the_carry() {
    let mut cpu = machine_with(&[0x81, 0x24, 0x83, 0x44]);
    cpu.v[1] = 0xFF;
    cpu.v[2] = 0x02;
    cpu.v[3] = 0xF0;
    cpu.v[4] = 0x0F;
    cpu.run_instruction().unwrap();
    assert_eq!(cpu.v[1], 0x01);
    assert_eq!(cpu.v[0xF], 1);
    cpu.run_instruction().unwrap();
    assert_eq!(cpu.v[3], 0xFF);
    assert_eq!(cpu.v[0xF], 0);
}

#[test]
fn add_into_the_flag_register_keeps_the_carry() {
    let mut cpu = machine_with(&[0x8F, 0x14]);
    cpu.v[0xF] = 0xFF;
    cpu.v[1] = 0x03;
    cpu.run_instruction().unwrap();
    assert_eq!(cpu.v[0xF], 1);
}

#[test]
fn sub_sets_the_flag_where_nothing_is_borrowed() {
    let mut cpu = machine_with(&[0x81, 0x25, 0x83, 0x45, 0x85, 0x65]);
    cpu.v[1] = 0x05;
    cpu.v[2] = 0x03;
    cpu.v[3] = 0x03;
    cpu.v[4] = 0x05;
    cpu.v[5] = 0x07;
    cpu.v[6] = 0x07;
    cpu.run_instruction().unwrap();
    assert_eq!(cpu.v[1], 0x02);
    assert_eq!(cpu.v[0xF], 1);
    cpu.run_instruction().unwrap();
    assert_eq!(cpu.v[3], 0xFE);
    assert_eq!(cpu.v[0xF], 0);
    cpu.run_instruction().unwrap();
    assert_eq!(cpu.v[5], 0x00);
    assert_eq!(cpu.v[0xF], 1);
}

#[test]
fn sub_from_mirrors_sub() {
    let mut cpu = machine_with(&[0x81, 0x27, 0x83, 0x47]);
    cpu.v[1] = 0x03;
    cpu.v[2] = 0x05;
    cpu.v[3] = 0x05;
    cpu.v[4] = 0x03;
    cpu.run_instruction().unwrap();
    assert_eq!(cpu.v[1], 0x02);
    assert_eq!(cpu.v[0xF], 1);
    cpu.run_instruction().unwrap();
    assert_eq!(cpu.v[3], 0xFE);
    assert_eq!(cpu.v[0xF], 0);
}

#[test]
fn shifts_take_the_other_register_and_keep_the_lost_bit() {
    let mut cpu = machine_with(&[0x81, 0x26, 0x83, 0x4E, 0x85, 0x66, 0x87, 0x8E]);
    cpu.v[1] = 0xFF;
    cpu.v[2] = 0b0000_0101;
    cpu.v[3] = 0xFF;
    cpu.v[4] = 0b1000_0001;
    cpu.v[6] = 0b0000_0100;
    cpu.v[8] = 0b0100_0001;
    cpu.run_instruction().unwrap();
    assert_eq!(cpu.v[1], 0b0000_0010);
    assert_eq!(cpu.v[2], 0b0000_0101);
    assert_eq!(cpu.v[0xF], 1);
    cpu.run_instruction().unwrap();
    assert_eq!(cpu.v[3], 0b0000_0010);
    assert_eq!(cpu.v[0xF], 1);
    cpu.run_instruction().unwrap();
    assert_eq!(cpu.v[5], 0b0000_0010);
    assert_eq!(cpu.v[0xF], 0);
    cpu.run_instruction().unwrap();
    assert_eq!(cpu.v[7], 0b1000_0010);
    assert_eq!(cpu.v[0xF], 0);
}

#[test]
fn index_instructions() {
    let mut cpu = machine_with(&[0xA1, 0x23, 0xF1, 0x1E, 0xF2, 0x29, 0xF3, 0x1E]);
    cpu.v[1] = 0x10;
    cpu.v[2] = 0x0A;
    cpu.v[3] = 0xFF;
    cpu.v[0xF] = 7;
    cpu.run_instruction().unwrap();
    assert_eq!(cpu.i, 0x123);
    cpu.run_instruction().unwrap();
    assert_eq!(cpu.i, 0x133);
    assert_eq!(cpu.v[0xF], 7);
    cpu.run_instruction().unwrap();
    assert_eq!(cpu.i, 50);
    cpu.i = 0xFFFF;
    cpu.run_instruction().unwrap();
    assert_eq!(cpu.i, 0x00FE);
    assert_eq!(cpu.pc, 0x208);
}

#[test]
fn jump_with_offset_adds_v0() {
    let mut cpu = machine_with(&[0xB3, 0x00]);
    cpu.v[0] = 0x21;
    cpu.run_instruction().unwrap();
    assert_eq!(cpu.pc, 0x321);
    let mut cpu = machine_with(&[0xBF, 0xFF]);
    cpu.v[0] = 0xFF;
    cpu.run_instruction().unwrap();
    assert_eq!(cpu.pc, 0x10FE);
}

#[test]
fn random_is_masked_by_the_immediate() {
    let mut cpu = machine_with(&[0xC1, 0x0F, 0x12, 0x00]);
    for _ in 0..50 {
        cpu.v[1] = 0xFF;
        cpu.run_instruction().unwrap();
        assert_eq!(cpu.pc, 0x202);
        assert_eq!(cpu.v[1] & 0xF0, 0);
        cpu.run_instruction().unwrap();
        assert_eq!(cpu.pc, 0x200);
    }
    let mut cpu = machine_with(&[0xC1, 0x00]);
    cpu.v[1] = 0xFF;
    cpu.run_instruction().unwrap();
    assert_eq!(cpu.v[1], 0);
}

#[test]
fn random_bytes_vary() {
    let mut cpu = machine_with(&[0xC1, 0xFF, 0x12, 0x00]);
    let mut seen = [false; 256];
    for _ in 0..64 {
        cpu.run_instruction().unwrap();
        seen[cpu.v[1] as usize] = true;
        cpu.run_instruction().unwrap();
    }
    assert!(seen.iter().filter(|s| **s).count() > 1);
}

#[test]
fn step_with_a_given_random_byte_is_exact() {
    let mut cpu = machine_with(&[0xC1, 0x3C]);
    assert_eq!(cpu.run_instruction_with(0xA5), Ok(()));
    assert_eq!(cpu.v[1], 0xA5 & 0x3C);
    assert_eq!(cpu.pc, 0x202);
    let mut cpu = Cpu::new();
    assert_eq!(cpu.execute(Instruction::Random { x: 2, nn: 0xF0 }, 0xFF), Ok(()));
    assert_eq!(cpu.v[2], 0xF0);
}

#[test]
fn key_skips() {
    let mut cpu = machine_with(&[0xE1, 0x9E, 0xE1, 0x9E, 0x00, 0x00, 0xE1, 0xA1, 0xE1, 0xA1]);
    cpu.v[1] = 0x7;
    cpu.run_instruction().unwrap();
    assert_eq!(cpu.pc, 0x202);
    cpu.keys[7] = true;
    cpu.run_instruction().unwrap();
    assert_eq!(cpu.pc, 0x206);
    cpu.run_instruction().unwrap();
    assert_eq!(cpu.pc, 0x208);
    cpu.keys[7] = false;
    cpu.run_instruction().unwrap();
    assert_eq!(cpu.pc, 0x20C);
}

#[test]
fn key_index_is_masked_to_four_bits() {
    let mut cpu = machine_with(&[0xE1, 0x9E]);
    cpu.v[1] = 0x17;
    cpu.keys[7] = true;
    cpu.run_instruction().unwrap();
    assert_eq!(cpu.pc, 0x204);
}

#[test]
fn timer_instructions() {
    let mut cpu = machine_with(&[0xF1, 0x15, 0xF2, 0x18, 0xF3, 0x07]);
    cpu.v[1] = 0x20;
    cpu.v[2] = 0x30;
    cpu.run_instruction().unwrap();
    assert_eq!(cpu.delay_timer, 0x20);
    cpu.run_instruction().unwrap();
    assert_eq!(cpu.sound_timer, 0x30);
    cpu.tick_timers();
    cpu.run_instruction().unwrap();
    assert_eq!(cpu.v[3], 0x1F);
    assert_eq!(cpu.sound_timer, 0x2F);
    assert_eq!(cpu.pc, 0x206);
}

#[test]
fn bcd_stores_hundreds_tens_ones() {
    let mut cpu = machine_with(&[0xF1, 0x33, 0xF2, 0x33, 0xF3, 0x33]);
    cpu.v[1] = 254;
    cpu.v[2] = 7;
    cpu.v[3] = 100;
    cpu.i = 0x300;
    cpu.run_instruction().unwrap();
    assert_eq!(&cpu.memory[0x300..0x303], &[2, 5, 4]);
    assert_eq!(cpu.i, 0x300);
    cpu.run_instruction().unwrap();
    assert_eq!(&cpu.memory[0x300..0x303], &[0, 0, 7]);
    cpu.i = 0xFFF;
    cpu.run_instruction().unwrap();
    assert_eq!(cpu.memory[0xFFF], 1);
    assert_eq!(cpu.memory[0x000], 0);
    assert_eq!(cpu.memory[0x001], 0);
}

#[test]
fn store_and_load_registers_round_trip() {
    let mut cpu = machine_with(&[0xF3, 0x55, 0xF3, 0x65]);
    cpu.v[0] = 0x11;
    cpu.v[1] = 0x22;
    cpu.v[2] = 0x33;
    cpu.v[3] = 0x44;
    cpu.v[4] = 0x55;
    cpu.i = 0x400;
    cpu.run_instruction().unwrap();
    assert_eq!(&cpu.memory[0x400..0x405], &[0x11, 0x22, 0x33, 0x44, 0x00]);
    assert_eq!(cpu.i, 0x404);
    cpu.v = [0; 16];
    cpu.i = 0x400;
    cpu.run_instruction().unwrap();
    assert_eq!(&cpu.v[0..5], &[0x11, 0x22, 0x33, 0x44, 0x00]);
    assert_eq!(cpu.i, 0x404);
    assert_eq!(cpu.pc, 0x204);
}

#[test]
fn store_registers_wraps_at_the_top_of_memory() {
    let mut cpu = machine_with(&[0xF1, 0x55]);
    cpu.v[0] = 0xAA;
    cpu.v[1] = 0xBB;
    cpu.i = 0x0FFF;
    cpu.run_instruction().unwrap();
    assert_eq!(cpu.memory[0xFFF], 0xAA);
    assert_eq!(cpu.memory[0x000], 0xBB);
    assert_eq!(cpu.i, 0x1001);
}
