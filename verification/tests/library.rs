use rustchip::cpu::Cpu;
use rustchip::instruction::{decode, DecodeError, Instruction};
use rustchip::keypad::HostKey;
use rustchip::state::CycleFault;

const FONT: [u8; 80] = [
    0xF0, 0x90, 0x90, 0x90, 0xF0, 0x20, 0x60, 0x20, 0x20, 0x70, 0xF0, 0x10, 0xF0, 0x80, 0xF0,
    0xF0, 0x10, 0xF0, 0x10, 0xF0, 0x90, 0x90, 0xF0, 0x10, 0x10, 0xF0, 0x80, 0xF0, 0x10, 0xF0,
    0xF0, 0x80, 0xF0, 0x90, 0xF0, 0xF0, 0x10, 0x20, 0x40, 0x40, 0xF0, 0x90, 0xF0, 0x90, 0xF0,
    0xF0, 0x90, 0xF0, 0x10, 0xF0, 0xF0, 0x90, 0xF0, 0x90, 0x90, 0xE0, 0x90, 0xE0, 0x90, 0xE0,
    0xF0, 0x80, 0x80, 0x80, 0xF0, 0xE0, 0x90, 0x90, 0x90, 0xE0, 0xF0, 0x80, 0xF0, 0x80, 0xF0,
    0xF0, 0x80, 0xF0, 0x80, 0x80,
];

fn with_rom(rom: &[u8]) -> Cpu {
    let mut cpu = Cpu::new();
    cpu.load_vec(rom);
    cpu
}

#[test]
fn new_cpu_starts_at_program_with_font_loaded() {
    let cpu = Cpu::new();
    assert_eq!(cpu.pc, 0x200);
    assert_eq!(cpu.sp, 0);
    assert_eq!(cpu.index, 0);
    assert_eq!(cpu.opcode, 0);
    assert!(!cpu.draw_flag && !cpu.wait_flag);
    for i in 0..80 {
        assert_eq!(cpu.memory[0x50 + i], FONT[i]);
    }
    // the last row of the F sprite
    assert_eq!(cpu.memory[0x9F], 0x80);
    assert!(cpu.memory[..0x50].iter().all(|&b| b == 0));
    assert!(cpu.memory[0x50 + 80..].iter().all(|&b| b == 0));
    assert!(cpu.v.iter().all(|&b| b == 0));
    assert!(cpu.graphics.iter().all(|&b| b == 0));
}

#[test]
fn load_vec_copies_to_program_start() {
    let mut cpu = Cpu::new();
    cpu.memory[0x1FF] = 9;
    cpu.load_vec(&[1, 2, 3]);
    assert_eq!(&cpu.memory[0x200..0x203], &[1, 2, 3]);
    assert_eq!(cpu.memory[0x1FF], 9);
    assert_eq!(cpu.memory[0x203], 0);
    // a program that fills memory up to its end
    let big = vec![7u8; 4096 - 0x200];
    cpu.load_vec(&big);
    assert_eq!(cpu.memory[4095], 7);
}

#[test]
fn decode_table() {
    assert_eq!(decode(0x00E0), Ok(Instruction::ClearScreen));
    assert_eq!(decode(0x00EE), Ok(Instruction::Return));
    assert_eq!(decode(0x0123), Err(DecodeError::MachineCodeRoutine));
    assert_eq!(decode(0x1ABC), Ok(Instruction::Jump { addr: 0xABC }));
    assert_eq!(decode(0x2ABC), Ok(Instruction::Call { addr: 0xABC }));
    assert_eq!(decode(0x3A42), Ok(Instruction::SkipIfEqualByte { x: 0xA, byte: 0x42 }));
    assert_eq!(decode(0x4A42), Ok(Instruction::SkipIfNotEqualByte { x: 0xA, byte: 0x42 }));
    assert_eq!(decode(0x5AB0), Ok(Instruction::SkipIfEqual { x: 0xA, y: 0xB }));
    assert_eq!(decode(0x5AB1), Err(DecodeError::UnknownInstruction));
    assert_eq!(decode(0x6A42), Ok(Instruction::LoadByte { x: 0xA, byte: 0x42 }));
    assert_eq!(decode(0x7A42), Ok(Instruction::AddByte { x: 0xA, byte: 0x42 }));
    assert_eq!(decode(0x8AB0), Ok(Instruction::Move { x: 0xA, y: 0xB }));
    assert_eq!(decode(0x8AB1), Ok(Instruction::Or { x: 0xA, y: 0xB }));
    assert_eq!(decode(0x8AB2), Ok(Instruction::And { x: 0xA, y: 0xB }));
    assert_eq!(decode(0x8AB3), Ok(Instruction::Xor { x: 0xA, y: 0xB }));
    assert_eq!(decode(0x8AB4), Ok(Instruction::Add { x: 0xA, y: 0xB }));
    assert_eq!(decode(0x8AB5), Ok(Instruction::Sub { x: 0xA, y: 0xB }));
    assert_eq!(decode(0x8AB6), Ok(Instruction::ShiftRight { x: 0xA }));
    assert_eq!(decode(0x8AB7), Ok(Instruction::SubReverse { x: 0xA, y: 0xB }));
    assert_eq!(decode(0x8ABE), Ok(Instruction::ShiftLeft { x: 0xA }));
    assert_eq!(decode(0x8AB8), Err(DecodeError::UnknownInstruction));
    assert_eq!(decode(0x9AB0), Ok(Instruction::SkipIfNotEqual { x: 0xA, y: 0xB }));
    assert_eq!(decode(0x9AB1), Err(DecodeError::UnknownInstruction));
    assert_eq!(decode(0xAABC), Ok(Instruction::SetIndex { addr: 0xABC }));
    assert_eq!(decode(0xBABC), Ok(Instruction::JumpOffset { addr: 0xABC }));
    assert_eq!(decode(0xCA42), Ok(Instruction::Random { x: 0xA, mask: 0x42 }));
    assert_eq!(decode(0xDAB7), Ok(Instruction::Draw { x: 0xA, y: 0xB, height: 7 }));
    assert_eq!(decode(0xEA9E), Ok(Instruction::SkipIfKey { x: 0xA }));
    assert_eq!(decode(0xEAA1), Ok(Instruction::SkipIfNotKey { x: 0xA }));
    assert_eq!(decode(0xEA9F), Err(DecodeError::UnknownInstruction));
    assert_eq!(decode(0xFA07), Ok(Instruction::LoadDelay { x: 0xA }));
    assert_eq!(decode(0xFA0A), Ok(Instruction::WaitKey { x: 0xA }));
    assert_eq!(decode(0xFA15), Ok(Instruction::SetDelay { x: 0xA }));
    assert_eq!(decode(0xFA18), Ok(Instruction::SetSound { x: 0xA }));
    assert_eq!(decode(0xFA1E), Ok(Instruction::AddIndex { x: 0xA }));
    assert_eq!(decode(0xFA29), Ok(Instruction::FontChar { x: 0xA }));
    assert_eq!(decode(0xFA33), Ok(Instruction::StoreBcd { x: 0xA }));
    assert_eq!(decode(0xFA55), Ok(Instruction::StoreRegisters { x: 0xA }));
    assert_eq!(decode(0xFA65), Ok(Instruction::LoadRegisters { x: 0xA }));
    assert_eq!(decode(0xFA66), Err(DecodeError::UnknownInstruction));
}

#[test]
fn check_cycle_reports_each_fault() {
    assert_eq!(with_rom(&[0x61, 0x11]).check_cycle(), Ok(Instruction::LoadByte { x: 1, byte: 0x11 }));
    assert_eq!(with_rom(&[0x01, 0x23]).check_cycle(), Err(CycleFault::MachineCodeRoutine));
    assert_eq!(with_rom(&[0x81, 0x28]).check_cycle(), Err(CycleFault::UnknownInstruction));
    assert_eq!(with_rom(&[0x00, 0xEE]).check_cycle(), Err(CycleFault::StackUnderflow));
    let mut cpu = with_rom(&[0x00, 0xEE]);
    cpu.sp = 17;
    assert_eq!(cpu.check_cycle(), Err(CycleFault::StackOverflow));
    let mut cpu = with_rom(&[0x22, 0x00]);
    cpu.sp = 16;
    assert_eq!(cpu.check_cycle(), Err(CycleFault::StackOverflow));
    let mut cpu = with_rom(&[0xD0, 0x13]);
    cpu.index = 4094;
    assert_eq!(cpu.check_cycle(), Err(CycleFault::MemoryOutOfRange));
    cpu.index = 4093;
    assert_eq!(cpu.check_cycle(), Ok(Instruction::Draw { x: 0, y: 1, height: 3 }));
    let mut cpu = with_rom(&[0xF0, 0x33]);
    cpu.index = 4094;
    assert_eq!(cpu.check_cycle(), Err(CycleFault::MemoryOutOfRange));
    let mut cpu = with_rom(&[0xF3, 0x55]);
    cpu.index = 4093;
    assert_eq!(cpu.check_cycle(), Err(CycleFault::MemoryOutOfRange));
    let mut cpu = with_rom(&[0xE1, 0x9E]);
    cpu.v[1] = 16;
    assert_eq!(cpu.check_cycle(), Err(CycleFault::KeyOutOfRange));
    let mut cpu = Cpu::new();
    cpu.pc = 4095;
    assert_eq!(cpu.check_cycle(), Err(CycleFault::ProgramCounterOutOfRange));
}

#[test]
fn cycle_records_opcode_and_counts_timers_down() {
    let mut cpu = with_rom(&[0x61, 0x11]);
    cpu.delay_timer = 3;
    cpu.sound_timer = 0;
    cpu.run_cycle();
    assert_eq!(cpu.opcode, 0x6111);
    assert_eq!(cpu.delay_timer, 2);
    assert_eq!(cpu.sound_timer, 0);
    assert_eq!(cpu.pc, 0x202);
}

#[test]
fn set_timers_then_count_down() {
    let mut cpu = with_rom(&[0xF1, 0x15, 0xF1, 0x18]);
    cpu.v[1] = 10;
    cpu.run_cycle();
    assert_eq!(cpu.delay_timer, 9);
    cpu.run_cycle();
    assert_eq!(cpu.sound_timer, 9);
    assert_eq!(cpu.delay_timer, 8);
}

#[test]
fn add_nn_wraps_without_flag() {
    let mut cpu = with_rom(&[0x71, 0x02]);
    cpu.v[1] = 0xFF;
    cpu.v[0xF] = 7;
    cpu.run_cycle();
    assert_eq!(cpu.v[1], 0x01);
    assert_eq!(cpu.v[0xF], 7);
}

#[test]
fn add_carry_holds_the_nine_bit_sum() {
    for (a, b) in [(0u8, 0u8), (200, 100), (255, 1), (128, 127)] {
        let mut cpu = with_rom(&[0x81, 0x24]);
        cpu.v[1] = a;
        cpu.v[2] = b;
        cpu.run_cycle();
        assert_eq!(256 * cpu.v[0xF] as u32 + cpu.v[1] as u32, a as u32 + b as u32);
    }
}

#[test]
fn flag_register_as_operand_is_overwritten_first() {
    // 8FY4: VF is set to the carry first, then VF += VY
    let mut cpu = with_rom(&[0x8F, 0x24]);
    cpu.v[0xF] = 0xFF;
    cpu.v[2] = 2;
    cpu.run_cycle();
    assert_eq!(cpu.v[0xF], 3);
}

#[test]
fn subtract_equal_clears_flag() {
    let mut cpu = with_rom(&[0x81, 0x25]);
    cpu.v[1] = 9;
    cpu.v[2] = 9;
    cpu.run_cycle();
    assert_eq!(cpu.v[1], 0);
    assert_eq!(cpu.v[0xF], 0);
}

#[test]
fn shifts_keep_the_shifted_bit() {
    let mut cpu = with_rom(&[0x81, 0x06]);
    cpu.v[1] = 0b1011_0111;
    cpu.run_cycle();
    assert_eq!(cpu.v[1], 0b0101_1011);
    assert_eq!(cpu.v[0xF], 1);
    let mut cpu = with_rom(&[0x81, 0x0E]);
    cpu.v[1] = 0b1011_0111;
    cpu.run_cycle();
    assert_eq!(cpu.v[1], 0b0110_1110);
    assert_eq!(cpu.v[0xF], 1);
}

#[test]
fn random_with_any_byte_stays_within_mask() {
    for r in [0u8, 0x5A, 0xFF] {
        let mut cpu = with_rom(&[0xC1, 0x0F]);
        cpu.run_cycle_with_random(r);
        assert_eq!(cpu.v[1], r & 0x0F);
        assert!(cpu.v[1] <= 0x0F);
    }
}

#[test]
fn call_then_return_comes_back() {
    let mut cpu = with_rom(&[0x23, 0x00]);
    cpu.memory[0x300] = 0x00;
    cpu.memory[0x301] = 0xEE;
    cpu.run_cycle();
    assert_eq!(cpu.pc, 0x300);
    cpu.run_cycle();
    assert_eq!(cpu.pc, 0x202);
    assert_eq!(cpu.sp, 0);
}

#[test]
fn add_index_flags_overflow_past_0xfff() {
    let mut cpu = with_rom(&[0xF1, 0x1E]);
    cpu.index = 0xFFE;
    cpu.v[1] = 2;
    cpu.run_cycle();
    assert_eq!(cpu.index, 0x1000);
    assert_eq!(cpu.v[0xF], 1);
    let mut cpu = with_rom(&[0xF1, 0x1E]);
    cpu.index = 0xFFE;
    cpu.v[1] = 1;
    cpu.run_cycle();
    assert_eq!(cpu.index, 0xFFF);
    assert_eq!(cpu.v[0xF], 0);
}

#[test]
fn font_char_points_at_digit_sprite() {
    let mut cpu = with_rom(&[0xF1, 0x29]);
    cpu.v[1] = 0xA;
    cpu.run_cycle();
    assert_eq!(cpu.index, 0x50 + 50);
    assert_eq!(cpu.memory[cpu.index as usize], 0xF0);
}

#[test]
fn store_bcd_digits() {
    let mut cpu = with_rom(&[0xF1, 0x33]);
    cpu.v[1] = 254;
    cpu.index = 0x300;
    cpu.run_cycle();
    assert_eq!(&cpu.memory[0x300..0x303], &[2, 5, 4]);
}

#[test]
fn store_then_load_registers_round_trip() {
    let mut cpu = with_rom(&[0xF3, 0x55, 0xF3, 0x65]);
    cpu.index = 0x400;
    cpu.v = [9, 8, 7, 6, 5, 4, 3, 2, 1, 0, 1, 2, 3, 4, 5, 6];
    cpu.run_cycle();
    assert_eq!(&cpu.memory[0x400..0x404], &[9, 8, 7, 6]);
    assert_eq!(cpu.memory[0x404], 0);
    cpu.v[0] = 0;
    cpu.v[3] = 0;
    cpu.run_cycle();
    assert_eq!(cpu.v, [9, 8, 7, 6, 5, 4, 3, 2, 1, 0, 1, 2, 3, 4, 5, 6]);
}

#[test]
fn draw_collision_sets_flag() {
    let mut cpu = with_rom(&[0xD0, 0x01, 0x80]);
    cpu.index = 0x202;
    cpu.run_cycle();
    assert_eq!(cpu.v[0xF], 0);
    assert_eq!(cpu.graphics[0], 1);
    cpu.pc = 0x200;
    cpu.run_cycle();
    assert_eq!(cpu.v[0xF], 1);
    assert_eq!(cpu.graphics[0], 0);
}

#[test]
fn draw_hands_out_frame_once() {
    let mut cpu = Cpu::new();
    assert_eq!(cpu.draw(), None);
    cpu.graphics[1] = 1;
    cpu.draw_flag = true;
    let frame = cpu.draw().unwrap();
    assert_eq!(frame.len(), 64 * 32 * 4);
    assert_eq!(&frame[0..8], &[0, 0, 0, 0, 0xFF, 0xFF, 0xFF, 0xFF]);
    assert!(frame[8..].iter().all(|&b| b == 0));
    assert!(!cpu.draw_flag);
    assert_eq!(cpu.draw(), None);
}

#[test]
fn keypad_values_follow_the_layout() {
    let expected = [0x1, 0x2, 0x3, 0xC, 0x4, 0x5, 0x6, 0xD, 0x7, 0x8, 0x9, 0xE, 0xA, 0x0, 0xB, 0xF];
    let mut seen = [false; 16];
    for i in 0..16 {
        let value = HostKey::at_layout_index(i).keypad_value();
        assert_eq!(value, expected[i]);
        assert!(!seen[value as usize]);
        seen[value as usize] = true;
    }
    assert_eq!(HostKey::Num4.keypad_value(), 0xC);
    assert_eq!(HostKey::X.keypad_value(), 0x0);
}

#[test]
fn update_keys_maps_host_keys_to_keypad() {
    let mut cpu = Cpu::new();
    let mut pressed = [false; 16];
    pressed[3] = true; // Num4
    pressed[13] = true; // X
    cpu.keys[5] = 1;
    cpu.update_keys(pressed);
    let mut expected = [0u8; 16];
    expected[0xC] = 1;
    expected[0x0] = 1;
    assert_eq!(cpu.keys, expected);
}

#[test]
fn scanned_key_makes_skip_if_key_skip() {
    let mut cpu = with_rom(&[0xE1, 0x9E]);
    let mut pressed = [false; 16];
    pressed[HostKey::Z as usize] = true;
    cpu.update_keys(pressed);
    cpu.v[1] = HostKey::Z.keypad_value();
    cpu.run_cycle();
    assert_eq!(cpu.pc, 0x204);
}

#[test]
fn wait_then_key_press_resumes() {
    let mut cpu = with_rom(&[0xF7, 0x0A]);
    cpu.run_cycle();
    assert!(cpu.is_waiting());
    assert_eq!(cpu.wait_register, 7);
    cpu.set_wait_register(HostKey::V.keypad_value());
    assert!(!cpu.is_waiting());
    assert_eq!(cpu.v[7], 0xF);
    assert_eq!(cpu.pc, 0x202);
}
