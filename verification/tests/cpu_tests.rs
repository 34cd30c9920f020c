use std::collections::HashSet;

use chip8::cpu::new;
use chip8::cpu::Cpu;
use chip8::cpu::CpuError;
use chip8::opcode::OpCode;

fn boot_with(words: &[u16]) -> Cpu {
    let mut cpu = new();
    let mut bytes: Vec<u8> = Vec::new();
    for w in words {
        bytes.push((w >> 8) as u8);
        bytes.push((w & 0xFF) as u8);
    }
    cpu.load_into_memory(bytes, 0x200);
    cpu.pc = 0x200;
    cpu
}

#[test]
fn new_machine_is_zeroed() {
    let cpu = new();
    assert_eq!(cpu.pc, 0);
    assert_eq!(cpu.i, 0);
    assert_eq!(cpu.memory.len(), 4096);
    assert!(cpu.memory.iter().all(|&b| b == 0));
    assert_eq!(cpu.v, vec![0u8; 16]);
    assert!(cpu.stack.is_empty());
    assert_eq!(cpu.screen.len(), 2048);
    assert!(cpu.screen.iter().all(|&p| !p));
    assert!(!cpu.should_render);
    assert_eq!(cpu.delay_timer, 0);
    assert_eq!(cpu.sound_timer, 0);
}

#[test]
fn load_places_each_byte_at_base_plus_offset() {
    let mut cpu = new();
    cpu.load_into_memory(vec![0xDE, 0xAD, 0xBE], 0x50);
    assert_eq!(cpu.memory[0x50], 0xDE);
    assert_eq!(cpu.memory[0x51], 0xAD);
    assert_eq!(cpu.memory[0x52], 0xBE);
    assert_eq!(cpu.memory[0x4F], 0);
    assert_eq!(cpu.memory[0x53], 0);
    let untouched = cpu
        .memory
        .iter()
        .enumerate()
        .filter(|&(a, _)| !(0x50..0x53).contains(&a))
        .all(|(_, &b)| b == 0);
    assert!(untouched);
}

#[test]
fn jump_sets_pc() {
    let mut cpu = boot_with(&[0x1208]);
    assert!(cpu.tick_ready());
    assert!(cpu.tick().is_ok());
    assert_eq!(cpu.pc, 0x208);
}

#[test]
fn jump_with_v0_offset_adds_v0() {
    let mut cpu = boot_with(&[0xB208]);
    cpu.v[0] = 4;
    assert!(cpu.tick().is_ok());
    assert_eq!(cpu.pc, 0x20C);
}

#[test]
fn call_then_return_restores_pc_and_stack_depth() {
    let mut cpu = boot_with(&[0x2300]);
    cpu.load_into_memory(vec![0x00, 0xEE], 0x300);
    assert!(cpu.tick().is_ok());
    assert_eq!(cpu.pc, 0x300);
    assert_eq!(cpu.stack, vec![0x202]);
    assert!(cpu.tick().is_ok());
    assert_eq!(cpu.pc, 0x202);
    assert!(cpu.stack.is_empty());
}

#[test]
fn return_on_empty_stack_is_a_hard_failure() {
    let mut cpu = boot_with(&[0x00EE]);
    let result = cpu.tick();
    assert_eq!(result, Err(CpuError::StackUnderflow));
    assert_eq!(cpu.pc, 0x200);
    assert!(cpu.stack.is_empty());
}

#[test]
fn set_and_add_register_immediates() {
    let mut cpu = boot_with(&[0x6A05, 0x7A10, 0x7AFF]);
    assert!(cpu.tick().is_ok());
    assert_eq!(cpu.v[0xA], 0x05);
    assert!(cpu.tick().is_ok());
    assert_eq!(cpu.v[0xA], 0x15);
    // 7XNN wraps and leaves VF alone
    assert!(cpu.tick().is_ok());
    assert_eq!(cpu.v[0xA], 0x14);
    assert_eq!(cpu.v[0xF], 0);
}

#[test]
fn add_with_carry_sets_vf_exactly_on_overflow() {
    let mut cpu = new();
    cpu.v[3] = 200;
    cpu.v[4] = 100;
    assert!(cpu.execute(OpCode::AddRegisterToRegister(3, 4), 0).is_ok());
    assert_eq!(cpu.v[3], 44); // (200 + 100) mod 256
    assert_eq!(cpu.v[0xF], 1);

    cpu.v[5] = 10;
    cpu.v[6] = 20;
    assert!(cpu.execute(OpCode::AddRegisterToRegister(5, 6), 0).is_ok());
    assert_eq!(cpu.v[5], 30);
    assert_eq!(cpu.v[0xF], 0);
}

#[test]
fn sub_with_borrow_clears_vf_exactly_on_borrow() {
    let mut cpu = new();
    cpu.v[3] = 5;
    cpu.v[4] = 10;
    assert!(cpu.execute(OpCode::SubRegisterToRegister(3, 4), 0).is_ok());
    assert_eq!(cpu.v[3], 251); // (5 - 10) mod 256
    assert_eq!(cpu.v[0xF], 0);

    cpu.v[5] = 10;
    cpu.v[6] = 5;
    assert!(cpu.execute(OpCode::SubRegisterToRegister(5, 6), 0).is_ok());
    assert_eq!(cpu.v[5], 5);
    assert_eq!(cpu.v[0xF], 1);
}

#[test]
fn sub_reverse_uses_other_operand_order() {
    let mut cpu = new();
    cpu.v[3] = 5;
    cpu.v[4] = 10;
    assert!(cpu
        .execute(OpCode::SubRegisterToRegisterReverse(3, 4), 0)
        .is_ok());
    assert_eq!(cpu.v[3], 5); // 10 - 5
    assert_eq!(cpu.v[0xF], 1);

    cpu.v[5] = 10;
    cpu.v[6] = 5;
    assert!(cpu
        .execute(OpCode::SubRegisterToRegisterReverse(5, 6), 0)
        .is_ok());
    assert_eq!(cpu.v[5], 251); // (5 - 10) mod 256
    assert_eq!(cpu.v[0xF], 0);
}

#[test]
fn bitwise_alu_forms() {
    let mut cpu = new();
    cpu.v[1] = 0b1100;
    cpu.v[2] = 0b1010;
    assert!(cpu
        .execute(OpCode::SetRegisterToRegisterValueUsingOR(1, 2), 0)
        .is_ok());
    assert_eq!(cpu.v[1], 0b1110);

    cpu.v[1] = 0b1100;
    assert!(cpu
        .execute(OpCode::SetRegisterToRegisterValueUsingAND(1, 2), 0)
        .is_ok());
    assert_eq!(cpu.v[1], 0b1000);

    cpu.v[1] = 0b1100;
    assert!(cpu
        .execute(OpCode::SetRegisterToRegisterValueUsingXOR(1, 2), 0)
        .is_ok());
    assert_eq!(cpu.v[1], 0b0110);

    assert!(cpu
        .execute(OpCode::SetRegisterToRegisterValue(7, 2), 0)
        .is_ok());
    assert_eq!(cpu.v[7], 0b1010);
}

#[test]
fn shift_right_captures_low_bit_in_vf() {
    let mut cpu = new();
    cpu.v[2] = 0b0000_0101;
    assert!(cpu
        .execute(OpCode::ShiftRightRegisterFromRegister(2, 9), 0)
        .is_ok());
    assert_eq!(cpu.v[2], 0b0000_0010);
    assert_eq!(cpu.v[0xF], 1);

    cpu.v[3] = 0b0000_0100;
    assert!(cpu
        .execute(OpCode::ShiftRightRegisterFromRegister(3, 9), 0)
        .is_ok());
    assert_eq!(cpu.v[3], 0b0000_0010);
    assert_eq!(cpu.v[0xF], 0);
}

#[test]
fn shift_left_captures_high_bit_in_vf() {
    let mut cpu = new();
    cpu.v[2] = 0b1000_0001;
    assert!(cpu
        .execute(OpCode::ShiftLeftRegisterFromRegister(2, 9), 0)
        .is_ok());
    assert_eq!(cpu.v[2], 0b0000_0010);
    assert_eq!(cpu.v[0xF], 1);

    cpu.v[3] = 0b0100_0000;
    assert!(cpu
        .execute(OpCode::ShiftLeftRegisterFromRegister(3, 9), 0)
        .is_ok());
    assert_eq!(cpu.v[3], 0b1000_0000);
    assert_eq!(cpu.v[0xF], 0);
}

#[test]
fn skip_forms_advance_pc_exactly_when_condition_holds() {
    let mut cpu = boot_with(&[0x3A42]);
    cpu.v[0xA] = 0x42;
    assert!(cpu.tick().is_ok());
    assert_eq!(cpu.pc, 0x204);

    let mut cpu = boot_with(&[0x3A42]);
    cpu.v[0xA] = 0x41;
    assert!(cpu.tick().is_ok());
    assert_eq!(cpu.pc, 0x202);

    let mut cpu = boot_with(&[0x4A42]);
    cpu.v[0xA] = 0x41;
    assert!(cpu.tick().is_ok());
    assert_eq!(cpu.pc, 0x204);

    let mut cpu = boot_with(&[0x5AB0]);
    cpu.v[0xA] = 7;
    cpu.v[0xB] = 7;
    assert!(cpu.tick().is_ok());
    assert_eq!(cpu.pc, 0x204);

    let mut cpu = boot_with(&[0x9AB0]);
    cpu.v[0xA] = 7;
    cpu.v[0xB] = 7;
    assert!(cpu.tick().is_ok());
    assert_eq!(cpu.pc, 0x202);
}

#[test]
fn set_index_and_add_register_to_index() {
    let mut cpu = new();
    assert!(cpu.execute(OpCode::SetIndex(0x123), 0).is_ok());
    assert_eq!(cpu.i, 0x123);
    cpu.v[4] = 0x10;
    assert!(cpu.execute(OpCode::AddRegisterValueToIndex(4), 0).is_ok());
    assert_eq!(cpu.i, 0x133);
}

#[test]
fn load_sprite_representation_points_at_glyph() {
    let mut cpu = new();
    cpu.v[3] = 0xA;
    assert!(cpu
        .execute(OpCode::LoadSpriteRepresentationInMemory(3), 0)
        .is_ok());
    assert_eq!(cpu.i, 0x82); // font base 0x50, five bytes per glyph

    let mut cpu = boot_with(&[0xF029]);
    cpu.v[0] = 0;
    assert!(cpu.tick().is_ok());
    assert_eq!(cpu.i, 0x50); // glyph 0 sits at the font base itself
    assert_eq!(cpu.pc, 0x202);
}

#[test]
fn bcd_store_writes_three_digits() {
    let mut cpu = new();
    cpu.v[2] = 234;
    cpu.i = 0x400;
    assert!(cpu
        .execute(OpCode::StoreBCDRepresentationOfRegister(2), 0)
        .is_ok());
    assert_eq!(cpu.memory[0x400], 2);
    assert_eq!(cpu.memory[0x401], 3);
    assert_eq!(cpu.memory[0x402], 4);

    cpu.v[2] = 7;
    assert!(cpu
        .execute(OpCode::StoreBCDRepresentationOfRegister(2), 0)
        .is_ok());
    assert_eq!(cpu.memory[0x400], 0);
    assert_eq!(cpu.memory[0x401], 0);
    assert_eq!(cpu.memory[0x402], 7);
}

#[test]
fn bulk_transfer_is_inclusive_and_leaves_index_alone() {
    let mut cpu = new();
    cpu.v[0] = 11;
    cpu.v[1] = 22;
    cpu.v[2] = 33;
    cpu.v[3] = 99;
    cpu.i = 0x500;
    assert!(cpu.execute(OpCode::LoadFromRegistersToMemory(2), 0).is_ok());
    assert_eq!(cpu.memory[0x500], 11);
    assert_eq!(cpu.memory[0x501], 22);
    assert_eq!(cpu.memory[0x502], 33);
    assert_eq!(cpu.memory[0x503], 0); // V3 not stored
    assert_eq!(cpu.i, 0x500); // no auto-increment

    cpu.v[0] = 0;
    cpu.v[1] = 0;
    cpu.v[2] = 0;
    assert!(cpu.execute(OpCode::LoadFromMemoryToRegisters(1), 0).is_ok());
    assert_eq!(cpu.v[0], 11);
    assert_eq!(cpu.v[1], 22);
    assert_eq!(cpu.v[2], 0); // V2 not loaded
    assert_eq!(cpu.i, 0x500);
}

#[test]
fn timer_get_and_set() {
    let mut cpu = new();
    cpu.v[4] = 42;
    assert!(cpu.execute(OpCode::SetDelayTimerFromRegister(4), 0).is_ok());
    assert_eq!(cpu.delay_timer, 42);
    assert!(cpu.execute(OpCode::SetSoundTimerFromRegister(4), 0).is_ok());
    assert_eq!(cpu.sound_timer, 42);
    cpu.delay_timer = 17;
    assert!(cpu.execute(OpCode::SetRegisterFromDelayTimer(9), 0).is_ok());
    assert_eq!(cpu.v[9], 17);
}

#[test]
fn timers_decrement_to_max_of_zero_and_v_minus_n() {
    let mut cpu = new();
    cpu.delay_timer = 5;
    cpu.sound_timer = 2;
    for _ in 0..3 {
        cpu.tick_timers();
    }
    assert_eq!(cpu.delay_timer, 2); // max(0, 5 - 3)
    assert_eq!(cpu.sound_timer, 0); // max(0, 2 - 3), saturating
    for _ in 0..10 {
        cpu.tick_timers();
    }
    assert_eq!(cpu.delay_timer, 0);
    assert_eq!(cpu.sound_timer, 0);
}

#[test]
fn random_register_is_masked() {
    let mut cpu = new();
    assert!(cpu
        .execute(OpCode::SetRegisterWithRandom(2, 0x0F), 0xAB)
        .is_ok());
    assert_eq!(cpu.v[2], 0x0B);

    let mut cpu = boot_with(&[0xC2F0]);
    assert!(cpu.tick().is_ok());
    assert_eq!(cpu.v[2] & 0x0F, 0);
    assert_eq!(cpu.pc, 0x202);
}

#[test]
fn get_key_blocks_by_rewinding_pc() {
    let mut cpu = boot_with(&[0xF20A]);
    cpu.v[2] = 3;
    assert!(cpu.tick().is_ok());
    assert_eq!(cpu.pc, 0x200); // key 3 not pressed: re-execute next cycle

    let mut keys = HashSet::new();
    keys.insert(3u8);
    cpu.set_keys_pressed(keys);
    assert!(cpu.tick().is_ok());
    assert_eq!(cpu.pc, 0x202);
}

#[test]
fn key_skips_follow_pressed_set() {
    let mut keys = HashSet::new();
    keys.insert(7u8);

    let mut cpu = boot_with(&[0xE29E]);
    cpu.v[2] = 7;
    cpu.set_keys_pressed(keys.clone());
    assert!(cpu.tick().is_ok());
    assert_eq!(cpu.pc, 0x204);

    let mut cpu = boot_with(&[0xE29E]);
    cpu.v[2] = 6;
    cpu.set_keys_pressed(keys.clone());
    assert!(cpu.tick().is_ok());
    assert_eq!(cpu.pc, 0x202);

    let mut cpu = boot_with(&[0xE2A1]);
    cpu.v[2] = 6;
    cpu.set_keys_pressed(keys.clone());
    assert!(cpu.tick().is_ok());
    assert_eq!(cpu.pc, 0x204);
}

#[test]
fn key_press_events_are_recorded() {
    let mut cpu = new();
    cpu.set_key_pressed(0xC);
    assert!(cpu.is_key_pressed);
    assert_eq!(cpu.key_pressed, Some(0xC));
    cpu.set_key_released();
    assert!(!cpu.is_key_pressed);
}

#[test]
fn unknown_opcode_only_advances_pc() {
    let mut cpu = boot_with(&[0xFFFF]);
    let before_v = cpu.v.clone();
    assert!(cpu.tick().is_ok());
    assert_eq!(cpu.pc, 0x202);
    assert_eq!(cpu.v, before_v);
    assert!(!cpu.should_render);
}

#[test]
fn tick_ready_guards_machine_limits() {
    let cpu = boot_with(&[0x1208]);
    assert!(cpu.tick_ready());

    let mut cpu = new();
    cpu.pc = 4095;
    assert!(!cpu.tick_ready());

    // a draw that would read sprite rows past the end of memory
    let mut cpu = boot_with(&[0xD012]);
    cpu.i = 4095;
    assert!(!cpu.tick_ready());

    // a BCD store that would write past the end of memory
    let mut cpu = boot_with(&[0xF333]);
    cpu.i = 4094;
    assert!(!cpu.tick_ready());
}

#[test]
fn fetch_assembles_big_endian_word() {
    let mut cpu = new();
    cpu.load_into_memory(vec![0xAB, 0xCD], 0x200);
    cpu.pc = 0x200;
    assert_eq!(cpu.fetch_next_instruction(), 0xABCD);
}

#[test]
fn default_is_initial_state() {
    let cpu = Cpu::default();
    assert_eq!(cpu.pc, 0);
    assert_eq!(cpu.i, 0);
    assert!(cpu.stack.is_empty());
    assert!(cpu.memory.iter().all(|&b| b == 0));
}
