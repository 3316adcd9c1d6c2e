use chip8::{Chip8, Condition};

fn run_word(chip: &mut Chip8, word: u16) -> chip8::CycleReport {
    let pc = chip.pc as usize;
    chip.memory[pc] = (word >> 8) as u8;
    chip.memory[pc + 1] = word as u8;
    chip.emulate_cycle()
}

#[test]
fn jump_sets_the_program_counter() {
    let mut chip = Chip8::new();
    run_word(&mut chip, 0x1ABC);
    assert_eq!(chip.pc, 0xABC);
    assert_eq!(chip.sp, 0);
}

#[test]
fn jump_with_offset_adds_v0() {
    let mut chip = Chip8::new();
    chip.v[0] = 0x10;
    run_word(&mut chip, 0xB300);
    assert_eq!(chip.pc, 0x310);

    let mut chip = Chip8::new();
    chip.v[0] = 0xFF;
    run_word(&mut chip, 0xBFFF);
    assert_eq!(chip.pc, 4094);
}

#[test]
fn call_pushes_and_return_resumes_after_the_call() {
    let mut chip = Chip8::new();
    let report = run_word(&mut chip, 0x2400);
    assert_eq!(report.condition, Condition::Normal);
    assert_eq!(chip.pc, 0x400);
    assert_eq!(chip.sp, 1);
    assert_eq!(chip.stack[0], 0x200);
    let report = run_word(&mut chip, 0x00EE);
    assert_eq!(report.condition, Condition::Normal);
    assert_eq!(chip.pc, 0x202);
    assert_eq!(chip.sp, 0);
}

#[test]
fn sixteen_calls_nest_and_the_next_overflows() {
    let mut chip = Chip8::new();
    for depth in 0..16u16 {
        let report = run_word(&mut chip, 0x2300 + 2 * (depth + 1));
        assert_eq!(report.condition, Condition::Normal);
        assert_eq!(chip.sp, depth + 1);
    }
    assert_eq!(chip.pc, 0x320);
    let stack = chip.stack;
    let report = run_word(&mut chip, 0x2456);
    assert_eq!(report.condition, Condition::StackOverflow);
    assert_eq!(chip.sp, 16);
    assert_eq!(chip.stack, stack);
    assert_eq!(chip.pc, 0x322);
    assert!(chip.is_well_formed());
}

#[test]
fn return_without_call_underflows() {
    let mut chip = Chip8::new();
    chip.stack[0] = 0x600;
    let report = run_word(&mut chip, 0x00EE);
    assert_eq!(report.condition, Condition::StackUnderflow);
    assert_eq!(chip.sp, 0);
    assert_eq!(chip.pc, 0x202);
}

#[test]
fn insn_00ee_pops_the_last_entry() {
    let mut chip = Chip8::new();
    chip.stack[0] = 0x300;
    chip.stack[1] = 0x500;
    chip.sp = 2;
    chip.insn_00ee();
    assert_eq!(chip.pc, 0x502);
    assert_eq!(chip.sp, 1);
}

#[test]
fn skips_on_immediate() {
    let mut chip = Chip8::new();
    chip.v[2] = 0x44;
    run_word(&mut chip, 0x3244);
    assert_eq!(chip.pc, 0x204);
    run_word(&mut chip, 0x3245);
    assert_eq!(chip.pc, 0x206);
    run_word(&mut chip, 0x4245);
    assert_eq!(chip.pc, 0x20A);
    run_word(&mut chip, 0x4244);
    assert_eq!(chip.pc, 0x20C);
}

#[test]
fn skips_on_registers() {
    let mut chip = Chip8::new();
    chip.v[2] = 7;
    chip.v[3] = 7;
    chip.v[4] = 8;
    run_word(&mut chip, 0x5230);
    assert_eq!(chip.pc, 0x204);
    run_word(&mut chip, 0x5240);
    assert_eq!(chip.pc, 0x206);
    run_word(&mut chip, 0x9240);
    assert_eq!(chip.pc, 0x20A);
    run_word(&mut chip, 0x9230);
    assert_eq!(chip.pc, 0x20C);
    run_word(&mut chip, 0x5237);
    assert_eq!(chip.pc, 0x210);
}

#[test]
fn load_and_add_immediate() {
    let mut chip = Chip8::new();
    chip.v[0xF] = 9;
    run_word(&mut chip, 0x6AF0);
    assert_eq!(chip.v[0xA], 0xF0);
    run_word(&mut chip, 0x7A20);
    assert_eq!(chip.v[0xA], 0x10);
    assert_eq!(chip.v[0xF], 9);
    assert_eq!(chip.pc, 0x204);
}

#[test]
fn move_and_bitwise() {
    let mut chip = Chip8::new();
    chip.v[1] = 0b1100;
    chip.v[2] = 0b1010;
    chip.v[0xF] = 5;
    run_word(&mut chip, 0x8320);
    assert_eq!(chip.v[3], 0b1010);
    run_word(&mut chip, 0x8311);
    assert_eq!(chip.v[3], 0b1110);
    run_word(&mut chip, 0x8312);
    assert_eq!(chip.v[3], 0b1100);
    run_word(&mut chip, 0x8323);
    assert_eq!(chip.v[3], 0b0110);
    assert_eq!(chip.v[0xF], 5);
    assert_eq!(chip.pc, 0x208);
}

#[test]
fn add_with_carry() {
    let mut chip = Chip8::new();
    chip.v[0] = 0xFF;
    chip.v[1] = 0x02;
    run_word(&mut chip, 0x8014);
    assert_eq!(chip.v[0], 0x01);
    assert_eq!(chip.v[0xF], 1);
}

#[test]
fn subtract_without_borrow_sets_the_flag() {
    let mut chip = Chip8::new();
    chip.v[0] = 9;
    chip.v[1] = 4;
    run_word(&mut chip, 0x8015);
    assert_eq!(chip.v[0], 5);
    assert_eq!(chip.v[0xF], 1);
    run_word(&mut chip, 0x8005);
    assert_eq!(chip.v[0], 0);
    assert_eq!(chip.v[0xF], 1);
}

#[test]
fn reverse_subtract() {
    let mut chip = Chip8::new();
    chip.v[0] = 4;
    chip.v[1] = 9;
    run_word(&mut chip, 0x8017);
    assert_eq!(chip.v[0], 5);
    assert_eq!(chip.v[0xF], 1);

    let mut chip = Chip8::new();
    chip.v[0] = 9;
    chip.v[1] = 4;
    run_word(&mut chip, 0x8017);
    assert_eq!(chip.v[0], 0xFB);
    assert_eq!(chip.v[0xF], 0);
}

#[test]
fn shifts() {
    let mut chip = Chip8::new();
    chip.v[4] = 0b1000_0101;
    run_word(&mut chip, 0x8406);
    assert_eq!(chip.v[4], 0b0100_0010);
    assert_eq!(chip.v[0xF], 1);
    run_word(&mut chip, 0x8406);
    assert_eq!(chip.v[4], 0b0010_0001);
    assert_eq!(chip.v[0xF], 0);

    chip.v[4] = 0b1000_0101;
    run_word(&mut chip, 0x840E);
    assert_eq!(chip.v[4], 0b0000_1010);
    assert_eq!(chip.v[0xF], 1);
    run_word(&mut chip, 0x840E);
    assert_eq!(chip.v[4], 0b0001_0100);
    assert_eq!(chip.v[0xF], 0);
}

#[test]
fn flag_register_as_destination_ends_as_the_flag() {
    let mut chip = Chip8::new();
    chip.v[0xF] = 0b0000_0011;
    run_word(&mut chip, 0x8F06);
    assert_eq!(chip.v[0xF], 1);

    chip.v[0xF] = 0b1000_0000;
    run_word(&mut chip, 0x8F0E);
    assert_eq!(chip.v[0xF], 1);

    chip.v[0xF] = 200;
    chip.v[1] = 100;
    run_word(&mut chip, 0x8F14);
    assert_eq!(chip.v[0xF], 1);

    chip.v[0xF] = 3;
    chip.v[1] = 1;
    run_word(&mut chip, 0x8F15);
    assert_eq!(chip.v[0xF], 1);
}

#[test]
fn flag_register_as_operand_is_read_before_it_is_written() {
    let mut chip = Chip8::new();
    chip.v[0] = 10;
    chip.v[0xF] = 250;
    run_word(&mut chip, 0x80F4);
    assert_eq!(chip.v[0], 4);
    assert_eq!(chip.v[0xF], 1);
}

#[test]
fn carry_operations_leave_zero_or_one_in_the_flag() {
    for word in [0x8014u16, 0x8015, 0x8016, 0x8017, 0x801E, 0x8F14, 0x8F15, 0x8F16, 0x8F17, 0x8F1E] {
        for a in [0u8, 1, 2, 127, 128, 200, 254, 255] {
            for b in [0u8, 1, 2, 127, 128, 200, 254, 255] {
                let mut chip = Chip8::new();
                chip.v[0] = a;
                chip.v[0xF] = a;
                chip.v[1] = b;
                run_word(&mut chip, word);
                assert!(chip.v[0xF] <= 1, "{:X} {} {}", word, a, b);
            }
        }
    }
}

#[test]
fn load_index_and_add_to_index() {
    let mut chip = Chip8::new();
    run_word(&mut chip, 0xAFFE);
    assert_eq!(chip.index, 0xFFE);
    chip.v[3] = 1;
    chip.v[0xF] = 7;
    run_word(&mut chip, 0xF31E);
    assert_eq!(chip.index, 0xFFF);
    assert_eq!(chip.v[0xF], 0);
    chip.v[3] = 3;
    run_word(&mut chip, 0xF31E);
    assert_eq!(chip.index, 0x002);
    assert_eq!(chip.v[0xF], 1);
    assert_eq!(chip.pc, 0x206);
}

#[test]
fn glyph_address_is_five_times_the_digit() {
    let mut chip = Chip8::new();
    chip.v[6] = 0xA;
    run_word(&mut chip, 0xF629);
    assert_eq!(chip.index, 50);
    chip.v[6] = 255;
    run_word(&mut chip, 0xF629);
    assert_eq!(chip.index, 1275);
}

#[test]
fn bcd_of_small_numbers() {
    let mut chip = Chip8::new();
    chip.index = 0x400;
    chip.v[0] = 7;
    run_word(&mut chip, 0xF033);
    assert_eq!(&chip.memory[0x400..0x403], &[0, 0, 7]);
    chip.v[0] = 40;
    run_word(&mut chip, 0xF033);
    assert_eq!(&chip.memory[0x400..0x403], &[0, 4, 0]);
    chip.v[0] = 255;
    run_word(&mut chip, 0xF033);
    assert_eq!(&chip.memory[0x400..0x403], &[2, 5, 5]);
}

#[test]
fn bcd_at_the_end_of_memory_stays_inside() {
    let mut chip = Chip8::new();
    chip.index = 4094;
    chip.v[0] = 123;
    run_word(&mut chip, 0xF033);
    assert_eq!(chip.memory[4094], 1);
    assert_eq!(chip.memory[4095], 3);
}

#[test]
fn store_writes_v0_to_vx_inclusive_and_keeps_index() {
    let mut chip = Chip8::new();
    for r in 0..16 {
        chip.v[r] = 0x11 * (r as u8 + 1);
    }
    chip.index = 0x300;
    run_word(&mut chip, 0xF355);
    assert_eq!(&chip.memory[0x300..0x305], &[0x11, 0x22, 0x33, 0x44, 0x00]);
    assert_eq!(chip.index, 0x300);
    assert_eq!(chip.pc, 0x202);
    run_word(&mut chip, 0xF055);
    assert_eq!(&chip.memory[0x300..0x305], &[0x11, 0x22, 0x33, 0x44, 0x00]);
}

#[test]
fn load_reads_v0_to_vx_inclusive_and_keeps_index() {
    let mut chip = Chip8::new();
    chip.index = 0x300;
    chip.memory[0x300] = 1;
    chip.memory[0x301] = 2;
    chip.memory[0x302] = 3;
    chip.v[2] = 99;
    chip.v[3] = 77;
    run_word(&mut chip, 0xF165);
    assert_eq!(&chip.v[0..4], &[1, 2, 99, 77]);
    assert_eq!(chip.index, 0x300);
    run_word(&mut chip, 0xF265);
    assert_eq!(&chip.v[0..4], &[1, 2, 3, 77]);
}

#[test]
fn store_then_load_round_trip() {
    let mut chip = Chip8::new();
    let values: [u8; 16] = [3, 1, 4, 1, 5, 9, 2, 6, 5, 3, 5, 8, 9, 7, 9, 255];
    chip.v = values;
    chip.index = 0xE00;
    run_word(&mut chip, 0xFF55);
    chip.v = [0; 16];
    chip.delay_timer = 60;
    run_word(&mut chip, 0xFF65);
    assert_eq!(chip.v, values);
    assert_eq!(&chip.memory[0xE00..0xE10], &values[..]);
}

#[test]
fn store_at_the_end_of_memory_stays_inside() {
    let mut chip = Chip8::new();
    chip.v[0] = 1;
    chip.v[1] = 2;
    chip.v[2] = 3;
    chip.index = 4094;
    run_word(&mut chip, 0xF255);
    assert_eq!(chip.memory[4094], 1);
    assert_eq!(chip.memory[4095], 3);
    chip.v = [0; 16];
    run_word(&mut chip, 0xF265);
    assert_eq!(&chip.v[0..3], &[1, 3, 3]);
}

#[test]
fn key_skips() {
    let mut chip = Chip8::new();
    chip.v[1] = 0xB;
    run_word(&mut chip, 0xE19E);
    assert_eq!(chip.pc, 0x202);
    run_word(&mut chip, 0xE1A1);
    assert_eq!(chip.pc, 0x206);
    chip.keypad[0xB] = 1;
    run_word(&mut chip, 0xE19E);
    assert_eq!(chip.pc, 0x20A);
    run_word(&mut chip, 0xE1A1);
    assert_eq!(chip.pc, 0x20C);
}

#[test]
fn key_skip_with_a_number_past_the_keypad_looks_at_the_last_key() {
    let mut chip = Chip8::new();
    chip.v[1] = 0x40;
    run_word(&mut chip, 0xE19E);
    assert_eq!(chip.pc, 0x202);
    chip.keypad[0xF] = 1;
    run_word(&mut chip, 0xE19E);
    assert_eq!(chip.pc, 0x206);
}

#[test]
fn wait_key_does_not_advance_until_a_key_is_held() {
    let mut chip = Chip8::new();
    chip.delay_timer = 5;
    chip.v[3] = 0x77;
    for _ in 0..3 {
        let report = run_word(&mut chip, 0xF30A);
        assert_eq!(report.condition, Condition::Normal);
        assert_eq!(chip.pc, 0x200);
        assert_eq!(chip.v[3], 0x77);
    }
    assert_eq!(chip.delay_timer, 2);
    chip.keypad[9] = 1;
    chip.emulate_cycle();
    assert_eq!(chip.pc, 0x202);
    assert_eq!(chip.v[3], 9);
    assert_eq!(chip.delay_timer, 1);
}

#[test]
fn wait_key_takes_the_lowest_held_key() {
    let mut chip = Chip8::new();
    chip.keypad[0xE] = 1;
    chip.keypad[4] = 200;
    chip.keypad[0xA] = 1;
    run_word(&mut chip, 0xF00A);
    assert_eq!(chip.v[0], 4);
    assert_eq!(chip.pc, 0x202);

    let mut chip = Chip8::new();
    chip.v[5] = 9;
    chip.keypad[0] = 1;
    run_word(&mut chip, 0xF50A);
    assert_eq!(chip.v[5], 0);
    assert_eq!(chip.pc, 0x202);
}

#[test]
fn wait_key_does_not_see_the_last_key() {
    let mut chip = Chip8::new();
    chip.keypad[0xF] = 1;
    run_word(&mut chip, 0xF00A);
    assert_eq!(chip.pc, 0x200);
    chip.keypad[0xE] = 1;
    chip.emulate_cycle();
    assert_eq!(chip.pc, 0x202);
    assert_eq!(chip.v[0], 0xE);
}

#[test]
fn random_with_a_given_number_masks_its_low_byte() {
    let mut chip = Chip8::new();
    chip.opcode = 0xC40F;
    chip.insn_cxnn_with(0xABCD);
    assert_eq!(chip.v[4], 0x0D);
    assert_eq!(chip.pc, 0x202);
    chip.opcode = 0xC4F0;
    chip.insn_cxnn_with(0xABCD);
    assert_eq!(chip.v[4], 0xC0);
    chip.opcode = 0xC4FF;
    chip.insn_cxnn_with(0x1234);
    assert_eq!(chip.v[4], 0x34);
}

#[test]
fn random_stays_inside_the_mask() {
    let mut chip = Chip8::new();
    for _ in 0..200 {
        chip.pc = 0x200;
        chip.v[2] = 0xFF;
        let report = run_word(&mut chip, 0xC25A);
        assert_eq!(report.condition, Condition::Normal);
        assert_eq!(chip.v[2] & !0x5A, 0);
        assert_eq!(chip.pc, 0x202);
    }
    chip.pc = 0x200;
    chip.v[2] = 0xFF;
    run_word(&mut chip, 0xC200);
    assert_eq!(chip.v[2], 0);
}

#[test]
fn random_draws_more_than_one_number() {
    let mut chip = Chip8::new();
    let mut seen = std::collections::HashSet::new();
    for _ in 0..256 {
        chip.opcode = 0xC0FF;
        chip.insn_cxnn();
        seen.insert(chip.v[0]);
    }
    assert!(seen.len() > 1);
}

#[test]
fn insn_functions_take_their_operands_from_opcode() {
    let mut chip = Chip8::new();
    chip.opcode = 0x6C42;
    chip.insn_6xnn();
    assert_eq!(chip.v[0xC], 0x42);
    assert_eq!(chip.pc, 0x202);
    chip.opcode = 0x8DC0;
    chip.insn_8xy0();
    assert_eq!(chip.v[0xD], 0x42);
    assert_eq!(chip.pc, 0x204);
    chip.opcode = 0x0123;
    chip.insn_0nnn();
    assert_eq!(chip.pc, 0x206);
}
