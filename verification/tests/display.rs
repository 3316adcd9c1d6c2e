use chip8::Chip8;

fn draw(chip: &mut Chip8, word: u16) {
    let pc = chip.pc as usize;
    chip.memory[pc] = (word >> 8) as u8;
    chip.memory[pc + 1] = word as u8;
    chip.emulate_cycle();
}

fn lit_cells(chip: &Chip8) -> Vec<usize> {
    (0..2048).filter(|c| chip.display[*c] != 0).collect()
}

#[test]
fn draw_sets_the_bits_of_each_row() {
    let mut chip = Chip8::new();
    chip.index = 0x300;
    chip.memory[0x300] = 0b1010_0000;
    chip.memory[0x301] = 0b0000_0001;
    chip.v[1] = 3;
    chip.v[2] = 2;
    chip.v[0xF] = 9;
    draw(&mut chip, 0xD122);
    assert_eq!(lit_cells(&chip), vec![3 + 2 * 64, 5 + 2 * 64, 10 + 3 * 64]);
    assert_eq!(chip.v[0xF], 0);
    assert!(chip.draw_flag);
    assert_eq!(chip.pc, 0x202);
    assert_eq!(chip.index, 0x300);
}

#[test]
fn draw_glyph_from_the_font() {
    let mut chip = Chip8::new();
    chip.index = 0x50;
    draw(&mut chip, 0xD005);
    // The glyph of 0: F0 90 90 90 F0.
    assert_eq!(
        lit_cells(&chip),
        vec![0, 1, 2, 3, 64, 67, 128, 131, 192, 195, 256, 257, 258, 259]
    );
}

#[test]
fn draw_of_no_rows_only_raises_the_draw_flag() {
    let mut chip = Chip8::new();
    chip.index = 0x50;
    chip.v[0xF] = 1;
    draw(&mut chip, 0xD010);
    assert_eq!(lit_cells(&chip), Vec::<usize>::new());
    assert_eq!(chip.v[0xF], 0);
    assert!(chip.draw_flag);
}

#[test]
fn draw_twice_restores_and_collides() {
    let mut chip = Chip8::new();
    chip.index = 0x50 + 5 * 0xB;
    chip.v[4] = 20;
    chip.v[5] = 10;
    chip.display[21 + 11 * 64] = 1;
    let before = chip.display;
    draw(&mut chip, 0xD455);
    assert_ne!(chip.display, before);
    draw(&mut chip, 0xD455);
    assert_eq!(chip.display, before);
    assert_eq!(chip.v[0xF], 1);
}

#[test]
fn draw_on_an_empty_display_does_not_collide_then_does() {
    let mut chip = Chip8::new();
    chip.index = 0x50;
    chip.v[0] = 5;
    chip.v[1] = 5;
    draw(&mut chip, 0xD015);
    assert_eq!(chip.v[0xF], 0);
    draw(&mut chip, 0xD015);
    assert_eq!(chip.v[0xF], 1);
    assert_eq!(chip.display, [0u8; 2048]);
}

#[test]
fn draw_collides_only_on_cells_equal_to_one() {
    let mut chip = Chip8::new();
    chip.index = 0x300;
    chip.memory[0x300] = 0b1000_0000;
    chip.display[0] = 255;
    draw(&mut chip, 0xD001);
    assert_eq!(chip.display[0], 254);
    assert_eq!(chip.v[0xF], 0);
    draw(&mut chip, 0xD001);
    assert_eq!(chip.display[0], 255);
    assert_eq!(chip.v[0xF], 0);
}

#[test]
fn draw_past_the_right_edge_runs_into_the_next_row() {
    let mut chip = Chip8::new();
    chip.index = 0x300;
    chip.memory[0x300] = 0xFF;
    chip.v[0] = 60;
    chip.v[1] = 0;
    draw(&mut chip, 0xD011);
    assert_eq!(lit_cells(&chip), vec![60, 61, 62, 63, 64, 65, 66, 67]);
}

#[test]
fn draw_past_the_end_lands_on_the_last_cell() {
    let mut chip = Chip8::new();
    chip.index = 0x300;
    chip.memory[0x300] = 0b1000_0000;
    chip.v[0] = 0;
    chip.v[1] = 32;
    draw(&mut chip, 0xD011);
    assert_eq!(lit_cells(&chip), vec![2047]);
    assert_eq!(chip.v[0xF], 0);
}

#[test]
fn pixels_that_share_the_last_cell_toggle_it_in_turn() {
    let mut chip = Chip8::new();
    chip.index = 0x300;
    chip.memory[0x300] = 0b1100_0000;
    chip.v[0] = 63;
    chip.v[1] = 31;
    draw(&mut chip, 0xD011);
    // Both pixels land on cell 2047: the first sets it, the second clears it.
    assert_eq!(chip.display[2047], 0);
    assert_eq!(chip.v[0xF], 1);

    let mut chip = Chip8::new();
    chip.index = 0x300;
    chip.memory[0x300] = 0b1110_0000;
    chip.v[0] = 200;
    chip.v[1] = 200;
    draw(&mut chip, 0xD011);
    assert_eq!(lit_cells(&chip), vec![2047]);
    assert_eq!(chip.v[0xF], 1);
}

#[test]
fn draw_reads_its_place_before_it_resets_the_flag() {
    let mut chip = Chip8::new();
    chip.index = 0x300;
    chip.memory[0x300] = 0b1000_0000;
    chip.v[0xF] = 7;
    chip.v[0] = 1;
    draw(&mut chip, 0xDF01);
    assert_eq!(lit_cells(&chip), vec![7 + 64]);
    assert_eq!(chip.v[0xF], 0);
}

#[test]
fn sprite_rows_past_the_end_of_memory_repeat_the_last_byte() {
    let mut chip = Chip8::new();
    chip.index = 4095;
    chip.memory[4095] = 0b1000_0000;
    draw(&mut chip, 0xD003);
    assert_eq!(lit_cells(&chip), vec![0, 64, 128]);
}

#[test]
fn clear_twice_is_clear_once() {
    let mut chip = Chip8::new();
    chip.display = [1; 2048];
    chip.display[5] = 200;
    draw(&mut chip, 0x00E0);
    let once = chip.display;
    chip.draw_flag = false;
    draw(&mut chip, 0x00E0);
    assert_eq!(chip.display, once);
    assert_eq!(once, [0u8; 2048]);
    assert!(chip.draw_flag);
    assert_eq!(chip.pc, 0x204);
}
