use chip8::display::{clear, draw_sprite};
use chip8::Chip8;

const RELEASED: [bool; 16] = [false; 16];

/// The cells of the display that are on, as (x, y) pairs in row-major order.
fn lit_cells(screen: &[u8; 2048]) -> Vec<(usize, usize)> {
    let mut cells = Vec::new();
    for (i, &cell) in screen.iter().enumerate() {
        assert!(cell <= 1);
        if cell == 1 {
            cells.push((i % 64, i / 64));
        }
    }
    cells
}

/// Runs `count` instructions from time `from` on.
fn steps(chip: &mut Chip8, from: u128, count: u128) -> u128 {
    let mut now = from;
    for _ in 0..count {
        now += 2_000_000;
        assert!(chip.can_cycle(now));
        chip.cycle(now, &RELEASED);
    }
    now
}

/// The glyph "0": F0 90 90 90 F0, with its top left corner at (x, y).
fn zero_glyph_at(x: usize, y: usize) -> Vec<(usize, usize)> {
    let mut cells = Vec::new();
    for (row, byte) in [0xF0u8, 0x90, 0x90, 0x90, 0xF0].iter().enumerate() {
        for col in 0..8 {
            if byte & (0x80 >> col) != 0 {
                cells.push((x + col, y + row));
            }
        }
    }
    cells
}

#[test]
fn draw_the_zero_glyph() {
    // V1 = 10, V2 = 4, I = 0, draw 5 rows at (V1, V2).
    let mut chip = Chip8::new(&[0x61, 0x0A, 0x62, 0x04, 0xA0, 0x00, 0xD1, 0x25], 500, 0, false);
    steps(&mut chip, 0, 4);
    assert_eq!(lit_cells(chip.get_screen()), zero_glyph_at(10, 4));
    assert_eq!(chip.get_registers()[0xF], 0);
    assert!(chip.should_update_screen());
    assert!(!chip.should_clear_screen());
}

#[test]
fn drawing_twice_erases_and_collides() {
    let mut chip = Chip8::new(
        &[0x61, 0x0A, 0x62, 0x04, 0xA0, 0x00, 0xD1, 0x25, 0xD1, 0x25],
        500,
        0,
        false,
    );
    steps(&mut chip, 0, 4);
    assert_eq!(chip.get_registers()[0xF], 0);
    steps(&mut chip, 8_000_000, 1);
    assert!(chip.get_screen().iter().all(|&cell| cell == 0));
    assert_eq!(chip.get_registers()[0xF], 1);
    assert!(chip.should_update_screen());
}

#[test]
fn drawing_three_times_shows_the_glyph_again() {
    let mut chip = Chip8::new(
        &[0x61, 0x0A, 0x62, 0x04, 0xA0, 0x00, 0xD1, 0x25, 0xD1, 0x25, 0xD1, 0x25],
        500,
        0,
        false,
    );
    steps(&mut chip, 0, 6);
    assert_eq!(lit_cells(chip.get_screen()), zero_glyph_at(10, 4));
    assert_eq!(chip.get_registers()[0xF], 0);
}

#[test]
fn overlapping_sprites_collide_where_they_meet() {
    // "0" at (0, 0), then "1" (20 60 20 20 70) at (0, 0).
    let mut chip = Chip8::new(
        &[0xA0, 0x00, 0xD1, 0x25, 0xA0, 0x05, 0xD1, 0x25],
        500,
        0,
        false,
    );
    steps(&mut chip, 0, 4);
    let mut expected = Vec::new();
    let zero = [0xF0u8, 0x90, 0x90, 0x90, 0xF0];
    let one = [0x20u8, 0x60, 0x20, 0x20, 0x70];
    for row in 0..5 {
        for col in 0..8 {
            if (zero[row] ^ one[row]) & (0x80 >> col) != 0 {
                expected.push((col, row));
            }
        }
    }
    assert_eq!(lit_cells(chip.get_screen()), expected);
    assert_eq!(chip.get_registers()[0xF], 1);
}

#[test]
fn disjoint_sprites_do_not_collide() {
    let mut chip = Chip8::new(
        &[0xA0, 0x00, 0xD1, 0x25, 0x61, 0x08, 0xD1, 0x25],
        500,
        0,
        false,
    );
    steps(&mut chip, 0, 4);
    let mut expected = zero_glyph_at(0, 0);
    expected.extend(zero_glyph_at(8, 0));
    expected.sort_by_key(|&(x, y)| (y, x));
    assert_eq!(lit_cells(chip.get_screen()), expected);
    assert_eq!(chip.get_registers()[0xF], 0);
}

#[test]
fn a_draw_resets_a_stale_flag() {
    let mut chip = Chip8::new(&[0x6F, 0x07, 0xA0, 0x00, 0xD1, 0x25], 500, 0, false);
    steps(&mut chip, 0, 3);
    assert_eq!(chip.get_registers()[0xF], 0);
}

#[test]
fn start_position_wraps() {
    // V1 = 64 + 3, V2 = 32 + 2.
    let mut chip = Chip8::new(&[0x61, 0x43, 0x62, 0x22, 0xA0, 0x00, 0xD1, 0x25], 500, 0, false);
    steps(&mut chip, 0, 4);
    assert_eq!(lit_cells(chip.get_screen()), zero_glyph_at(3, 2));
    // V1 = 255 is column 63, V2 = 255 is row 31: one cell of the glyph shows.
    let mut chip = Chip8::new(&[0x61, 0xFF, 0x62, 0xFF, 0xA0, 0x00, 0xD1, 0x25], 500, 0, false);
    steps(&mut chip, 0, 4);
    assert_eq!(lit_cells(chip.get_screen()), vec![(63, 31)]);
}

#[test]
fn sprites_are_clipped_at_the_right_edge() {
    // "0" at column 62: only its two left columns show, and nothing wraps.
    let mut chip = Chip8::new(&[0x61, 0x3E, 0x62, 0x00, 0xA0, 0x00, 0xD1, 0x25], 500, 0, false);
    steps(&mut chip, 0, 4);
    assert_eq!(
        lit_cells(chip.get_screen()),
        vec![(62, 0), (63, 0), (62, 1), (62, 2), (62, 3), (62, 4), (63, 4)]
    );
}

#[test]
fn sprites_are_clipped_at_the_bottom_edge() {
    // "0" at row 30: only its two top rows show.
    let mut chip = Chip8::new(&[0x61, 0x00, 0x62, 0x1E, 0xA0, 0x00, 0xD1, 0x25], 500, 0, false);
    steps(&mut chip, 0, 4);
    assert_eq!(
        lit_cells(chip.get_screen()),
        vec![(0, 30), (1, 30), (2, 30), (3, 30), (0, 31), (3, 31)]
    );
}

#[test]
fn all_eight_columns_are_drawn() {
    // A row of 0xFF stored in memory by Fx55, then drawn.
    let mut chip = Chip8::new(
        &[0x60, 0xFF, 0xA3, 0x00, 0xF0, 0x55, 0x61, 0x38, 0x62, 0x05, 0xD1, 0x21],
        500,
        0,
        false,
    );
    steps(&mut chip, 0, 6);
    let expected: Vec<(usize, usize)> = (56..64).map(|x| (x, 5)).collect();
    assert_eq!(lit_cells(chip.get_screen()), expected);
}

#[test]
fn a_sprite_of_no_rows_draws_nothing() {
    let mut chip = Chip8::new(&[0x6F, 0x01, 0xA0, 0x00, 0xD1, 0x20], 500, 0, false);
    steps(&mut chip, 0, 3);
    assert!(chip.get_screen().iter().all(|&cell| cell == 0));
    assert_eq!(chip.get_registers()[0xF], 0);
    assert!(chip.should_update_screen());
}

#[test]
fn a_sprite_of_fifteen_rows() {
    // I = 0: the first fifteen font bytes, at (0, 0).
    let mut chip = Chip8::new(&[0xA0, 0x00, 0xD1, 0x2F], 500, 0, false);
    steps(&mut chip, 0, 2);
    let mut expected = zero_glyph_at(0, 0);
    for (row, byte) in [0x20u8, 0x60, 0x20, 0x20, 0x70, 0xF0, 0x10, 0xF0, 0x80, 0xF0]
        .iter()
        .enumerate()
    {
        for col in 0..8 {
            if byte & (0x80 >> col) != 0 {
                expected.push((col, 5 + row));
            }
        }
    }
    assert_eq!(lit_cells(chip.get_screen()), expected);
}

#[test]
fn sprite_rows_wrap_at_the_end_of_memory() {
    // I = 0xFFF: first row is the last byte of memory, second row is the
    // first font byte.
    let mut rom = vec![0u8; 4096 - 0x200];
    rom[0] = 0xAF;
    rom[1] = 0xFF;
    rom[2] = 0xD1;
    rom[3] = 0x22;
    rom[4096 - 0x200 - 1] = 0x81;
    let mut chip = Chip8::new(&rom, 500, 0, false);
    steps(&mut chip, 0, 2);
    assert_eq!(
        lit_cells(chip.get_screen()),
        vec![(0, 0), (7, 0), (0, 1), (1, 1), (2, 1), (3, 1)]
    );
}

#[test]
fn clear_screen_blanks_the_display_and_reports_it_once() {
    // Draw, clear, then two loads.
    let mut chip = Chip8::new(
        &[0xA0, 0x00, 0xD1, 0x25, 0x00, 0xE0, 0x61, 0x01, 0x62, 0x02],
        500,
        0,
        false,
    );
    steps(&mut chip, 0, 2);
    assert!(chip.get_screen().iter().any(|&cell| cell == 1));
    assert!(!chip.should_clear_screen());
    steps(&mut chip, 4_000_000, 1);
    assert!(chip.get_screen().iter().all(|&cell| cell == 0));
    assert!(chip.should_clear_screen());
    assert!(!chip.should_update_screen());
    // A cycle that executes nothing takes the report back.
    chip.cycle(6_000_001, &RELEASED);
    assert!(!chip.should_clear_screen());
    assert!(chip.get_screen().iter().all(|&cell| cell == 0));
    // So does a cycle that executes something else.
    steps(&mut chip, 6_000_001, 1);
    assert!(!chip.should_clear_screen());
}

#[test]
fn clear_screen_on_a_blank_display_is_still_reported() {
    let mut chip = Chip8::new(&[0x00, 0xE0, 0x00, 0xE0, 0x61, 0x01], 500, 0, false);
    steps(&mut chip, 0, 1);
    assert!(chip.should_clear_screen());
    steps(&mut chip, 2_000_000, 1);
    assert!(chip.should_clear_screen());
    steps(&mut chip, 4_000_000, 1);
    assert!(!chip.should_clear_screen());
}

#[test]
fn the_draw_report_lasts_one_cycle() {
    let mut chip = Chip8::new(&[0xA0, 0x00, 0xD1, 0x25, 0x61, 0x01], 500, 0, false);
    steps(&mut chip, 0, 2);
    assert!(chip.should_update_screen());
    chip.cycle(4_000_001, &RELEASED);
    assert!(!chip.should_update_screen());
    steps(&mut chip, 4_000_001, 1);
    assert!(!chip.should_update_screen());
    assert_eq!(lit_cells(chip.get_screen()), zero_glyph_at(0, 0));
}

#[test]
fn the_reports_are_taken_back_while_waiting_for_a_key() {
    let mut chip = Chip8::new(&[0x00, 0xE0, 0xF1, 0x0A], 500, 0, false);
    steps(&mut chip, 0, 1);
    assert!(chip.should_clear_screen());
    steps(&mut chip, 2_000_000, 1);
    assert!(chip.awaiting_key());
    assert!(!chip.should_clear_screen());
}

#[test]
fn draw_sprite_on_a_buffer() {
    let mut screen = [0u8; 2048];
    let mut memory = [0u8; 4096];
    memory[0x300] = 0b1010_0000;
    memory[0x301] = 0b0100_0000;
    assert!(!draw_sprite(&mut screen, &memory, 0x300, 2, 1, 1));
    assert_eq!(lit_cells(&screen), vec![(1, 1), (3, 1), (2, 2)]);
    // One cell in common with what is there: it goes off, the others go on.
    memory[0x302] = 0b1100_0000;
    assert!(draw_sprite(&mut screen, &memory, 0x302, 1, 3, 1));
    assert_eq!(lit_cells(&screen), vec![(1, 1), (4, 1), (2, 2)]);
    clear(&mut screen);
    assert!(screen.iter().all(|&cell| cell == 0));
}
