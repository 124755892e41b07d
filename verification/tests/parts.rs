use chip8::arith::{add16, add8, double8, sub8};
use chip8::memory::{load, read_word, restore, store, store_decimal};

#[test]
fn wrapping_sums_and_differences() {
    assert_eq!(add8(250, 10), 4);
    assert_eq!(add8(1, 1), 2);
    assert_eq!(add8(255, 255), 254);
    assert_eq!(add8(0, 0), 0);
    assert_eq!(sub8(5, 10), 251);
    assert_eq!(sub8(10, 5), 5);
    assert_eq!(sub8(0, 255), 1);
    assert_eq!(sub8(7, 7), 0);
    assert_eq!(double8(0x81), 0x02);
    assert_eq!(double8(0x7F), 0xFE);
    assert_eq!(add16(0xFFFF, 1), 0);
    assert_eq!(add16(0xFF00, 0xFF), 0xFFFF);
    assert_eq!(add16(0xFFF, 2), 0x1001);
}

#[test]
fn load_places_font_and_program() {
    let memory = load(&[1, 2, 3]);
    assert_eq!(memory[0], 0xF0);
    assert_eq!(memory[79], 0x80);
    assert_eq!(memory[80], 0);
    assert_eq!(&memory[0x200..0x204], &[1, 2, 3, 0]);
    let empty = load(&[]);
    assert_eq!(empty[0x200], 0);
    assert_eq!(empty[4], 0xF0);
}

#[test]
fn read_word_is_big_endian() {
    let memory = load(&[0x12, 0x34, 0xFF, 0xFF, 0x00, 0x01]);
    assert_eq!(read_word(&memory, 0x200), 0x1234);
    assert_eq!(read_word(&memory, 0x201), 0x34FF);
    assert_eq!(read_word(&memory, 0x202), 0xFFFF);
    assert_eq!(read_word(&memory, 0x204), 0x0001);
    assert_eq!(read_word(&memory, 0), 0xF090);
    assert_eq!(read_word(&memory, 4094), 0);
}

#[test]
fn store_and_restore_on_buffers() {
    let mut memory = [0u8; 4096];
    let mut registers = [0u8; 16];
    for (i, r) in registers.iter_mut().enumerate() {
        *r = 100 + i as u8;
    }
    store(&mut memory, &registers, 0x500, 0);
    assert_eq!(&memory[0x500..0x502], &[100, 0]);
    store(&mut memory, &registers, 0x600, 15);
    assert_eq!(&memory[0x600..0x610], &registers[..]);
    assert_eq!(memory[0x610], 0);
    let mut other = [7u8; 16];
    restore(&mut other, &memory, 0x600, 3);
    assert_eq!(&other[0..5], &[100, 101, 102, 103, 7]);
    // An index past the end of memory lands inside it again.
    store(&mut memory, &registers, 0x1000 + 0x700, 1);
    assert_eq!(&memory[0x700..0x703], &[100, 101, 0]);
}

#[test]
fn store_decimal_on_a_buffer() {
    let mut memory = [0xEEu8; 4096];
    store_decimal(&mut memory, 0x400, 234);
    assert_eq!(&memory[0x3FF..0x404], &[0xEE, 2, 3, 4, 0xEE]);
    store_decimal(&mut memory, 0x400, 9);
    assert_eq!(&memory[0x400..0x403], &[0, 0, 9]);
    store_decimal(&mut memory, 0x400, 255);
    assert_eq!(&memory[0x400..0x403], &[2, 5, 5]);
    store_decimal(&mut memory, 0x400, 0);
    assert_eq!(&memory[0x400..0x403], &[0, 0, 0]);
}
