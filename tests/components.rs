use chipboi::gfx::Screen;
use chipboi::mem::{Memory, Registers, Stack};

#[test]
fn draw_twice_restores_and_collides() {
    let mut screen = Screen::new();
    assert!(!screen.draw_sprite(10, 5, &[0xFF]));
    for x in 10..18 {
        assert!(screen.get_pixel(x, 5));
    }
    assert!(!screen.get_pixel(9, 5));
    assert!(!screen.get_pixel(18, 5));
    assert!(screen.draw_sprite(10, 5, &[0xFF]));
    for x in 0..64 {
        assert!(!screen.get_pixel(x, 5));
    }
}

#[test]
fn draw_wraps_columns() {
    let mut screen = Screen::new();
    assert!(!screen.draw_sprite(60, 0, &[0xFF]));
    for x in 0..64u8 {
        assert_eq!(screen.get_pixel(x, 0), x >= 60 || x < 4, "column {}", x);
    }
}

#[test]
fn draw_wraps_rows_and_large_origin() {
    let mut screen = Screen::new();
    assert!(!screen.draw_sprite(130, 31, &[0x80, 0x40]));
    assert!(screen.get_pixel(2, 31));
    assert!(screen.get_pixel(3, 0));
    assert!(!screen.get_pixel(2, 0));
}

#[test]
fn zero_bits_leave_pixels() {
    let mut screen = Screen::new();
    screen.set_pixel(1, 1, true);
    assert!(!screen.draw_sprite(0, 1, &[0x80]));
    assert!(screen.get_pixel(1, 1));
    assert!(screen.get_pixel(0, 1));
    assert!(screen.draw_sprite(0, 1, &[0x40]));
    assert!(!screen.get_pixel(1, 1));
}

#[test]
fn clear_screen_turns_all_off() {
    let mut screen = Screen::new();
    screen.set_pixel(63, 31, true);
    screen.set_pixel(0, 0, true);
    assert!(screen.get_pixel(63, 31));
    screen.clear_screen();
    assert!(!screen.get_pixel(63, 31));
    assert!(!screen.get_pixel(0, 0));
}

#[test]
fn memory_holds_glyphs() {
    let mut mem = Memory::new();
    assert_eq!(mem.read(0), 0xF0);
    assert_eq!(mem.read(79), 0x80);
    assert_eq!(mem.read(80), 0);
    mem.write(4095, 9);
    assert_eq!(mem.read(4095), 9);
}

#[test]
fn registers_set_and_get() {
    let mut regs = Registers::new();
    assert_eq!(regs.getv(15), 0);
    regs.setv(15, 42);
    assert_eq!(regs.getv(15), 42);
    assert_eq!(regs.getv(14), 0);
    assert_eq!(regs.i, 0);
}

#[test]
fn stack_is_last_in_first_out() {
    let mut stack = Stack::new();
    assert_eq!(stack.len(), 0);
    stack.push(0x200);
    stack.push(0x300);
    assert_eq!(stack.len(), 2);
    assert_eq!(stack.pop(), 0x300);
    assert_eq!(stack.pop(), 0x200);
    assert_eq!(stack.len(), 0);
}
