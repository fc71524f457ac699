//! Arithmetic, logic, and register instruction behaviour, driven through
//! small programs executed on a fresh machine.

use chip8::machine::Chip8;

fn boot(rom: Vec<u8>) -> Chip8 {
    let mut c = Chip8::new();
    c.load(&rom).unwrap();
    c
}

fn run(c: &mut Chip8, steps: usize) {
    let mut k = 0;
    while k < steps {
        c.execute(false).unwrap();
        k += 1;
    }
}

#[test]
fn set_then_wrapping_add_cancels() {
    // 6xnn then 7x(256 - nn): the register wraps around to zero.
    let mut c = boot(vec![0x60, 0x30, 0x70, 0xD0]);
    run(&mut c, 2);
    assert_eq!(c.register(0), 0);
}

#[test]
fn set_then_wrapping_add_cancels_zero() {
    let mut c = boot(vec![0x61, 0x00, 0x71, 0x00]);
    run(&mut c, 2);
    assert_eq!(c.register(1), 0);
}

#[test]
fn set_and_add_immediate() {
    let mut c = boot(vec![0x60, 0x05, 0x70, 0x03]);
    run(&mut c, 2);
    assert_eq!(c.register(0), 8);
    assert_eq!(c.pc(), 0x204);
}

#[test]
fn add_immediate_leaves_flag_alone() {
    // 7xnn wraps without touching VF.
    let mut c = boot(vec![0x6F, 0x07, 0x60, 0xFF, 0x70, 0x02]);
    run(&mut c, 3);
    assert_eq!(c.register(0), 1);
    assert_eq!(c.register(0xF), 7);
}

#[test]
fn add_with_carry() {
    let mut c = boot(vec![0x60, 0xFF, 0x61, 0x01, 0x80, 0x14]);
    run(&mut c, 3);
    assert_eq!(c.register(0), 0);
    assert_eq!(c.register(0xF), 1);
}

#[test]
fn add_without_carry() {
    let mut c = boot(vec![0x60, 0x01, 0x61, 0x01, 0x80, 0x14]);
    run(&mut c, 3);
    assert_eq!(c.register(0), 2);
    assert_eq!(c.register(0xF), 0);
}

#[test]
fn subtract_with_borrow() {
    let mut c = boot(vec![0x60, 0x05, 0x61, 0x0A, 0x80, 0x15]);
    run(&mut c, 3);
    assert_eq!(c.register(0), 251);
    assert_eq!(c.register(0xF), 0);
}

#[test]
fn subtract_without_borrow() {
    let mut c = boot(vec![0x60, 0x0A, 0x61, 0x05, 0x80, 0x15]);
    run(&mut c, 3);
    assert_eq!(c.register(0), 5);
    assert_eq!(c.register(0xF), 1);
}

#[test]
fn subtract_reversed_without_borrow() {
    let mut c = boot(vec![0x60, 0x05, 0x61, 0x0A, 0x80, 0x17]);
    run(&mut c, 3);
    assert_eq!(c.register(0), 5);
    assert_eq!(c.register(0xF), 1);
}

#[test]
fn subtract_reversed_with_borrow() {
    let mut c = boot(vec![0x60, 0x0A, 0x61, 0x05, 0x80, 0x17]);
    run(&mut c, 3);
    assert_eq!(c.register(0), 251);
    assert_eq!(c.register(0xF), 0);
}

#[test]
fn shift_right_takes_low_bit() {
    // 8xy6 with Vy = 0b00000011: Vx = 1, VF = 1.
    let mut c = boot(vec![0x61, 0x03, 0x80, 0x16]);
    run(&mut c, 2);
    assert_eq!(c.register(0), 1);
    assert_eq!(c.register(0xF), 1);
}

#[test]
fn shift_left_takes_high_bit() {
    // 8xyE with Vy = 0b10000001: Vx = 2, VF = 1.
    let mut c = boot(vec![0x61, 0x81, 0x80, 0x1E]);
    run(&mut c, 2);
    assert_eq!(c.register(0), 2);
    assert_eq!(c.register(0xF), 1);
}

#[test]
fn shift_right_even_value() {
    let mut c = boot(vec![0x61, 0x08, 0x80, 0x16]);
    run(&mut c, 2);
    assert_eq!(c.register(0), 4);
    assert_eq!(c.register(0xF), 0);
}

#[test]
fn copy_register() {
    let mut c = boot(vec![0x61, 0x2A, 0x80, 0x10]);
    run(&mut c, 2);
    assert_eq!(c.register(0), 0x2A);
}

#[test]
fn or_clears_flag_by_default() {
    let mut c = boot(vec![0x6F, 0x07, 0x60, 0x0C, 0x61, 0x0A, 0x80, 0x11]);
    run(&mut c, 4);
    assert_eq!(c.register(0), 0x0E);
    assert_eq!(c.register(0xF), 0);
}

#[test]
fn or_keeps_flag_with_quirk_off() {
    let mut c = boot(vec![0x6F, 0x07, 0x60, 0x0C, 0x61, 0x0A, 0x80, 0x11]);
    c.set_vf_reset(false);
    run(&mut c, 4);
    assert_eq!(c.register(0), 0x0E);
    assert_eq!(c.register(0xF), 7);
}

#[test]
fn and_clears_flag_by_default() {
    let mut c = boot(vec![0x6F, 0x07, 0x60, 0x0C, 0x61, 0x0A, 0x80, 0x12]);
    run(&mut c, 4);
    assert_eq!(c.register(0), 0x08);
    assert_eq!(c.register(0xF), 0);
}

#[test]
fn xor_clears_flag_by_default() {
    let mut c = boot(vec![0x6F, 0x07, 0x60, 0x0C, 0x61, 0x0A, 0x80, 0x13]);
    run(&mut c, 4);
    assert_eq!(c.register(0), 0x06);
    assert_eq!(c.register(0xF), 0);
}

#[test]
fn skip_if_equal_immediate_taken() {
    let mut c = boot(vec![0x60, 0x05, 0x30, 0x05]);
    run(&mut c, 2);
    assert_eq!(c.pc(), 0x206);
}

#[test]
fn skip_if_equal_immediate_not_taken() {
    let mut c = boot(vec![0x60, 0x05, 0x30, 0x06]);
    run(&mut c, 2);
    assert_eq!(c.pc(), 0x204);
}

#[test]
fn skip_if_not_equal_immediate() {
    let mut c = boot(vec![0x60, 0x05, 0x40, 0x06]);
    run(&mut c, 2);
    assert_eq!(c.pc(), 0x206);
}

#[test]
fn skip_if_registers_equal() {
    let mut c = boot(vec![0x60, 0x09, 0x61, 0x09, 0x50, 0x10]);
    run(&mut c, 3);
    assert_eq!(c.pc(), 0x208);
}

#[test]
fn skip_if_registers_not_equal() {
    let mut c = boot(vec![0x60, 0x09, 0x61, 0x08, 0x90, 0x10]);
    run(&mut c, 3);
    assert_eq!(c.pc(), 0x208);
}

#[test]
fn skip_pattern_with_nonzero_low_nibble_is_invalid() {
    // 5xy0 is only recognized with a zero low nibble.
    let mut c = boot(vec![0x50, 0x11]);
    let e = c.execute(false).unwrap_err();
    assert_eq!(e, chip8::state::Chip8Error::InvalidOpcode { v0: 0x50, v1: 0x11, pc: 0x200 });
}

#[test]
fn jump_sets_pc() {
    let mut c = boot(vec![0x12, 0x08]);
    run(&mut c, 1);
    assert_eq!(c.pc(), 0x208);
}

#[test]
fn jump_with_offset_adds_v0() {
    let mut c = boot(vec![0x60, 0x04, 0xB2, 0x08]);
    run(&mut c, 2);
    assert_eq!(c.pc(), 0x20C);
}

#[test]
fn set_index_register() {
    let mut c = boot(vec![0xA1, 0x23]);
    run(&mut c, 1);
    assert_eq!(c.index_register(), 0x123);
}

#[test]
fn add_register_to_index() {
    let mut c = boot(vec![0x60, 0x02, 0xA1, 0x23, 0xF0, 0x1E]);
    run(&mut c, 3);
    assert_eq!(c.index_register(), 0x125);
}
