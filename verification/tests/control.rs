//! Subroutines, error conditions, memory traffic, the keypad, and the
//! instruction word's diagnostics.

use chip8::machine::Chip8;
use chip8::opcode::{Opcode, RawOpCode};
use chip8::state::Chip8Error;

fn boot(rom: Vec<u8>) -> Chip8 {
    let mut c = Chip8::new();
    c.load(&rom).unwrap();
    c
}

fn run(c: &mut Chip8, steps: usize) {
    let mut k = 0;
    while k < steps {
        c.execute(false).unwrap();
        k += 1;
    }
}

#[test]
fn call_then_return_lands_after_the_call() {
    // 2nnn at 0x200 calls 0x206; 00EE there returns to 0x202.
    let mut c = boot(vec![0x22, 0x06, 0x60, 0x01, 0x00, 0x00, 0x00, 0xEE]);
    run(&mut c, 1);
    assert_eq!(c.pc(), 0x206);
    assert_eq!(c.stack_depth(), 1);
    run(&mut c, 1);
    assert_eq!(c.pc(), 0x202);
    assert_eq!(c.stack_depth(), 0);
}

#[test]
fn return_on_empty_stack_underflows() {
    let mut c = boot(vec![0x00, 0xEE]);
    let e = c.execute(false).unwrap_err();
    assert_eq!(e, Chip8Error::StackUnderflow);
    assert_eq!(c.pc(), 0x200);
    assert_eq!(c.stack_depth(), 0);
}

#[test]
fn ninth_nested_call_overflows() {
    // Nine calls in a row, each to the next address: the first eight fill
    // the stack, the ninth overflows and changes nothing.
    let rom = vec![
        0x22, 0x02, 0x22, 0x04, 0x22, 0x06, 0x22, 0x08, 0x22, 0x0A, 0x22, 0x0C, 0x22, 0x0E,
        0x22, 0x10, 0x22, 0x12,
    ];
    let mut c = boot(rom);
    run(&mut c, 8);
    assert_eq!(c.stack_depth(), 8);
    assert_eq!(c.pc(), 0x210);
    let e = c.execute(false).unwrap_err();
    assert_eq!(e, Chip8Error::StackOverflow);
    assert_eq!(c.stack_depth(), 8);
    assert_eq!(c.pc(), 0x210);
}

#[test]
fn unknown_word_is_reported_with_pc() {
    let mut c = boot(vec![0xFF, 0xFF]);
    let e = c.execute(false).unwrap_err();
    assert_eq!(e, Chip8Error::InvalidOpcode { v0: 0xFF, v1: 0xFF, pc: 0x200 });
}

#[test]
fn all_zero_word_is_not_an_instruction() {
    let mut c = boot(vec![0x00, 0x00]);
    let e = c.execute(false).unwrap_err();
    assert_eq!(e, Chip8Error::InvalidOpcode { v0: 0x00, v1: 0x00, pc: 0x200 });
}

#[test]
fn load_rejects_an_oversized_image() {
    let mut c = Chip8::new();
    let rom = vec![0u8; 3585];
    assert_eq!(c.load(&rom), Err(Chip8Error::LoadError));
}

#[test]
fn load_accepts_a_full_image() {
    let mut c = Chip8::new();
    let rom = vec![0u8; 3584];
    assert_eq!(c.load(&rom), Ok(()));
}

#[test]
fn load_writes_the_image_at_0x200() {
    // Read the program's own first two bytes back through Fx65.
    let mut c = boot(vec![0xA2, 0x00, 0xF1, 0x65]);
    run(&mut c, 2);
    assert_eq!(c.register(0), 0xA2);
    assert_eq!(c.register(1), 0x00);
    assert_eq!(c.index_register(), 0x202);
}

#[test]
fn save_then_load_round_trips() {
    // Store V0..=V1 at 0x300, clear the registers, load them back: the
    // values return and I advances by 2 both times.
    let mut c = boot(vec![
        0x60, 0xAA, 0x61, 0xBB, 0xA3, 0x00, 0xF1, 0x55, 0x60, 0x00, 0x61, 0x00, 0xA3, 0x00,
        0xF1, 0x65,
    ]);
    run(&mut c, 4);
    assert_eq!(c.index_register(), 0x302);
    run(&mut c, 3);
    assert_eq!(c.register(0), 0);
    assert_eq!(c.register(1), 0);
    run(&mut c, 1);
    assert_eq!(c.register(0), 0xAA);
    assert_eq!(c.register(1), 0xBB);
    assert_eq!(c.index_register(), 0x302);
}

#[test]
fn decimal_digits_are_stored() {
    // V0 = 234, Fx33, then read the three digits back.
    let mut c = boot(vec![0x60, 0xEA, 0xA3, 0x00, 0xF0, 0x33, 0xA3, 0x00, 0xF2, 0x65]);
    run(&mut c, 5);
    assert_eq!(c.register(0), 2);
    assert_eq!(c.register(1), 3);
    assert_eq!(c.register(2), 4);
}

#[test]
fn skip_when_key_held() {
    let mut c = boot(vec![0x60, 0x04, 0xE0, 0x9E]);
    c.set_key(4, true);
    run(&mut c, 2);
    assert_eq!(c.pc(), 0x206);
}

#[test]
fn no_skip_when_key_released() {
    let mut c = boot(vec![0x60, 0x04, 0xE0, 0x9E]);
    run(&mut c, 2);
    assert_eq!(c.pc(), 0x204);
}

#[test]
fn skip_when_key_not_held() {
    let mut c = boot(vec![0x60, 0x04, 0xE0, 0xA1]);
    run(&mut c, 2);
    assert_eq!(c.pc(), 0x206);
}

#[test]
fn out_of_range_key_counts_as_released() {
    // V0 = 20 names no key, so Ex9E never skips and ExA1 always does.
    let mut c = boot(vec![0x60, 0x14, 0xE0, 0x9E, 0xE0, 0xA1]);
    run(&mut c, 3);
    assert_eq!(c.pc(), 0x208);
}

#[test]
fn wait_for_key_blocks_until_one_is_held() {
    let mut c = boot(vec![0xF0, 0x0A]);
    c.execute(false).unwrap();
    assert_eq!(c.pc(), 0x200);
    c.execute(false).unwrap();
    assert_eq!(c.pc(), 0x200);
    c.set_key(7, true);
    c.execute(false).unwrap();
    assert_eq!(c.pc(), 0x202);
    assert_eq!(c.register(0), 7);
}

#[test]
fn wait_for_key_takes_the_lowest_held() {
    let mut c = boot(vec![0xF0, 0x0A]);
    c.set_key(9, true);
    c.set_key(3, true);
    c.execute(false).unwrap();
    assert_eq!(c.register(0), 3);
}

#[test]
fn released_key_stops_satisfying_the_wait() {
    let mut c = boot(vec![0xF0, 0x0A]);
    c.set_key(5, true);
    c.set_key(5, false);
    c.execute(false).unwrap();
    assert_eq!(c.pc(), 0x200);
}

#[test]
fn raw_word_prints_as_four_hex_digits() {
    let r = RawOpCode { v0: 0xAB, v1: 0x0F };
    assert_eq!(r.as_string(), "AB0F");
    let z = RawOpCode { v0: 0x00, v1: 0x00 };
    assert_eq!(z.as_string(), "0000");
    let m = RawOpCode { v0: 0xD2, v1: 0x9E };
    assert_eq!(m.as_string(), "D29E");
}

#[test]
fn decode_picks_the_family_and_operands() {
    assert_eq!(
        RawOpCode { v0: 0x8A, v1: 0xB4 }.decode(),
        Opcode::Add { x: 0xA, y: 0xB }
    );
    assert_eq!(RawOpCode { v0: 0x00, v1: 0xE0 }.decode(), Opcode::Clear);
    assert_eq!(RawOpCode { v0: 0x00, v1: 0xEE }.decode(), Opcode::Return);
    assert_eq!(
        RawOpCode { v0: 0x1F, v1: 0xFF }.decode(),
        Opcode::Jump { nnn: 0xFFF }
    );
    assert_eq!(
        RawOpCode { v0: 0xD1, v1: 0x2F }.decode(),
        Opcode::Draw { x: 1, y: 2, n: 0xF }
    );
    assert_eq!(
        RawOpCode { v0: 0x85, v1: 0x68 }.decode(),
        Opcode::Unknown { raw: RawOpCode { v0: 0x85, v1: 0x68 } }
    );
}
