//! Sprite drawing, the frame-boundary gate, and the delay timer.

use chip8::machine::Chip8;

fn boot(rom: Vec<u8>) -> Chip8 {
    let mut c = Chip8::new();
    c.load(&rom).unwrap();
    c
}

fn run_frames(c: &mut Chip8, steps: usize) {
    let mut k = 0;
    while k < steps {
        c.execute(true).unwrap();
        k += 1;
    }
}

#[test]
fn draw_sets_pixels_without_collision() {
    // I = 0x20A (an all-ones row), V0 = V1 = 0, draw 8x1 at (0, 0).
    let mut c = boot(vec![0xA2, 0x0A, 0x60, 0x00, 0x61, 0x00, 0xD0, 0x11, 0xD0, 0x11, 0xFF]);
    run_frames(&mut c, 4);
    let mut cx = 0;
    while cx < 8 {
        assert!(c.pixel(cx, 0));
        cx += 1;
    }
    assert!(!c.pixel(8, 0));
    assert!(!c.pixel(0, 1));
    assert_eq!(c.register(0xF), 0);
}

#[test]
fn second_draw_clears_and_collides() {
    // The same sprite drawn twice at the same coordinate: all 8 pixels are
    // cleared again, and the second draw reports the collision.
    let mut c = boot(vec![0xA2, 0x0A, 0x60, 0x00, 0x61, 0x00, 0xD0, 0x11, 0xD0, 0x11, 0xFF]);
    run_frames(&mut c, 5);
    let mut cx = 0;
    while cx < 8 {
        assert!(!c.pixel(cx, 0));
        cx += 1;
    }
    assert_eq!(c.register(0xF), 1);
}

#[test]
fn draw_clips_at_right_edge() {
    // An 8-wide row drawn at x = 60 only plots columns 60..=63; the rest is
    // dropped, not wrapped.
    let mut c = boot(vec![0x60, 0x3C, 0x61, 0x00, 0xA2, 0x08, 0xD0, 0x11, 0xFF]);
    run_frames(&mut c, 4);
    let mut cx = 60;
    while cx < 64 {
        assert!(c.pixel(cx, 0));
        cx += 1;
    }
    let mut cx = 0;
    while cx < 8 {
        assert!(!c.pixel(cx, 0));
        cx += 1;
    }
    assert_eq!(c.register(0xF), 0);
}

#[test]
fn draw_clips_at_bottom_edge() {
    // A two-row sprite drawn at y = 31 only plots its first row.
    let mut c = boot(vec![
        0x60, 0x00, 0x61, 0x1F, 0xA2, 0x08, 0xD0, 0x12, 0xFF, 0xFF,
    ]);
    run_frames(&mut c, 4);
    let mut cx = 0;
    while cx < 8 {
        assert!(c.pixel(cx, 31));
        cx += 1;
    }
    assert!(!c.pixel(0, 0));
    assert_eq!(c.register(0xF), 0);
}

#[test]
fn overlapping_draw_accumulates_collision() {
    // Draw at x = 0, then at x = 4: columns 4..=7 collide (and toggle off),
    // 0..=3 stay set, 8..=11 come on; VF reports the collision.
    let mut c = boot(vec![
        0x60, 0x00, 0x61, 0x00, 0xA2, 0x0C, 0xD0, 0x11, 0x60, 0x04, 0xD0, 0x11, 0xFF,
    ]);
    run_frames(&mut c, 6);
    let mut cx = 0;
    while cx < 4 {
        assert!(c.pixel(cx, 0));
        cx += 1;
    }
    while cx < 8 {
        assert!(!c.pixel(cx, 0));
        cx += 1;
    }
    while cx < 12 {
        assert!(c.pixel(cx, 0));
        cx += 1;
    }
    assert_eq!(c.register(0xF), 1);
}

#[test]
fn draw_anchor_wraps_modulo_grid() {
    // V0 = 64 anchors at column 0: the anchor wraps even though the sprite
    // body does not.
    let mut c = boot(vec![0x60, 0x40, 0x61, 0x00, 0xA2, 0x08, 0xD0, 0x11, 0x80]);
    run_frames(&mut c, 4);
    assert!(c.pixel(0, 0));
    assert!(!c.pixel(1, 0));
}

#[test]
fn clear_screen_unsets_everything() {
    let mut c = boot(vec![0xA2, 0x08, 0xD0, 0x11, 0x00, 0xE0, 0x00, 0x00, 0xFF]);
    run_frames(&mut c, 3);
    let grid = c.framebuffer();
    let mut k = 0;
    while k < grid.len() {
        assert!(!grid[k]);
        k += 1;
    }
    assert_eq!(c.pc(), 0x206);
}

#[test]
fn draw_waits_for_frame_boundary() {
    // Outside a frame boundary a draw takes no effect and does not advance,
    // so the instruction is re-issued until a frame arrives.
    let mut c = boot(vec![0xA2, 0x06, 0x60, 0x00, 0xD0, 0x01, 0xFF]);
    run_frames(&mut c, 2);
    c.execute(false).unwrap();
    assert_eq!(c.pc(), 0x204);
    assert!(!c.pixel(0, 0));
    c.execute(true).unwrap();
    assert_eq!(c.pc(), 0x206);
    assert!(c.pixel(0, 0));
}

#[test]
fn clear_waits_for_frame_boundary() {
    let mut c = boot(vec![0x00, 0xE0]);
    c.execute(false).unwrap();
    assert_eq!(c.pc(), 0x200);
    c.execute(true).unwrap();
    assert_eq!(c.pc(), 0x202);
}

#[test]
fn timer_runs_down_once_per_frame() {
    // Set the timer to 5, then loop; after N frame steps the timer reads
    // max(0, 5 - N).
    let mut c = boot(vec![0x60, 0x05, 0xF0, 0x15, 0x12, 0x04]);
    c.execute(false).unwrap();
    c.execute(false).unwrap();
    assert_eq!(c.delay_timer(), 5);
    run_frames(&mut c, 3);
    assert_eq!(c.delay_timer(), 2);
    run_frames(&mut c, 2);
    assert_eq!(c.delay_timer(), 0);
    run_frames(&mut c, 4);
    assert_eq!(c.delay_timer(), 0);
}

#[test]
fn timer_does_not_tick_between_frames() {
    let mut c = boot(vec![0x60, 0x05, 0xF0, 0x15, 0x12, 0x04]);
    let mut k = 0;
    while k < 20 {
        c.execute(false).unwrap();
        k += 1;
    }
    assert_eq!(c.delay_timer(), 5);
}

#[test]
fn timer_reads_back() {
    let mut c = boot(vec![0x60, 0x07, 0xF0, 0x15, 0xF1, 0x07]);
    let mut k = 0;
    while k < 3 {
        c.execute(false).unwrap();
        k += 1;
    }
    assert_eq!(c.register(1), 7);
}
