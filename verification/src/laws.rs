//! General properties of the instruction semantics that relate several
//! instructions or calls: each is stated over the transition functions of
//! [`crate::state`], which are exactly what the executable methods' contracts
//! promise.

use vstd::prelude::*;
use crate::state::{
    MachineView, draw_collision, draw_fb, fb_index, load_registers, spec_add_registry,
    spec_load_from_memory, spec_return, spec_save_to_memory, spec_set_registry, spec_subroutine,
    sprite_row, sprite_toggles, store_registers, tick1, tick_timer,
};

verus! {

/// Writing `nn` to a register and then adding its 256-complement wraps the
/// register around to exactly zero, whatever `nn` is.
pub proof fn lemma_set_then_wrapping_add_cancels(s: MachineView, x: u8, nn: u8)
    requires
        s.wf(),
        x < 16,
    ensures
        spec_add_registry(
            spec_set_registry(s, x, nn),
            x,
            ((256 - nn) % 256) as u8,
        ).registry[x as int] == 0,
{
}

/// A call followed by a return comes back to exactly the instruction after
/// the call: the saved address is the caller's next program counter, and the
/// stack is as it was.
pub proof fn lemma_call_then_return(s: MachineView, nnn: u16)
    requires
        s.wf(),
        s.stack.len() < 8,
        nnn < 4096,
    ensures
        spec_subroutine(s, nnn) is Ok,
        spec_subroutine(s, nnn)->Ok_0.pc == nnn,
        spec_return(spec_subroutine(s, nnn)->Ok_0) is Ok,
        spec_return(spec_subroutine(s, nnn)->Ok_0)->Ok_0.pc == (s.pc + 2) % 4096,
        spec_return(spec_subroutine(s, nnn)->Ok_0)->Ok_0.stack == s.stack,
{
    let s1 = spec_subroutine(s, nnn)->Ok_0;
    assert(s1.stack.last() == ((s.pc + 2) % 4096) as u16);
    assert(s1.stack.drop_last() =~= s.stack);
}

/// The same sprite drawn twice at the same anchor, with memory and the index
/// register unchanged in between, restores the framebuffer exactly: XOR is
/// its own inverse.
pub proof fn lemma_draw_twice_restores(s: MachineView, s1: MachineView, px: int, py: int, n: int)
    requires
        s.wf(),
        s1.wf(),
        s1.memory == s.memory,
        s1.i == s.i,
        s1.fb == draw_fb(s, px, py, n),
    ensures
        draw_fb(s1, px, py, n) == s.fb,
{
    assert forall|cx: int, cy: int|
        sprite_toggles(s1, px, py, n, cx, cy) == sprite_toggles(s, px, py, n, cx, cy) by {
        assert(sprite_row(s1, cy - py) == sprite_row(s, cy - py));
    }
    assert forall|idx: int| 0 <= idx < 2048 implies draw_fb(s1, px, py, n)[idx] == s.fb[idx] by {
        assert(sprite_toggles(s1, px, py, n, idx / 32, idx % 32) == sprite_toggles(
            s, px, py, n, idx / 32, idx % 32));
    }
    assert(draw_fb(s1, px, py, n) =~= s.fb);
}

/// If a first draw toggled some cell without any collision, the same draw
/// again collides: every cell the first draw toggled is now set, and the
/// second draw toggles it once more.
pub proof fn lemma_second_draw_collides(
    s: MachineView,
    s1: MachineView,
    px: int,
    py: int,
    n: int,
    cx: int,
    cy: int,
)
    requires
        s.wf(),
        s1.wf(),
        s1.memory == s.memory,
        s1.i == s.i,
        s1.fb == draw_fb(s, px, py, n),
        !draw_collision(s, px, py, n),
        sprite_toggles(s, px, py, n, cx, cy),
    ensures
        draw_collision(s1, px, py, n),
{
    assert(!s.fb[fb_index(cx, cy)]);
    let idx = fb_index(cx, cy);
    assert(0 <= idx < 2048);
    assert(idx / 32 == cx && idx % 32 == cy) by (nonlinear_arith)
        requires
            0 <= cx < 64,
            0 <= cy < 32,
            idx == cx * 32 + cy,
    ;
    assert(s1.fb[idx]);
    assert(sprite_toggles(s1, px, py, n, cx, cy)) by {
        assert(sprite_row(s1, cy - py) == sprite_row(s, cy - py));
    }
}

/// The stored registers really are in memory: after `store_registers`, the
/// address `i + k` (modulo 4096) holds register `k`, for every `k` below
/// `count`.
proof fn lemma_store_registers_at(mem: Seq<u8>, regs: Seq<u8>, i: int, count: int, k: int)
    requires
        mem.len() == 4096,
        0 <= i < 4096,
        0 <= count <= 16,
        0 <= k < count,
    ensures
        store_registers(mem, regs, i, count).len() == 4096,
        store_registers(mem, regs, i, count)[(i + k) % 4096] == regs[k],
    decreases count,
{
    if k == count - 1 {
        lemma_store_registers_len(mem, regs, i, count - 1);
    } else {
        lemma_store_registers_at(mem, regs, i, count - 1, k);
        assert((i + k) % 4096 != (i + (count - 1)) % 4096) by {
            lemma_distinct_small_offsets(i, k, count - 1);
        }
    }
}

/// `store_registers` keeps the memory size.
proof fn lemma_store_registers_len(mem: Seq<u8>, regs: Seq<u8>, i: int, count: int)
    requires
        mem.len() == 4096,
        0 <= i < 4096,
        0 <= count <= 16,
    ensures
        store_registers(mem, regs, i, count).len() == 4096,
    decreases count,
{
    if count > 0 {
        lemma_store_registers_len(mem, regs, i, count - 1);
    }
}

/// Two addresses within one 16-byte window never alias modulo 4096.
proof fn lemma_distinct_small_offsets(i: int, j: int, k: int)
    requires
        0 <= i < 4096,
        0 <= j < k < 16,
    ensures
        (i + j) % 4096 != (i + k) % 4096,
{
    let a = i + j;
    let b = i + k;
    assert(a % 4096 == if a < 4096 { a } else { a - 4096 }) by (nonlinear_arith)
        requires
            0 <= a < 8192,
    ;
    assert(b % 4096 == if b < 4096 { b } else { b - 4096 }) by (nonlinear_arith)
        requires
            0 <= b < 8192,
    ;
}

/// The loaded registers really come from memory: `load_registers` gives
/// register `k` the byte at `i + k` (modulo 4096) for `k` below `count`, and
/// leaves every other register alone.
proof fn lemma_load_registers_at(regs: Seq<u8>, mem: Seq<u8>, i: int, count: int)
    requires
        regs.len() == 16,
        0 <= count <= 16,
    ensures
        load_registers(regs, mem, i, count).len() == 16,
        forall|k: int|
            0 <= k < count ==> load_registers(regs, mem, i, count)[k] == mem[(i + k) % 4096],
        forall|k: int|
            count <= k < 16 ==> load_registers(regs, mem, i, count)[k] == regs[k],
    decreases count,
{
    if count > 0 {
        lemma_load_registers_at(regs, mem, i, count - 1);
    }
}

/// Storing `V0..=Vx` at the index register and then loading back from the
/// same address restores the registers exactly, and the index register
/// advances by `x + 1` in both directions.
pub proof fn lemma_save_load_round_trip(s: MachineView, x: u8)
    requires
        s.wf(),
        x < 16,
    ensures
        spec_save_to_memory(s, x).i == (s.i + x + 1) % 4096,
        spec_load_from_memory(
            (MachineView { i: s.i, ..spec_save_to_memory(s, x) }),
            x,
        ).i == (s.i + x + 1) % 4096,
        spec_load_from_memory(
            (MachineView { i: s.i, ..spec_save_to_memory(s, x) }),
            x,
        ).registry == s.registry,
{
    let s1 = spec_save_to_memory(s, x);
    let s2 = spec_load_from_memory(MachineView { i: s.i, ..s1 }, x);
    lemma_load_registers_at(s.registry, s1.memory, s.i as int, x + 1);
    assert forall|k: int| 0 <= k < x + 1 implies s1.memory[(s.i + k) % 4096]
        == s.registry[k] by {
        lemma_store_registers_at(s.memory, s.registry, s.i as int, x + 1, k);
    }
    assert(s2.registry =~= s.registry);
}

/// With no timer writes in between, `n` frame-boundary ticks take the delay
/// timer from `t` to `t - n`, stopping at zero: the value after `n` frames is
/// `max(0, t - n)`.
pub proof fn lemma_timer_runs_down(t: u8, n: nat)
    ensures
        timer_after_frames(t, n) == if n >= t {
            0u8
        } else {
            (t - n) as u8
        },
    decreases n,
{
    if n > 0 {
        lemma_timer_runs_down(t, (n - 1) as nat);
    }
}

/// The delay timer after `n` frame-boundary ticks, each one a [`tick1`]; a
/// step at a frame boundary ticks the timer exactly once, since
/// `tick_timer(s, true).timer == tick1(s.timer)`.
pub open spec fn timer_after_frames(t: u8, n: nat) -> u8
    decreases n,
{
    if n == 0 {
        t
    } else {
        tick1(timer_after_frames(t, (n - 1) as nat))
    }
}

/// A frame-boundary step ticks the timer exactly once.
pub proof fn lemma_step_ticks_once(s: MachineView)
    ensures
        tick_timer(s, true).timer == tick1(s.timer),
        tick_timer(s, false).timer == s.timer,
{
}

} // verus!
