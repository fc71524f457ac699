//! The mathematical model of the machine and the transition functions that
//! give each instruction its meaning.
//!
//! Every executable operation on [`crate::machine::Chip8`] is specified
//! against this model: the machine's view is a [`MachineView`], and one
//! execution step is exactly [`spec_step`].

use vstd::prelude::*;
use crate::opcode::{Opcode, spec_decode};

verus! {

/// The error conditions of the interpreter. All are fatal: none of them is
/// retried, and on every one of them the machine state is left unchanged.
#[derive(Clone, Copy, Debug, PartialEq, Eq, Structural)]
pub enum Chip8Error {
    /// The fetched word matched no known instruction pattern. Carries the raw
    /// bytes and the program counter for diagnostics.
    InvalidOpcode { v0: u8, v1: u8, pc: u16 },
    /// A subroutine call was issued while the stack was at capacity.
    StackOverflow,
    /// A return was issued while the stack was empty.
    StackUnderflow,
    /// The program image is larger than the memory left above the load
    /// address.
    LoadError,
}

/// The machine as mathematics: 4096 memory cells, 16 registers, a call stack
/// of at most 8 saved addresses, 16 key flags, the 12-bit index register `i`,
/// the program counter `pc`, the 64x32 framebuffer as a flat sequence (pixel
/// `(cx, cy)` lives at index `cx * 32 + cy`), the delay timer, and the
/// compatibility switch `vf_reset` that decides whether the bitwise
/// instructions clear the flag register.
pub ghost struct MachineView {
    pub memory: Seq<u8>,
    pub registry: Seq<u8>,
    pub stack: Seq<u16>,
    pub key: Seq<bool>,
    pub i: u16,
    pub pc: u16,
    pub fb: Seq<bool>,
    pub timer: u8,
    pub vf_reset: bool,
}

impl MachineView {
    /// Well-formedness: every component has its fixed size, the stack holds
    /// at most 8 addresses, and every address in play is below 4096.
    pub open spec fn wf(self) -> bool {
        &&& self.memory.len() == 4096
        &&& self.registry.len() == 16
        &&& self.stack.len() <= 8
        &&& (forall|k: int| 0 <= k < self.stack.len() ==> self.stack[k] < 4096)
        &&& self.key.len() == 16
        &&& self.fb.len() == 2048
        &&& self.i < 4096
        &&& self.pc < 4096
    }
}

/// The machine at power-on: everything zeroed, the program counter at the
/// load address 0x200.
pub open spec fn initial_view(vf_reset: bool) -> MachineView {
    MachineView {
        memory: Seq::new(4096, |a: int| 0u8),
        registry: Seq::new(16, |k: int| 0u8),
        stack: Seq::empty(),
        key: Seq::new(16, |k: int| false),
        i: 0,
        pc: 512,
        fb: Seq::new(2048, |p: int| false),
        timer: 0,
        vf_reset,
    }
}

/// Memory after a program image is written verbatim starting at 0x200.
pub open spec fn spec_load(mem: Seq<u8>, rom: Seq<u8>) -> Seq<u8> {
    Seq::new(4096, |a: int| if 512 <= a < 512 + rom.len() { rom[a - 512] } else { mem[a] })
}

/// The machine after the external input source reports key `k` as held or
/// released.
pub open spec fn spec_set_key(s: MachineView, k: u8, held: bool) -> MachineView {
    MachineView { key: s.key.update(k as int, held), ..s }
}

/// The machine with the bitwise-instruction flag-reset switch set.
pub open spec fn spec_set_vf_reset(s: MachineView, on: bool) -> MachineView {
    MachineView { vf_reset: on, ..s }
}

/// The program counter moved past one instruction, wrapping modulo 4096.
pub open spec fn advance_pc(s: MachineView) -> MachineView {
    MachineView { pc: ((s.pc + 2) % 4096) as u16, ..s }
}

/// `00E0`: the framebuffer all unset.
pub open spec fn spec_clear(s: MachineView) -> MachineView {
    MachineView { fb: Seq::new(2048, |p: int| false), ..s }
}

/// `6xnn`: `Vx` set to `nn`.
pub open spec fn spec_set_registry(s: MachineView, x: u8, nn: u8) -> MachineView {
    MachineView { registry: s.registry.update(x as int, nn), ..s }
}

/// `7xnn`: `nn` added to `Vx` modulo 256; no flag change.
pub open spec fn spec_add_registry(s: MachineView, x: u8, nn: u8) -> MachineView {
    MachineView {
        registry: s.registry.update(x as int, ((s.registry[x as int] + nn) % 256) as u8),
        ..s
    }
}

/// `Annn`: the index register set to `nnn`.
pub open spec fn spec_set_index(s: MachineView, nnn: u16) -> MachineView {
    MachineView { i: nnn, ..s }
}

/// `Fx1E`: `Vx` added to the index register modulo 4096.
pub open spec fn spec_add_vx_to_i(s: MachineView, x: u8) -> MachineView {
    MachineView { i: ((s.i + s.registry[x as int]) % 4096) as u16, ..s }
}

/// `Fx15`: the delay timer set to `Vx`.
pub open spec fn spec_set_timer(s: MachineView, x: u8) -> MachineView {
    MachineView { timer: s.registry[x as int], ..s }
}

/// `Fx07`: `Vx` set to the delay timer.
pub open spec fn spec_save_timer(s: MachineView, x: u8) -> MachineView {
    MachineView { registry: s.registry.update(x as int, s.timer), ..s }
}

/// `Fx33`: the decimal digits of `Vx` (hundreds, tens, units) stored at the
/// index register and the two following addresses, each taken modulo 4096.
pub open spec fn spec_save_digits(s: MachineView, x: u8) -> MachineView {
    let v = s.registry[x as int];
    MachineView {
        memory: s.memory
            .update((s.i as int) % 4096, (v / 100) as u8)
            .update((s.i + 1) % 4096, ((v / 10) % 10) as u8)
            .update((s.i + 2) % 4096, (v % 10) as u8),
        ..s
    }
}

/// Memory after registers `V0..Vcount` (exclusive) are copied to the
/// addresses `i..i+count`, each taken modulo 4096.
pub open spec fn store_registers(mem: Seq<u8>, regs: Seq<u8>, i: int, count: int) -> Seq<u8>
    decreases count,
{
    if count <= 0 {
        mem
    } else {
        store_registers(mem, regs, i, count - 1).update((i + (count - 1)) % 4096, regs[count - 1])
    }
}

/// Registers after `V0..Vcount` (exclusive) are filled from the addresses
/// `i..i+count`, each taken modulo 4096.
pub open spec fn load_registers(regs: Seq<u8>, mem: Seq<u8>, i: int, count: int) -> Seq<u8>
    decreases count,
{
    if count <= 0 {
        regs
    } else {
        load_registers(regs, mem, i, count - 1).update(count - 1, mem[(i + (count - 1)) % 4096])
    }
}

/// `Fx55`: `V0..=Vx` copied into memory at the index register, which then
/// advances past the copied region, modulo 4096.
pub open spec fn spec_save_to_memory(s: MachineView, x: u8) -> MachineView {
    MachineView {
        memory: store_registers(s.memory, s.registry, s.i as int, x + 1),
        i: ((s.i + x + 1) % 4096) as u16,
        ..s
    }
}

/// `Fx65`: `V0..=Vx` filled from memory at the index register, which then
/// advances past the copied region, modulo 4096.
pub open spec fn spec_load_from_memory(s: MachineView, x: u8) -> MachineView {
    MachineView {
        registry: load_registers(s.registry, s.memory, s.i as int, x + 1),
        i: ((s.i + x + 1) % 4096) as u16,
        ..s
    }
}

/// A conditional skip: one further instruction advance when `cond` holds.
pub open spec fn spec_skip(s: MachineView, cond: bool) -> MachineView {
    if cond {
        advance_pc(s)
    } else {
        s
    }
}

/// `1nnn`: the program counter set to `nnn`, with no auto-advance.
pub open spec fn spec_jump(s: MachineView, nnn: u16) -> MachineView {
    MachineView { pc: nnn, ..s }
}

/// `Bnnn`: the program counter set to `nnn + V0`, taken modulo 4096.
pub open spec fn spec_jump_offset(s: MachineView, nnn: u16) -> MachineView {
    MachineView { pc: ((nnn + s.registry[0]) % 4096) as u16, ..s }
}

/// `2nnn`: the next program counter pushed, then a jump to `nnn`; an error
/// when the stack is at capacity.
pub open spec fn spec_subroutine(s: MachineView, nnn: u16) -> Result<MachineView, Chip8Error> {
    if s.stack.len() >= 8 {
        Err(Chip8Error::StackOverflow)
    } else {
        Ok(MachineView { stack: s.stack.push(((s.pc + 2) % 4096) as u16), pc: nnn, ..s })
    }
}

/// `00EE`: the program counter popped from the stack; an error when the
/// stack is empty.
pub open spec fn spec_return(s: MachineView) -> Result<MachineView, Chip8Error> {
    if s.stack.len() == 0 {
        Err(Chip8Error::StackUnderflow)
    } else {
        Ok(MachineView { pc: s.stack.last(), stack: s.stack.drop_last(), ..s })
    }
}

/// `8xy0`: `Vx` set to `Vy`.
pub open spec fn spec_copy_registry(s: MachineView, x: u8, y: u8) -> MachineView {
    MachineView { registry: s.registry.update(x as int, s.registry[y as int]), ..s }
}

/// The flag register cleared, as the bitwise instructions do when the
/// compatibility switch is on.
pub open spec fn with_vf_cleared(s: MachineView, regs: Seq<u8>) -> Seq<u8> {
    if s.vf_reset {
        regs.update(15, 0u8)
    } else {
        regs
    }
}

/// `8xy1`: `Vx` set to `Vx | Vy`; the flag register cleared under the
/// compatibility switch.
pub open spec fn spec_or(s: MachineView, x: u8, y: u8) -> MachineView {
    MachineView {
        registry: with_vf_cleared(
            s,
            s.registry.update(x as int, s.registry[x as int] | s.registry[y as int]),
        ),
        ..s
    }
}

/// `8xy2`: `Vx` set to `Vx & Vy`; the flag register cleared under the
/// compatibility switch.
pub open spec fn spec_and(s: MachineView, x: u8, y: u8) -> MachineView {
    MachineView {
        registry: with_vf_cleared(
            s,
            s.registry.update(x as int, s.registry[x as int] & s.registry[y as int]),
        ),
        ..s
    }
}

/// `8xy3`: `Vx` set to `Vx ^ Vy`; the flag register cleared under the
/// compatibility switch.
pub open spec fn spec_xor(s: MachineView, x: u8, y: u8) -> MachineView {
    MachineView {
        registry: with_vf_cleared(
            s,
            s.registry.update(x as int, s.registry[x as int] ^ s.registry[y as int]),
        ),
        ..s
    }
}

/// `8xy4`: `Vx` set to `Vx + Vy` modulo 256; `VF` then set to 1 exactly when
/// the sum exceeded 255. The flag write comes second, so with `x == 15` the
/// flag wins.
pub open spec fn spec_add(s: MachineView, x: u8, y: u8) -> MachineView {
    let sum = s.registry[x as int] + s.registry[y as int];
    MachineView {
        registry: s.registry.update(x as int, (sum % 256) as u8).update(
            15,
            if sum > 255 { 1u8 } else { 0u8 },
        ),
        ..s
    }
}

/// The difference `a - b` wrapped modulo 256.
pub open spec fn byte_sub(a: u8, b: u8) -> u8 {
    if a >= b {
        (a - b) as u8
    } else {
        (a - b + 256) as u8
    }
}

/// `8xy5`: `Vx` set to `Vx - Vy` modulo 256; `VF` then set to 1 exactly when
/// there was no borrow (`Vx >= Vy`).
pub open spec fn spec_subtract(s: MachineView, x: u8, y: u8) -> MachineView {
    let a = s.registry[x as int];
    let b = s.registry[y as int];
    MachineView {
        registry: s.registry.update(x as int, byte_sub(a, b)).update(
            15,
            if a >= b { 1u8 } else { 0u8 },
        ),
        ..s
    }
}

/// `8xy7`: `Vx` set to `Vy - Vx` modulo 256; `VF` then set to 1 exactly when
/// there was no borrow (`Vy >= Vx`).
pub open spec fn spec_subtract_rev(s: MachineView, x: u8, y: u8) -> MachineView {
    let a = s.registry[x as int];
    let b = s.registry[y as int];
    MachineView {
        registry: s.registry.update(x as int, byte_sub(b, a)).update(
            15,
            if b >= a { 1u8 } else { 0u8 },
        ),
        ..s
    }
}

/// `8xyE`: `Vx` set to `Vy` doubled modulo 256; `VF` then set to `Vy`'s
/// pre-shift high bit.
pub open spec fn spec_shift_left(s: MachineView, x: u8, y: u8) -> MachineView {
    let r = s.registry[y as int];
    MachineView {
        registry: s.registry.update(x as int, ((2 * r) % 256) as u8).update(15, (r / 128) as u8),
        ..s
    }
}

/// `8xy6`: `Vx` set to `Vy` halved; `VF` then set to `Vy`'s pre-shift low
/// bit.
pub open spec fn spec_shift_right(s: MachineView, x: u8, y: u8) -> MachineView {
    let r = s.registry[y as int];
    MachineView {
        registry: s.registry.update(x as int, (r / 2) as u8).update(15, (r % 2) as u8),
        ..s
    }
}

/// Whether the key numbered `v` is held. A register value with no matching
/// key (16 or above) counts as not held: there is no such key to hold.
pub open spec fn key_held(s: MachineView, v: u8) -> bool {
    v < 16 && s.key[v as int]
}

/// The lowest held key at or above index `k`, if any.
pub open spec fn first_key_held(keys: Seq<bool>, k: int) -> Option<u8>
    decreases 16 - k,
{
    if k < 0 || k >= 16 {
        None
    } else if keys[k] {
        Some(k as u8)
    } else {
        first_key_held(keys, k + 1)
    }
}

/// Scanning for the lowest held key can start anywhere inside a prefix of
/// released keys.
pub proof fn lemma_first_key_from(keys: Seq<bool>, j: int, k: int)
    requires
        0 <= j <= k <= 16,
        forall|m: int| j <= m < k ==> !keys[m],
    ensures
        first_key_held(keys, j) == first_key_held(keys, k),
    decreases k - j,
{
    if j < k {
        lemma_first_key_from(keys, j + 1, k);
    }
}

/// `Fx0A`: when some key is held, `Vx` gets the lowest held key's index and
/// the program counter advances; otherwise nothing changes, so the same
/// instruction is fetched again on the next step.
pub open spec fn spec_wait_key(s: MachineView, x: u8) -> MachineView {
    match first_key_held(s.key, 0) {
        Some(k) => advance_pc(MachineView { registry: s.registry.update(x as int, k), ..s }),
        None => s,
    }
}

/// The flat framebuffer index of pixel column `cx`, row `cy`.
pub open spec fn fb_index(cx: int, cy: int) -> int {
    cx * 32 + cy
}

/// The weight of sprite column `ox`: bit 0 of a row byte is drawn leftmost
/// from the most significant end.
pub open spec fn bit_weight(ox: int) -> int {
    if ox == 0 {
        128
    } else if ox == 1 {
        64
    } else if ox == 2 {
        32
    } else if ox == 3 {
        16
    } else if ox == 4 {
        8
    } else if ox == 5 {
        4
    } else if ox == 6 {
        2
    } else {
        1
    }
}

/// Whether sprite column `ox` (0 is leftmost) of a row byte is set.
pub open spec fn sprite_bit(row: u8, ox: int) -> bool {
    (row as int / bit_weight(ox)) % 2 == 1
}

/// Sprite row `oy`, read from memory at the index register plus `oy`, modulo
/// 4096.
pub open spec fn sprite_row(s: MachineView, oy: int) -> u8 {
    s.memory[(s.i + oy) % 4096]
}

/// Whether a draw of `n` rows anchored at `(px, py)` toggles the framebuffer
/// cell `(cx, cy)`: the cell lies on the grid, inside the sprite's footprint
/// (cells past the right or bottom edge are dropped, not wrapped), and the
/// corresponding sprite bit is set.
pub open spec fn sprite_toggles(
    s: MachineView,
    px: int,
    py: int,
    n: int,
    cx: int,
    cy: int,
) -> bool {
    &&& 0 <= cx < 64 && 0 <= cy < 32
    &&& px <= cx < px + 8
    &&& py <= cy < py + n
    &&& sprite_bit(sprite_row(s, cy - py), cx - px)
}

/// The framebuffer after the draw: every toggled cell is XORed, every other
/// cell keeps its value.
pub open spec fn draw_fb(s: MachineView, px: int, py: int, n: int) -> Seq<bool> {
    Seq::new(
        2048,
        |idx: int|
            if sprite_toggles(s, px, py, n, idx / 32, idx % 32) {
                !s.fb[idx]
            } else {
                s.fb[idx]
            },
    )
}

/// Whether the draw turns any previously set cell off: true exactly when some
/// toggled cell was set before the draw.
pub open spec fn draw_collision(s: MachineView, px: int, py: int, n: int) -> bool {
    exists|cx: int, cy: int|
        #[trigger] sprite_toggles(s, px, py, n, cx, cy) && s.fb[fb_index(cx, cy)]
}

/// `Dxyn`: the sprite blit, anchored at `(Vx mod 64, Vy mod 32)`; `VF` is set
/// to 1 exactly when a collision happened anywhere in the draw.
pub open spec fn spec_draw(s: MachineView, x: u8, y: u8, n: u8) -> MachineView {
    let px = (s.registry[x as int] % 64) as int;
    let py = (s.registry[y as int] % 32) as int;
    MachineView {
        fb: draw_fb(s, px, py, n as int),
        registry: s.registry.update(
            15,
            if draw_collision(s, px, py, n as int) { 1u8 } else { 0u8 },
        ),
        ..s
    }
}

/// One 60 Hz tick of the delay timer value: down by one, never below zero.
pub open spec fn tick1(t: u8) -> u8 {
    if t > 0 {
        (t - 1) as u8
    } else {
        0
    }
}

/// One 60 Hz tick of the delay timer: down by one toward zero, and only at a
/// frame boundary.
pub open spec fn tick_timer(s: MachineView, frame: bool) -> MachineView {
    if frame && s.timer > 0 {
        MachineView { timer: (s.timer - 1) as u8, ..s }
    } else {
        s
    }
}

/// The effect of one decoded instruction. `frame` is the frame-boundary flag:
/// the display-affecting instructions (`00E0`, `Dxyn`) take effect only at a
/// frame boundary and otherwise leave the machine unchanged, program counter
/// included, so they are re-issued on the next step.
pub open spec fn spec_exec_op(s: MachineView, op: Opcode, frame: bool) -> Result<
    MachineView,
    Chip8Error,
> {
    match op {
        Opcode::Clear => if frame {
            Ok(advance_pc(spec_clear(s)))
        } else {
            Ok(s)
        },
        Opcode::Return => spec_return(s),
        Opcode::Jump { nnn } => Ok(spec_jump(s, nnn)),
        Opcode::JumpOffset { nnn } => Ok(spec_jump_offset(s, nnn)),
        Opcode::Subroutine { nnn } => spec_subroutine(s, nnn),
        Opcode::SkipIfEqualXN { x, nn } => Ok(
            advance_pc(spec_skip(s, s.registry[x as int] == nn)),
        ),
        Opcode::SkipIfNotEqualXN { x, nn } => Ok(
            advance_pc(spec_skip(s, s.registry[x as int] != nn)),
        ),
        Opcode::SkipIfEqualXY { x, y } => Ok(
            advance_pc(spec_skip(s, s.registry[x as int] == s.registry[y as int])),
        ),
        Opcode::SkipIfNotEqualXY { x, y } => Ok(
            advance_pc(spec_skip(s, s.registry[x as int] != s.registry[y as int])),
        ),
        Opcode::NormalRegistry { x, nn } => Ok(advance_pc(spec_set_registry(s, x, nn))),
        Opcode::AddRegistry { x, nn } => Ok(advance_pc(spec_add_registry(s, x, nn))),
        Opcode::IndexRegistry { nnn } => Ok(advance_pc(spec_set_index(s, nnn))),
        Opcode::Assign { x, y } => Ok(advance_pc(spec_copy_registry(s, x, y))),
        Opcode::Or { x, y } => Ok(advance_pc(spec_or(s, x, y))),
        Opcode::And { x, y } => Ok(advance_pc(spec_and(s, x, y))),
        Opcode::Xor { x, y } => Ok(advance_pc(spec_xor(s, x, y))),
        Opcode::Add { x, y } => Ok(advance_pc(spec_add(s, x, y))),
        Opcode::Subtract { x, y } => Ok(advance_pc(spec_subtract(s, x, y))),
        Opcode::SubtractRev { x, y } => Ok(advance_pc(spec_subtract_rev(s, x, y))),
        Opcode::ShiftLeft { x, y } => Ok(advance_pc(spec_shift_left(s, x, y))),
        Opcode::ShiftRight { x, y } => Ok(advance_pc(spec_shift_right(s, x, y))),
        Opcode::SaveToMemory { x } => Ok(advance_pc(spec_save_to_memory(s, x))),
        Opcode::LoadFromMemory { x } => Ok(advance_pc(spec_load_from_memory(s, x))),
        Opcode::AddVxToI { x } => Ok(advance_pc(spec_add_vx_to_i(s, x))),
        Opcode::SaveDigits { x } => Ok(advance_pc(spec_save_digits(s, x))),
        Opcode::SetTimer { x } => Ok(advance_pc(spec_set_timer(s, x))),
        Opcode::SaveTimer { x } => Ok(advance_pc(spec_save_timer(s, x))),
        Opcode::SkipIfKeyDown { x } => Ok(
            advance_pc(spec_skip(s, key_held(s, s.registry[x as int]))),
        ),
        Opcode::SkipIfKeyUp { x } => Ok(
            advance_pc(spec_skip(s, !key_held(s, s.registry[x as int]))),
        ),
        Opcode::WaitKeyDown { x } => Ok(spec_wait_key(s, x)),
        Opcode::Draw { x, y, n } => if frame {
            Ok(advance_pc(spec_draw(s, x, y, n)))
        } else {
            Ok(s)
        },
        Opcode::Unknown { raw } => Err(
            Chip8Error::InvalidOpcode { v0: raw.v0, v1: raw.v1, pc: s.pc },
        ),
    }
}

/// The high byte of the instruction word at the program counter.
pub open spec fn fetch_hi(s: MachineView) -> u8 {
    s.memory[s.pc as int]
}

/// The low byte of the instruction word, at the following address modulo
/// 4096.
pub open spec fn fetch_lo(s: MachineView) -> u8 {
    s.memory[((s.pc + 1) % 4096) as int]
}

/// One full step: fetch the word at the program counter, decode it, apply the
/// instruction, and, at a frame boundary, tick the delay timer. On an error
/// nothing at all happens to the machine.
pub open spec fn spec_step(s: MachineView, frame: bool) -> Result<MachineView, Chip8Error> {
    match spec_exec_op(s, spec_decode(fetch_hi(s), fetch_lo(s)), frame) {
        Ok(s1) => Ok(tick_timer(s1, frame)),
        Err(e) => Err(e),
    }
}

} // verus!
