//! The executable machine. Every method's effect is stated against the
//! mathematical model in [`crate::state`]: the machine's view is a
//! [`MachineView`], and one call of [`Chip8::execute`] is exactly one
//! [`spec_step`].

use vstd::prelude::*;
use crate::opcode::{Opcode, RawOpCode};
use crate::state::{
    Chip8Error, MachineView, advance_pc, bit_weight, draw_collision, draw_fb, fb_index, fetch_hi,
    fetch_lo, initial_view, key_held, lemma_first_key_from, load_registers, spec_add,
    spec_add_registry, spec_add_vx_to_i, spec_and, spec_clear, spec_copy_registry, spec_draw,
    spec_jump, spec_jump_offset, spec_load, spec_load_from_memory, spec_or, spec_return,
    spec_save_digits, spec_save_to_memory, spec_save_timer, spec_set_index, spec_set_key,
    spec_set_registry, spec_set_timer, spec_set_vf_reset, spec_shift_left, spec_shift_right,
    spec_skip, spec_step, spec_subroutine, spec_subtract, spec_subtract_rev, spec_wait_key,
    spec_xor, sprite_bit, sprite_row, sprite_toggles, store_registers,
};

verus! {

/// The CHIP-8 machine: memory, registers, call stack, keypad, index
/// register, program counter, framebuffer, and delay timer.
pub struct Chip8 {
    memory: Vec<u8>,
    registry: Vec<u8>,
    stack: Vec<u16>,
    key: Vec<bool>,
    i: u16,
    program_counter: u16,
    fb: Vec<bool>,
    timer: u8,
    vf_reset: bool,
}

impl View for Chip8 {
    type V = MachineView;

    closed spec fn view(&self) -> MachineView {
        MachineView {
            memory: self.memory@,
            registry: self.registry@,
            stack: self.stack@,
            key: self.key@,
            i: self.i,
            pc: self.program_counter,
            fb: self.fb@,
            timer: self.timer,
            vf_reset: self.vf_reset,
        }
    }
}

/// A vector of `n` zero bytes.
fn zeroed_bytes(n: usize) -> (v: Vec<u8>)
    ensures
        v@ == Seq::new(n as nat, |a: int| 0u8),
{
    let mut v: Vec<u8> = Vec::new();
    let mut k: usize = 0;
    while k < n
        invariant
            k <= n,
            v@.len() == k,
            forall|j: int| 0 <= j < k ==> v@[j] == 0u8,
        decreases n - k,
    {
        v.push(0u8);
        k += 1;
    }
    proof {
        assert(v@ =~= Seq::new(n as nat, |a: int| 0u8));
    }
    v
}

/// A vector of `n` cleared flags.
fn cleared_flags(n: usize) -> (v: Vec<bool>)
    ensures
        v@ == Seq::new(n as nat, |a: int| false),
{
    let mut v: Vec<bool> = Vec::new();
    let mut k: usize = 0;
    while k < n
        invariant
            k <= n,
            v@.len() == k,
            forall|j: int| 0 <= j < k ==> v@[j] == false,
        decreases n - k,
    {
        v.push(false);
        k += 1;
    }
    proof {
        assert(v@ =~= Seq::new(n as nat, |a: int| false));
    }
    v
}

/// Mid-draw progress: whether the cell `(cx, cy)` has been toggled after the
/// blit has finished `rows` full sprite rows and, within the next row, the
/// leftmost `cols` columns. With `rows == n` and `cols == 0` this is exactly
/// [`sprite_toggles`] for an `n`-row draw.
spec fn sprite_toggles_upto(
    s: MachineView,
    px: int,
    py: int,
    rows: int,
    cols: int,
    cx: int,
    cy: int,
) -> bool {
    &&& 0 <= cx < 64 && 0 <= cy < 32
    &&& px <= cx < px + 8
    &&& py <= cy
    &&& (cy - py < rows || (cy - py == rows && cx - px < cols))
    &&& sprite_bit(sprite_row(s, cy - py), cx - px)
}

/// The weight of sprite column `ox`, as a run-time value.
fn mask_of(ox: u8) -> (m: u8)
    requires
        ox < 8,
    ensures
        m as int == bit_weight(ox as int),
        m > 0,
{
    match ox {
        0 => 128,
        1 => 64,
        2 => 32,
        3 => 16,
        4 => 8,
        5 => 4,
        6 => 2,
        _ => 1,
    }
}

impl Chip8 {
    /// A machine at power-on: everything zeroed, the program counter at the
    /// load address 0x200, the bitwise flag-reset compatibility switch on.
    pub fn new() -> (c: Chip8)
        ensures
            c@ == initial_view(true),
            c@.wf(),
    {
        let c = Chip8 {
            memory: zeroed_bytes(4096),
            registry: zeroed_bytes(16),
            stack: Vec::new(),
            key: cleared_flags(16),
            i: 0,
            program_counter: 512,
            fb: cleared_flags(2048),
            timer: 0,
            vf_reset: true,
        };
        proof {
            assert(c@.stack =~= initial_view(true).stack);
        }
        c
    }

    /// Choose whether the bitwise instructions (`8xy1`/`8xy2`/`8xy3`) clear
    /// the flag register, a compatibility quirk that differs between
    /// historical interpreters. The machine starts with the switch on.
    pub fn set_vf_reset(&mut self, on: bool)
        ensures
            final(self)@ == spec_set_vf_reset(old(self)@, on),
    {
        self.vf_reset = on;
    }

    /// Write a program image verbatim into memory starting at address 0x200.
    /// Fails with [`Chip8Error::LoadError`], changing nothing, exactly when
    /// the image is larger than the 3584 bytes of memory above that address.
    pub fn load(&mut self, rom: &[u8]) -> (r: Result<(), Chip8Error>)
        requires
            old(self)@.wf(),
        ensures
            final(self)@.wf(),
            rom@.len() <= 3584 ==> r is Ok && final(self)@ == (MachineView {
                memory: spec_load(old(self)@.memory, rom@),
                ..old(self)@
            }),
            rom@.len() > 3584 ==> r == Err::<(), Chip8Error>(Chip8Error::LoadError) && *final(self)
                == *old(self),
    {
        if rom.len() > 3584 {
            return Err(Chip8Error::LoadError);
        }
        let mut k: usize = 0;
        while k < rom.len()
            invariant
                old(self)@.wf(),
                k <= rom@.len() <= 3584,
                self@.memory.len() == 4096,
                self@.registry == old(self)@.registry,
                self@.stack == old(self)@.stack,
                self@.key == old(self)@.key,
                self@.i == old(self)@.i,
                self@.pc == old(self)@.pc,
                self@.fb == old(self)@.fb,
                self@.timer == old(self)@.timer,
                self@.vf_reset == old(self)@.vf_reset,
                forall|a: int|
                    0 <= a < 4096 && !(512 <= a < 512 + k) ==> self@.memory[a] == old(
                        self,
                    )@.memory[a],
                forall|a: int| 512 <= a < 512 + k ==> self@.memory[a] == rom@[a - 512],
            decreases rom@.len() - k,
        {
            self.memory[512 + k] = rom[k];
            k += 1;
        }
        proof {
            assert(self@.memory =~= spec_load(old(self)@.memory, rom@));
        }
        Ok(())
    }

    /// Record a key-down or key-up event from the external input source.
    pub fn set_key(&mut self, k: u8, held: bool)
        requires
            old(self)@.wf(),
            k < 16,
        ensures
            final(self)@ == spec_set_key(old(self)@, k, held),
            final(self)@.wf(),
    {
        self.key[k as usize] = held;
    }

    /// The framebuffer as a flat grid of 64x32 pixel flags; pixel `(cx, cy)`
    /// lives at index `cx * 32 + cy`. Read-only: the renderer consumes it.
    pub fn framebuffer(&self) -> (r: &Vec<bool>)
        ensures
            r@ == self@.fb,
    {
        &self.fb
    }

    /// One pixel of the framebuffer.
    pub fn pixel(&self, cx: usize, cy: usize) -> (r: bool)
        requires
            self@.wf(),
            cx < 64,
            cy < 32,
        ensures
            r == self@.fb[fb_index(cx as int, cy as int)],
    {
        self.fb[cx * 32 + cy]
    }

    /// One general-purpose register.
    pub fn register(&self, x: u8) -> (r: u8)
        requires
            self@.wf(),
            x < 16,
        ensures
            r == self@.registry[x as int],
    {
        self.registry[x as usize]
    }

    /// The program counter.
    pub fn pc(&self) -> (r: u16)
        ensures
            r == self@.pc,
    {
        self.program_counter
    }

    /// The index register.
    pub fn index_register(&self) -> (r: u16)
        ensures
            r == self@.i,
    {
        self.i
    }

    /// The delay timer.
    pub fn delay_timer(&self) -> (r: u8)
        ensures
            r == self@.timer,
    {
        self.timer
    }

    /// How many return addresses the call stack holds.
    pub fn stack_depth(&self) -> (r: usize)
        ensures
            r == self@.stack.len(),
    {
        self.stack.len()
    }

    /// Fetch the big-endian instruction word at the program counter.
    fn fetch(&self) -> (r: RawOpCode)
        requires
            self@.wf(),
        ensures
            r.v0 == fetch_hi(self@),
            r.v1 == fetch_lo(self@),
    {
        RawOpCode {
            v0: self.memory[self.program_counter as usize],
            v1: self.memory[((self.program_counter + 1) % 4096) as usize],
        }
    }

    /// Advance the program counter past one instruction.
    fn step_counter(&mut self)
        requires
            old(self)@.wf(),
        ensures
            final(self)@ == advance_pc(old(self)@),
            final(self)@.wf(),
    {
        self.program_counter = (self.program_counter + 2) % 4096;
    }

    /// `00E0`.
    fn clear(&mut self)
        requires
            old(self)@.wf(),
        ensures
            final(self)@ == spec_clear(old(self)@),
            final(self)@.wf(),
    {
        self.fb = cleared_flags(2048);
    }

    /// `6xnn`.
    fn set_normal_registry(&mut self, x: u8, nn: u8)
        requires
            old(self)@.wf(),
            x < 16,
        ensures
            final(self)@ == spec_set_registry(old(self)@, x, nn),
            final(self)@.wf(),
    {
        self.registry[x as usize] = nn;
    }

    /// `7xnn`.
    fn add_registry(&mut self, x: u8, nn: u8)
        requires
            old(self)@.wf(),
            x < 16,
        ensures
            final(self)@ == spec_add_registry(old(self)@, x, nn),
            final(self)@.wf(),
    {
        let sum: u16 = self.registry[x as usize] as u16 + nn as u16;
        self.registry[x as usize] = (sum % 256) as u8;
    }

    /// `Annn`.
    fn set_index_registry(&mut self, nnn: u16)
        requires
            old(self)@.wf(),
            nnn < 4096,
        ensures
            final(self)@ == spec_set_index(old(self)@, nnn),
            final(self)@.wf(),
    {
        self.i = nnn;
    }

    /// `Fx1E`.
    fn add_vx_to_i(&mut self, x: u8)
        requires
            old(self)@.wf(),
            x < 16,
        ensures
            final(self)@ == spec_add_vx_to_i(old(self)@, x),
            final(self)@.wf(),
    {
        self.i = (self.i + self.registry[x as usize] as u16) % 4096;
    }

    /// `Fx15`.
    fn set_timer(&mut self, x: u8)
        requires
            old(self)@.wf(),
            x < 16,
        ensures
            final(self)@ == spec_set_timer(old(self)@, x),
            final(self)@.wf(),
    {
        self.timer = self.registry[x as usize];
    }

    /// `Fx07`.
    fn save_timer(&mut self, x: u8)
        requires
            old(self)@.wf(),
            x < 16,
        ensures
            final(self)@ == spec_save_timer(old(self)@, x),
            final(self)@.wf(),
    {
        self.registry[x as usize] = self.timer;
    }

    /// `Fx33`.
    fn save_digits(&mut self, x: u8)
        requires
            old(self)@.wf(),
            x < 16,
        ensures
            final(self)@ == spec_save_digits(old(self)@, x),
            final(self)@.wf(),
    {
        let v = self.registry[x as usize];
        let base = self.i as usize;
        self.memory[base % 4096] = v / 100;
        self.memory[(base + 1) % 4096] = (v / 10) % 10;
        self.memory[(base + 2) % 4096] = v % 10;
    }

    /// `1nnn`.
    fn jump(&mut self, nnn: u16)
        requires
            old(self)@.wf(),
            nnn < 4096,
        ensures
            final(self)@ == spec_jump(old(self)@, nnn),
            final(self)@.wf(),
    {
        self.program_counter = nnn;
    }

    /// `Bnnn`.
    fn jump_offset(&mut self, nnn: u16)
        requires
            old(self)@.wf(),
            nnn < 4096,
        ensures
            final(self)@ == spec_jump_offset(old(self)@, nnn),
            final(self)@.wf(),
    {
        self.program_counter = (nnn + self.registry[0] as u16) % 4096;
    }

    /// `2nnn`.
    fn subroutine(&mut self, nnn: u16) -> (r: Result<(), Chip8Error>)
        requires
            old(self)@.wf(),
            nnn < 4096,
        ensures
            final(self)@.wf(),
            old(self)@.stack.len() < 8 ==> r is Ok && spec_subroutine(old(self)@, nnn)
                == Ok::<MachineView, Chip8Error>(final(self)@),
            old(self)@.stack.len() >= 8 ==> r == Err::<(), Chip8Error>(Chip8Error::StackOverflow)
                && final(self)@ == old(self)@,
    {
        if self.stack.len() >= 8 {
            return Err(Chip8Error::StackOverflow);
        }
        let next = (self.program_counter + 2) % 4096;
        self.stack.push(next);
        self.program_counter = nnn;
        Ok(())
    }

    /// `00EE`.
    fn return_subroutine(&mut self) -> (r: Result<(), Chip8Error>)
        requires
            old(self)@.wf(),
        ensures
            final(self)@.wf(),
            old(self)@.stack.len() > 0 ==> r is Ok && spec_return(old(self)@)
                == Ok::<MachineView, Chip8Error>(final(self)@),
            old(self)@.stack.len() == 0 ==> r == Err::<(), Chip8Error>(Chip8Error::StackUnderflow)
                && final(self)@ == old(self)@,
    {
        match self.stack.pop() {
            Some(addr) => {
                self.program_counter = addr;
                proof {
                    assert(self@.stack =~= old(self)@.stack.drop_last());
                }
                Ok(())
            },
            None => Err(Chip8Error::StackUnderflow),
        }
    }

    /// `8xy0`.
    fn copy_registry(&mut self, x: u8, y: u8)
        requires
            old(self)@.wf(),
            x < 16,
            y < 16,
        ensures
            final(self)@ == spec_copy_registry(old(self)@, x, y),
            final(self)@.wf(),
    {
        self.registry[x as usize] = self.registry[y as usize];
    }

    /// `8xy1`.
    fn or(&mut self, x: u8, y: u8)
        requires
            old(self)@.wf(),
            x < 16,
            y < 16,
        ensures
            final(self)@ == spec_or(old(self)@, x, y),
            final(self)@.wf(),
    {
        let v = self.registry[x as usize] | self.registry[y as usize];
        self.registry[x as usize] = v;
        if self.vf_reset {
            self.registry[15] = 0;
        }
    }

    /// `8xy2`.
    fn and(&mut self, x: u8, y: u8)
        requires
            old(self)@.wf(),
            x < 16,
            y < 16,
        ensures
            final(self)@ == spec_and(old(self)@, x, y),
            final(self)@.wf(),
    {
        let v = self.registry[x as usize] & self.registry[y as usize];
        self.registry[x as usize] = v;
        if self.vf_reset {
            self.registry[15] = 0;
        }
    }

    /// `8xy3`.
    fn xor(&mut self, x: u8, y: u8)
        requires
            old(self)@.wf(),
            x < 16,
            y < 16,
        ensures
            final(self)@ == spec_xor(old(self)@, x, y),
            final(self)@.wf(),
    {
        let v = self.registry[x as usize] ^ self.registry[y as usize];
        self.registry[x as usize] = v;
        if self.vf_reset {
            self.registry[15] = 0;
        }
    }

    /// `8xy4`.
    fn add_registers(&mut self, x: u8, y: u8)
        requires
            old(self)@.wf(),
            x < 16,
            y < 16,
        ensures
            final(self)@ == spec_add(old(self)@, x, y),
            final(self)@.wf(),
    {
        let sum: u16 = self.registry[x as usize] as u16 + self.registry[y as usize] as u16;
        self.registry[x as usize] = (sum % 256) as u8;
        self.registry[15] = if sum > 255 {
            1
        } else {
            0
        };
    }

    /// `8xy5`.
    fn subtract(&mut self, x: u8, y: u8)
        requires
            old(self)@.wf(),
            x < 16,
            y < 16,
        ensures
            final(self)@ == spec_subtract(old(self)@, x, y),
            final(self)@.wf(),
    {
        let a = self.registry[x as usize];
        let b = self.registry[y as usize];
        self.registry[x as usize] = if a >= b {
            a - b
        } else {
            (a as u16 + 256 - b as u16) as u8
        };
        self.registry[15] = if a >= b {
            1
        } else {
            0
        };
    }

    /// `8xy7`.
    fn subtract_rev(&mut self, x: u8, y: u8)
        requires
            old(self)@.wf(),
            x < 16,
            y < 16,
        ensures
            final(self)@ == spec_subtract_rev(old(self)@, x, y),
            final(self)@.wf(),
    {
        let a = self.registry[x as usize];
        let b = self.registry[y as usize];
        self.registry[x as usize] = if b >= a {
            b - a
        } else {
            (b as u16 + 256 - a as u16) as u8
        };
        self.registry[15] = if b >= a {
            1
        } else {
            0
        };
    }

    /// `8xyE`.
    fn shift_left(&mut self, x: u8, y: u8)
        requires
            old(self)@.wf(),
            x < 16,
            y < 16,
        ensures
            final(self)@ == spec_shift_left(old(self)@, x, y),
            final(self)@.wf(),
    {
        let r = self.registry[y as usize];
        self.registry[x as usize] = ((2 * r as u16) % 256) as u8;
        self.registry[15] = r / 128;
    }

    /// `8xy6`.
    fn shift_right(&mut self, x: u8, y: u8)
        requires
            old(self)@.wf(),
            x < 16,
            y < 16,
        ensures
            final(self)@ == spec_shift_right(old(self)@, x, y),
            final(self)@.wf(),
    {
        let r = self.registry[y as usize];
        self.registry[x as usize] = r / 2;
        self.registry[15] = r % 2;
    }

    /// `3xnn`.
    fn skip_if_equal_xn(&mut self, x: u8, nn: u8)
        requires
            old(self)@.wf(),
            x < 16,
        ensures
            final(self)@ == spec_skip(old(self)@, old(self)@.registry[x as int] == nn),
            final(self)@.wf(),
    {
        if self.registry[x as usize] == nn {
            self.step_counter();
        }
    }

    /// `4xnn`.
    fn skip_if_not_equal_xn(&mut self, x: u8, nn: u8)
        requires
            old(self)@.wf(),
            x < 16,
        ensures
            final(self)@ == spec_skip(old(self)@, old(self)@.registry[x as int] != nn),
            final(self)@.wf(),
    {
        if self.registry[x as usize] != nn {
            self.step_counter();
        }
    }

    /// `5xy0`.
    fn skip_if_equal_xy(&mut self, x: u8, y: u8)
        requires
            old(self)@.wf(),
            x < 16,
            y < 16,
        ensures
            final(self)@ == spec_skip(
                old(self)@,
                old(self)@.registry[x as int] == old(self)@.registry[y as int],
            ),
            final(self)@.wf(),
    {
        if self.registry[x as usize] == self.registry[y as usize] {
            self.step_counter();
        }
    }

    /// `9xy0`.
    fn skip_if_not_equal_xy(&mut self, x: u8, y: u8)
        requires
            old(self)@.wf(),
            x < 16,
            y < 16,
        ensures
            final(self)@ == spec_skip(
                old(self)@,
                old(self)@.registry[x as int] != old(self)@.registry[y as int],
            ),
            final(self)@.wf(),
    {
        if self.registry[x as usize] != self.registry[y as usize] {
            self.step_counter();
        }
    }

    /// `Fx55`.
    fn save_to_memory(&mut self, x: u8)
        requires
            old(self)@.wf(),
            x < 16,
        ensures
            final(self)@ == spec_save_to_memory(old(self)@, x),
            final(self)@.wf(),
    {
        let d: u16 = x as u16 + 1;
        let mut k: u16 = 0;
        while k < d
            invariant
                old(self)@.wf(),
                k <= d == x + 1,
                x < 16,
                self@.memory.len() == 4096,
                self@.memory == store_registers(
                    old(self)@.memory,
                    old(self)@.registry,
                    old(self)@.i as int,
                    k as int,
                ),
                self@.registry == old(self)@.registry,
                self@.stack == old(self)@.stack,
                self@.key == old(self)@.key,
                self@.i == old(self)@.i,
                self@.pc == old(self)@.pc,
                self@.fb == old(self)@.fb,
                self@.timer == old(self)@.timer,
                self@.vf_reset == old(self)@.vf_reset,
            decreases d - k,
        {
            let addr: usize = (self.i as usize + k as usize) % 4096;
            self.memory[addr] = self.registry[k as usize];
            k += 1;
        }
        self.i = (self.i + d) % 4096;
    }

    /// `Fx65`.
    fn load_from_memory(&mut self, x: u8)
        requires
            old(self)@.wf(),
            x < 16,
        ensures
            final(self)@ == spec_load_from_memory(old(self)@, x),
            final(self)@.wf(),
    {
        let d: u16 = x as u16 + 1;
        let mut k: u16 = 0;
        while k < d
            invariant
                old(self)@.wf(),
                k <= d == x + 1,
                x < 16,
                self@.registry.len() == 16,
                self@.registry == load_registers(
                    old(self)@.registry,
                    old(self)@.memory,
                    old(self)@.i as int,
                    k as int,
                ),
                self@.memory == old(self)@.memory,
                self@.stack == old(self)@.stack,
                self@.key == old(self)@.key,
                self@.i == old(self)@.i,
                self@.pc == old(self)@.pc,
                self@.fb == old(self)@.fb,
                self@.timer == old(self)@.timer,
                self@.vf_reset == old(self)@.vf_reset,
            decreases d - k,
        {
            let addr: usize = (self.i as usize + k as usize) % 4096;
            self.registry[k as usize] = self.memory[addr];
            k += 1;
        }
        self.i = (self.i + d) % 4096;
    }

    /// `Fx0A`.
    fn wait_keydown(&mut self, x: u8)
        requires
            old(self)@.wf(),
            x < 16,
        ensures
            final(self)@ == spec_wait_key(old(self)@, x),
            final(self)@.wf(),
    {
        let mut k: usize = 0;
        while k < 16
            invariant
                old(self)@.wf(),
                x < 16,
                k <= 16,
                self@ == old(self)@,
                forall|j: int| 0 <= j < k ==> !self@.key[j],
            decreases 16 - k,
        {
            if self.key[k] {
                proof {
                    lemma_first_key_from(self@.key, 0, k as int);
                }
                self.registry[x as usize] = k as u8;
                self.step_counter();
                return ;
            }
            k += 1;
        }
        proof {
            lemma_first_key_from(self@.key, 0, 16);
        }
    }

    /// `Dxyn`: the XOR sprite blit. Collisions are accumulated across every
    /// toggled cell of the draw, so an early collision is never lost to a
    /// later clean toggle.
    #[verifier::rlimit(60)]
    fn draw(&mut self, x: u8, y: u8, n: u8)
        requires
            old(self)@.wf(),
            x < 16,
            y < 16,
            n < 16,
        ensures
            final(self)@ == spec_draw(old(self)@, x, y, n),
            final(self)@.wf(),
    {
        let ghost s0 = old(self)@;
        let px: u8 = self.registry[x as usize] % 64;
        let py: u8 = self.registry[y as usize] % 32;
        let mut vf: u8 = 0;
        let mut oy: u8 = 0;
        while oy < n
            invariant
                s0 == old(self)@,
                s0.wf(),
                x < 16,
                y < 16,
                n < 16,
                oy <= n,
                px == s0.registry[x as int] % 64,
                py == s0.registry[y as int] % 32,
                self@.memory == s0.memory,
                self@.registry == s0.registry,
                self@.stack == s0.stack,
                self@.key == s0.key,
                self@.i == s0.i,
                self@.pc == s0.pc,
                self@.timer == s0.timer,
                self@.vf_reset == s0.vf_reset,
                self@.fb.len() == 2048,
                forall|cx: int, cy: int|
                    #![trigger fb_index(cx, cy)]
                    0 <= cx < 64 && 0 <= cy < 32 ==> self@.fb[fb_index(cx, cy)] == (
                    if sprite_toggles_upto(s0, px as int, py as int, oy as int, 0, cx, cy) {
                        !s0.fb[fb_index(cx, cy)]
                    } else {
                        s0.fb[fb_index(cx, cy)]
                    }),
                vf == 0 || vf == 1,
                (vf == 1) <==> (exists|cx: int, cy: int|
                    #![trigger sprite_toggles_upto(s0, px as int, py as int, oy as int, 0, cx, cy)]
                    sprite_toggles_upto(s0, px as int, py as int, oy as int, 0, cx, cy)
                        && s0.fb[fb_index(cx, cy)]),
            decreases n - oy,
        {
            let row: u8 = self.memory[(self.i as usize + oy as usize) % 4096];
            proof {
                assert(row == sprite_row(s0, oy as int));
            }
            let mut ox: u8 = 0;
            while ox < 8
                invariant
                    s0 == old(self)@,
                    s0.wf(),
                    x < 16,
                    y < 16,
                    n < 16,
                    oy < n,
                    ox <= 8,
                    px == s0.registry[x as int] % 64,
                    py == s0.registry[y as int] % 32,
                    row == sprite_row(s0, oy as int),
                    self@.memory == s0.memory,
                    self@.registry == s0.registry,
                    self@.stack == s0.stack,
                    self@.key == s0.key,
                    self@.i == s0.i,
                    self@.pc == s0.pc,
                    self@.timer == s0.timer,
                    self@.vf_reset == s0.vf_reset,
                    self@.fb.len() == 2048,
                    forall|cx: int, cy: int|
                        #![trigger fb_index(cx, cy)]
                        0 <= cx < 64 && 0 <= cy < 32 ==> self@.fb[fb_index(cx, cy)] == (
                        if sprite_toggles_upto(s0, px as int, py as int, oy as int, ox as int, cx, cy) {
                            !s0.fb[fb_index(cx, cy)]
                        } else {
                            s0.fb[fb_index(cx, cy)]
                        }),
                    vf == 0 || vf == 1,
                    (vf == 1) <==> (exists|cx: int, cy: int|
                        #![trigger sprite_toggles_upto(s0, px as int, py as int, oy as int, ox as int, cx, cy)]
                        sprite_toggles_upto(s0, px as int, py as int, oy as int, ox as int, cx, cy)
                            && s0.fb[fb_index(cx, cy)]),
                decreases 8 - ox,
            {
                let ghost pxi = px as int;
                let ghost pyi = py as int;
                let ghost oyi = oy as int;
                let ghost oxi = ox as int;
                let dx: u8 = px + ox;
                let dy: u8 = py + oy;
                if dx < 64 && dy < 32 {
                    let m = mask_of(ox);
                    let bit: bool = (row / m) % 2 == 1;
                    proof {
                        assert(bit == sprite_bit(sprite_row(s0, oyi), oxi));
                    }
                    if bit {
                        let idx: usize = dx as usize * 32 + dy as usize;
                        proof {
                            assert(idx == fb_index(dx as int, dy as int));
                            assert(idx < 2048);
                            assert(!sprite_toggles_upto(s0, pxi, pyi, oyi, oxi, dx as int, dy as int));
                        }
                        let cur: bool = self.fb[idx];
                        proof {
                            assert(cur == s0.fb[idx as int]);
                        }
                        if cur {
                            vf = 1;
                            proof {
                                assert(sprite_toggles_upto(s0, pxi, pyi, oyi, oxi + 1, dx as int, dy as int)
                                    && s0.fb[fb_index(dx as int, dy as int)]);
                            }
                        }
                        self.fb[idx] = !cur;
                        proof {
                            assert forall|cx: int, cy: int|
                                0 <= cx < 64 && 0 <= cy < 32 implies self@.fb[fb_index(cx, cy)] == (
                                if sprite_toggles_upto(s0, pxi, pyi, oyi, oxi + 1, cx, cy) {
                                    !s0.fb[fb_index(cx, cy)]
                                } else {
                                    s0.fb[fb_index(cx, cy)]
                                }) by {
                                if cx == dx as int && cy == dy as int {
                                } else {
                                    assert(fb_index(cx, cy) != idx as int);
                                    assert(sprite_toggles_upto(s0, pxi, pyi, oyi, oxi + 1, cx, cy)
                                        == sprite_toggles_upto(s0, pxi, pyi, oyi, oxi, cx, cy));
                                }
                            }
                            if !cur && vf == 0 {
                                assert forall|cx: int, cy: int|
                                    sprite_toggles_upto(s0, pxi, pyi, oyi, oxi + 1, cx, cy)
                                        && s0.fb[fb_index(cx, cy)] implies false by {
                                    if cx == dx as int && cy == dy as int {
                                        assert(!s0.fb[fb_index(cx, cy)]);
                                    } else {
                                        assert(sprite_toggles_upto(s0, pxi, pyi, oyi, oxi, cx, cy));
                                    }
                                }
                            }
                        }
                    } else {
                        proof {
                            assert forall|cx: int, cy: int|
                                sprite_toggles_upto(s0, pxi, pyi, oyi, oxi + 1, cx, cy)
                                    == sprite_toggles_upto(s0, pxi, pyi, oyi, oxi, cx, cy) by {
                                if sprite_toggles_upto(s0, pxi, pyi, oyi, oxi + 1, cx, cy)
                                    && !sprite_toggles_upto(s0, pxi, pyi, oyi, oxi, cx, cy) {
                                    assert(cx - pxi == oxi && cy - pyi == oyi);
                                    assert(sprite_bit(sprite_row(s0, oyi), oxi));
                                }
                            }
                        }
                    }
                } else {
                    proof {
                        assert forall|cx: int, cy: int|
                            sprite_toggles_upto(s0, pxi, pyi, oyi, oxi + 1, cx, cy)
                                == sprite_toggles_upto(s0, pxi, pyi, oyi, oxi, cx, cy) by {
                            if sprite_toggles_upto(s0, pxi, pyi, oyi, oxi + 1, cx, cy)
                                && !sprite_toggles_upto(s0, pxi, pyi, oyi, oxi, cx, cy) {
                                assert(cx == pxi + oxi && cy == pyi + oyi);
                            }
                        }
                    }
                }
                ox += 1;
            }
            proof {
                assert forall|cx: int, cy: int|
                    sprite_toggles_upto(s0, px as int, py as int, oy as int, 8, cx, cy)
                        == sprite_toggles_upto(s0, px as int, py as int, oy as int + 1, 0, cx, cy) by {}
                if vf == 1 {
                    let (cx, cy) = choose|cx: int, cy: int|
                        sprite_toggles_upto(s0, px as int, py as int, oy as int, 8, cx, cy)
                            && s0.fb[fb_index(cx, cy)];
                    assert(sprite_toggles_upto(s0, px as int, py as int, oy as int + 1, 0, cx, cy)
                        && s0.fb[fb_index(cx, cy)]);
                }
            }
            oy += 1;
        }
        proof {
            let pxi = px as int;
            let pyi = py as int;
            assert forall|cx: int, cy: int|
                sprite_toggles_upto(s0, pxi, pyi, n as int, 0, cx, cy) == sprite_toggles(
                    s0, pxi, pyi, n as int, cx, cy) by {}
            if vf == 1 {
                let (cx, cy) = choose|cx: int, cy: int|
                    sprite_toggles_upto(s0, pxi, pyi, n as int, 0, cx, cy) && s0.fb[fb_index(cx, cy)];
                assert(sprite_toggles(s0, pxi, pyi, n as int, cx, cy) && s0.fb[fb_index(cx, cy)]);
                assert(draw_collision(s0, pxi, pyi, n as int));
            } else {
                if draw_collision(s0, pxi, pyi, n as int) {
                    let (cx, cy) = choose|cx: int, cy: int|
                        #![trigger sprite_toggles(s0, pxi, pyi, n as int, cx, cy)]
                        sprite_toggles(s0, pxi, pyi, n as int, cx, cy) && s0.fb[fb_index(cx, cy)];
                    assert(sprite_toggles_upto(s0, pxi, pyi, n as int, 0, cx, cy)
                        && s0.fb[fb_index(cx, cy)]);
                    assert(false);
                }
            }
            assert forall|idx: int| 0 <= idx < 2048 implies self@.fb[idx] == draw_fb(
                s0, pxi, pyi, n as int)[idx] by {
                let cx = idx / 32;
                let cy = idx % 32;
                assert(idx == 32 * cx + cy);
                assert(0 <= cy < 32);
                assert(0 <= cx < 64);
                assert(fb_index(cx, cy) == idx);
            }
            assert(self@.fb =~= draw_fb(s0, pxi, pyi, n as int));
        }
        self.registry[15] = vf;
        proof {
            assert(self@.registry == s0.registry.update(
                15,
                if draw_collision(s0, (s0.registry[x as int] % 64) as int, (s0.registry[y as int] % 32) as int, n as int) {
                    1u8
                } else {
                    0u8
                },
            ));
        }
    }

    /// `Ex9E`.
    fn skip_if_keydown(&mut self, x: u8)
        requires
            old(self)@.wf(),
            x < 16,
        ensures
            final(self)@ == spec_skip(
                old(self)@,
                key_held(old(self)@, old(self)@.registry[x as int]),
            ),
            final(self)@.wf(),
    {
        let v = self.registry[x as usize];
        if v < 16 && self.key[v as usize] {
            self.step_counter();
        }
    }

    /// `ExA1`.
    fn skip_if_keyup(&mut self, x: u8)
        requires
            old(self)@.wf(),
            x < 16,
        ensures
            final(self)@ == spec_skip(
                old(self)@,
                !key_held(old(self)@, old(self)@.registry[x as int]),
            ),
            final(self)@.wf(),
    {
        let v = self.registry[x as usize];
        if !(v < 16 && self.key[v as usize]) {
            self.step_counter();
        }
    }
    /// One interpreter step: fetch the word at the program counter, decode
    /// it, apply exactly one instruction's effect, and, at a frame boundary
    /// (`frame` true), tick the delay timer. The display-affecting
    /// instructions and the timer are gated on `frame` so that visible
    /// updates and the countdown run at the 60 Hz cadence even while the
    /// instruction stream runs faster.
    ///
    /// The call returns `Ok` and steps the machine by exactly
    /// [`spec_step`] unless that step is an error — an unrecognized opcode, a
    /// return on an empty stack, or a call on a full stack — in which case
    /// the error comes back and the machine is left unchanged.
    #[verifier::rlimit(60)]
    pub fn execute(&mut self, frame: bool) -> (r: Result<(), Chip8Error>)
        requires
            old(self)@.wf(),
        ensures
            final(self)@.wf(),
            r is Ok ==> spec_step(old(self)@, frame) == Ok::<MachineView, Chip8Error>(
                final(self)@,
            ),
            r is Err ==> spec_step(old(self)@, frame) == Err::<MachineView, Chip8Error>(r->Err_0)
                && final(self)@ == old(self)@,
    {
        let raw = self.fetch();
        let op = raw.decode();
        match op {
            Opcode::Clear => {
                if frame {
                    self.clear();
                    self.step_counter();
                }
            },
            Opcode::Return => {
                match self.return_subroutine() {
                    Ok(()) => {},
                    Err(e) => {
                        return Err(e);
                    },
                }
            },
            Opcode::Jump { nnn } => {
                self.jump(nnn);
            },
            Opcode::JumpOffset { nnn } => {
                self.jump_offset(nnn);
            },
            Opcode::Subroutine { nnn } => {
                match self.subroutine(nnn) {
                    Ok(()) => {},
                    Err(e) => {
                        return Err(e);
                    },
                }
            },
            Opcode::SkipIfEqualXN { x, nn } => {
                self.skip_if_equal_xn(x, nn);
                self.step_counter();
            },
            Opcode::SkipIfNotEqualXN { x, nn } => {
                self.skip_if_not_equal_xn(x, nn);
                self.step_counter();
            },
            Opcode::SkipIfEqualXY { x, y } => {
                self.skip_if_equal_xy(x, y);
                self.step_counter();
            },
            Opcode::SkipIfNotEqualXY { x, y } => {
                self.skip_if_not_equal_xy(x, y);
                self.step_counter();
            },
            Opcode::NormalRegistry { x, nn } => {
                self.set_normal_registry(x, nn);
                self.step_counter();
            },
            Opcode::AddRegistry { x, nn } => {
                self.add_registry(x, nn);
                self.step_counter();
            },
            Opcode::IndexRegistry { nnn } => {
                self.set_index_registry(nnn);
                self.step_counter();
            },
            Opcode::Assign { x, y } => {
                self.copy_registry(x, y);
                self.step_counter();
            },
            Opcode::Or { x, y } => {
                self.or(x, y);
                self.step_counter();
            },
            Opcode::And { x, y } => {
                self.and(x, y);
                self.step_counter();
            },
            Opcode::Xor { x, y } => {
                self.xor(x, y);
                self.step_counter();
            },
            Opcode::Add { x, y } => {
                self.add_registers(x, y);
                self.step_counter();
            },
            Opcode::Subtract { x, y } => {
                self.subtract(x, y);
                self.step_counter();
            },
            Opcode::SubtractRev { x, y } => {
                self.subtract_rev(x, y);
                self.step_counter();
            },
            Opcode::ShiftLeft { x, y } => {
                self.shift_left(x, y);
                self.step_counter();
            },
            Opcode::ShiftRight { x, y } => {
                self.shift_right(x, y);
                self.step_counter();
            },
            Opcode::SaveToMemory { x } => {
                self.save_to_memory(x);
                self.step_counter();
            },
            Opcode::LoadFromMemory { x } => {
                self.load_from_memory(x);
                self.step_counter();
            },
            Opcode::AddVxToI { x } => {
                self.add_vx_to_i(x);
                self.step_counter();
            },
            Opcode::SaveDigits { x } => {
                self.save_digits(x);
                self.step_counter();
            },
            Opcode::SetTimer { x } => {
                self.set_timer(x);
                self.step_counter();
            },
            Opcode::SaveTimer { x } => {
                self.save_timer(x);
                self.step_counter();
            },
            Opcode::SkipIfKeyDown { x } => {
                self.skip_if_keydown(x);
                self.step_counter();
            },
            Opcode::SkipIfKeyUp { x } => {
                self.skip_if_keyup(x);
                self.step_counter();
            },
            Opcode::WaitKeyDown { x } => {
                self.wait_keydown(x);
            },
            Opcode::Draw { x, y, n } => {
                if frame {
                    self.draw(x, y, n);
                    self.step_counter();
                }
            },
            Opcode::Unknown { raw: rw } => {
                return Err(
                    Chip8Error::InvalidOpcode { v0: rw.v0, v1: rw.v1, pc: self.program_counter },
                );
            },
        }
        if frame && self.timer > 0 {
            self.timer = self.timer - 1;
        }
        Ok(())
    }
}

} // verus!
