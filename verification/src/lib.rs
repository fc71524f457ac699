//! A verified interpreter for the classic CHIP-8 machine model: a 4 KiB
//! memory, sixteen 8-bit registers, a bounded call stack, a delay timer, a
//! 16-key input pad, and a 64x32 monochrome framebuffer drawn by XOR sprite
//! blits.
//!
//! The crate is organised as follows:
//! - [`opcode`] holds the raw instruction word, the decoded instruction type,
//!   and the decoder;
//! - [`state`] holds the mathematical model of the machine and the transition
//!   functions that give each instruction its meaning;
//! - [`machine`] holds the executable machine and its verified step function;
//! - [`laws`] proves the general properties that relate several instructions.

pub mod laws;
pub mod machine;
pub mod opcode;
pub mod state;
