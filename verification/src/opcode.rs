//! The raw two-byte instruction word, the decoded instruction type, and the
//! decoder that maps one to the other.

use vstd::prelude::*;

verus! {

/// One 16-bit instruction word as fetched from memory: `v0` is the high byte
/// (at the program counter), `v1` the low byte (at the following address).
#[derive(Clone, Copy, Debug, PartialEq, Eq, Structural)]
pub struct RawOpCode {
    pub v0: u8,
    pub v1: u8,
}

/// A decoded instruction. Each variant carries only the operand fields its
/// family needs: a register index `x` or `y` (always below 16), an 8-bit
/// immediate `nn`, a 12-bit address `nnn` (always below 4096), or a sprite
/// height nibble `n` (always below 16).
///
/// A word that matches no recognized pattern decodes to [`Opcode::Unknown`],
/// carrying the raw word; it is not filtered out, so the executor reports it
/// as an error rather than skipping it silently.
#[derive(Clone, Copy, Debug, PartialEq, Eq, Structural)]
pub enum Opcode {
    /// `00E0`: clear the framebuffer.
    Clear,
    /// `00EE`: pop the call stack into the program counter.
    Return,
    /// `1nnn`: jump to `nnn`.
    Jump { nnn: u16 },
    /// `Bnnn`: jump to `nnn + V0`.
    JumpOffset { nnn: u16 },
    /// `2nnn`: push the next program counter, then jump to `nnn`.
    Subroutine { nnn: u16 },
    /// `3xnn`: skip the next instruction if `Vx == nn`.
    SkipIfEqualXN { x: u8, nn: u8 },
    /// `4xnn`: skip the next instruction if `Vx != nn`.
    SkipIfNotEqualXN { x: u8, nn: u8 },
    /// `5xy0`: skip the next instruction if `Vx == Vy`.
    SkipIfEqualXY { x: u8, y: u8 },
    /// `9xy0`: skip the next instruction if `Vx != Vy`.
    SkipIfNotEqualXY { x: u8, y: u8 },
    /// `6xnn`: set `Vx` to `nn`.
    NormalRegistry { x: u8, nn: u8 },
    /// `7xnn`: add `nn` to `Vx`, wrapping, with no flag change.
    AddRegistry { x: u8, nn: u8 },
    /// `Annn`: set the index register to `nnn`.
    IndexRegistry { nnn: u16 },
    /// `8xy0`: set `Vx` to `Vy`.
    Assign { x: u8, y: u8 },
    /// `8xy1`: set `Vx` to `Vx | Vy`.
    Or { x: u8, y: u8 },
    /// `8xy2`: set `Vx` to `Vx & Vy`.
    And { x: u8, y: u8 },
    /// `8xy3`: set `Vx` to `Vx ^ Vy`.
    Xor { x: u8, y: u8 },
    /// `8xy4`: add `Vy` to `Vx`, wrapping; `VF` gets the carry bit.
    Add { x: u8, y: u8 },
    /// `8xy5`: subtract `Vy` from `Vx`, wrapping; `VF` gets the no-borrow bit.
    Subtract { x: u8, y: u8 },
    /// `8xy7`: set `Vx` to `Vy - Vx`, wrapping; `VF` gets the no-borrow bit.
    SubtractRev { x: u8, y: u8 },
    /// `8xyE`: set `Vx` to `Vy` shifted left once; `VF` gets `Vy`'s high bit.
    ShiftLeft { x: u8, y: u8 },
    /// `8xy6`: set `Vx` to `Vy` shifted right once; `VF` gets `Vy`'s low bit.
    ShiftRight { x: u8, y: u8 },
    /// `Fx55`: copy `V0..=Vx` into memory at the index register.
    SaveToMemory { x: u8 },
    /// `Fx65`: copy memory at the index register into `V0..=Vx`.
    LoadFromMemory { x: u8 },
    /// `Fx1E`: add `Vx` to the index register, wrapping modulo 4096.
    AddVxToI { x: u8 },
    /// `Fx33`: store the decimal digits of `Vx` at the index register.
    SaveDigits { x: u8 },
    /// `Fx15`: set the delay timer to `Vx`.
    SetTimer { x: u8 },
    /// `Fx07`: set `Vx` to the delay timer.
    SaveTimer { x: u8 },
    /// `Ex9E`: skip the next instruction if the key numbered `Vx` is held.
    SkipIfKeyDown { x: u8 },
    /// `ExA1`: skip the next instruction if the key numbered `Vx` is not held.
    SkipIfKeyUp { x: u8 },
    /// `Fx0A`: wait for a key; on a held key, store its index in `Vx`.
    WaitKeyDown { x: u8 },
    /// `Dxyn`: draw an `n`-row sprite at `(Vx mod 64, Vy mod 32)`.
    Draw { x: u8, y: u8, n: u8 },
    /// Any word that matches no pattern above.
    Unknown { raw: RawOpCode },
}

/// The 12-bit address held in the low three nibbles of the word.
pub open spec fn spec_addr(v0: u8, v1: u8) -> u16 {
    (((v0 % 16) as u16) * 256 + v1 as u16) as u16
}

/// What a raw word decodes to. Total over all 65536 words: the top nibble
/// picks the family and, for the ambiguous families (`0x0`, `0x5`, `0x8`,
/// `0x9`, `0xE`, `0xF`), a secondary dispatch on the low byte or low nibble
/// picks the member; everything else is [`Opcode::Unknown`].
pub open spec fn spec_decode(v0: u8, v1: u8) -> Opcode {
    let c0 = v0 / 16;
    let c1 = v0 % 16;
    let c2 = v1 / 16;
    let c3 = v1 % 16;
    if c0 == 0x0 {
        if c1 == 0 && v1 == 0xE0 {
            Opcode::Clear
        } else if c1 == 0 && v1 == 0xEE {
            Opcode::Return
        } else {
            Opcode::Unknown { raw: RawOpCode { v0, v1 } }
        }
    } else if c0 == 0x1 {
        Opcode::Jump { nnn: spec_addr(v0, v1) }
    } else if c0 == 0x2 {
        Opcode::Subroutine { nnn: spec_addr(v0, v1) }
    } else if c0 == 0x3 {
        Opcode::SkipIfEqualXN { x: c1, nn: v1 }
    } else if c0 == 0x4 {
        Opcode::SkipIfNotEqualXN { x: c1, nn: v1 }
    } else if c0 == 0x5 {
        if c3 == 0 {
            Opcode::SkipIfEqualXY { x: c1, y: c2 }
        } else {
            Opcode::Unknown { raw: RawOpCode { v0, v1 } }
        }
    } else if c0 == 0x6 {
        Opcode::NormalRegistry { x: c1, nn: v1 }
    } else if c0 == 0x7 {
        Opcode::AddRegistry { x: c1, nn: v1 }
    } else if c0 == 0x8 {
        if c3 == 0x0 {
            Opcode::Assign { x: c1, y: c2 }
        } else if c3 == 0x1 {
            Opcode::Or { x: c1, y: c2 }
        } else if c3 == 0x2 {
            Opcode::And { x: c1, y: c2 }
        } else if c3 == 0x3 {
            Opcode::Xor { x: c1, y: c2 }
        } else if c3 == 0x4 {
            Opcode::Add { x: c1, y: c2 }
        } else if c3 == 0x5 {
            Opcode::Subtract { x: c1, y: c2 }
        } else if c3 == 0x6 {
            Opcode::ShiftRight { x: c1, y: c2 }
        } else if c3 == 0x7 {
            Opcode::SubtractRev { x: c1, y: c2 }
        } else if c3 == 0xE {
            Opcode::ShiftLeft { x: c1, y: c2 }
        } else {
            Opcode::Unknown { raw: RawOpCode { v0, v1 } }
        }
    } else if c0 == 0x9 {
        if c3 == 0 {
            Opcode::SkipIfNotEqualXY { x: c1, y: c2 }
        } else {
            Opcode::Unknown { raw: RawOpCode { v0, v1 } }
        }
    } else if c0 == 0xA {
        Opcode::IndexRegistry { nnn: spec_addr(v0, v1) }
    } else if c0 == 0xB {
        Opcode::JumpOffset { nnn: spec_addr(v0, v1) }
    } else if c0 == 0xD {
        Opcode::Draw { x: c1, y: c2, n: c3 }
    } else if c0 == 0xE {
        if v1 == 0x9E {
            Opcode::SkipIfKeyDown { x: c1 }
        } else if v1 == 0xA1 {
            Opcode::SkipIfKeyUp { x: c1 }
        } else {
            Opcode::Unknown { raw: RawOpCode { v0, v1 } }
        }
    } else if c0 == 0xF {
        if v1 == 0x55 {
            Opcode::SaveToMemory { x: c1 }
        } else if v1 == 0x65 {
            Opcode::LoadFromMemory { x: c1 }
        } else if v1 == 0x1E {
            Opcode::AddVxToI { x: c1 }
        } else if v1 == 0x33 {
            Opcode::SaveDigits { x: c1 }
        } else if v1 == 0x15 {
            Opcode::SetTimer { x: c1 }
        } else if v1 == 0x07 {
            Opcode::SaveTimer { x: c1 }
        } else if v1 == 0x0A {
            Opcode::WaitKeyDown { x: c1 }
        } else {
            Opcode::Unknown { raw: RawOpCode { v0, v1 } }
        }
    } else {
        Opcode::Unknown { raw: RawOpCode { v0, v1 } }
    }
}

/// Every operand field a decoded instruction can carry is in range: register
/// indices and nibbles below 16, addresses below 4096.
pub open spec fn opcode_bounded(op: Opcode) -> bool {
    match op {
        Opcode::Clear => true,
        Opcode::Return => true,
        Opcode::Jump { nnn } => nnn < 4096,
        Opcode::JumpOffset { nnn } => nnn < 4096,
        Opcode::Subroutine { nnn } => nnn < 4096,
        Opcode::SkipIfEqualXN { x, nn } => x < 16,
        Opcode::SkipIfNotEqualXN { x, nn } => x < 16,
        Opcode::SkipIfEqualXY { x, y } => x < 16 && y < 16,
        Opcode::SkipIfNotEqualXY { x, y } => x < 16 && y < 16,
        Opcode::NormalRegistry { x, nn } => x < 16,
        Opcode::AddRegistry { x, nn } => x < 16,
        Opcode::IndexRegistry { nnn } => nnn < 4096,
        Opcode::Assign { x, y } => x < 16 && y < 16,
        Opcode::Or { x, y } => x < 16 && y < 16,
        Opcode::And { x, y } => x < 16 && y < 16,
        Opcode::Xor { x, y } => x < 16 && y < 16,
        Opcode::Add { x, y } => x < 16 && y < 16,
        Opcode::Subtract { x, y } => x < 16 && y < 16,
        Opcode::SubtractRev { x, y } => x < 16 && y < 16,
        Opcode::ShiftLeft { x, y } => x < 16 && y < 16,
        Opcode::ShiftRight { x, y } => x < 16 && y < 16,
        Opcode::SaveToMemory { x } => x < 16,
        Opcode::LoadFromMemory { x } => x < 16,
        Opcode::AddVxToI { x } => x < 16,
        Opcode::SaveDigits { x } => x < 16,
        Opcode::SetTimer { x } => x < 16,
        Opcode::SaveTimer { x } => x < 16,
        Opcode::SkipIfKeyDown { x } => x < 16,
        Opcode::SkipIfKeyUp { x } => x < 16,
        Opcode::WaitKeyDown { x } => x < 16,
        Opcode::Draw { x, y, n } => x < 16 && y < 16 && n < 16,
        Opcode::Unknown { raw } => true,
    }
}

impl RawOpCode {
    /// Decode this word. The result is exactly [`spec_decode`] of its bytes.
    pub fn decode(self) -> (op: Opcode)
        ensures
            op == spec_decode(self.v0, self.v1),
            opcode_bounded(op),
    {
        let v0 = self.v0;
        let v1 = self.v1;
        let c0 = v0 / 16;
        let c1 = v0 % 16;
        let c2 = v1 / 16;
        let c3 = v1 % 16;
        let nnn: u16 = (c1 as u16) * 256 + (v1 as u16);
        match c0 {
            0x0 => {
                if c1 == 0 && v1 == 0xE0 {
                    Opcode::Clear
                } else if c1 == 0 && v1 == 0xEE {
                    Opcode::Return
                } else {
                    Opcode::Unknown { raw: self }
                }
            },
            0x1 => Opcode::Jump { nnn },
            0x2 => Opcode::Subroutine { nnn },
            0x3 => Opcode::SkipIfEqualXN { x: c1, nn: v1 },
            0x4 => Opcode::SkipIfNotEqualXN { x: c1, nn: v1 },
            0x5 => {
                if c3 == 0 {
                    Opcode::SkipIfEqualXY { x: c1, y: c2 }
                } else {
                    Opcode::Unknown { raw: self }
                }
            },
            0x6 => Opcode::NormalRegistry { x: c1, nn: v1 },
            0x7 => Opcode::AddRegistry { x: c1, nn: v1 },
            0x8 => {
                match c3 {
                    0x0 => Opcode::Assign { x: c1, y: c2 },
                    0x1 => Opcode::Or { x: c1, y: c2 },
                    0x2 => Opcode::And { x: c1, y: c2 },
                    0x3 => Opcode::Xor { x: c1, y: c2 },
                    0x4 => Opcode::Add { x: c1, y: c2 },
                    0x5 => Opcode::Subtract { x: c1, y: c2 },
                    0x6 => Opcode::ShiftRight { x: c1, y: c2 },
                    0x7 => Opcode::SubtractRev { x: c1, y: c2 },
                    0xE => Opcode::ShiftLeft { x: c1, y: c2 },
                    _ => Opcode::Unknown { raw: self },
                }
            },
            0x9 => {
                if c3 == 0 {
                    Opcode::SkipIfNotEqualXY { x: c1, y: c2 }
                } else {
                    Opcode::Unknown { raw: self }
                }
            },
            0xA => Opcode::IndexRegistry { nnn },
            0xB => Opcode::JumpOffset { nnn },
            0xD => Opcode::Draw { x: c1, y: c2, n: c3 },
            0xE => {
                if v1 == 0x9E {
                    Opcode::SkipIfKeyDown { x: c1 }
                } else if v1 == 0xA1 {
                    Opcode::SkipIfKeyUp { x: c1 }
                } else {
                    Opcode::Unknown { raw: self }
                }
            },
            0xF => {
                match v1 {
                    0x55 => Opcode::SaveToMemory { x: c1 },
                    0x65 => Opcode::LoadFromMemory { x: c1 },
                    0x1E => Opcode::AddVxToI { x: c1 },
                    0x33 => Opcode::SaveDigits { x: c1 },
                    0x15 => Opcode::SetTimer { x: c1 },
                    0x07 => Opcode::SaveTimer { x: c1 },
                    0x0A => Opcode::WaitKeyDown { x: c1 },
                    _ => Opcode::Unknown { raw: self },
                }
            },
            _ => Opcode::Unknown { raw: self },
        }
    }
}

/// The upper-case hexadecimal digit for a value below 16.
pub open spec fn hex_digit(n: u8) -> char
    recommends
        n < 16,
{
    if n == 0x0 {
        '0'
    } else if n == 0x1 {
        '1'
    } else if n == 0x2 {
        '2'
    } else if n == 0x3 {
        '3'
    } else if n == 0x4 {
        '4'
    } else if n == 0x5 {
        '5'
    } else if n == 0x6 {
        '6'
    } else if n == 0x7 {
        '7'
    } else if n == 0x8 {
        '8'
    } else if n == 0x9 {
        '9'
    } else if n == 0xA {
        'A'
    } else if n == 0xB {
        'B'
    } else if n == 0xC {
        'C'
    } else if n == 0xD {
        'D'
    } else if n == 0xE {
        'E'
    } else {
        'F'
    }
}

/// The four upper-case hexadecimal digits of an instruction word, high byte
/// first.
pub open spec fn hex_chars(v0: u8, v1: u8) -> Seq<char> {
    seq![hex_digit(v0 / 16), hex_digit(v0 % 16), hex_digit(v1 / 16), hex_digit(v1 % 16)]
}

/// Relies on std's `format!` with the `{:02X}` format specifier: a `u8`
/// prints as exactly two upper-case hexadecimal digits, zero-padded.
#[verifier::external_body]
fn format_word_hex(v0: u8, v1: u8) -> (r: String)
    ensures
        r@ == hex_chars(v0, v1),
{
    format!("{:02X}{:02X}", v0, v1)
}

impl RawOpCode {
    /// The word as four upper-case hexadecimal digits, for diagnostics.
    pub fn as_string(&self) -> (r: String)
        ensures
            r@ == hex_chars(self.v0, self.v1),
    {
        format_word_hex(self.v0, self.v1)
    }
}

} // verus!
