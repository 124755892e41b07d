//! The instruction set: what a 16-bit instruction word means.
//!
//! A word is four nibbles. The first selects the family; `x` and `y` (second
//! and third nibble) select registers; the low nibble, the low byte and the low
//! twelve bits serve as immediates. [`decode`] turns a word into an [`Opcode`];
//! every word that matches no pattern decodes to [`Opcode::Unknown`].

use vstd::prelude::*;

verus! {

/// One decoded instruction. Register selectors are below 16, addresses below
/// 4096 and sprite heights below 16 (see [`Opcode::wf`]).
#[derive(Clone, Copy, PartialEq, Eq, Debug, Structural)]
pub enum Opcode {
    /// `00E0`: blank the display.
    ClearScreen,
    /// `00EE`: return from a subroutine.
    Return,
    /// `1nnn`: jump to `addr`.
    Jump { addr: u16 },
    /// `2nnn`: call the subroutine at `addr`.
    Call { addr: u16 },
    /// `3xnn`: skip the next instruction if `Vx == byte`.
    SkipIfEqual { x: u8, byte: u8 },
    /// `4xnn`: skip the next instruction if `Vx != byte`.
    SkipIfNotEqual { x: u8, byte: u8 },
    /// `5xy0`: skip the next instruction if `Vx == Vy`.
    SkipIfRegistersEqual { x: u8, y: u8 },
    /// `6xnn`: `Vx = byte`.
    Load { x: u8, byte: u8 },
    /// `7xnn`: `Vx = Vx + byte`, wrapping, without touching the flag.
    Add { x: u8, byte: u8 },
    /// `8xy0`: `Vx = Vy`.
    Copy { x: u8, y: u8 },
    /// `8xy1`: `Vx = Vx | Vy`.
    Or { x: u8, y: u8 },
    /// `8xy2`: `Vx = Vx & Vy`.
    And { x: u8, y: u8 },
    /// `8xy3`: `Vx = Vx ^ Vy`.
    Xor { x: u8, y: u8 },
    /// `8xy4`: `Vx = Vx + Vy`, wrapping; the flag is the carry.
    AddRegister { x: u8, y: u8 },
    /// `8xy5`: `Vx = Vx - Vy`, wrapping; the flag is 1 when `Vx > Vy`.
    Subtract { x: u8, y: u8 },
    /// `8xy6`: `Vx = Vx / 2`; the flag is the bit shifted out.
    ShiftRight { x: u8 },
    /// `8xy7`: `Vx = Vy - Vx`, wrapping; the flag is 1 when `Vy > Vx`.
    SubtractFrom { x: u8, y: u8 },
    /// `8xyE`: `Vx = Vx * 2`, wrapping; the flag is bit 7 of `Vx`, in place.
    ShiftLeft { x: u8 },
    /// `9xy0`: skip the next instruction if `Vx != Vy`.
    SkipIfRegistersDiffer { x: u8, y: u8 },
    /// `Annn`: index register = `addr`.
    LoadIndex { addr: u16 },
    /// `Bnnn`: jump to `addr + V0`.
    JumpOffset { addr: u16 },
    /// `Cxnn`: `Vx = mask &` a random byte.
    Random { x: u8, mask: u8 },
    /// `Dxyn`: draw a sprite of `rows` rows at (`Vx`, `Vy`).
    Draw { x: u8, y: u8, rows: u8 },
    /// `Ex9E`: skip the next instruction if the key `Vx` is held.
    SkipIfKey { x: u8 },
    /// `ExA1`: skip the next instruction if the key `Vx` is not held.
    SkipIfNotKey { x: u8 },
    /// `Fx07`: `Vx =` delay timer.
    ReadDelay { x: u8 },
    /// `Fx0A`: wait for a key press and store the key in `Vx`.
    WaitKey { x: u8 },
    /// `Fx15`: delay timer = `Vx`.
    SetDelay { x: u8 },
    /// `Fx18`: sound timer = `Vx`.
    SetSound { x: u8 },
    /// `Fx1E`: index register += `Vx`.
    AddIndex { x: u8 },
    /// `Fx29`: index register = address of the glyph for `Vx`.
    Glyph { x: u8 },
    /// `Fx33`: store the three decimal digits of `Vx` at the index register.
    Decimal { x: u8 },
    /// `Fx55`: store `V0..=Vx` at the index register.
    Store { x: u8 },
    /// `Fx65`: load `V0..=Vx` from the index register.
    Restore { x: u8 },
    /// Any other word: ignored.
    Unknown,
}

impl Opcode {
    /// The fields are within the ranges that a 16-bit word can encode.
    pub open spec fn wf(self) -> bool {
        match self {
            Opcode::ClearScreen | Opcode::Return | Opcode::Unknown => true,
            Opcode::Jump { addr }
            | Opcode::Call { addr }
            | Opcode::LoadIndex { addr }
            | Opcode::JumpOffset { addr } => addr < 4096,
            Opcode::SkipIfEqual { x, .. }
            | Opcode::SkipIfNotEqual { x, .. }
            | Opcode::Load { x, .. }
            | Opcode::Add { x, .. }
            | Opcode::Random { x, .. }
            | Opcode::ShiftRight { x }
            | Opcode::ShiftLeft { x }
            | Opcode::SkipIfKey { x }
            | Opcode::SkipIfNotKey { x }
            | Opcode::ReadDelay { x }
            | Opcode::WaitKey { x }
            | Opcode::SetDelay { x }
            | Opcode::SetSound { x }
            | Opcode::AddIndex { x }
            | Opcode::Glyph { x }
            | Opcode::Decimal { x }
            | Opcode::Store { x }
            | Opcode::Restore { x } => x < 16,
            Opcode::SkipIfRegistersEqual { x, y }
            | Opcode::Copy { x, y }
            | Opcode::Or { x, y }
            | Opcode::And { x, y }
            | Opcode::Xor { x, y }
            | Opcode::AddRegister { x, y }
            | Opcode::Subtract { x, y }
            | Opcode::SubtractFrom { x, y }
            | Opcode::SkipIfRegistersDiffer { x, y } => x < 16 && y < 16,
            Opcode::Draw { x, y, rows } => x < 16 && y < 16 && rows < 16,
        }
    }
}

/// The first nibble of a word: its opcode family.
pub open spec fn family_of(word: u16) -> int {
    word as int / 0x1000
}

/// The second nibble of a word: the register selector `x`.
pub open spec fn x_of(word: u16) -> u8 {
    ((word as int / 0x100) % 16) as u8
}

/// The third nibble of a word: the register selector `y`.
pub open spec fn y_of(word: u16) -> u8 {
    ((word as int / 0x10) % 16) as u8
}

/// The low nibble of a word.
pub open spec fn n_of(word: u16) -> u8 {
    (word as int % 16) as u8
}

/// The low byte of a word.
pub open spec fn nn_of(word: u16) -> u8 {
    (word as int % 256) as u8
}

/// The low twelve bits of a word.
pub open spec fn nnn_of(word: u16) -> u16 {
    (word as int % 4096) as u16
}

/// The register-to-register instructions, family 8, by their low nibble.
pub open spec fn decode_arithmetic(x: u8, y: u8, n: u8) -> Opcode {
    if n == 0x0 {
        Opcode::Copy { x, y }
    } else if n == 0x1 {
        Opcode::Or { x, y }
    } else if n == 0x2 {
        Opcode::And { x, y }
    } else if n == 0x3 {
        Opcode::Xor { x, y }
    } else if n == 0x4 {
        Opcode::AddRegister { x, y }
    } else if n == 0x5 {
        Opcode::Subtract { x, y }
    } else if n == 0x6 {
        Opcode::ShiftRight { x }
    } else if n == 0x7 {
        Opcode::SubtractFrom { x, y }
    } else if n == 0xE {
        Opcode::ShiftLeft { x }
    } else {
        Opcode::Unknown
    }
}

/// The timer, index and memory instructions, family F, by their low byte.
pub open spec fn decode_misc(x: u8, nn: u8) -> Opcode {
    if nn == 0x07 {
        Opcode::ReadDelay { x }
    } else if nn == 0x0A {
        Opcode::WaitKey { x }
    } else if nn == 0x15 {
        Opcode::SetDelay { x }
    } else if nn == 0x18 {
        Opcode::SetSound { x }
    } else if nn == 0x1E {
        Opcode::AddIndex { x }
    } else if nn == 0x29 {
        Opcode::Glyph { x }
    } else if nn == 0x33 {
        Opcode::Decimal { x }
    } else if nn == 0x55 {
        Opcode::Store { x }
    } else if nn == 0x65 {
        Opcode::Restore { x }
    } else {
        Opcode::Unknown
    }
}

/// What a word means. A word outside every pattern is [`Opcode::Unknown`]:
/// family 0 other than `00E0` and `00EE`, families 5 and 9 with a non-zero low
/// nibble, and the unassigned codes of families 8, E and F.
pub open spec fn decode_spec(word: u16) -> Opcode {
    let family = family_of(word);
    let x = x_of(word);
    let y = y_of(word);
    let n = n_of(word);
    let nn = nn_of(word);
    let addr = nnn_of(word);
    if family == 0x0 {
        if word == 0x00E0 {
            Opcode::ClearScreen
        } else if word == 0x00EE {
            Opcode::Return
        } else {
            Opcode::Unknown
        }
    } else if family == 0x1 {
        Opcode::Jump { addr }
    } else if family == 0x2 {
        Opcode::Call { addr }
    } else if family == 0x3 {
        Opcode::SkipIfEqual { x, byte: nn }
    } else if family == 0x4 {
        Opcode::SkipIfNotEqual { x, byte: nn }
    } else if family == 0x5 {
        if n == 0 {
            Opcode::SkipIfRegistersEqual { x, y }
        } else {
            Opcode::Unknown
        }
    } else if family == 0x6 {
        Opcode::Load { x, byte: nn }
    } else if family == 0x7 {
        Opcode::Add { x, byte: nn }
    } else if family == 0x8 {
        decode_arithmetic(x, y, n)
    } else if family == 0x9 {
        if n == 0 {
            Opcode::SkipIfRegistersDiffer { x, y }
        } else {
            Opcode::Unknown
        }
    } else if family == 0xA {
        Opcode::LoadIndex { addr }
    } else if family == 0xB {
        Opcode::JumpOffset { addr }
    } else if family == 0xC {
        Opcode::Random { x, mask: nn }
    } else if family == 0xD {
        Opcode::Draw { x, y, rows: n }
    } else if family == 0xE {
        if nn == 0x9E {
            Opcode::SkipIfKey { x }
        } else if nn == 0xA1 {
            Opcode::SkipIfNotKey { x }
        } else {
            Opcode::Unknown
        }
    } else {
        decode_misc(x, nn)
    }
}

/// Decodes family 8.
fn decode_arithmetic_word(x: u8, y: u8, n: u8) -> (op: Opcode)
    ensures
        op == decode_arithmetic(x, y, n),
{
    match n {
        0x0 => Opcode::Copy { x, y },
        0x1 => Opcode::Or { x, y },
        0x2 => Opcode::And { x, y },
        0x3 => Opcode::Xor { x, y },
        0x4 => Opcode::AddRegister { x, y },
        0x5 => Opcode::Subtract { x, y },
        0x6 => Opcode::ShiftRight { x },
        0x7 => Opcode::SubtractFrom { x, y },
        0xE => Opcode::ShiftLeft { x },
        _ => Opcode::Unknown,
    }
}

/// Decodes family F.
fn decode_misc_word(x: u8, nn: u8) -> (op: Opcode)
    ensures
        op == decode_misc(x, nn),
{
    match nn {
        0x07 => Opcode::ReadDelay { x },
        0x0A => Opcode::WaitKey { x },
        0x15 => Opcode::SetDelay { x },
        0x18 => Opcode::SetSound { x },
        0x1E => Opcode::AddIndex { x },
        0x29 => Opcode::Glyph { x },
        0x33 => Opcode::Decimal { x },
        0x55 => Opcode::Store { x },
        0x65 => Opcode::Restore { x },
        _ => Opcode::Unknown,
    }
}

/// Decodes one instruction word.
pub fn decode(word: u16) -> (op: Opcode)
    ensures
        op == decode_spec(word),
        op.wf(),
{
    let family: u16 = word / 0x1000;
    let x: u8 = ((word / 0x100) % 16) as u8;
    let y: u8 = ((word / 0x10) % 16) as u8;
    let n: u8 = (word % 16) as u8;
    let nn: u8 = (word % 256) as u8;
    let addr: u16 = word % 4096;
    match family {
        0x0 => {
            if word == 0x00E0 {
                Opcode::ClearScreen
            } else if word == 0x00EE {
                Opcode::Return
            } else {
                Opcode::Unknown
            }
        },
        0x1 => Opcode::Jump { addr },
        0x2 => Opcode::Call { addr },
        0x3 => Opcode::SkipIfEqual { x, byte: nn },
        0x4 => Opcode::SkipIfNotEqual { x, byte: nn },
        0x5 => {
            if n == 0 {
                Opcode::SkipIfRegistersEqual { x, y }
            } else {
                Opcode::Unknown
            }
        },
        0x6 => Opcode::Load { x, byte: nn },
        0x7 => Opcode::Add { x, byte: nn },
        0x8 => decode_arithmetic_word(x, y, n),
        0x9 => {
            if n == 0 {
                Opcode::SkipIfRegistersDiffer { x, y }
            } else {
                Opcode::Unknown
            }
        },
        0xA => Opcode::LoadIndex { addr },
        0xB => Opcode::JumpOffset { addr },
        0xC => Opcode::Random { x, mask: nn },
        0xD => Opcode::Draw { x, y, rows: n },
        0xE => {
            if nn == 0x9E {
                Opcode::SkipIfKey { x }
            } else if nn == 0xA1 {
                Opcode::SkipIfNotKey { x }
            } else {
                Opcode::Unknown
            }
        },
        _ => decode_misc_word(x, nn),
    }
}

} // verus!
