//! A CHIP-8 interpreter core whose instruction semantics, timing gates and
//! state invariants are stated as contracts and proved.
//!
//! - [`chip8`] holds the interpreter, [`Chip8`].
//! - [`machine`] holds the mathematical model that the interpreter computes.
//! - [`opcode`], [`display`], [`memory`], [`arith`], [`keypad`] and [`font`]
//!   hold the parts: decoding, sprite drawing, memory transfers, wrapping
//!   arithmetic, key input and the built-in glyphs.
//! - [`laws`] holds what is proved of every state and every input.

pub mod arith;
pub mod chip8;
pub mod constants;
pub mod display;
mod entropy;
pub mod font;
pub mod keypad;
pub mod laws;
pub mod machine;
pub mod memory;
pub mod opcode;

pub use crate::chip8::Chip8;
