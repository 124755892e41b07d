//! Sizes and defaults of the machine.

use vstd::prelude::*;

verus! {

/// Addressable memory, in bytes.
pub const MEMORY_IN_B: usize = 4096;

/// Number of general registers, V0 to VF.
pub const NUM_REGISTERS: usize = 16;

/// Display width in pixels.
pub const SCREEN_WIDTH: usize = 64;

/// Display height in pixels.
pub const SCREEN_HEIGHT: usize = 32;

/// Number of cells of the display buffer, row-major.
pub const SCREEN_SIZE: usize = 2048;

/// Depth of the call stack.
pub const STACK_LEVELS: usize = 16;

/// Address at which a program is loaded and starts.
pub const PROGRAM_MEMORY_START: usize = 0x200;

/// Default instruction rate, in instructions per second.
pub const EMULATION_IPS: u128 = 500;

/// Default display scale factor.
pub const DEF_SCALE: u32 = 10;

/// Interval between two decrements of the timers, in nanoseconds (about 60 Hz).
pub const TIMER_PERIOD_NS: u128 = 16_666_666;

/// Nanoseconds in a second.
pub const NANOS_PER_SECOND: u128 = 1_000_000_000;

} // verus!
