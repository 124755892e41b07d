//! The sixteen-key hexadecimal keypad, as the interpreter sees it.
//!
//! The host samples which keys are held and hands the sample to each cycle.
//! Key presses that arrive while the machine waits for a key are handed over
//! one by one as [`KeyEvent`]s.

use vstd::prelude::*;

verus! {

/// Number of keys.
pub const NUM_KEYS: usize = 16;

/// Whether the key with the value `key` is held in the sample `keys`. A value
/// of 16 or more names no key, and no key is never held.
pub open spec fn key_held(keys: Seq<bool>, key: u8) -> bool {
    key < NUM_KEYS && keys[key as int]
}

/// A key press, as the input source reports it.
#[derive(Clone, Copy, PartialEq, Eq, Debug, Structural)]
pub enum KeyEvent {
    /// A key of the keypad went down; the field is its value, 0 to 15.
    Key(u8),
    /// A key reserved for leaving the program went down.
    Cancel,
    /// Some other key went down.
    Other,
}

/// How a wait for a key stands after a key press was handed over.
#[derive(Clone, Copy, PartialEq, Eq, Debug, Structural)]
pub enum KeyWait {
    /// The machine was not waiting; the press was ignored.
    Idle,
    /// The machine is still waiting; the press was ignored.
    Pending,
    /// The key was stored and the machine runs again.
    Resumed,
    /// The wait was cancelled; the host should shut down.
    Cancelled,
}

} // verus!
