//! Wrapping arithmetic on registers.

use vstd::prelude::*;

verus! {

/// `value` reduced to 8 bits.
pub open spec fn wrap8(value: int) -> u8 {
    (value % 256) as u8
}

/// `value` reduced to 16 bits.
pub open spec fn wrap16(value: int) -> u16 {
    (value % 65536) as u16
}

/// The sum of two bytes, reduced to 8 bits.
pub fn add8(a: u8, b: u8) -> (sum: u8)
    ensures
        sum == wrap8(a + b),
{
    a.wrapping_add(b)
}

/// The difference of two bytes, reduced to 8 bits.
pub fn sub8(a: u8, b: u8) -> (difference: u8)
    ensures
        difference == wrap8(a - b),
{
    a.wrapping_sub(b)
}

/// Twice a byte, reduced to 8 bits.
pub fn double8(a: u8) -> (twice: u8)
    ensures
        twice == wrap8(a * 2),
{
    a.wrapping_add(a)
}

/// The sum of a 16-bit value and a byte, reduced to 16 bits.
pub fn add16(a: u16, b: u8) -> (sum: u16)
    ensures
        sum == wrap16(a + b),
{
    a.wrapping_add(b as u16)
}

} // verus!
