//! Logical AND chips.

use vstd::prelude::*;

verus! {

/// A combinational AND gate package.
pub struct AND;

impl AND {
    /// AND two values, bit by bit.
    pub fn and(num1: u8, num2: u8) -> (r: u8)
        ensures
            r == num1 & num2,
    {
        num1 & num2
    }

    /// AND two single bits.
    pub fn and_bits(bit1: bool, bit2: bool) -> (r: bool)
        ensures
            r == (bit1 && bit2),
    {
        bit1 && bit2
    }
}

} // verus!
