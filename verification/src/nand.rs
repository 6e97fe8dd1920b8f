//! Logical NAND chips.

use vstd::prelude::*;

verus! {

/// A combinational NAND gate package.
pub struct NAND;

impl NAND {
    /// NOT of the bitwise AND of two values.
    pub fn nand(num1: u8, num2: u8) -> (r: u8)
        ensures
            r == !(num1 & num2),
    {
        !(num1 & num2)
    }
}

} // verus!
