//! Logical OR chips.

use vstd::prelude::*;

verus! {

/// A combinational OR gate package.
pub struct OR;

impl OR {
    /// OR two values, bit by bit.
    pub fn or(num1: u8, num2: u8) -> (r: u8)
        ensures
            r == num1 | num2,
    {
        num1 | num2
    }
}

} // verus!
