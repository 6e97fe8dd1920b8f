//! Seven-segment decoders.
//!
//! In hardware these are webs of AND, OR and NOT gates; a lookup table is
//! the same function written down directly.

use vstd::prelude::*;

verus! {

/// The segment pattern table of the 74x47 decoder: six and nine drawn
/// without their horizontal bar.
pub open spec fn s74x47_table() -> Seq<u8> {
    seq![
        0b0_11_1_11_1u8,
        0b0_00_0_11_0u8,
        0b1_01_1_01_1u8,
        0b1_00_1_11_1u8,
        0b1_10_0_11_0u8,
        0b1_10_1_10_1u8,
        0b1_11_1_10_0u8,
        0b0_00_0_11_1u8,
        0b1_11_1_11_1u8,
        0b1_10_0_11_1u8,
        0b1_01_1_00_0u8,
        0b1_00_1_10_0u8,
        0b1_10_0_01_0u8,
        0b1_10_1_00_1u8,
        0b1_11_1_00_0u8,
        0u8,
    ]
}

/// The segment pattern table of the 74x247 decoder: six and nine drawn with
/// their horizontal bar.
pub open spec fn s74x247_table() -> Seq<u8> {
    seq![
        0b0_11_1_11_1u8,
        0b0_00_0_11_0u8,
        0b1_01_1_01_1u8,
        0b1_00_1_11_1u8,
        0b1_10_0_11_0u8,
        0b1_10_1_10_1u8,
        0b1_11_1_10_1u8,
        0b0_00_0_11_1u8,
        0b1_11_1_11_1u8,
        0b1_10_1_11_1u8,
        0b1_01_1_00_0u8,
        0b1_00_1_10_0u8,
        0b1_10_0_01_0u8,
        0b1_10_1_00_1u8,
        0b1_11_1_00_0u8,
        0u8,
    ]
}

/// A digit-to-segment decoder chip.
pub struct SegmentDecoder {
    /// The pattern table, one entry per digit value.
    pub lookup: Vec<u8>,
}

impl View for SegmentDecoder {
    type V = Seq<u8>;

    open spec fn view(&self) -> Seq<u8> {
        self.lookup@
    }
}

impl SegmentDecoder {
    /// Does the table cover all sixteen digit values?
    pub open spec fn wf(&self) -> bool {
        self@.len() == 16
    }

    /// The 74x47 variant.
    pub fn new_s74x47() -> (r: Self)
        ensures
            r@ == s74x47_table(),
            r.wf(),
    {
        let lookup: Vec<u8> = vec![
            0b0_11_1_11_1,
            0b0_00_0_11_0,
            0b1_01_1_01_1,
            0b1_00_1_11_1,
            0b1_10_0_11_0,
            0b1_10_1_10_1,
            0b1_11_1_10_0,
            0b0_00_0_11_1,
            0b1_11_1_11_1,
            0b1_10_0_11_1,
            0b1_01_1_00_0,
            0b1_00_1_10_0,
            0b1_10_0_01_0,
            0b1_10_1_00_1,
            0b1_11_1_00_0,
            0,
        ];
        proof {
            assert(lookup@ =~= s74x47_table());
        }
        SegmentDecoder { lookup }
    }

    /// The 74x247 variant.
    pub fn new_s74x247() -> (r: Self)
        ensures
            r@ == s74x247_table(),
            r.wf(),
    {
        let lookup: Vec<u8> = vec![
            0b0_11_1_11_1,
            0b0_00_0_11_0,
            0b1_01_1_01_1,
            0b1_00_1_11_1,
            0b1_10_0_11_0,
            0b1_10_1_10_1,
            0b1_11_1_10_1,
            0b0_00_0_11_1,
            0b1_11_1_11_1,
            0b1_10_1_11_1,
            0b1_01_1_00_0,
            0b1_00_1_10_0,
            0b1_10_0_01_0,
            0b1_10_1_00_1,
            0b1_11_1_00_0,
            0,
        ];
        proof {
            assert(lookup@ =~= s74x247_table());
        }
        SegmentDecoder { lookup }
    }

    /// Turn a digit into its seven-segment pattern. A value past the table
    /// reads the last entry, never faults.
    pub fn decode(&self, decimal: u8) -> (r: u8)
        requires
            self.wf(),
        ensures
            r == self@[if decimal < 16 {
                decimal as int
            } else {
                15int
            }],
    {
        let mut index: usize = decimal as usize;
        if index >= self.lookup.len() {
            index = self.lookup.len() - 1;
        }
        self.lookup[index]
    }
}

} // verus!
