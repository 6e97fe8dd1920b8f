//! Counter chips.

use vstd::prelude::*;

verus! {

/// The 7400-series four-bit binary counter.
pub type S74X393 = Counter<4>;

/// A binary counter of `BITS` bits: it counts up by one per pulse and wraps
/// to zero past its width, like the 7400-series ripple counters.
#[derive(Clone, Copy)]
pub struct Counter<const BITS: u32> {
    /// The current count.
    pub count: u8,
}

/// One more than the largest value a `bits`-wide counter holds.
pub open spec fn counter_modulus(bits: u32) -> int
    recommends
        1 <= bits <= 8,
{
    (1u16 << bits) as int
}

/// The counter's modulus is a power of two between two and 256, and
/// incrementing mod it is a masked wrapping add.
proof fn lemma_counter_step(count: u8, bits: u32)
    by (bit_vector)
    requires
        1 <= bits <= 8,
    ensures
        2 <= (1u16 << bits) <= 256,
        count < (1u16 << bits) ==> (((count + 1) % 0x100) as u8) & ((0xFFu8 >> ((8 - bits) as u32)))
            == (count + 1) % ((1u16 << bits) as int),
{
}

impl<const BITS: u32> Counter<BITS> {
    /// Is the count inside the counter's width?
    pub open spec fn wf(&self) -> bool {
        1 <= BITS <= 8 && self.count < counter_modulus(BITS)
    }

    /// Create a counter starting at zero.
    pub fn new() -> (r: Self)
        requires
            1 <= BITS <= 8,
        ensures
            r.count == 0,
            r.wf(),
    {
        proof {
            lemma_counter_step(0, BITS);
        }
        Counter { count: 0 }
    }

    /// Reset the count to zero and return it.
    pub fn clear(&mut self) -> (r: u8)
        requires
            old(self).wf(),
        ensures
            final(self).count == 0,
            final(self).wf(),
            r == 0,
    {
        proof {
            lemma_counter_step(0, BITS);
        }
        self.count = 0;
        self.count
    }

    /// Advance the count by one, wrapping at the width, and return it.
    pub fn increment(&mut self) -> (r: u8)
        requires
            old(self).wf(),
        ensures
            final(self).count == (old(self).count + 1) % counter_modulus(BITS),
            final(self).wf(),
            r == final(self).count,
    {
        proof {
            lemma_counter_step(self.count, BITS);
        }
        let mask: u8 = 0xFFu8 >> ((8 - BITS) as u32);
        self.count = self.count.wrapping_add(1) & mask;
        self.count
    }

    /// Read the current count without changing it.
    pub fn read(&self) -> (r: u8)
        ensures
            r == self.count,
    {
        self.count
    }
}

} // verus!
