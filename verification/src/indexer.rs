//! Small indexable register chips.
//!
//! Many chips contain small registers (128 bits or fewer) that any position
//! of can be read or written without shifting. Out-of-range indices wrap
//! modulo the register count, as the hardware's address decoding does.

use vstd::prelude::*;

verus! {

broadcast use
    crate::bitops::lemma_u8_mask3,
    crate::bitops::lemma_u8_mask15,
    crate::bitops::lemma_u8_mask63;

/// The 4-bit digit at position `i` of a packed 64-bit register file.
pub open spec fn nib64_at(data: u64, i: u32) -> u8
    recommends
        i < 16,
{
    ((data >> ((4 * i) as u64)) & 0xF) as u8
}

/// The packed register file after storing digit `nib` at position `i`.
pub open spec fn nib64_set(data: u64, i: u32, nib: u8) -> u64
    recommends
        i < 16,
        nib < 16,
{
    (data & !(0xFu64 << ((4 * i) as u64))) | ((nib as u64) << ((4 * i) as u64))
}

/// The bit at position `i` of a packed 64-bit register file.
pub open spec fn bit64_at(data: u64, i: u32) -> bool
    recommends
        i < 64,
{
    (data >> (i as u64)) & 1 == 1
}

/// The packed register file after storing `bit` at position `i`.
pub open spec fn bit64_set(data: u64, i: u32, bit: bool) -> u64
    recommends
        i < 64,
{
    (data & !(1u64 << (i as u64))) | ((if bit {
        1u64
    } else {
        0u64
    }) << (i as u64))
}

/// Writing one digit leaves every other digit in place.
pub broadcast proof fn lemma_nib64_set_read(data: u64, i: u32, j: u32, nib: u8)
    by (bit_vector)
    requires
        i < 16,
        j < 16,
        nib < 16,
    ensures
        #[trigger] nib64_at(nib64_set(data, i, nib), j) == if i == j {
            nib
        } else {
            nib64_at(data, j)
        },
{
}

/// A digit read out of a packed register file is a 4-bit value.
pub broadcast proof fn lemma_nib64_at_bound(data: u64, i: u32)
    by (bit_vector)
    ensures
        #[trigger] nib64_at(data, i) < 16,
{
}

/// Writing one bit leaves every other bit in place.
pub broadcast proof fn lemma_bit64_set_read(data: u64, i: u32, j: u32, bit: bool)
    by (bit_vector)
    requires
        i < 64,
        j < 64,
    ensures
        #[trigger] bit64_at(bit64_set(data, i, bit), j) == if i == j {
            bit
        } else {
            bit64_at(data, j)
        },
{
}

/// A 64-bit indexable register chip: sixteen 4-bit digits.
#[derive(Default, Debug, Clone, Copy, PartialEq, Eq, Structural)]
pub struct Indexer64 {
    /// The stored bits.
    pub data: u64,
}

impl Indexer64 {
    /// Create a cleared register chip.
    pub fn new() -> (r: Self)
        ensures
            r.data == 0,
    {
        Indexer64 { data: 0 }
    }

    /// Read the bit at `index`; the index wraps modulo 64.
    pub fn read_bit(&self, index: u8) -> (r: bool)
        ensures
            r == bit64_at(self.data, (index % 64) as u32),
    {
        let i: u8 = index & 63;
        (self.data >> (i as u64)) & 1 == 1
    }

    /// Write the bit at `index`; the index wraps modulo 64.
    pub fn write_bit(&mut self, index: u8, bit: bool)
        ensures
            final(self).data == bit64_set(old(self).data, (index % 64) as u32, bit),
    {
        let i: u8 = index & 63;
        let cleared: u64 = self.data & !(1u64 << (i as u64));
        let inject: u64 = if bit {
            1u64
        } else {
            0u64
        };
        self.data = cleared | (inject << (i as u64));
    }

    /// Read the digit at `index`; the index wraps modulo 16.
    pub fn read_nibble(&self, index: u8) -> (r: u8)
        ensures
            r == nib64_at(self.data, (index % 16) as u32),
            r < 16,
    {
        let i: u8 = index & 15;
        proof {
            lemma_nib64_at_bound(self.data, (index % 16) as u32);
        }
        ((self.data >> ((4 * (i as u64)) as u64)) & 0xF) as u8
    }

    /// Write the digit at `index`; the index wraps modulo 16.
    pub fn write_nibble(&mut self, index: u8, nibble: u8)
        requires
            nibble < 16,
        ensures
            final(self).data == nib64_set(old(self).data, (index % 16) as u32, nibble),
    {
        let i: u8 = index & 15;
        let shift: u64 = 4 * (i as u64);
        let cleared: u64 = self.data & !(0xFu64 << shift);
        self.data = cleared | ((nibble as u64) << shift);
    }
}

/// The 4-bit digit at position `i` of a packed 16-bit register file.
pub open spec fn nib16_at(data: u16, i: u32) -> u8
    recommends
        i < 4,
{
    ((data >> ((4 * i) as u16)) & 0xF) as u8
}

/// The packed register file after storing digit `nib` at position `i`.
pub open spec fn nib16_set(data: u16, i: u32, nib: u8) -> u16
    recommends
        i < 4,
        nib < 16,
{
    (data & !(0xFu16 << ((4 * i) as u16))) | ((nib as u16) << ((4 * i) as u16))
}

/// The bit at position `i` of a packed 16-bit register file.
pub open spec fn bit16_at(data: u16, i: u32) -> bool
    recommends
        i < 16,
{
    (data >> (i as u16)) & 1 == 1
}

/// The packed register file after storing `bit` at position `i`.
pub open spec fn bit16_set(data: u16, i: u32, bit: bool) -> u16
    recommends
        i < 16,
{
    (data & !(1u16 << (i as u16))) | ((if bit {
        1u16
    } else {
        0u16
    }) << (i as u16))
}

/// Writing one digit leaves every other digit in place.
pub broadcast proof fn lemma_nib16_set_read(data: u16, i: u32, j: u32, nib: u8)
    by (bit_vector)
    requires
        i < 4,
        j < 4,
        nib < 16,
    ensures
        #[trigger] nib16_at(nib16_set(data, i, nib), j) == if i == j {
            nib
        } else {
            nib16_at(data, j)
        },
{
}

/// A digit read out of a packed register file is a 4-bit value.
pub broadcast proof fn lemma_nib16_at_bound(data: u16, i: u32)
    by (bit_vector)
    ensures
        #[trigger] nib16_at(data, i) < 16,
{
}

/// A 16-bit indexable register chip: four 4-bit digits.
#[derive(Default, Debug, Clone, Copy, PartialEq, Eq, Structural)]
pub struct Indexer16 {
    /// The stored bits.
    pub data: u16,
}

impl Indexer16 {
    /// Create a cleared register chip.
    pub fn new() -> (r: Self)
        ensures
            r.data == 0,
    {
        Indexer16 { data: 0 }
    }

    /// Read the bit at `index`; the index wraps modulo 16.
    pub fn read_bit(&self, index: u8) -> (r: bool)
        ensures
            r == bit16_at(self.data, (index % 16) as u32),
    {
        let i: u8 = index & 15;
        (self.data >> (i as u16)) & 1 == 1
    }

    /// Write the bit at `index`; the index wraps modulo 16.
    pub fn write_bit(&mut self, index: u8, bit: bool)
        ensures
            final(self).data == bit16_set(old(self).data, (index % 16) as u32, bit),
    {
        let i: u8 = index & 15;
        let cleared: u16 = self.data & !(1u16 << (i as u16));
        let inject: u16 = if bit {
            1u16
        } else {
            0u16
        };
        self.data = cleared | (inject << (i as u16));
    }

    /// Read the digit at `index`; the index wraps modulo 4.
    pub fn read_nibble(&self, index: u8) -> (r: u8)
        ensures
            r == nib16_at(self.data, (index % 4) as u32),
            r < 16,
    {
        let i: u8 = index & 3;
        proof {
            lemma_nib16_at_bound(self.data, (index % 4) as u32);
        }
        ((self.data >> ((4 * (i as u16)) as u16)) & 0xF) as u8
    }

    /// Write the digit at `index`; the index wraps modulo 4.
    pub fn write_nibble(&mut self, index: u8, nibble: u8)
        requires
            nibble < 16,
        ensures
            final(self).data == nib16_set(old(self).data, (index % 4) as u32, nibble),
    {
        let i: u8 = index & 3;
        let shift: u16 = 4 * (i as u16);
        let cleared: u16 = self.data & !(0xFu16 << shift);
        self.data = cleared | ((nibble as u16) << shift);
    }
}

/// The bit at position `i` of a byte.
pub open spec fn bit8_at(data: u8, i: u32) -> bool
    recommends
        i < 8,
{
    (data >> (i as u8)) & 1 == 1
}

/// The byte after storing `bit` at position `i`.
pub open spec fn bit8_set(data: u8, i: u32, bit: bool) -> u8
    recommends
        i < 8,
{
    (data & !(1u8 << (i as u8))) | ((if bit {
        1u8
    } else {
        0u8
    }) << (i as u8))
}

} // verus!
