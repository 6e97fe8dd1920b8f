//! Shift register chips.
//!
//! A shift register stores a fixed number of bits and offers two kinds of
//! access: parallel (the whole value at once) and serial (one bit or one
//! 4-bit digit at a time, from either end). Serial reads and writes move the
//! stored bits over; the width never changes.

use vstd::prelude::*;

verus! {

/// Shifting direction.
#[derive(Debug, Clone, Copy, PartialEq, Eq, Structural)]
pub enum Direction {
    /// Shift left: read the leftmost position, write the rightmost.
    Left,
    /// Shift right: read the rightmost position, write the leftmost.
    Right,
}

/// The mask with the low `n` bits set, for a 64-bit store.
pub open spec fn mask64(n: u32) -> u64
    recommends
        1 <= n <= 64,
{
    u64::MAX >> ((64 - n) as u64)
}

/// The mask with the low `n` bits set, for a 16-bit store.
pub open spec fn mask16(n: u32) -> u16
    recommends
        1 <= n <= 16,
{
    u16::MAX >> ((16 - n) as u32)
}

/// Does `data` hold only the low `n` bits?
pub open spec fn fits64(data: u64, n: u32) -> bool {
    data & mask64(n) == data
}

/// Does `data` hold only the low `n` bits?
pub open spec fn fits16(data: u16, n: u32) -> bool {
    data & mask16(n) == data
}

/// An `n`-bit register after shifting left by one bit and feeding `bit` in
/// at the right end; the bit that falls off the left end is discarded.
pub open spec fn shl_bit64(data: u64, n: u32, bit: bool) -> u64 {
    ((data << 1u64) & mask64(n)) | (if bit {
        1u64
    } else {
        0u64
    })
}

/// An `n`-bit register after shifting right by one bit and feeding `bit` in
/// at the left end.
pub open spec fn shr_bit64(data: u64, n: u32, bit: bool) -> u64 {
    (data >> 1u64) | (if bit {
        1u64 << ((n - 1) as u64)
    } else {
        0u64
    })
}

/// An `n`-bit register after shifting left by one digit and feeding the
/// digit `nib` in at the right end.
pub open spec fn shl_nib64(data: u64, n: u32, nib: u64) -> u64 {
    ((data << 4u64) & mask64(n)) | nib
}

/// An `n`-bit register after shifting right by one digit and feeding the
/// digit `nib` in at the left end.
pub open spec fn shr_nib64(data: u64, n: u32, nib: u64) -> u64 {
    (data >> 4u64) | (nib << ((n - 4) as u64))
}

/// The leftmost bit of an `n`-bit register.
pub open spec fn top_bit64(data: u64, n: u32) -> bool {
    (data >> ((n - 1) as u64)) & 1 == 1
}

/// The rightmost bit.
pub open spec fn low_bit64(data: u64) -> bool {
    data & 1 == 1
}

/// The leftmost digit of an `n`-bit register.
pub open spec fn top_nib64(data: u64, n: u32) -> u64 {
    (data >> ((n - 4) as u64)) & 0xF
}

/// The rightmost digit.
pub open spec fn low_nib64(data: u64) -> u64 {
    data & 0xF
}

/// A 16-bit-store register after shifting left by one bit.
pub open spec fn shl_bit16(data: u16, n: u32, bit: bool) -> u16 {
    ((data << 1u16) & mask16(n)) | (if bit {
        1u16
    } else {
        0u16
    })
}

/// A 16-bit-store register after shifting right by one bit.
pub open spec fn shr_bit16(data: u16, n: u32, bit: bool) -> u16 {
    (data >> 1u16) | (if bit {
        (1u16 << ((n - 1) as u32))
    } else {
        0u16
    })
}

/// The leftmost bit of an `n`-bit register.
pub open spec fn top_bit16(data: u16, n: u32) -> bool {
    (data >> ((n - 1) as u32)) & 1 == 1
}

/// The rightmost bit.
pub open spec fn low_bit16(data: u16) -> bool {
    data & 1 == 1
}

/// Shifting keeps a 64-bit-store register inside its width.
pub broadcast proof fn lemma_shift64_fits(data: u64, n: u32, bit: bool, nib: u64)
    by (bit_vector)
    requires
        4 <= n <= 64,
        fits64(data, n),
        nib <= 0xF,
    ensures
        fits64(#[trigger] shl_bit64(data, n, bit), n),
        fits64(#[trigger] shr_bit64(data, n, bit), n),
        fits64(#[trigger] shl_nib64(data, n, nib), n),
        fits64(#[trigger] shr_nib64(data, n, nib), n),
{
}

/// Shifting keeps a 16-bit-store register inside its width.
pub broadcast proof fn lemma_shift16_fits(data: u16, n: u32, bit: bool)
    by (bit_vector)
    requires
        2 <= n <= 16,
        fits16(data, n),
    ensures
        fits16(#[trigger] shl_bit16(data, n, bit), n),
        fits16(#[trigger] shr_bit16(data, n, bit), n),
{
}

/// A digit read off either end of a register is a 4-bit value.
pub broadcast proof fn lemma_nib64_ends_bound(data: u64, n: u32)
    by (bit_vector)
    ensures
        #[trigger] top_nib64(data, n) < 16,
        #[trigger] low_nib64(data) < 16,
{
}

/// A cleared register fits any width.
pub broadcast proof fn lemma_fits64_zero(n: u32)
    by (bit_vector)
    requires
        1 <= n <= 64,
    ensures
        #[trigger] fits64(0u64, n),
{
}

/// An empty mask has no leading bit and stays empty as it shifts.
pub proof fn lemma_ws_zero(n: u32)
    by (bit_vector)
    requires
        2 <= n <= 16,
    ensures
        !top_bit16(0u16, n),
        !low_bit16(0u16),
        shl_bit16(0u16, n, false) == 0u16,
        shr_bit16(0u16, n, false) == 0u16,
{
}

/// A cleared register fits any width.
pub broadcast proof fn lemma_fits16_zero(n: u32)
    by (bit_vector)
    requires
        1 <= n <= 16,
    ensures
        #[trigger] fits16(0u16, n),
{
}

/// A shift register of up to 64 bits.
///
/// `NUM_BITS` is the hardware width; the value always stays inside it.
#[derive(Clone, Copy)]
pub struct Shifter64<const NUM_BITS: u32> {
    /// The stored bits.
    pub data: u64,
}

impl<const NUM_BITS: u32> View for Shifter64<NUM_BITS> {
    type V = u64;

    open spec fn view(&self) -> u64 {
        self.data
    }
}

impl<const NUM_BITS: u32> Shifter64<NUM_BITS> {
    /// Is the stored value inside the hardware width?
    pub open spec fn wf(&self) -> bool {
        4 <= NUM_BITS <= 64 && fits64(self.data, NUM_BITS)
    }

    /// Create a new shifter holding `data`.
    pub fn new(data: u64) -> (r: Self)
        requires
            4 <= NUM_BITS <= 64,
            fits64(data, NUM_BITS),
        ensures
            r@ == data,
            r.wf(),
    {
        Shifter64 { data }
    }

    /// Read all bits at once.
    pub fn read_parallel(&self) -> (r: u64)
        ensures
            r == self@,
    {
        self.data
    }

    /// Shift by one bit, feeding `bit` in at the trailing end.
    pub fn shift_with_bit(&mut self, direction: Direction, bit: bool)
        requires
            old(self).wf(),
        ensures
            final(self).wf(),
            direction == Direction::Left ==> final(self)@ == shl_bit64(old(self)@, NUM_BITS, bit),
            direction == Direction::Right ==> final(self)@ == shr_bit64(old(self)@, NUM_BITS, bit),
    {
        proof {
            lemma_shift64_fits(self.data, NUM_BITS, bit, 0);
        }
        let mask: u64 = u64::MAX >> ((64 - NUM_BITS) as u64);
        let shifted: u64 = match direction {
            Direction::Left => (self.data << 1u64) & mask,
            Direction::Right => self.data >> 1u64,
        };
        let inject: u64 = if bit {
            match direction {
                Direction::Left => 1u64,
                Direction::Right => 1u64 << ((NUM_BITS - 1) as u64),
            }
        } else {
            0u64
        };
        self.data = shifted | inject;
    }

    /// Shift by one digit, feeding `nibble` in at the trailing end.
    pub fn shift_with_nibble(&mut self, direction: Direction, nibble: u8)
        requires
            old(self).wf(),
            nibble < 16,
        ensures
            final(self).wf(),
            direction == Direction::Left ==> final(self)@ == shl_nib64(
                old(self)@,
                NUM_BITS,
                nibble as u64,
            ),
            direction == Direction::Right ==> final(self)@ == shr_nib64(
                old(self)@,
                NUM_BITS,
                nibble as u64,
            ),
    {
        proof {
            lemma_shift64_fits(self.data, NUM_BITS, false, nibble as u64);
        }
        let mask: u64 = u64::MAX >> ((64 - NUM_BITS) as u64);
        let shifted: u64 = match direction {
            Direction::Left => (self.data << 4u64) & mask,
            Direction::Right => self.data >> 4u64,
        };
        self.data = shifted | (match direction {
            Direction::Left => nibble as u64,
            Direction::Right => (nibble as u64) << ((NUM_BITS - 4) as u64),
        });
    }

    /// Read the bit at the leading end, without shifting.
    pub fn read_bit(self, direction: Direction) -> (r: bool)
        requires
            self.wf(),
        ensures
            direction == Direction::Left ==> r == top_bit64(self@, NUM_BITS),
            direction == Direction::Right ==> r == low_bit64(self@),
    {
        let bit: u64 = match direction {
            Direction::Left => self.data >> ((NUM_BITS - 1) as u64),
            Direction::Right => self.data,
        };
        bit & 1 == 1
    }

    /// Read the digit at the leading end, without shifting.
    pub fn read_nibble(self, direction: Direction) -> (r: u8)
        requires
            self.wf(),
        ensures
            direction == Direction::Left ==> r == top_nib64(self@, NUM_BITS),
            direction == Direction::Right ==> r == low_nib64(self@),
            r < 16,
    {
        let nibble: u64 = match direction {
            Direction::Left => self.data >> ((NUM_BITS - 4) as u64),
            Direction::Right => self.data,
        };
        proof {
            assert((nibble & 0xF) < 16) by (bit_vector);
        }
        (nibble & 0xF) as u8
    }
}

/// A shift register of up to 16 bits.
#[derive(Clone, Copy)]
pub struct Shifter16<const NUM_BITS: u32> {
    /// The stored bits.
    pub data: u16,
}

impl<const NUM_BITS: u32> View for Shifter16<NUM_BITS> {
    type V = u16;

    open spec fn view(&self) -> u16 {
        self.data
    }
}

impl<const NUM_BITS: u32> Shifter16<NUM_BITS> {
    /// Is the stored value inside the hardware width?
    pub open spec fn wf(&self) -> bool {
        2 <= NUM_BITS <= 16 && fits16(self.data, NUM_BITS)
    }

    /// Create a new shifter holding `data`.
    pub fn new(data: u16) -> (r: Self)
        requires
            2 <= NUM_BITS <= 16,
            fits16(data, NUM_BITS),
        ensures
            r@ == data,
            r.wf(),
    {
        Shifter16 { data }
    }

    /// Read all bits at once.
    pub fn read_parallel(&self) -> (r: u16)
        ensures
            r == self@,
    {
        self.data
    }

    /// Shift `in_bit` in at the trailing end; the bit previously at the
    /// leading end comes out.
    pub fn read_and_shift_bit(&mut self, direction: Direction, in_bit: bool) -> (r: bool)
        requires
            old(self).wf(),
        ensures
            final(self).wf(),
            direction == Direction::Left ==> r == top_bit16(old(self)@, NUM_BITS) && final(self)@
                == shl_bit16(old(self)@, NUM_BITS, in_bit),
            direction == Direction::Right ==> r == low_bit16(old(self)@) && final(self)@
                == shr_bit16(old(self)@, NUM_BITS, in_bit),
    {
        let out_bit: bool = self.read_bit(direction);
        self.shift_with_bit(direction, in_bit);
        out_bit
    }

    /// Shift by one bit, feeding `bit` in at the trailing end.
    pub fn shift_with_bit(&mut self, direction: Direction, bit: bool)
        requires
            old(self).wf(),
        ensures
            final(self).wf(),
            direction == Direction::Left ==> final(self)@ == shl_bit16(old(self)@, NUM_BITS, bit),
            direction == Direction::Right ==> final(self)@ == shr_bit16(old(self)@, NUM_BITS, bit),
    {
        proof {
            lemma_shift16_fits(self.data, NUM_BITS, bit);
        }
        let mask: u16 = u16::MAX >> ((16 - NUM_BITS) as u32);
        let shifted: u16 = match direction {
            Direction::Left => (self.data << 1u16) & mask,
            Direction::Right => self.data >> 1u16,
        };
        let inject: u16 = if bit {
            match direction {
                Direction::Left => 1u16,
                Direction::Right => 1u16 << ((NUM_BITS - 1) as u32),
            }
        } else {
            0u16
        };
        self.data = shifted | inject;
    }

    /// Read the bit at the leading end, without shifting.
    pub fn read_bit(self, direction: Direction) -> (r: bool)
        requires
            self.wf(),
        ensures
            direction == Direction::Left ==> r == top_bit16(self@, NUM_BITS),
            direction == Direction::Right ==> r == low_bit16(self@),
    {
        let bit: u16 = match direction {
            Direction::Left => self.data >> ((NUM_BITS - 1) as u32),
            Direction::Right => self.data,
        };
        bit & 1 == 1
    }
}

/// The digits fed into a register by one serial write per element,
/// oldest first, each entering at the trailing end of a left shift.
pub open spec fn spec_push_left(data: u64, n: u32, ds: Seq<u8>) -> u64
    decreases ds.len(),
{
    if ds.len() == 0 {
        data
    } else {
        spec_push_left(shl_nib64(data, n, ds[0] as u64), n, ds.drop_first())
    }
}

/// The digits read off a register's leading end over `k` further left
/// shifts, one digit per shift.
pub open spec fn spec_read_left(data: u64, n: u32, k: nat) -> Seq<u8>
    decreases k,
{
    if k == 0 {
        Seq::empty()
    } else {
        seq![(top_nib64(data, n) as u8)] + spec_read_left(shl_nib64(data, n, 0), n, (k - 1) as nat)
    }
}

/// One left shift moves every digit one position up: position zero takes
/// the new digit, every other position takes its lower neighbour.
proof fn lemma_shl_digit(data: u64, n: u32, nib: u64, i: u32)
    by (bit_vector)
    requires
        4 <= n <= 64,
        n % 4 == 0,
        nib < 16,
        4 * i + 4 <= n,
    ensures
        crate::indexer::nib64_at(shl_nib64(data, n, nib), i) == if i == 0 {
            (nib as u8)
        } else {
            crate::indexer::nib64_at(data, (i - 1) as u32)
        },
        crate::indexer::nib64_at(shl_nib64(data, n, nib), ((n / 4) - 1) as u32) == top_nib64(
            shl_nib64(data, n, nib),
            n,
        ),
        crate::indexer::nib64_at(data, ((n / 4) - 1) as u32) == top_nib64(data, n),
{
}

/// After pushing a digit sequence, the register holds it top-down: the
/// first digit written has risen highest. Positions above the digits
/// just written still hold what was underneath, shifted up.
proof fn lemma_push_left_digits(data: u64, n: u32, ds: Seq<u8>, i: u32)
    requires
        4 <= n <= 64,
        n % 4 == 0,
        forall|j: int| 0 <= j < ds.len() ==> ds[j] < 16,
        4 * i + 4 <= n,
        4 * ds.len() <= n,
    ensures
        crate::indexer::nib64_at(spec_push_left(data, n, ds), i) == if i < ds.len() {
            ds[ds.len() - 1 - i]
        } else {
            crate::indexer::nib64_at(data, (i - ds.len()) as u32)
        },
    decreases ds.len(),
{
    if ds.len() > 0 {
        let rest = ds.drop_first();
        assert forall|j: int| 0 <= j < rest.len() implies rest[j] < 16 by {
            assert(rest[j] == ds[j + 1]);
        }
        lemma_push_left_digits(shl_nib64(data, n, ds[0] as u64), n, rest, i);
        if i < ds.len() {
            if i == ds.len() - 1 {
                // The first digit written sits at the top of the range;
                // pushing the rest lifted it there.
                lemma_shl_digit(data, n, ds[0] as u64, (i - (ds.len() - 1)) as u32);
            } else {
                assert(rest[rest.len() - 1 - i] == ds[ds.len() - 1 - i]);
            }
        } else {
            lemma_shl_digit(data, n, ds[0] as u64, (i - (ds.len() - 1)) as u32);
        }
    }
}

/// Reading `k` digits yields `k` digits.
proof fn lemma_read_left_len(data: u64, n: u32, k: nat)
    ensures
        spec_read_left(data, n, k).len() == k,
    decreases k,
{
    if k > 0 {
        lemma_read_left_len(shl_nib64(data, n, 0), n, (k - 1) as nat);
    }
}

/// Reading with further shifts walks the digits down from the top.
proof fn lemma_read_left_digits(data: u64, n: u32, k: nat, j: int)
    requires
        4 <= n <= 64,
        n % 4 == 0,
        k <= n / 4,
        0 <= j < k,
    ensures
        spec_read_left(data, n, k)[j] == crate::indexer::nib64_at(data, ((n / 4) - 1 - j) as u32),
    decreases k,
{
    lemma_read_left_len(shl_nib64(data, n, 0), n, (k - 1) as nat);
    lemma_shl_digit(data, n, 0, ((n / 4) - 1) as u32);
    if k > 0 {
        if j == 0 {
        } else {
            lemma_read_left_digits(shl_nib64(data, n, 0), n, (k - 1) as nat, j - 1);
            lemma_shl_digit(data, n, 0, ((n / 4) - 1 - (j - 1)) as u32);
        }
    }
}

/// The serial round trip: writing a register's worth of digits in at one
/// end and then reading the same end over as many further shifts yields
/// the digits back in the order they went in.
pub proof fn lemma_serial_round_trip(ds: Seq<u8>, n: u32)
    requires
        4 <= n <= 64,
        n % 4 == 0,
        ds.len() == n / 4,
        forall|j: int| 0 <= j < ds.len() ==> ds[j] < 16,
    ensures
        spec_read_left(spec_push_left(0, n, ds), n, ds.len()) == ds,
{
    let full = spec_push_left(0, n, ds);
    assert forall|j: int| 0 <= j < ds.len() implies spec_read_left(full, n, ds.len())[j] == ds[j]
    by {
        lemma_read_left_digits(full, n, ds.len(), j);
        lemma_push_left_digits(0, n, ds, ((n / 4) - 1 - j) as u32);
    }
    lemma_read_left_len(full, n, ds.len());
    assert(spec_read_left(full, n, ds.len()) =~= ds);
}

/// The digits fed into a register by one serial write per element,
/// oldest first, each entering at the trailing end of a right shift.
pub open spec fn spec_push_right(data: u64, n: u32, ds: Seq<u8>) -> u64
    decreases ds.len(),
{
    if ds.len() == 0 {
        data
    } else {
        spec_push_right(shr_nib64(data, n, ds[0] as u64), n, ds.drop_first())
    }
}

/// The digits read off a register's trailing end over `k` further right
/// shifts, one digit per shift.
pub open spec fn spec_read_right(data: u64, n: u32, k: nat) -> Seq<u8>
    decreases k,
{
    if k == 0 {
        Seq::empty()
    } else {
        seq![(low_nib64(data) as u8)] + spec_read_right(shr_nib64(data, n, 0), n, (k - 1) as nat)
    }
}

/// One right shift moves every digit one position down: the top position
/// takes the new digit, every other position takes its upper neighbour.
proof fn lemma_shr_digit(data: u64, n: u32, nib: u64, i: u32)
    by (bit_vector)
    requires
        4 <= n <= 64,
        n % 4 == 0,
        nib < 16,
        fits64(data, n),
        4 * i + 4 <= n,
    ensures
        crate::indexer::nib64_at(shr_nib64(data, n, nib), i) == if i == (n / 4) - 1 {
            (nib as u8)
        } else {
            crate::indexer::nib64_at(data, (i + 1) as u32)
        },
        crate::indexer::nib64_at(data, 0) == low_nib64(data),
{
}

/// After pushing a digit sequence from the top, the register holds it
/// bottom-up: the first digit written has sunk lowest.
proof fn lemma_push_right_digits(data: u64, n: u32, ds: Seq<u8>, i: u32)
    requires
        4 <= n <= 64,
        n % 4 == 0,
        fits64(data, n),
        forall|j: int| 0 <= j < ds.len() ==> ds[j] < 16,
        4 * i + 4 <= n,
        4 * ds.len() <= n,
    ensures
        crate::indexer::nib64_at(spec_push_right(data, n, ds), i) == if i >= (n / 4) - ds.len() {
            ds[i + ds.len() - (n / 4)]
        } else {
            crate::indexer::nib64_at(data, (i + ds.len()) as u32)
        },
    decreases ds.len(),
{
    if ds.len() > 0 {
        let rest = ds.drop_first();
        assert forall|j: int| 0 <= j < rest.len() implies rest[j] < 16 by {
            assert(rest[j] == ds[j + 1]);
        }
        lemma_shift64_fits(data, n, false, ds[0] as u64);
        lemma_push_right_digits(shr_nib64(data, n, ds[0] as u64), n, rest, i);
        if i >= (n / 4) - ds.len() {
            if i == (n / 4) - ds.len() {
                // The first digit written has sunk to the bottom of the
                // written range; the recursion saw it enter at the top.
                lemma_shr_digit(data, n, ds[0] as u64, ((i + ds.len()) - 1) as u32);
            } else {
                assert(rest[i + rest.len() - (n / 4)] == ds[i + ds.len() - (n / 4)]);
            }
        } else {
            lemma_shr_digit(data, n, ds[0] as u64, ((i + ds.len()) - 1) as u32);
        }
    }
}

/// Reading with further right shifts walks the digits up from the
/// bottom.
proof fn lemma_read_right_digits(data: u64, n: u32, k: nat, j: int)
    requires
        4 <= n <= 64,
        n % 4 == 0,
        fits64(data, n),
        k <= n / 4,
        0 <= j < k,
    ensures
        spec_read_right(data, n, k).len() == k,
        spec_read_right(data, n, k)[j] == crate::indexer::nib64_at(data, j as u32),
    decreases k,
{
    lemma_shr_digit(data, n, 0, 0);
    lemma_shift64_fits(data, n, false, 0);
    if k > 0 {
        if j == 0 {
            lemma_read_right_len(shr_nib64(data, n, 0), n, (k - 1) as nat);
        } else {
            lemma_read_right_digits(shr_nib64(data, n, 0), n, (k - 1) as nat, j - 1);
            lemma_shr_digit(data, n, 0, (j - 1) as u32);
        }
    }
}

/// Pushing digits keeps the register inside its width.
proof fn lemma_push_right_fits(data: u64, n: u32, ds: Seq<u8>)
    requires
        4 <= n <= 64,
        fits64(data, n),
        forall|j: int| 0 <= j < ds.len() ==> ds[j] < 16,
    ensures
        fits64(spec_push_right(data, n, ds), n),
    decreases ds.len(),
{
    if ds.len() > 0 {
        let rest = ds.drop_first();
        assert forall|j: int| 0 <= j < rest.len() implies rest[j] < 16 by {
            assert(rest[j] == ds[j + 1]);
        }
        lemma_shift64_fits(data, n, false, ds[0] as u64);
        lemma_push_right_fits(shr_nib64(data, n, ds[0] as u64), n, rest);
    }
}

/// Reading `k` digits yields `k` digits.
proof fn lemma_read_right_len(data: u64, n: u32, k: nat)
    ensures
        spec_read_right(data, n, k).len() == k,
    decreases k,
{
    if k > 0 {
        lemma_read_right_len(shr_nib64(data, n, 0), n, (k - 1) as nat);
    }
}

/// The serial round trip through the other end: writing a register's
/// worth of digits in at the top and then reading the bottom over as
/// many further shifts also yields the digits back in order.
pub proof fn lemma_serial_round_trip_right(ds: Seq<u8>, n: u32)
    requires
        4 <= n <= 64,
        n % 4 == 0,
        ds.len() == n / 4,
        forall|j: int| 0 <= j < ds.len() ==> ds[j] < 16,
    ensures
        spec_read_right(spec_push_right(0, n, ds), n, ds.len()) == ds,
{
    let full = spec_push_right(0, n, ds);
    lemma_fits64_zero(n);
    lemma_push_right_fits(0, n, ds);
    assert forall|j: int| 0 <= j < ds.len() implies spec_read_right(full, n, ds.len())[j] == ds[j]
    by {
        lemma_read_right_digits(full, n, ds.len(), j);
        lemma_push_right_digits(0, n, ds, j as u32);
    }
    lemma_read_right_len(full, n, ds.len());
    assert(spec_read_right(full, n, ds.len()) =~= ds);
}

} // verus!
