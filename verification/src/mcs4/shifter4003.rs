//! The 4003: a ten-bit shift register with serial and parallel read-out,
//! clocked by a pulse line. Data shifts only when the pulse falls.

use vstd::prelude::*;

verus! {

broadcast use crate::shifter::lemma_fits16_zero;

use crate::shifter::Direction;
use crate::shifter::Shifter16;
use crate::shifter::shl_bit16;
use crate::shifter::shr_bit16;
use crate::shifter::top_bit16;
use crate::shifter::low_bit16;

/// Intel 4003 chip.
#[derive(Clone, Copy)]
pub struct Shifter {
    /// The ten stored bits.
    pub shifter: Shifter16<10>,
    /// The pulse level seen on the previous call; a shift happens only
    /// when the level falls from high to low.
    pub pulse: bool,
}

impl Shifter {
    /// Is the stored value inside ten bits?
    pub open spec fn wf(&self) -> bool {
        self.shifter.wf()
    }

    /// Create a cleared shifter chip.
    pub fn new() -> (r: Self)
        ensures
            r.wf(),
            r.shifter@ == 0,
            !r.pulse,
    {
        Shifter { shifter: Shifter16::new(0), pulse: false }
    }

    /// Read the leading bit and, when the pulse falls, shift `in_bit` in;
    /// with the pulse anywhere else the write is ignored.
    pub fn read_write_serial(&mut self, direction: Direction, in_bit: bool, pulse: bool) -> (r:
        bool)
        requires
            old(self).wf(),
        ensures
            final(self).wf(),
            final(self).pulse == pulse,
            direction == Direction::Left ==> r == top_bit16(old(self).shifter@, 10),
            direction == Direction::Right ==> r == low_bit16(old(self).shifter@),
            old(self).pulse && !pulse ==> {
                &&& direction == Direction::Left ==> final(self).shifter@ == shl_bit16(
                    old(self).shifter@,
                    10,
                    in_bit,
                )
                &&& direction == Direction::Right ==> final(self).shifter@ == shr_bit16(
                    old(self).shifter@,
                    10,
                    in_bit,
                )
            },
            !(old(self).pulse && !pulse) ==> final(self).shifter == old(self).shifter,
    {
        let out_bit: bool = self.shifter.read_bit(direction);
        if self.pulse && !pulse {
            self.shifter.shift_with_bit(direction, in_bit);
        }
        self.pulse = pulse;
        out_bit
    }

    /// Read all ten bits at once.
    pub fn read_parallel(&self) -> (r: u16)
        ensures
            r == self.shifter@,
    {
        self.shifter.read_parallel()
    }
}

} // verus!
