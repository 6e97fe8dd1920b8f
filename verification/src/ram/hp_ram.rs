//! The auxiliary data storage of the classic calculators, first used
//! when the line grew registers beyond the arithmetic chip's own.

use vstd::prelude::*;

verus! {

broadcast use crate::shifter::lemma_fits64_zero, crate::shifter::lemma_shift64_fits;

use crate::shifter::Direction;
use crate::shifter::Shifter64;

/// The same fourteen-digit register the arithmetic chip uses.
pub type Register = Shifter64<56>;

/// Auxiliary data storage.
#[allow(non_camel_case_types)]
pub struct HP_RAM<const REG_COUNT: usize> {
    /// The register the last addressing instruction selected.
    pub addr: u8,
    /// The stored registers.
    pub regs: Vec<Register>,
}

impl<const REG_COUNT: usize> HP_RAM<REG_COUNT> {
    /// The storage's internal invariant: the advertised register count
    /// is real, and every register is inside its width.
    pub open spec fn wf(&self) -> bool {
        &&& self.regs@.len() == REG_COUNT
        &&& forall|i: int| 0 <= i < self.regs@.len() ==> (#[trigger] self.regs@[i]).wf()
        &&& self.addr < 16
    }

    /// Create cleared storage.
    pub fn new() -> (r: Self)
        requires
            REG_COUNT < 16,
        ensures
            r.wf(),
            r.addr == 0,
            forall|i: int| 0 <= i < REG_COUNT ==> (#[trigger] r.regs@[i])@ == 0,
    {
        let mut regs: Vec<Register> = Vec::new();
        let mut i: usize = 0;
        while i < REG_COUNT
            invariant
                i <= REG_COUNT,
                regs@.len() == i,
                forall|j: int| 0 <= j < i ==> (#[trigger] regs@[j]).wf() && regs@[j]@ == 0,
            decreases REG_COUNT - i,
        {
            regs.push(Shifter64::new(0));
            i = i + 1;
        }
        HP_RAM { addr: 0, regs }
    }

    /// Carry one instruction's worth of storage traffic: the addressing
    /// opcodes latch a register number out of the C register's exponent
    /// field, the store opcode copies C in, and the currently addressed
    /// register comes back out every cycle. An address past the
    /// registers that exist reads blank and swallows writes, as absent
    /// hardware would.
    pub fn run_cycle(&mut self, opcode: u16, c: Register) -> (r: Register)
        requires
            old(self).wf(),
            c.wf(),
        ensures
            final(self).wf(),
            r.wf(),
            opcode == 0b1001110000 || opcode == 0b1101110000 ==> final(self).addr == (c@
                / 0x1000000000000) % 0x10 && final(self).regs == old(self).regs,
            opcode == 0b1011110000 ==> final(self).addr == old(self).addr && (old(self).addr
                < REG_COUNT ==> final(self).regs@ == old(self).regs@.update(
                old(self).addr as int,
                c,
            )) && (old(self).addr >= REG_COUNT ==> final(self).regs == old(self).regs),
            !(opcode == 0b1001110000 || opcode == 0b1101110000 || opcode == 0b1011110000)
                ==> *final(self) == *old(self),
            final(self).addr < REG_COUNT ==> r == final(self).regs@[final(self).addr as int],
            final(self).addr >= REG_COUNT ==> r@ == 0,
    {
        if opcode == 0b1001110000 || opcode == 0b1101110000 {
            // Send address from C to storage: skip the mantissa sign
            // digit, read the next one.
            let mut c_shift: Register = c;
            c_shift.shift_with_nibble(Direction::Left, 0);
            let selected: u8 = c_shift.read_nibble(Direction::Left);
            proof {
                let x: u64 = c@;
                assert(crate::shifter::fits64(x, 56) ==> crate::shifter::top_nib64(
                    crate::shifter::shl_nib64(x, 56, 0u64),
                    56,
                ) == (x / 0x1000000000000) % 0x10 && (x / 0x1000000000000) % 0x10 < 16)
                    by (bit_vector);
            }
            self.addr = selected;
        } else if opcode == 0b1011110000 {
            // Send data from C into storage.
            if (self.addr as usize) < self.regs.len() {
                let addr: usize = self.addr as usize;
                self.regs[addr] = c;
            }
        }
        if (self.addr as usize) < self.regs.len() {
            self.regs[self.addr as usize]
        } else {
            Shifter64::new(0)
        }
    }
}

} // verus!
