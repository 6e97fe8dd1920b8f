//! The control half of the TMS0800: program counter, the two 11-bit flag
//! registers, the keyboard scan shifter, and the non-arithmetic
//! instruction classes.

use vstd::prelude::*;

verus! {

broadcast use
    crate::shifter::lemma_shift16_fits,
    crate::shifter::lemma_fits16_zero,
    crate::bitops::lemma_u16_mask511;

use crate::shifter::Direction;
use crate::shifter::Shifter16;
use crate::shifter::shr_bit16;
use crate::shifter::low_bit16;
use super::alu::WordSelect;

/// An 11-bit flag register, one flag per digit position.
pub type Flag = Shifter16<11>;

/// TMS0800 control unit.
pub struct ControlUnit {
    /// The nine-bit program counter.
    pub pc: u16,
    /// Flag register A.
    pub fa: Flag,
    /// Flag register B.
    pub fb: Flag,
    /// The keyboard scan shifter. The patent draws eleven bits, but the
    /// eleventh is always skipped over, so ten bits carry the scan.
    pub d: Shifter16<10>,
    /// The keyboard's current line pattern, driven from outside.
    pub current_keypress: u16,
}

/// The program counter after its increment, wrapping at nine bits.
pub open spec fn spec_inc_pc(pc: u16) -> u16 {
    (((pc + 1) % 512) as u16)
}

/// The program counter one step back, wrapping at nine bits.
pub open spec fn spec_dec_pc(pc: u16) -> u16 {
    (((pc + 511) % 512) as u16)
}

/// The jump target packed in an opcode's low nine bits.
pub open spec fn spec_jump_addr(opcode: u16) -> u16 {
    ((opcode % 512) as u16)
}

/// The rolling state of one control-class instruction: the program
/// counter, both flag registers, the word-select mask still to be
/// consumed, and the carry.
pub ghost struct CtlPass {
    /// The nine-bit program counter.
    pub pc: u16,
    /// Flag register A's bits.
    pub fa: u16,
    /// Flag register B's bits.
    pub fb: u16,
    /// The word-select mask still to be consumed.
    pub ws: u16,
    /// The carry line.
    pub carry: bool,
}

/// One bit position of a control-class instruction: read the leading
/// flag bits, apply the instruction if the word-select bit names this
/// position, and rotate both flag registers by one bit. `i` is the
/// position's number: the synchronizing instructions act only at the
/// first one.
pub open spec fn spec_ctl_pass(
    st: CtlPass,
    i: nat,
    instruction: u8,
    addr: u16,
    d_all: u16,
    keypress: u16,
) -> CtlPass {
    let fa_bit = low_bit16(st.fa);
    let fb_bit = low_bit16(st.fb);
    let ws_next = shr_bit16(st.ws, 11, false);
    if low_bit16(st.ws) {
        let (pc2, fa2, fb2, carry2) = if instruction <= 15 {
            ((if d_all == keypress {
                addr
            } else {
                st.pc
            }), fa_bit, fb_bit, st.carry)
        } else if instruction == 17 || instruction == 18 {
            ((if keypress == 0 {
                spec_dec_pc(st.pc)
            } else {
                addr
            }), fa_bit, fb_bit, st.carry)
        } else if instruction == 19 {
            (st.pc, fa_bit, true, st.carry)
        } else if instruction == 20 {
            (st.pc, true, fb_bit, st.carry)
        } else if instruction == 21 {
            ((if !low_bit16(d_all) && i == 0 {
                spec_dec_pc(st.pc)
            } else {
                st.pc
            }), fa_bit, fb_bit, st.carry)
        } else if instruction == 22 {
            ((if !low_bit16(d_all) && i == 0 {
                spec_dec_pc(st.pc)
            } else {
                st.pc
            }), fa_bit, fb_bit, keypress != 0)
        } else if instruction == 23 {
            (st.pc, fa_bit, false, st.carry)
        } else if instruction == 24 {
            (st.pc, false, fb_bit, st.carry)
        } else if instruction == 25 {
            (st.pc, fa_bit, fb_bit, st.carry || fb_bit)
        } else if instruction == 26 {
            (st.pc, fa_bit, fb_bit, st.carry || fa_bit)
        } else if instruction == 27 {
            (st.pc, fa_bit, !fb_bit, st.carry)
        } else if instruction == 28 {
            (st.pc, !fa_bit, fb_bit, st.carry)
        } else if instruction == 29 {
            (st.pc, fa_bit, fb_bit, st.carry || (fb_bit != fa_bit))
        } else if instruction == 31 {
            (st.pc, fb_bit, fa_bit, st.carry)
        } else {
            (st.pc, fa_bit, fb_bit, st.carry)
        };
        CtlPass {
            pc: pc2,
            fa: shr_bit16(st.fa, 11, fa2),
            fb: shr_bit16(st.fb, 11, fb2),
            ws: ws_next,
            carry: carry2,
        }
    } else {
        CtlPass {
            pc: st.pc,
            fa: shr_bit16(st.fa, 11, fa_bit),
            fb: shr_bit16(st.fb, 11, fb_bit),
            ws: ws_next,
            carry: st.carry,
        }
    }
}

/// `n` bit positions in a row, starting at position `i`.
pub open spec fn spec_ctl_cycle(
    st: CtlPass,
    i: nat,
    n: nat,
    instruction: u8,
    addr: u16,
    d_all: u16,
    keypress: u16,
) -> CtlPass
    decreases n,
{
    if n == 0 {
        st
    } else {
        spec_ctl_cycle(
            spec_ctl_pass(st, i, instruction, addr, d_all, keypress),
            i + 1,
            (n - 1) as nat,
            instruction,
            addr,
            d_all,
            keypress,
        )
    }
}

impl ControlUnit {
    /// The unit's internal invariant.
    pub open spec fn wf(&self) -> bool {
        &&& self.pc < 512
        &&& self.fa.wf()
        &&& self.fb.wf()
        &&& self.d.wf()
    }

    /// Power-on state: the scan shifter holds its single circulating
    /// bit at the top.
    pub fn new() -> (r: Self)
        ensures
            r.wf(),
            r.pc == 0,
            r.fa@ == 0,
            r.fb@ == 0,
            r.d@ == 0b1000000000,
            r.current_keypress == 0,
    {
        proof {
            assert(crate::shifter::fits16(0b1000000000u16, 10)) by (bit_vector);
        }
        ControlUnit {
            pc: 0,
            fa: Shifter16::new(0),
            fb: Shifter16::new(0),
            d: Shifter16::new(0b1000000000),
            current_keypress: 0,
        }
    }

    /// Decode and execute the non-arithmetic part of one instruction.
    ///
    /// Class zero and one are the carry-consuming jumps: whichever way
    /// they go, the carry comes out clear. Class two walks the digit
    /// positions under the word-select mask, moving flags and scanning
    /// the keyboard; apart from the scan instruction it can only set the
    /// carry, never clear it — the sticky latch. Class three is the
    /// arithmetic class, handled next door; here it only re-enters the
    /// key-tally instruction until the scan is done, and passes the
    /// carry through untouched. The waiting instructions never block:
    /// they step the program counter back onto the same word and return.
    pub fn run_cycle(
        &mut self,
        word_select: WordSelect,
        opcode: u16,
        class: u8,
        instruction: u8,
        carry: bool,
    ) -> (r: bool)
        requires
            old(self).wf(),
            word_select.wf(),
            class < 4,
            instruction < 32,
            opcode < 2048,
        ensures
            final(self).wf(),
            final(self).current_keypress == old(self).current_keypress,
            final(self).d@ == shr_bit16(old(self).d@, 10, low_bit16(old(self).d@)),
            class == 0 ==> r == false && final(self).pc == (if !carry {
                spec_jump_addr(opcode)
            } else {
                spec_inc_pc(old(self).pc)
            }) && final(self).fa == old(self).fa && final(self).fb == old(self).fb,
            class == 1 ==> r == false && final(self).pc == (if carry {
                spec_jump_addr(opcode)
            } else {
                spec_inc_pc(old(self).pc)
            }) && final(self).fa == old(self).fa && final(self).fb == old(self).fb,
            class == 3 ==> r == carry && final(self).fa == old(self).fa && final(self).fb == old(
                self,
            ).fb && final(self).pc == (if instruction == 0x1A && ((old(self).d@ | 1)
                != old(self).current_keypress) {
                old(self).pc
            } else {
                spec_inc_pc(old(self).pc)
            }),
            class == 2 && instruction != 22 && carry ==> r,
            // The control class in full: eleven bit positions folded
            // through the instruction under the word-select mask.
            class == 2 ==> ({
                let end = spec_ctl_cycle(
                    CtlPass {
                        pc: spec_inc_pc(old(self).pc),
                        fa: old(self).fa@,
                        fb: old(self).fb@,
                        ws: word_select@,
                        carry,
                    },
                    0,
                    11,
                    instruction,
                    spec_jump_addr(opcode),
                    old(self).d@,
                    old(self).current_keypress,
                );
                &&& final(self).pc == end.pc
                &&& final(self).fa@ == end.fa
                &&& final(self).fb@ == end.fb
                &&& r == end.carry
            }),
            // The pure flag instructions touch nothing but the flag
            // registers: the counter steps and the carry passes through.
            class == 2 && (instruction == 16 || instruction == 19 || instruction == 20
                || instruction == 23 || instruction == 24 || instruction == 27 || instruction == 28
                || instruction == 30 || instruction == 31) ==> final(self).pc == spec_inc_pc(
                old(self).pc,
            ) && r == carry,
    {
        self.pc = (self.pc + 1) & 0x1FF;
        let addr: u16 = mask_addr(opcode);
        let d: bool = self.d.read_bit(Direction::Right);
        let mut carry: bool = carry;
        match class {
            0 => {
                if !carry {
                    self.pc = addr;
                } else {
                    // The patent's comments show the untaken jump still
                    // consuming the carry.
                    carry = false;
                }
            },
            1 => {
                if carry {
                    self.pc = addr;
                    carry = false;
                }
            },
            2 => {
                let ghost entry_carry = carry;
                let ghost st0 = CtlPass {
                    pc: self.pc,
                    fa: self.fa@,
                    fb: self.fb@,
                    ws: word_select@,
                    carry,
                };
                let mut ws: WordSelect = word_select;
                let mut i: u8 = 0;
                while i < 11
                    invariant
                        i <= 11,
                        addr < 512,
                        instruction < 32,
                        self.pc < 512,
                        self.fa.wf(),
                        self.fb.wf(),
                        self.d.wf(),
                        ws.wf(),
                        self.d == old(self).d,
                        self.current_keypress == old(self).current_keypress,
                        d == low_bit16(old(self).d@),
                        instruction != 22 && entry_carry ==> carry,
                        instruction == 16 || instruction == 19 || instruction == 20 || instruction
                            == 23 || instruction == 24 || instruction == 27 || instruction == 28
                            || instruction == 30 || instruction == 31 ==> self.pc == spec_inc_pc(
                            old(self).pc,
                        ) && carry == entry_carry,
                        spec_ctl_cycle(
                            CtlPass { pc: self.pc, fa: self.fa@, fb: self.fb@, ws: ws@, carry },
                            i as nat,
                            (11 - i) as nat,
                            instruction,
                            addr,
                            old(self).d@,
                            old(self).current_keypress,
                        ) == spec_ctl_cycle(
                            st0,
                            0,
                            11,
                            instruction,
                            addr,
                            old(self).d@,
                            old(self).current_keypress,
                        ),
                    decreases 11 - i,
                {
                    self.flag_pass(&mut ws, &mut carry, i, instruction, addr, d);
                    i = i + 1;
                }
            },
            _ => {
                // Class three: the register instruction ran in the
                // arithmetic unit. AKCN keeps re-entering this word
                // while it tallies the key code.
                if instruction == 0x1A {
                    if self.d.read_parallel() | 0b1 != self.current_keypress {
                        self.dec_pc();
                    }
                }
            },
        }
        self.d.shift_with_bit(Direction::Right, d);
        carry
    }

    /// One bit position of a control-class instruction, exactly as
    /// [`spec_ctl_pass`] states it.
    #[verifier::rlimit(100)]
    fn flag_pass(
        &mut self,
        ws: &mut WordSelect,
        carry: &mut bool,
        i: u8,
        instruction: u8,
        addr: u16,
        d_bit: bool,
    )
        requires
            old(self).pc < 512,
            old(self).fa.wf(),
            old(self).fb.wf(),
            old(self).d.wf(),
            old(ws).wf(),
            instruction < 32,
            addr < 512,
            d_bit == low_bit16(old(self).d@),
        ensures
            final(self).pc < 512,
            final(self).fa.wf(),
            final(self).fb.wf(),
            final(ws).wf(),
            final(self).d == old(self).d,
            final(self).current_keypress == old(self).current_keypress,
            (CtlPass {
                pc: final(self).pc,
                fa: final(self).fa@,
                fb: final(self).fb@,
                ws: final(ws)@,
                carry: *final(carry),
            }) == spec_ctl_pass(
                CtlPass {
                    pc: old(self).pc,
                    fa: old(self).fa@,
                    fb: old(self).fb@,
                    ws: old(ws)@,
                    carry: *old(carry),
                },
                i as nat,
                instruction,
                addr,
                old(self).d@,
                old(self).current_keypress,
            ),
    {
        let mut fa: bool = self.fa.read_bit(Direction::Right);
        let mut fb: bool = self.fb.read_bit(Direction::Right);
        if ws.read_and_shift_bit(Direction::Right, false) {
            match instruction {
                0..=15 => {
                    // Jump on key match.
                    if self.d.read_parallel() == self.current_keypress {
                        self.pc = addr;
                    }
                },
                17 | 18 => {
                    // WAITDK and WAITNO: the jump is part of the
                    // instruction. With no key down, step back onto
                    // this word; never block.
                    if self.current_keypress == 0 {
                        self.dec_pc();
                    } else {
                        self.pc = addr;
                    }
                },
                19 => {
                    fb = true;
                },
                20 => {
                    fa = true;
                },
                21 => {
                    // SYNC: step back until the scan bit resets.
                    if !d_bit && i == 0 {
                        self.dec_pc();
                    }
                },
                22 => {
                    // SCAN: the one control-class instruction that
                    // writes the carry outright.
                    if !d_bit && i == 0 {
                        self.dec_pc();
                    }
                    *carry = self.current_keypress != 0;
                },
                23 => {
                    fb = false;
                },
                24 => {
                    fa = false;
                },
                25 => {
                    // Test flag B. The patent only shows this setting
                    // the carry, never resetting it.
                    if fb {
                        *carry = true;
                    }
                },
                26 => {
                    // Test flag A; sets only, as above.
                    if fa {
                        *carry = true;
                    }
                },
                27 => {
                    fb = !fb;
                },
                28 => {
                    fa = !fa;
                },
                29 => {
                    // Compare flags; sets only, as above.
                    if fb != fa {
                        *carry = true;
                    }
                },
                31 => {
                    let swap: bool = fb;
                    fb = fa;
                    fa = swap;
                },
                _ => {},  // 16 and 30: no operation
            }
        }
        self.fa.shift_with_bit(Direction::Right, fa);
        self.fb.shift_with_bit(Direction::Right, fb);
    }

    /// Step the program counter back one word, wrapping at nine bits.
    fn dec_pc(&mut self)
        requires
            old(self).pc < 512,
        ensures
            *final(self) == (ControlUnit { pc: spec_dec_pc(old(self).pc), ..*old(self) }),
            final(self).pc < 512,
    {
        self.pc = (self.pc + 511) & 0x1FF;
    }
}

/// The jump target packed in an opcode's low nine bits.
fn mask_addr(opcode: u16) -> (r: u16)
    ensures
        r == spec_jump_addr(opcode),
        r < 512,
{
    opcode & 0x1FF
}

} // verus!
