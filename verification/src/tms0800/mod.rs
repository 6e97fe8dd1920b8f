//! The TMS0800 family, a calculator on a chip from 1973.
//!
//! A 320-word ROM of 11-bit opcodes feeds two co-executing halves: the
//! control unit decodes the two-bit instruction class and owns the
//! program counter and flags, and the bit-serial arithmetic unit runs the
//! register instructions, handing one carry bit back. The carry the chip
//! keeps between instructions is a sticky latch: the arithmetic unit can
//! only set it, and nothing clears it but the two carry-consuming jumps
//! and the explicit scan instruction.

use vstd::prelude::*;

pub mod alu;
pub mod control;

verus! {

broadcast use
    crate::bitops::lemma_u8_mask15,
    crate::bitops::lemma_u8_mask31,
    crate::bitops::lemma_u16_shr4,
    crate::bitops::lemma_u16_shr9;

use crate::shifter::Shifter16;

/// Which opcodes may pull the sticky carry latch down: the two jump
/// classes consume it, and the scan instruction of the control class
/// rewrites it. No other instruction ever clears the latch.
pub open spec fn spec_consumes_carry(opcode: u16) -> bool {
    let class = opcode / 512;
    let instruction = (opcode / 16) % 32;
    class == 0 || class == 1 || (class == 2 && instruction == 22)
}

/// The word the chip fetches this cycle: the ROM entry under the
/// program counter, or the bus's idle zero past the 320 words.
pub open spec fn spec_fetch(chip: TMS0800) -> u16 {
    if chip.control.pc < 320 {
        chip.rom@[chip.control.pc as int]
    } else {
        0u16
    }
}

/// What the arithmetic unit leaves behind for a fetched word: the
/// eleven-pass fold of its micro-operation under the indexed
/// word-select mask, starting from a clear carry and a charged
/// constant latch.
pub open spec fn spec_alu_result(chip: TMS0800, opcode: u16) -> alu::AluPass {
    let instruction = ((opcode / 16) % 32) as u8;
    let mask = (opcode % 16) as u8;
    alu::spec_alu_cycle(
        alu::AluPass {
            a: chip.alu.a@,
            b: chip.alu.b@,
            c: chip.alu.c@,
            ws: chip.word_selects@[mask as int],
            carry: false,
            prev: 0,
            first: true,
        },
        chip.alu.opcodes@[instruction as int],
        chip.alu.constants@[mask as int],
        alu::spec_direction(instruction),
        11,
    )
}

/// TMS0800 calculator chip.
pub struct TMS0800 {
    /// The 320 words of program ROM, eleven bits each.
    pub rom: [u16; 320],
    /// The arithmetic unit.
    pub alu: alu::ALU,
    /// The control unit.
    pub control: control::ControlUnit,
    /// The sixteen word-select masks the four mask bits index.
    pub word_selects: [u16; 16],
    /// The sticky carry latch, the chip's one branching condition.
    pub carry: bool,
}

impl TMS0800 {
    /// The chip's internal invariant: ROM words and masks inside eleven
    /// bits, both halves sound.
    pub open spec fn wf(&self) -> bool {
        &&& self.alu.wf()
        &&& self.control.wf()
        &&& forall|i: int| 0 <= i < 320 ==> (#[trigger] self.rom@[i]) < 2048
        &&& forall|i: int| 0 <= i < 16 ==> (#[trigger] self.word_selects@[i]) < 2048
    }

    /// Build the chip from its ROM image, its decoded micro-operation
    /// table, its word-select masks and its constant table.
    pub fn new(
        rom: [u16; 320],
        opcodes: [alu::Opcode; 32],
        word_selects: [u16; 16],
        constants: [u8; 16],
    ) -> (r: Self)
        requires
            forall|i: int| 0 <= i < 320 ==> (#[trigger] rom@[i]) < 2048,
            forall|i: int| 0 <= i < 16 ==> (#[trigger] word_selects@[i]) < 2048,
            forall|i: int| 0 <= i < 16 ==> (#[trigger] constants@[i]) < 16,
        ensures
            r.wf(),
            !r.carry,
            r.control.pc == 0,
    {
        TMS0800 {
            rom,
            alu: alu::ALU::new(opcodes, constants),
            control: control::ControlUnit::new(),
            word_selects,
            carry: false,
        }
    }

    /// Execute one instruction: fetch the word at the program counter,
    /// hand the register class to the arithmetic unit, then let the
    /// control unit decode its part and merge the carry.
    ///
    /// The sticky latch never falls on its own: whenever the fetched
    /// opcode is not one of the carry-consuming ones, a set latch stays
    /// set, whatever the instruction did.
    pub fn run_cycle(&mut self)
        requires
            old(self).wf(),
        ensures
            final(self).wf(),
            final(self).rom == old(self).rom,
            final(self).word_selects == old(self).word_selects,
            old(self).carry && !spec_consumes_carry(spec_fetch(*old(self)))
                ==> final(self).carry,
            // The register class runs the arithmetic unit: its fold
            // lands in the registers, and its final carry can only
            // raise the latch.
            ({
                let op = spec_fetch(*old(self));
                let end = spec_alu_result(*old(self), op);
                &&& op / 512 == 3 ==> final(self).alu.a@ == end.a && final(self).alu.b@ == end.b
                    && final(self).alu.c@ == end.c
                &&& op / 512 != 3 ==> final(self).alu == old(self).alu
                &&& final(self).alu.opcodes == old(self).alu.opcodes
                &&& final(self).alu.constants == old(self).alu.constants
            }),
            // The control half's exact clauses, with the merged carry
            // fed in: the jumps consume it, the register class passes
            // it through.
            ({
                let op = spec_fetch(*old(self));
                let merged = old(self).carry || (op / 512 == 3 && spec_alu_result(
                    *old(self),
                    op,
                ).carry);
                &&& op / 512 == 0 ==> !final(self).carry && final(self).control.pc == (if !merged {
                    control::spec_jump_addr(op)
                } else {
                    control::spec_inc_pc(old(self).control.pc)
                }) && final(self).control.fa == old(self).control.fa && final(self).control.fb
                    == old(self).control.fb
                &&& op / 512 == 1 ==> !final(self).carry && final(self).control.pc == (if merged {
                    control::spec_jump_addr(op)
                } else {
                    control::spec_inc_pc(old(self).control.pc)
                }) && final(self).control.fa == old(self).control.fa && final(self).control.fb
                    == old(self).control.fb
                &&& op / 512 == 3 ==> final(self).carry == merged
                    && final(self).control.fa == old(self).control.fa
                    && final(self).control.fb == old(self).control.fb
                    && final(self).control.pc == (if (op / 16) % 32 == 0x1A
                        && ((old(self).control.d@ | 1) != old(self).control.current_keypress) {
                    old(self).control.pc
                } else {
                    control::spec_inc_pc(old(self).control.pc)
                })
            }),
            // The control class in full, from the control unit's fold:
            // flags, counter and carry, the key scan included.
            ({
                let op = spec_fetch(*old(self));
                let end = control::spec_ctl_cycle(
                    control::CtlPass {
                        pc: control::spec_inc_pc(old(self).control.pc),
                        fa: old(self).control.fa@,
                        fb: old(self).control.fb@,
                        ws: old(self).word_selects@[(op % 16) as int],
                        carry: old(self).carry,
                    },
                    0,
                    11,
                    ((op / 16) % 32) as u8,
                    control::spec_jump_addr(op),
                    old(self).control.d@,
                    old(self).control.current_keypress,
                );
                op / 512 == 2 ==> final(self).control.pc == end.pc && final(self).control.fa@
                    == end.fa && final(self).control.fb@ == end.fb && final(self).carry
                    == end.carry && final(self).alu == old(self).alu
            }),
            final(self).control.current_keypress == old(self).control.current_keypress,
            final(self).control.d@ == crate::shifter::shr_bit16(
                old(self).control.d@,
                10,
                crate::shifter::low_bit16(old(self).control.d@),
            ),
    {
        // An address past the ROM reads as zero, the bus's idle level.
        let opcode: u16 = if self.control.pc < 320 {
            *vstd::array::array_index_get(&self.rom, self.control.pc as usize)
        } else {
            0
        };
        let class: u8 = (opcode >> 9) as u8;
        let mask: u8 = (opcode as u8) & 0xF;
        let instruction: u8 = ((opcode >> 4) as u8) & 0x1F;
        let ws_raw: u16 = *vstd::array::array_index_get(&self.word_selects, mask as usize);
        proof {
            let w: u16 = ws_raw;
            assert(w < 2048 ==> crate::shifter::fits16(w & 0x7FF, 11) && (w & 0x7FF) == w)
                by (bit_vector);
            let v: u16 = opcode;
            assert(v < 2048 ==> ((v >> 9) as u8) == v / 512 && ((v as u8) & 0xF) == v % 16 && (((v
                >> 4) as u8) & 0x1F) == (v / 16) % 32) by (bit_vector);
        }
        let word_select: alu::WordSelect = Shifter16::new(ws_raw & 0x7FF);

        if class == 3 {
            // Register instruction: the arithmetic unit's final-pass
            // carry is ORed into the latch, never cleared by it.
            if self.alu.run_cycle(word_select, instruction, mask) {
                self.carry = true;
            }
        }
        // The control unit runs in every class, the register class
        // included.
        let merged: bool = self.control.run_cycle(
            word_select,
            opcode,
            class,
            instruction,
            self.carry,
        );
        self.carry = merged;
    }
}

} // verus!
