//! The 8080, an 8-bit microprocessor from 1974.
//!
//! One `run_cycle` call decodes exactly one opcode and fully executes it,
//! fetching any operand bytes itself. The opcode space is partitioned by its
//! top two bits; two of the quarters are easier to decode after rotating the
//! opcode left by a nibble, a quirk of how the hardware laid the patterns
//! out, reproduced here as-is.

use vstd::prelude::*;

verus! {

broadcast use
    crate::bitops::lemma_u8_mask1,
    crate::bitops::lemma_u8_not,
    crate::bitops::lemma_u8_mask3,
    crate::bitops::lemma_u8_shr6,
    crate::bitops::lemma_u8_mask7,
    crate::bitops::lemma_u8_mask15,
    crate::bitops::lemma_u8_top_bit,
    crate::bitops::lemma_u16_mask255,
    crate::bitops::lemma_u16_mask_high,
    crate::bitops::lemma_u16_shr8,
    crate::bitops::lemma_u16_byte_join,
    crate::bitops::lemma_u16_or_low_byte,
    crate::bitops::lemma_u16_from_bytes;

use crate::cpu::MemoryIO;
use crate::cpu::CPU;
use crate::cpu::execute_add;
use crate::cpu::execute_add_carry;
use crate::cpu::execute_sub;
use crate::cpu::execute_sub_carry;
use crate::cpu::execute_daa;

/// The board answers the 8080's port traffic through these methods, on top
/// of its memory traffic.
pub trait IO: MemoryIO {
    /// Write a byte to an output port.
    fn output(&mut self, port: u8, value: u8);

    /// Read a byte from an input port.
    fn input(&mut self, port: u8) -> u8;
}

/// The main register file: accumulator, the five flags, and the three
/// 16-bit register pairs.
pub struct Registers {
    /// Accumulator.
    pub acc: u8,
    /// Sign flag: the result's top bit.
    pub sign: bool,
    /// Zero flag: the result was zero.
    pub zero: bool,
    /// Auxiliary carry, for packed-decimal arithmetic.
    pub aux: bool,
    /// Parity flag: the result had an even number of one bits.
    pub parity: bool,
    /// Carry flag.
    pub carry: bool,
    /// The B and C bytes.
    pub bc: u16,
    /// The D and E bytes.
    pub de: u16,
    /// The H and L bytes.
    pub hl: u16,
}

/// The program status word: accumulator and flags packed into one word, the
/// layout PUSH PSW stores and POP PSW reloads.
pub open spec fn spec_psw_raw(regs: Registers) -> u16 {
    (regs.acc * 0x100 + (if regs.sign {
        0x80int
    } else {
        0int
    }) + (if regs.zero {
        0x40int
    } else {
        0int
    }) + (if regs.aux {
        0x10int
    } else {
        0int
    }) + (if regs.parity {
        0x4int
    } else {
        0int
    }) + (if regs.carry {
        0x1int
    } else {
        0int
    })) as u16
}

/// Does the byte hold an even number of one bits?
pub open spec fn spec_parity_even(b: u8) -> bool {
    (((b >> 7) & 1) + ((b >> 6) & 1) + ((b >> 5) & 1) + ((b >> 4) & 1) + ((b >> 3) & 1) + ((b >> 2)
        & 1) + ((b >> 1) & 1) + (b & 1)) % 2 == 0
}

/// The XOR-fold a hardware parity tree computes agrees with counting bits.
proof fn lemma_parity_fold(b: u8)
    by (bit_vector)
    ensures
        ((((b ^ (b >> 4)) ^ ((b ^ (b >> 4)) >> 2)) ^ (((b ^ (b >> 4)) ^ ((b ^ (b >> 4)) >> 2))
            >> 1)) & 1 == 0) == spec_parity_even(b),
{
}

/// The register value a three-bit index names, for the seven indices
/// that live on the chip; index six is the memory operand.
pub open spec fn spec_reg8(regs: Registers, i: u8) -> u8 {
    if i == 0 {
        (regs.bc / 0x100) as u8
    } else if i == 1 {
        (regs.bc % 0x100) as u8
    } else if i == 2 {
        (regs.de / 0x100) as u8
    } else if i == 3 {
        (regs.de % 0x100) as u8
    } else if i == 4 {
        (regs.hl / 0x100) as u8
    } else if i == 5 {
        (regs.hl % 0x100) as u8
    } else {
        regs.acc
    }
}

/// What the accumulator-arithmetic quarter computes from the operand:
/// the result byte, the carry, and the auxiliary carry. The logic
/// operations never carry.
pub open spec fn spec_acc_op(regs: Registers, opcode: u8, operand: u8) -> (u8, bool, bool) {
    let a = regs.acc;
    if opcode < 0x88 {
        (
            (((a + operand) % 0x100) as u8),
            a + operand > 255,
            (a & 0xF) + (operand & 0xF) > 9,
        )
    } else if opcode < 0x90 {
        let c = if regs.carry {
            1int
        } else {
            0int
        };
        (
            (((a + operand + c) % 0x100) as u8),
            a + operand + c > 255,
            (a & 0xF) + (operand & 0xF) + c > 9,
        )
    } else if opcode < 0x98 {
        let d = (((a - operand) % 0x100 + 0x100) % 0x100) as u8;
        (d, a < operand, (d & 0xF) + (operand & 0xF) > 9)
    } else if opcode < 0xA0 {
        let c = if regs.carry {
            1int
        } else {
            0int
        };
        let d = (((a - operand - c) % 0x100 + 0x100) % 0x100) as u8;
        (d, a < operand + c, (d & 0xF) + (operand & 0xF) + c > 9)
    } else if opcode < 0xA8 {
        ((a & operand), false, false)
    } else if opcode < 0xB0 {
        ((a ^ operand), false, false)
    } else if opcode < 0xB8 {
        ((a | operand), false, false)
    } else {
        let d = (((a - operand) % 0x100 + 0x100) % 0x100) as u8;
        (d, a < operand, (d & 0xF) + (operand & 0xF) > 9)
    }
}

/// The branch condition a three-bit index names: NZ Z NC C PO PE P M.
pub open spec fn spec_condition(regs: Registers, c: u8) -> bool {
    if c == 0 {
        !regs.zero
    } else if c == 1 {
        regs.zero
    } else if c == 2 {
        !regs.carry
    } else if c == 3 {
        regs.carry
    } else if c == 4 {
        !regs.parity
    } else if c == 5 {
        regs.parity
    } else if c == 6 {
        !regs.sign
    } else {
        regs.sign
    }
}

/// The accumulator rotations, related to their arithmetic forms.
proof fn u8_rotate_facts(a: u8)
    ensures
        ((a << 1) | (a >> 7)) == (a % 0x80) * 2 + a / 0x80,
        ((((a << 1) | (a >> 7)) & 1) == 1) == (a / 0x80 == 1),
        ((a << 1) | 1) == (a % 0x80) * 2 + 1,
        ((a << 1) | 0) == (a % 0x80) * 2,
        (a >> 7 == 1) == (a >= 0x80),
        ((a >> 1) | (a << 7)) == a / 2 + (a % 2) * 0x80,
        ((a >> 1) | (1u8 << 7)) == a / 2 + 0x80,
        ((a >> 1) | (0u8 << 7)) == a / 2,
{
    assert((((a << 1) | (a >> 7)) == (a % 0x80) * 2 + a / 0x80) && (((((a << 1) | (a >> 7)) & 1)
        == 1) == (a / 0x80 == 1)) && (((a << 1) | 1) == (a % 0x80) * 2 + 1) && (((a << 1) | 0) == (
    a % 0x80) * 2) && ((a >> 7 == 1) == (a >= 0x80)) && (((a >> 1) | (a << 7)) == a / 2 + (a % 2)
        * 0x80) && (((a >> 1) | (1u8 << 7)) == a / 2 + 0x80) && (((a >> 1) | (0u8 << 7)) == a / 2))
        by (bit_vector);
}

/// Intel 8080 chip.
pub struct I8080 {
    /// Stack pointer and program counter.
    pub cpu: CPU,
    /// The register file.
    pub regs: Registers,
    /// Has EI been executed more recently than DI?
    pub interrupts_enabled: bool,
}

/// The register index packed in an opcode's low three bits.
fn u3_index(opcode: u8) -> (r: u8)
    ensures
        r == opcode % 8,
        r < 8,
{
    opcode & 0b111
}

/// Many opcodes hold a register index split across the byte's ends: one
/// rotation left re-assembles it.
fn rotate_index(opcode: u8) -> (r: u8)
    ensures
        r == ((opcode % 0x80) * 2 + opcode / 0x80) % 8,
        r < 8,
{
    proof {
        let x: u8 = opcode;
        assert((((x >> 7) | (x << 1)) & 0b111) == ((x % 0x80) * 2 + x / 0x80) % 8 && (((x >> 7) | (
        x << 1)) & 0b111) < 8) by (bit_vector);
    }
    let rotated: u8 = (opcode >> 7) | (opcode << 1);
    rotated & 0b111
}

impl I8080 {
    /// Power-on state: the stack pointer parks at the top of memory,
    /// every register and flag is cleared, interrupts are off.
    pub fn new() -> (r: Self)
        ensures
            r.cpu.pc == 0,
            r.cpu.sp == 0xFFFF,
            r.regs == (Registers {
                acc: 0,
                sign: false,
                zero: false,
                aux: false,
                parity: false,
                carry: false,
                bc: 0,
                de: 0,
                hl: 0,
            }),
            !r.interrupts_enabled,
    {
        I8080 {
            cpu: CPU { sp: 0xFFFF, pc: 0 },
            regs: Registers {
                acc: 0,
                sign: false,
                zero: false,
                aux: false,
                parity: false,
                carry: false,
                bc: 0,
                de: 0,
                hl: 0,
            },
            interrupts_enabled: false,
        }
    }

    /// Read the register named by `reg_index`: B C D E H L [HL] A. Index 6
    /// reads memory at HL through the board.
    fn read_reg(&self, io: &mut impl IO, reg_index: u8) -> (r: u8)
        requires
            reg_index < 8,
        ensures
            reg_index == 0 ==> r == self.regs.bc / 0x100,
            reg_index == 1 ==> r == self.regs.bc % 0x100,
            reg_index == 2 ==> r == self.regs.de / 0x100,
            reg_index == 3 ==> r == self.regs.de % 0x100,
            reg_index == 4 ==> r == self.regs.hl / 0x100,
            reg_index == 5 ==> r == self.regs.hl % 0x100,
            reg_index == 7 ==> r == self.regs.acc,
    {
        match reg_index {
            0 => word_high(self.regs.bc),
            1 => word_low(self.regs.bc),
            2 => word_high(self.regs.de),
            3 => word_low(self.regs.de),
            4 => word_high(self.regs.hl),
            5 => word_low(self.regs.hl),
            6 => io.read_mem_byte(self.regs.hl),
            _ => self.regs.acc,
        }
    }

    /// Write the register named by `reg_index`. Index 6 writes memory at HL
    /// through the board and leaves the chip untouched.
    fn write_reg(&mut self, io: &mut impl IO, reg_index: u8, value: u8)
        requires
            reg_index < 8,
        ensures
            final(self).cpu == old(self).cpu,
            final(self).interrupts_enabled == old(self).interrupts_enabled,
            reg_index == 0 ==> final(self).regs == (Registers {
                bc: with_high(old(self).regs.bc, value),
                ..old(self).regs
            }),
            reg_index == 1 ==> final(self).regs == (Registers {
                bc: with_low(old(self).regs.bc, value),
                ..old(self).regs
            }),
            reg_index == 2 ==> final(self).regs == (Registers {
                de: with_high(old(self).regs.de, value),
                ..old(self).regs
            }),
            reg_index == 3 ==> final(self).regs == (Registers {
                de: with_low(old(self).regs.de, value),
                ..old(self).regs
            }),
            reg_index == 4 ==> final(self).regs == (Registers {
                hl: with_high(old(self).regs.hl, value),
                ..old(self).regs
            }),
            reg_index == 5 ==> final(self).regs == (Registers {
                hl: with_low(old(self).regs.hl, value),
                ..old(self).regs
            }),
            reg_index == 6 ==> final(self).regs == old(self).regs,
            reg_index == 7 ==> final(self).regs == (Registers {
                acc: value,
                ..old(self).regs
            }),
    {
        match reg_index {
            0 => self.regs.bc = set_high(self.regs.bc, value),
            1 => self.regs.bc = set_low(self.regs.bc, value),
            2 => self.regs.de = set_high(self.regs.de, value),
            3 => self.regs.de = set_low(self.regs.de, value),
            4 => self.regs.hl = set_high(self.regs.hl, value),
            5 => self.regs.hl = set_low(self.regs.hl, value),
            6 => io.write_mem_byte(self.regs.hl, value),
            _ => self.regs.acc = value,
        }
    }

    /// Read the register pair named by `pair_index`: BC DE HL SP.
    fn read_pair(&self, pair_index: u8) -> (r: u16)
        requires
            pair_index < 4,
        ensures
            pair_index == 0 ==> r == self.regs.bc,
            pair_index == 1 ==> r == self.regs.de,
            pair_index == 2 ==> r == self.regs.hl,
            pair_index == 3 ==> r == self.cpu.sp,
    {
        match pair_index {
            0 => self.regs.bc,
            1 => self.regs.de,
            2 => self.regs.hl,
            _ => self.cpu.sp,
        }
    }

    /// Write the register pair named by `pair_index`: BC DE HL SP.
    fn write_pair(&mut self, pair_index: u8, value: u16)
        requires
            pair_index < 4,
        ensures
            final(self).regs.acc == old(self).regs.acc,
            final(self).interrupts_enabled == old(self).interrupts_enabled,
            final(self).cpu.pc == old(self).cpu.pc,
            pair_index == 0 ==> final(self).regs == (Registers {
                bc: value,
                ..old(self).regs
            }) && final(self).cpu == old(self).cpu,
            pair_index == 1 ==> final(self).regs == (Registers {
                de: value,
                ..old(self).regs
            }) && final(self).cpu == old(self).cpu,
            pair_index == 2 ==> final(self).regs == (Registers {
                hl: value,
                ..old(self).regs
            }) && final(self).cpu == old(self).cpu,
            pair_index == 3 ==> final(self).regs == old(self).regs && final(self).cpu.sp == value,
    {
        match pair_index {
            0 => self.regs.bc = value,
            1 => self.regs.de = value,
            2 => self.regs.hl = value,
            _ => self.cpu.sp = value,
        }
    }

    /// Read the pair PUSH stores: BC DE HL PSW.
    fn read_pair_push(&self, pair_index: u8) -> (r: u16)
        requires
            pair_index < 4,
        ensures
            pair_index == 0 ==> r == self.regs.bc,
            pair_index == 1 ==> r == self.regs.de,
            pair_index == 2 ==> r == self.regs.hl,
            pair_index == 3 ==> r == spec_psw_raw(self.regs),
    {
        match pair_index {
            0 => self.regs.bc,
            1 => self.regs.de,
            2 => self.regs.hl,
            _ => {
                let sbit: u8 = if self.regs.sign {
                    0x80u8
                } else {
                    0u8
                };
                let zbit: u8 = if self.regs.zero {
                    0x40u8
                } else {
                    0u8
                };
                let abit: u8 = if self.regs.aux {
                    0x10u8
                } else {
                    0u8
                };
                let pbit: u8 = if self.regs.parity {
                    0x4u8
                } else {
                    0u8
                };
                let cbit: u8 = if self.regs.carry {
                    0x1u8
                } else {
                    0u8
                };
                let flags: u8 = sbit | zbit | abit | pbit | cbit;
                let result: u16 = ((self.regs.acc as u16) << 8) | (flags as u16);
                proof {
                    let acc: u8 = self.regs.acc;
                    assert(((sbit == 0x80 || sbit == 0) && (zbit == 0x40 || zbit == 0) && (abit
                        == 0x10 || abit == 0) && (pbit == 0x4 || pbit == 0) && (cbit == 0x1 || cbit
                        == 0)) ==> (((acc as u16) << 8) | (((((sbit | zbit) | abit) | pbit) | cbit)
                        as u16)) == acc * 0x100 + sbit + zbit + abit + pbit + cbit) by (bit_vector);
                }
                result
            },
        }
    }

    /// Write the pair POP reloads: BC DE HL PSW. Loading the PSW unpacks
    /// the accumulator and the five flags; the word's unused bits vanish.
    fn write_pair_pop(&mut self, pair_index: u8, value: u16)
        requires
            pair_index < 4,
        ensures
            final(self).cpu == old(self).cpu,
            final(self).interrupts_enabled == old(self).interrupts_enabled,
            pair_index == 0 ==> final(self).regs == (Registers {
                bc: value,
                ..old(self).regs
            }),
            pair_index == 1 ==> final(self).regs == (Registers {
                de: value,
                ..old(self).regs
            }),
            pair_index == 2 ==> final(self).regs == (Registers {
                hl: value,
                ..old(self).regs
            }),
            pair_index == 3 ==> final(self).regs == (Registers {
                acc: (value / 0x100) as u8,
                sign: value & 0x80 == 0x80,
                zero: value & 0x40 == 0x40,
                aux: value & 0x10 == 0x10,
                parity: value & 0x4 == 0x4,
                carry: value & 0x1 == 0x1,
                ..old(self).regs
            }),
    {
        match pair_index {
            0 => self.regs.bc = value,
            1 => self.regs.de = value,
            2 => self.regs.hl = value,
            _ => {
                self.regs.acc = (value >> 8) as u8;
                self.regs.sign = value & 0x80 == 0x80;
                self.regs.zero = value & 0x40 == 0x40;
                self.regs.aux = value & 0x10 == 0x10;
                self.regs.parity = value & 0x4 == 0x4;
                self.regs.carry = value & 0x1 == 0x1;
            },
        }
    }

    /// Evaluate the branch condition named by `condition`:
    /// NZ Z NC C PO PE P M.
    fn test_condition(&self, condition: u8) -> (r: bool)
        requires
            condition < 8,
        ensures
            condition == 0 ==> r == !self.regs.zero,
            condition == 1 ==> r == self.regs.zero,
            condition == 2 ==> r == !self.regs.carry,
            condition == 3 ==> r == self.regs.carry,
            condition == 4 ==> r == !self.regs.parity,
            condition == 5 ==> r == self.regs.parity,
            condition == 6 ==> r == !self.regs.sign,
            condition == 7 ==> r == self.regs.sign,
    {
        match condition {
            0 => !self.regs.zero,
            1 => self.regs.zero,
            2 => !self.regs.carry,
            3 => self.regs.carry,
            4 => !self.regs.parity,
            5 => self.regs.parity,
            6 => !self.regs.sign,
            _ => self.regs.sign,
        }
    }

    /// Recompute the sign, zero and parity flags from a result byte. Which
    /// instructions call this, and which leave the flags untouched, is a
    /// per-instruction contract of the hardware.
    fn set_result_flags(&mut self, result: u8)
        ensures
            final(self).regs == (Registers {
                sign: result >= 0x80,
                zero: result == 0,
                parity: spec_parity_even(result),
                ..old(self).regs
            }),
            final(self).cpu == old(self).cpu,
            final(self).interrupts_enabled == old(self).interrupts_enabled,
    {
        proof {
            lemma_parity_fold(result);
        }
        let fold4: u8 = result ^ (result >> 4);
        let fold2: u8 = fold4 ^ (fold4 >> 2);
        let fold1: u8 = fold2 ^ (fold2 >> 1);
        self.regs.sign = result & 0b1000_0000 == 0b1000_0000;
        self.regs.zero = result == 0;
        self.regs.parity = fold1 & 1 == 0;
    }

    /// Execute one instruction: fetch the opcode byte, split on its top two
    /// bits, and run the matching decoder. The middle two quarters are the
    /// register-to-register moves and the accumulator arithmetic; the outer
    /// two take the rotated decoding path.
    pub fn run_cycle(&mut self, io: &mut impl IO) {
        let opcode: u8 = self.cpu.next_code_byte(io);
        match opcode >> 6 {
            0 => self.decode0(io, opcode),
            1 => {
                // MOV
                let from_index: u8 = u3_index(opcode);
                let to_index: u8 = u3_index(opcode >> 3);
                let value: u8 = self.read_reg(io, from_index);
                self.write_reg(io, to_index, value);
            },
            2 => self.decode2(io, opcode),
            _ => self.decode3(io, opcode),
        }
    }

    /// The 0x00..=0x3F quarter, decoded after rotating left by a nibble:
    /// loads, stores, increments, rotates, and decimal adjust. Nothing
    /// here moves the stack pointer or the interrupt latch; the
    /// increments and decrements leave the carry alone, a deliberate
    /// per-instruction discipline of the hardware; the accumulator
    /// rotations and the decimal adjust are fixed exactly.
    #[verifier::rlimit(100)]
    fn decode0(&mut self, io: &mut impl IO, opcode: u8)
        requires
            opcode <= 0x3F,
        ensures
            final(self).interrupts_enabled == old(self).interrupts_enabled,
            // The stack pointer moves only under the pair operations
            // aimed at it: a load takes the fetched word, the
            // increments step it by one.
            ({
                let rot = (opcode % 16) * 16 + opcode / 16;
                &&& !((0x10 <= rot <= 0x13 || 0x30 <= rot <= 0x33 || 0xB0 <= rot <= 0xB3) && rot
                    % 4 == 3) ==> final(self).cpu.sp == old(self).cpu.sp
                &&& 0x30 <= rot <= 0x33 && rot % 4 == 3 ==> final(self).cpu.sp == ((old(self).cpu.sp + 1) % 0x1_0000)
                &&& 0xB0 <= rot <= 0xB3 && rot % 4 == 3 ==> final(self).cpu.sp == ((old(self).cpu.sp + 0xFFFF) % 0x1_0000)
            }),
            // The operand-fetching rows advance the counter by their
            // operand's width; everything else leaves it in place.
            ({
                let rot = (opcode % 16) * 16 + opcode / 16;
                let pc = old(self).cpu.pc;
                &&& (0x10 <= rot <= 0x13 || rot == 0x22 || rot == 0x23 || rot == 0xA2 || rot
                    == 0xA3) ==> final(self).cpu.pc == (pc + 2) % 0x1_0000
                &&& (0x60 <= rot <= 0x63 || 0xE0 <= rot <= 0xE3) ==> final(self).cpu.pc == (pc + 1)
                    % 0x1_0000
                &&& !(0x10 <= rot <= 0x13 || rot == 0x22 || rot == 0x23 || rot == 0xA2 || rot
                    == 0xA3 || 0x60 <= rot <= 0x63 || 0xE0 <= rot <= 0xE3) ==> final(self).cpu.pc
                    == pc
            }),
            // The increments and decrements, in full, for the on-chip
            // operands: the named register steps by one, the auxiliary
            // carry reads the low nibble, the result flags recompute,
            // and every other register holds still.
            ({
                let rot = (opcode % 16) * 16 + opcode / 16;
                let idx = ((((rot % 0x80) * 2 + rot / 0x80) % 8) as u8);
                let v = spec_reg8(old(self).regs, idx);
                &&& (0x40 <= rot <= 0x43 || 0xC0 <= rot <= 0xC3) && idx != 6 ==> ({
                    let result = (((v + 1) % 0x100) as u8);
                    &&& final(self).cpu == old(self).cpu
                    &&& spec_reg8(final(self).regs, idx) == result
                    &&& forall|j: u8|
                        j < 8 && j != idx && j != 6 && j != 7 ==> #[trigger] spec_reg8(
                            final(self).regs,
                            j,
                        ) == spec_reg8(old(self).regs, j)
                    &&& idx != 7 ==> final(self).regs.acc == old(self).regs.acc
                    &&& final(self).regs.carry == old(self).regs.carry
                    &&& final(self).regs.aux == ((v & 0xF) + 1 > 9)
                    &&& final(self).regs.sign == (result >= 0x80)
                    &&& final(self).regs.zero == (result == 0)
                    &&& final(self).regs.parity == spec_parity_even(result)
                })
                &&& (0x50 <= rot <= 0x53 || 0xD0 <= rot <= 0xD3) && idx != 6 ==> ({
                    let result = ((((v - 1) % 0x100 + 0x100) % 0x100) as u8);
                    &&& final(self).cpu == old(self).cpu
                    &&& spec_reg8(final(self).regs, idx) == result
                    &&& forall|j: u8|
                        j < 8 && j != idx && j != 6 && j != 7 ==> #[trigger] spec_reg8(
                            final(self).regs,
                            j,
                        ) == spec_reg8(old(self).regs, j)
                    &&& idx != 7 ==> final(self).regs.acc == old(self).regs.acc
                    &&& final(self).regs.carry == old(self).regs.carry
                    &&& final(self).regs.aux == ((result & 0xF) + 1 > 9)
                    &&& final(self).regs.sign == (result >= 0x80)
                    &&& final(self).regs.zero == (result == 0)
                    &&& final(self).regs.parity == spec_parity_even(result)
                })
            }),
            // The pair arithmetic: the double add lands in HL with its
            // carry, the increments step their pair, nothing else moves.
            ({
                let rot = (opcode % 16) * 16 + opcode / 16;
                let pair = if rot % 4 == 0 {
                    old(self).regs.bc
                } else if rot % 4 == 1 {
                    old(self).regs.de
                } else if rot % 4 == 2 {
                    old(self).regs.hl
                } else {
                    old(self).cpu.sp
                };
                &&& 0x90 <= rot <= 0x93 ==> final(self).regs == (Registers {
                    hl: ((old(self).regs.hl + pair) % 0x1_0000) as u16,
                    carry: old(self).regs.hl + pair > 0xFFFF,
                    ..old(self).regs
                }) && final(self).cpu == old(self).cpu
                &&& 0x30 <= rot <= 0x33 && rot % 4 == 0 ==> final(self).regs == (Registers {
                    bc: ((pair + 1) % 0x1_0000) as u16,
                    ..old(self).regs
                }) && final(self).cpu == old(self).cpu
                &&& 0x30 <= rot <= 0x33 && rot % 4 == 1 ==> final(self).regs == (Registers {
                    de: ((pair + 1) % 0x1_0000) as u16,
                    ..old(self).regs
                }) && final(self).cpu == old(self).cpu
                &&& 0x30 <= rot <= 0x33 && rot % 4 == 2 ==> final(self).regs == (Registers {
                    hl: ((pair + 1) % 0x1_0000) as u16,
                    ..old(self).regs
                }) && final(self).cpu == old(self).cpu
                &&& 0xB0 <= rot <= 0xB3 && rot % 4 == 0 ==> final(self).regs == (Registers {
                    bc: ((pair + 0xFFFF) % 0x1_0000) as u16,
                    ..old(self).regs
                }) && final(self).cpu == old(self).cpu
                &&& 0xB0 <= rot <= 0xB3 && rot % 4 == 1 ==> final(self).regs == (Registers {
                    de: ((pair + 0xFFFF) % 0x1_0000) as u16,
                    ..old(self).regs
                }) && final(self).cpu == old(self).cpu
                &&& 0xB0 <= rot <= 0xB3 && rot % 4 == 2 ==> final(self).regs == (Registers {
                    hl: ((pair + 0xFFFF) % 0x1_0000) as u16,
                    ..old(self).regs
                }) && final(self).cpu == old(self).cpu
            }),
            ({
                let rot = (opcode % 16) * 16 + opcode / 16;
                let a = old(self).regs.acc;
                let keeps_rest = final(self).regs.sign == old(self).regs.sign && final(self).regs.zero == old(self).regs.zero && final(self).regs.aux == old(self).regs.aux
                    && final(self).regs.parity == old(self).regs.parity && final(self).regs.bc
                    == old(self).regs.bc && final(self).regs.de == old(self).regs.de && final(self).regs.hl == old(self).regs.hl && final(self).cpu == old(self).cpu;
                &&& (0x40 <= rot <= 0x43 || 0xC0 <= rot <= 0xC3 || 0x50 <= rot <= 0x53 || 0xD0
                    <= rot <= 0xD3) ==> final(self).regs.carry == old(self).regs.carry
                &&& rot == 0x70 ==> final(self).regs.acc == (a % 0x80) * 2 + a / 0x80 && final(self).regs.carry == (a / 0x80 == 1) && keeps_rest
                &&& rot == 0x71 ==> final(self).regs.acc == (a % 0x80) * 2 + (if old(self).regs.carry {
                    1int
                } else {
                    0int
                }) && final(self).regs.carry == (a >= 0x80) && keeps_rest
                &&& rot == 0xF0 ==> final(self).regs.acc == a / 2 + (a % 2) * 0x80 && final(self).regs.carry == (a % 2 == 1) && keeps_rest
                &&& rot == 0xF1 ==> final(self).regs.acc == a / 2 + (if old(self).regs.carry {
                    0x80int
                } else {
                    0int
                }) && final(self).regs.carry == (a % 2 == 1) && keeps_rest
                &&& rot == 0xF2 ==> final(self).regs.acc == 255 - a && final(self).regs.carry
                    == old(self).regs.carry && keeps_rest
                &&& rot == 0x73 ==> final(self).regs.acc == a && final(self).regs.carry
                    && keeps_rest
                &&& rot == 0xF3 ==> final(self).regs.acc == a && final(self).regs.carry == !old(self).regs.carry && keeps_rest
                &&& rot == 0x72 ==> ({
                    let (adjusted, carry, aux) = crate::cpu::spec_daa(
                        a,
                        old(self).regs.carry,
                        old(self).regs.aux,
                    );
                    &&& final(self).regs.acc == adjusted
                    &&& final(self).regs.carry == carry
                    &&& final(self).regs.aux == aux
                    &&& final(self).regs.sign == (adjusted >= 0x80)
                    &&& final(self).regs.zero == (adjusted == 0)
                    &&& final(self).regs.parity == spec_parity_even(adjusted)
                    &&& final(self).regs.bc == old(self).regs.bc
                    &&& final(self).regs.de == old(self).regs.de
                    &&& final(self).regs.hl == old(self).regs.hl
                    &&& final(self).cpu == old(self).cpu
                })
            }),
    {
        let opcode: u8 = rotate4(opcode);
        match opcode {
            0x00..=0x03 | 0x80..=0x83 => {},  // NOP
            0x10..=0x13 => {
                // LXI
                let word: u16 = self.cpu.next_code_word(io);
                let to_index: u8 = u2_index(opcode);
                self.write_pair(to_index, word);
            },
            0x20 => {
                // STAX BC
                let to_addr: u16 = self.regs.bc;
                let byte: u8 = self.regs.acc;
                io.write_mem_byte(to_addr, byte);
            },
            0x21 => {
                // STAX DE
                let to_addr: u16 = self.regs.de;
                let byte: u8 = self.regs.acc;
                io.write_mem_byte(to_addr, byte);
            },
            0x22 => {
                // SHLD
                let to_addr: u16 = self.cpu.next_code_word(io);
                let value: u16 = self.regs.hl;
                io.write_mem_word(to_addr, value);
            },
            0x23 => {
                // STA
                let to_addr: u16 = self.cpu.next_code_word(io);
                let value: u8 = self.regs.acc;
                io.write_mem_byte(to_addr, value);
            },
            0x30..=0x33 => {
                // INX
                let index: u8 = u2_index(opcode);
                let value: u16 = self.read_pair(index);
                self.write_pair(index, value.wrapping_add(1));
            },
            0x40..=0x43 | 0xC0..=0xC3 => {
                // INR
                let index: u8 = rotate_index(opcode);
                let byte: u8 = self.read_reg(io, index);
                let (result, _, aux): (u8, bool, bool) = execute_add(byte, 1);
                self.write_reg(io, index, result);
                self.regs.aux = aux;
                self.set_result_flags(result);
            },
            0x50..=0x53 | 0xD0..=0xD3 => {
                // DCR
                let index: u8 = rotate_index(opcode);
                let byte: u8 = self.read_reg(io, index);
                let (result, _, aux): (u8, bool, bool) = execute_sub(byte, 1);
                self.write_reg(io, index, result);
                self.regs.aux = aux;
                self.set_result_flags(result);
            },
            0x60..=0x63 | 0xE0..=0xE3 => {
                // MVI
                let byte: u8 = self.cpu.next_code_byte(io);
                let to_index: u8 = rotate_index(opcode);
                self.write_reg(io, to_index, byte);
            },
            0x70 => {
                // RLC
                proof {
                    u8_rotate_facts(self.regs.acc);
                }
                let acc: u8 = (self.regs.acc << 1) | (self.regs.acc >> 7);
                self.regs.acc = acc;
                self.regs.carry = acc & 0b1 == 0b1;
            },
            0x71 => {
                // RAL
                proof {
                    u8_rotate_facts(self.regs.acc);
                }
                let new_carry: bool = self.regs.acc >> 7 == 0b1;
                let acc: u8 = (self.regs.acc << 1) | (self.regs.carry as u8);
                self.regs.acc = acc;
                self.regs.carry = new_carry;
            },
            0x72 => {
                // DAA
                let (acc, carry, aux): (u8, bool, bool) = execute_daa(
                    self.regs.acc,
                    self.regs.carry,
                    self.regs.aux,
                );
                self.regs.acc = acc;
                self.regs.carry = carry;
                self.regs.aux = aux;
                self.set_result_flags(acc);
            },
            0x73 => {
                // STC
                self.regs.carry = true;
            },
            0x90..=0x93 => {
                // DAD: HL += pair
                let index: u8 = u2_index(opcode);
                let addend: u16 = self.read_pair(index);
                let carry: bool = (self.regs.hl as u32) + (addend as u32) > 0xFFFF;
                self.regs.hl = self.regs.hl.wrapping_add(addend);
                self.regs.carry = carry;
            },
            0xA0 => {
                // LDAX BC
                let value: u8 = io.read_mem_byte(self.regs.bc);
                self.regs.acc = value;
            },
            0xA1 => {
                // LDAX DE
                let value: u8 = io.read_mem_byte(self.regs.de);
                self.regs.acc = value;
            },
            0xA2 => {
                // LHLD
                let from_addr: u16 = self.cpu.next_code_word(io);
                let value: u16 = io.read_mem_word(from_addr);
                self.regs.hl = value;
            },
            0xA3 => {
                // LDA
                let from_addr: u16 = self.cpu.next_code_word(io);
                let value: u8 = io.read_mem_byte(from_addr);
                self.regs.acc = value;
            },
            0xB0..=0xB3 => {
                // DCX
                let index: u8 = u2_index(opcode);
                let value: u16 = self.read_pair(index);
                self.write_pair(index, value.wrapping_sub(1));
            },
            0xF0 => {
                // RRC
                proof {
                    u8_rotate_facts(self.regs.acc);
                }
                let carry: bool = self.regs.acc & 0b1 == 0b1;
                let acc: u8 = (self.regs.acc >> 1) | (self.regs.acc << 7);
                self.regs.acc = acc;
                self.regs.carry = carry;
            },
            0xF1 => {
                // RAR
                proof {
                    u8_rotate_facts(self.regs.acc);
                }
                let new_carry: bool = self.regs.acc & 1 == 1;
                let acc: u8 = (self.regs.acc >> 1) | ((self.regs.carry as u8) << 7);
                self.regs.acc = acc;
                self.regs.carry = new_carry;
            },
            0xF2 => {
                // CMA
                self.regs.acc = !self.regs.acc;
            },
            _ => {
                // CMC (0xF3)
                self.regs.carry = !self.regs.carry;
            },
        }
    }

    /// The 0x80..=0xBF quarter: accumulator arithmetic and logic against
    /// the register named in the low three bits. The compare family
    /// alone leaves the accumulator in place; nothing here touches the
    /// counters, the pairs or the interrupt latch. With a register
    /// operand the whole result is fixed; the memory operand's value is
    /// the board's.
    fn decode2(&mut self, io: &mut impl IO, opcode: u8)
        requires
            0x80 <= opcode <= 0xBF,
        ensures
            final(self).cpu == old(self).cpu,
            final(self).interrupts_enabled == old(self).interrupts_enabled,
            final(self).regs.bc == old(self).regs.bc,
            final(self).regs.de == old(self).regs.de,
            final(self).regs.hl == old(self).regs.hl,
            0xB8 <= opcode ==> final(self).regs.acc == old(self).regs.acc,
            opcode % 8 != 6 ==> ({
                let operand = spec_reg8(old(self).regs, (opcode % 8) as u8);
                let (result, carry, aux) = spec_acc_op(old(self).regs, opcode, operand);
                &&& opcode < 0xB8 ==> final(self).regs.acc == result
                &&& final(self).regs.carry == carry
                &&& final(self).regs.aux == aux
                &&& final(self).regs.sign == (result >= 0x80)
                &&& final(self).regs.zero == (result == 0)
                &&& final(self).regs.parity == spec_parity_even(result)
            }),
    {
        let index: u8 = u3_index(opcode);
        let byte: u8 = self.read_reg(io, index);
        let (acc, carry, aux): (u8, bool, bool) = if opcode < 0x88 {
            // ADD
            execute_add(self.regs.acc, byte)
        } else if opcode < 0x90 {
            // ADC
            execute_add_carry(self.regs.acc, byte, self.regs.carry)
        } else if opcode < 0x98 {
            // SUB
            execute_sub(self.regs.acc, byte)
        } else if opcode < 0xA0 {
            // SBB
            execute_sub_carry(self.regs.acc, byte, self.regs.carry)
        } else if opcode < 0xA8 {
            // ANA: logic never carries
            (self.regs.acc & byte, false, false)
        } else if opcode < 0xB0 {
            // XRA
            (self.regs.acc ^ byte, false, false)
        } else if opcode < 0xB8 {
            // ORA
            (self.regs.acc | byte, false, false)
        } else {
            // CMP
            execute_sub(self.regs.acc, byte)
        };
        if opcode < 0xB8 {
            // CMP alone leaves the accumulator untouched.
            self.regs.acc = acc;
        }
        self.regs.carry = carry;
        self.regs.aux = aux;
        self.set_result_flags(acc);
    }

    /// The 0xC0..=0xFF quarter, decoded after rotating left by a nibble:
    /// jumps, calls, returns, stack traffic, ports and immediates. The
    /// calls push and the returns pop by exactly one word; whether a
    /// conditional one acts is the flags' decision alone; the restart
    /// vectors are fixed; and the logic immediates clear both carries.
    #[verifier::rlimit(100)]
    fn decode3(&mut self, io: &mut impl IO, opcode: u8)
        requires
            0xC0 <= opcode,
        ensures
            ({
                let rot = (opcode % 16) * 16 + opcode / 16;
                let cond = spec_condition(old(self).regs, ((((rot % 0x80) * 2 + rot / 0x80) % 8) as u8));
                let sp = old(self).cpu.sp;
                &&& (0x0C <= rot <= 0x0F || 0x8C <= rot <= 0x8F) ==> final(self).regs == old(self).regs && (cond ==> final(self).cpu.sp == (sp + 2) % 0x1_0000) && (!cond
                    ==> *final(self) == *old(self))
                &&& 0x1C <= rot <= 0x1F ==> final(self).cpu.sp == (sp + 2) % 0x1_0000 && final(self).cpu.pc == old(self).cpu.pc
                &&& (0x2C <= rot <= 0x2F || 0xAC <= rot <= 0xAF) ==> final(self).regs == old(self).regs && final(self).cpu.sp == sp && (!cond ==> final(self).cpu.pc == (old(self).cpu.pc + 2) % 0x1_0000)
                &&& (rot == 0x3C || rot == 0xBC) ==> final(self).regs == old(self).regs && final(self).cpu.sp == sp
                &&& rot == 0x3D ==> final(self).regs == old(self).regs && final(self).cpu.sp == sp
                    && final(self).cpu.pc == (old(self).cpu.pc + 1) % 0x1_0000
                &&& rot == 0x3F ==> *final(self) == (I8080 {
                    interrupts_enabled: false,
                    ..*old(self)
                })
                &&& rot == 0xBF ==> *final(self) == (I8080 {
                    interrupts_enabled: true,
                    ..*old(self)
                })
                &&& (0x4C <= rot <= 0x4F || 0xCC <= rot <= 0xCF) ==> final(self).regs == old(self).regs && (cond ==> final(self).cpu.sp == (sp - 2) % 0x1_0000) && (!cond ==> final(self).cpu.sp == sp && final(self).cpu.pc == (old(self).cpu.pc + 2) % 0x1_0000)
                &&& 0x5C <= rot <= 0x5F ==> final(self).regs == old(self).regs && final(self).cpu.sp == (sp - 2) % 0x1_0000 && final(self).cpu.pc == old(self).cpu.pc
                &&& (0x7C <= rot <= 0x7F || 0xFC <= rot <= 0xFF) ==> final(self).regs == old(self).regs && final(self).cpu.sp == (sp - 2) % 0x1_0000 && final(self).cpu.pc == (((rot
                    % 0x80) * 2 + rot / 0x80) % 8) * 8
                &&& (rot == 0x9C || rot == 0x9D) ==> final(self).regs == old(self).regs && final(self).cpu.sp == (sp + 2) % 0x1_0000
                &&& rot == 0x9E ==> *final(self) == (I8080 {
                    cpu: CPU { pc: old(self).regs.hl, sp },
                    ..*old(self)
                })
                &&& rot == 0x9F ==> *final(self) == (I8080 {
                    cpu: CPU { pc: old(self).cpu.pc, sp: old(self).regs.hl },
                    ..*old(self)
                })
                &&& rot == 0xBE ==> final(self).regs == (Registers {
                    hl: old(self).regs.de,
                    de: old(self).regs.hl,
                    ..old(self).regs
                }) && final(self).cpu == old(self).cpu && final(self).interrupts_enabled == old(self).interrupts_enabled
                &&& 0xDC <= rot <= 0xDF ==> final(self).regs == old(self).regs && final(self).cpu.sp == (sp - 2) % 0x1_0000
                &&& (rot == 0x6E || rot == 0x6F || rot == 0xEE) ==> final(self).cpu.sp == sp
                    && final(self).cpu.pc == (old(self).cpu.pc + 1) % 0x1_0000 && !final(self).regs.carry && !final(self).regs.aux
                &&& (rot == 0x6C || rot == 0x6D || rot == 0xEC || rot == 0xED) ==> final(self).cpu.sp == sp && final(self).cpu.pc == (old(self).cpu.pc + 1) % 0x1_0000
                &&& rot == 0xEF ==> final(self).cpu.sp == sp && final(self).cpu.pc == (old(self).cpu.pc + 1) % 0x1_0000 && final(self).regs.acc == old(self).regs.acc
            }),
    {
        let opcode: u8 = rotate4(opcode);
        match opcode {
            0x0C..=0x0F | 0x8C..=0x8F => {
                // Rcond
                let index: u8 = rotate_index(opcode);
                if self.test_condition(index) {
                    self.cpu.pc = self.cpu.pop(io);
                }
            },
            0x1C..=0x1F => {
                // POP
                let to_index: u8 = u2_index(opcode);
                let value: u16 = self.cpu.pop(io);
                self.write_pair_pop(to_index, value);
            },
            0x2C..=0x2F | 0xAC..=0xAF => {
                // Jcond
                let index: u8 = rotate_index(opcode);
                let word: u16 = self.cpu.next_code_word(io);
                if self.test_condition(index) {
                    self.cpu.pc = word;
                }
            },
            0x3C | 0xBC => {
                // JMP
                let word: u16 = self.cpu.next_code_word(io);
                self.cpu.pc = word;
            },
            0x3D => {
                // OUT
                let port: u8 = self.cpu.next_code_byte(io);
                io.output(port, self.regs.acc);
            },
            0x3E => {
                // XTHL
                let value: u16 = io.read_mem_word(self.cpu.sp);
                io.write_mem_word(self.cpu.sp, self.regs.hl);
                self.regs.hl = value;
            },
            0x3F => {
                // DI
                self.interrupts_enabled = false;
            },
            0x4C..=0x4F | 0xCC..=0xCF => {
                // Ccond
                let index: u8 = rotate_index(opcode);
                let word: u16 = self.cpu.next_code_word(io);
                if self.test_condition(index) {
                    let pc: u16 = self.cpu.pc;
                    self.cpu.push(io, pc);
                    self.cpu.pc = word;
                }
            },
            0x5C..=0x5F => {
                // PUSH
                let from_index: u8 = u2_index(opcode);
                let value: u16 = self.read_pair_push(from_index);
                self.cpu.push(io, value);
            },
            0x6C => {
                // ADI
                let byte: u8 = self.cpu.next_code_byte(io);
                let (result, carry, aux): (u8, bool, bool) = execute_add(self.regs.acc, byte);
                self.regs.acc = result;
                self.regs.carry = carry;
                self.regs.aux = aux;
                self.set_result_flags(result);
            },
            0x6D => {
                // SUI
                let byte: u8 = self.cpu.next_code_byte(io);
                let (result, carry, aux): (u8, bool, bool) = execute_sub(self.regs.acc, byte);
                self.regs.acc = result;
                self.regs.carry = carry;
                self.regs.aux = aux;
                self.set_result_flags(result);
            },
            0x6E => {
                // ANI
                let byte: u8 = self.cpu.next_code_byte(io);
                let result: u8 = self.regs.acc & byte;
                self.regs.acc = result;
                self.regs.carry = false;
                self.regs.aux = false;
                self.set_result_flags(result);
            },
            0x6F => {
                // ORI
                let byte: u8 = self.cpu.next_code_byte(io);
                let result: u8 = self.regs.acc | byte;
                self.regs.acc = result;
                self.regs.carry = false;
                self.regs.aux = false;
                self.set_result_flags(result);
            },
            0x7C..=0x7F | 0xFC..=0xFF => {
                // RST: call one of the eight fixed vectors 00nnn000.
                let index: u8 = rotate_index(opcode);
                proof {
                    let i: u8 = index;
                    assert(i < 8 ==> ((i as u16) << 3) == i * 8) by (bit_vector);
                }
                let pc: u16 = self.cpu.pc;
                self.cpu.push(io, pc);
                self.cpu.pc = (index as u16) << 3;
            },
            0x9C..=0x9D => {
                // RET
                self.cpu.pc = self.cpu.pop(io);
            },
            0x9E => {
                // PCHL
                self.cpu.pc = self.regs.hl;
            },
            0x9F => {
                // SPHL
                self.cpu.sp = self.regs.hl;
            },
            0xBD => {
                // IN
                let port: u8 = self.cpu.next_code_byte(io);
                self.regs.acc = io.input(port);
            },
            0xBE => {
                // XCHG
                let hl: u16 = self.regs.hl;
                self.regs.hl = self.regs.de;
                self.regs.de = hl;
            },
            0xBF => {
                // EI
                self.interrupts_enabled = true;
            },
            0xDC..=0xDF => {
                // CALL
                let word: u16 = self.cpu.next_code_word(io);
                let pc: u16 = self.cpu.pc;
                self.cpu.push(io, pc);
                self.cpu.pc = word;
            },
            0xEC => {
                // ACI
                let byte: u8 = self.cpu.next_code_byte(io);
                let (result, carry, aux): (u8, bool, bool) = execute_add_carry(
                    self.regs.acc,
                    byte,
                    self.regs.carry,
                );
                self.regs.acc = result;
                self.regs.carry = carry;
                self.regs.aux = aux;
                self.set_result_flags(result);
            },
            0xED => {
                // SBI
                let byte: u8 = self.cpu.next_code_byte(io);
                let (result, carry, aux): (u8, bool, bool) = execute_sub_carry(
                    self.regs.acc,
                    byte,
                    self.regs.carry,
                );
                self.regs.acc = result;
                self.regs.carry = carry;
                self.regs.aux = aux;
                self.set_result_flags(result);
            },
            0xEE => {
                // XRI
                let byte: u8 = self.cpu.next_code_byte(io);
                let result: u8 = self.regs.acc ^ byte;
                self.regs.acc = result;
                self.regs.carry = false;
                self.regs.aux = false;
                self.set_result_flags(result);
            },
            _ => {
                // CPI (0xEF): compare immediate, accumulator untouched.
                let byte: u8 = self.cpu.next_code_byte(io);
                let (result, carry, aux): (u8, bool, bool) = execute_sub(self.regs.acc, byte);
                self.regs.carry = carry;
                self.regs.aux = aux;
                self.set_result_flags(result);
            },
        }
    }
}

/// The high byte of a word.
fn word_high(w: u16) -> (r: u8)
    ensures
        r == w / 0x100,
{
    (w >> 8) as u8
}

/// The low byte of a word.
fn word_low(w: u16) -> (r: u8)
    ensures
        r == w % 0x100,
{
    (w & 0xFF) as u8
}

/// A word with its high byte replaced.
pub open spec fn with_high(w: u16, v: u8) -> u16 {
    (w % 0x100 + v * 0x100) as u16
}

/// A word with its low byte replaced.
pub open spec fn with_low(w: u16, v: u8) -> u16 {
    ((w / 0x100) * 0x100 + v) as u16
}

/// Replace a word's high byte.
fn set_high(w: u16, v: u8) -> (r: u16)
    ensures
        r == with_high(w, v),
{
    (w & 0xFF) | ((v as u16) << 8)
}

/// Replace a word's low byte.
fn set_low(w: u16, v: u8) -> (r: u16)
    ensures
        r == with_low(w, v),
{
    (w & 0xFF00) | (v as u16)
}

/// The pair index packed in an opcode's low two bits.
fn u2_index(opcode: u8) -> (r: u8)
    ensures
        r == opcode % 4,
        r < 4,
{
    opcode & 0b11
}

/// Rotate a byte left by a nibble, swapping its halves.
fn rotate4(opcode: u8) -> (r: u8)
    ensures
        r == (opcode % 16) * 16 + opcode / 16,
{
    proof {
        let x: u8 = opcode;
        assert(((x << 4) | (x >> 4)) == (x % 16) * 16 + x / 16) by (bit_vector);
    }
    (opcode << 4) | (opcode >> 4)
}

} // verus!
