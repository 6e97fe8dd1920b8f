//! The 4004, the first commercially produced microprocessor (1971), a
//! 4-bit design built for a desktop calculator.
//!
//! One `run_cycle` call decodes one opcode and fully executes it, fetching
//! a second byte from ROM when the instruction has one. The program counter
//! is twelve bits and wraps at the end of the address space; the call stack
//! is the four-deep circular buffer of [`crate::cpu::CallStack`].

use vstd::prelude::*;

verus! {

broadcast use
    crate::bitops::lemma_u8_mask1,
    crate::bitops::lemma_u8_mask3,
    crate::bitops::lemma_u8_mask7,
    crate::bitops::lemma_u8_mask15,
    crate::bitops::lemma_u8_mask_even,
    crate::bitops::lemma_u8_shr1,
    crate::bitops::lemma_u8_shr2,
    crate::bitops::lemma_u8_shr4,
    crate::bitops::lemma_u8_shl1,
    crate::bitops::lemma_u8_shl4,
    crate::bitops::lemma_u8_not,
    crate::bitops::lemma_u8_or1,
    crate::bitops::lemma_u8_or8,
    crate::bitops::lemma_u8_nib_join,
    crate::bitops::lemma_u16_mask255,
    crate::bitops::lemma_u16_mask4095,
    crate::bitops::lemma_u16_mask_page,
    crate::bitops::lemma_u16_shr8,
    crate::bitops::lemma_u16_or_low_byte,
    crate::bitops::lemma_u16_byte_join_rev;

use crate::Fault;
use crate::cpu::CallStack;
use crate::indexer::Indexer64;

/// The RAM address a Send Register Control instruction designates: which
/// RAM chip, which register in it, which character of that register.
#[derive(Debug, Clone, Copy, PartialEq, Eq, Structural, Default)]
pub struct DesignatedIndex {
    /// Which RAM chip (two bits).
    pub chip_index: u8,
    /// Which register of the chip (two bits).
    pub reg_index: u8,
    /// Which character of the register (four bits).
    pub char_index: u8,
}

impl DesignatedIndex {
    /// Are all three fields inside their widths?
    pub open spec fn wf(&self) -> bool {
        self.chip_index < 4 && self.reg_index < 4 && self.char_index < 16
    }
}

/// A twelve-bit ROM address: which ROM chip, which byte inside it.
#[derive(Debug, Clone, Copy, PartialEq, Eq, Structural, Default)]
pub struct ROMAddress {
    /// Which ROM chip (four bits).
    pub chip_index: u8,
    /// Which byte inside the chip.
    pub offset: u8,
}

impl ROMAddress {
    /// Is the chip selector inside its width?
    pub open spec fn wf(&self) -> bool {
        self.chip_index < 16
    }
}

/// The board answers the 4004's memory and port traffic through these
/// methods. Values handed to the board are 4-bit digits; whatever the board
/// answers, the engine keeps only the low four bits, as the bus would.
pub trait IO {
    /// Read a byte from a ROM chip.
    fn read_rom_byte(&self, address: ROMAddress) -> u8;

    /// Read a character from a RAM chip.
    fn read_ram_character(&self, command_control: u8, designated_index: DesignatedIndex) -> u8;

    /// Write a character to a RAM chip.
    fn write_ram_character(
        &mut self,
        command_control: u8,
        designated_index: DesignatedIndex,
        value: u8,
    );

    /// Read a status digit from a RAM chip.
    fn read_ram_status(
        &self,
        command_control: u8,
        designated_index: DesignatedIndex,
        status_index: u8,
    ) -> u8;

    /// Write a status digit to a RAM chip.
    fn write_ram_status(
        &mut self,
        command_control: u8,
        designated_index: DesignatedIndex,
        status_index: u8,
        value: u8,
    );

    /// Write four bits to a RAM chip's output port.
    fn write_ram_ports(&mut self, command_control: u8, designated_index: DesignatedIndex, value: u8);

    /// Read four bits from a ROM chip's port.
    fn read_rom_ports(&self, designated_index: DesignatedIndex) -> u8;

    /// Write four bits to a ROM chip's port.
    fn write_rom_ports(&mut self, designated_index: DesignatedIndex, value: u8);
}

/// The program counter after one byte's advance, wrapping at the end
/// of the twelve-bit space.
pub open spec fn spec_inc_pc(pc: u16) -> u16 {
    (((pc + 1) % 0x1000) as u16)
}

/// The index register a modifier nibble names.
pub open spec fn spec_reg(chip: I4004, i: u8) -> u8 {
    crate::indexer::nib64_at(chip.regs.data, (i % 16) as u32)
}

/// The register file after one register write.
pub open spec fn spec_reg_set(chip: I4004, i: u8, value: u8) -> Indexer64 {
    Indexer64 { data: crate::indexer::nib64_set(chip.regs.data, (i % 16) as u32, value) }
}

/// Does a conditional jump fire? The opcode's low bits name the
/// conditions: test pin, carry, accumulator zero, and an inverting bit.
pub open spec fn spec_jcn_taken(chip: I4004, opcode: u8) -> bool {
    let condition = (opcode & 0x1 == 0x1 && chip.test) || (opcode & 0x2 == 0x2 && chip.carry) || (
    opcode & 0x4 == 0x4 && chip.acc == 0);
    if opcode & 0x8 == 0x8 {
        !condition
    } else {
        condition
    }
}

/// The designated index a Send Register Control broadcasts: the chip
/// and register selectors from the pair's even half, the character from
/// its odd half.
pub open spec fn spec_src_index(chip: I4004, opcode: u8) -> DesignatedIndex {
    let pair = (((opcode / 2) % 8) * 2) as u8;
    let high = spec_reg(chip, pair);
    DesignatedIndex {
        chip_index: (high / 4) as u8,
        reg_index: (high % 4) as u8,
        char_index: spec_reg(chip, (pair + 1) as u8),
    }
}

/// The in-page target a register-pair jump selects.
pub open spec fn spec_jin_target(chip: I4004, opcode: u8) -> u16 {
    let pair = (((opcode / 2) % 8) * 2) as u8;
    ((chip.pc / 0x100) * 0x100 + spec_reg(chip, pair) * 16 + spec_reg(
        chip,
        (pair + 1) as u8,
    )) as u16
}

/// The register, accumulator and memory rows' transition: what one
/// opcode does to the chip, for every row whose result the board does
/// not decide. The two reserved byte values map to nothing.
pub open spec fn spec_reg_step(chip: I4004, opcode: u8) -> Option<I4004> {
    if opcode <= 0xEF {
        spec_reg_rows(chip, opcode)
    } else {
        spec_acc_row(chip, opcode)
    }
}

/// The register and memory rows of [`spec_reg_step`].
#[verifier::opaque]
pub open spec fn spec_reg_rows(chip: I4004, opcode: u8) -> Option<I4004> {
    let low = (opcode % 16) as u8;
    let reg = spec_reg(chip, low);
    if opcode <= 0x6F {
        Some(I4004 { regs: spec_reg_set(chip, low, ((reg + 1) % 16) as u8), ..chip })
    } else if opcode <= 0x7F {
        // The in-page jump target is the board's byte; the caller
        // states the rest.
        Some(chip)
    } else if opcode <= 0x8F {
        let sum = chip.acc + reg + (if chip.carry {
            1int
        } else {
            0int
        });
        Some(I4004 { acc: (sum % 16) as u8, carry: sum > 15, ..chip })
    } else if opcode <= 0x9F {
        let sum = chip.acc + (15 - reg) + (if chip.carry {
            0int
        } else {
            1int
        });
        Some(I4004 { acc: (sum % 16) as u8, carry: sum > 15, ..chip })
    } else if opcode <= 0xAF {
        Some(I4004 { acc: reg, ..chip })
    } else if opcode <= 0xBF {
        Some(I4004 { acc: reg, regs: spec_reg_set(chip, low, chip.acc), ..chip })
    } else if opcode <= 0xCF {
        if chip.stack.pending == 0 {
            Some(I4004 { acc: low, ..chip })
        } else {
            let back = CallStack::pop_index(chip.stack.index as int);
            Some(
                I4004 {
                    acc: low,
                    pc: ((chip.stack.slots@[back] % 0x1000) as u16),
                    stack: CallStack {
                        slots: chip.stack.slots,
                        index: back as usize,
                        pending: (chip.stack.pending - 1) as u64,
                    },
                    ..chip
                },
            )
        }
    } else if opcode <= 0xDF {
        Some(I4004 { acc: low, ..chip })
    } else if opcode <= 0xEF {
        if low == 3 {
            None
        } else {
            // The writes leave the chip alone; the reads land the
            // board's digit, which the caller frames.
            Some(chip)
        }
    } else {
        Some(chip)
    }
}

/// The accumulator-group row of [`spec_reg_step`].
#[verifier::opaque]
pub open spec fn spec_acc_row(chip: I4004, opcode: u8) -> Option<I4004> {
    let low = (opcode % 16) as u8;
    if low == 0x0 {
        Some(I4004 { acc: 0, carry: false, ..chip })
    } else if low == 0x1 {
        Some(I4004 { carry: false, ..chip })
    } else if low == 0x2 {
        let sum = chip.acc + 1;
        Some(I4004 { acc: (sum % 16) as u8, carry: sum > 15, ..chip })
    } else if low == 0x3 {
        Some(I4004 { carry: !chip.carry, ..chip })
    } else if low == 0x4 {
        Some(I4004 { acc: (15 - chip.acc) as u8, ..chip })
    } else if low == 0x5 {
        Some(
            I4004 {
                acc: ((chip.acc * 2) % 16 + (if chip.carry {
                    1int
                } else {
                    0int
                })) as u8,
                carry: chip.acc >= 8,
                ..chip
            },
        )
    } else if low == 0x6 {
        Some(
            I4004 {
                acc: (chip.acc / 2 + (if chip.carry {
                    8int
                } else {
                    0int
                })) as u8,
                carry: chip.acc % 2 == 1,
                ..chip
            },
        )
    } else if low == 0x7 {
        Some(
            I4004 {
                acc: (if chip.carry {
                    1u8
                } else {
                    0u8
                }),
                carry: false,
                ..chip
            },
        )
    } else if low == 0x8 {
        if chip.acc == 0 {
            Some(I4004 { acc: 0xF, carry: false, ..chip })
        } else {
            Some(I4004 { acc: (chip.acc - 1) as u8, carry: true, ..chip })
        }
    } else if low == 0x9 {
        Some(
            I4004 {
                acc: (if chip.carry {
                    10u8
                } else {
                    9u8
                }),
                carry: false,
                ..chip
            },
        )
    } else if low == 0xA {
        Some(I4004 { carry: true, ..chip })
    } else if low == 0xB {
        if chip.acc > 9 || chip.carry {
            Some(
                I4004 {
                    acc: ((chip.acc + 6) % 16) as u8,
                    carry: chip.carry || chip.acc + 6 > 0xF,
                    ..chip
                },
            )
        } else {
            Some(chip)
        }
    } else if low == 0xC {
        Some(
            I4004 {
                acc: (if chip.acc == 0 {
                    0u8
                } else if chip.acc == 1 {
                    1u8
                } else if chip.acc == 2 {
                    2u8
                } else if chip.acc == 4 {
                    3u8
                } else if chip.acc == 8 {
                    4u8
                } else {
                    0xFu8
                }),
                ..chip
            },
        )
    } else if low == 0xD {
        Some(I4004 { command_control: chip.acc, ..chip })
    } else if low == 0xE {
        Some(chip)
    } else {
        None
    }
}

/// Intel 4004 chip.
pub struct I4004 {
    /// Sixteen 4-bit index registers, packed.
    pub regs: Indexer64,
    /// The carry flag.
    pub carry: bool,
    /// The test pin, driven by other chips.
    pub test: bool,
    /// The accumulator, a 4-bit digit.
    pub acc: u8,
    /// Where RAM and ROM traffic goes, set by Send Register Control.
    pub designated_index: DesignatedIndex,
    /// The RAM bank selection.
    pub command_control: u8,
    /// The four-deep circular call stack.
    pub stack: CallStack,
    /// The twelve-bit program counter.
    pub pc: u16,
}

impl I4004 {
    /// The chip's internal invariant: every 4-bit quantity inside its
    /// width, the program counter inside twelve bits, the stack sound.
    pub open spec fn wf(&self) -> bool {
        &&& self.acc < 16
        &&& self.command_control < 16
        &&& self.designated_index.wf()
        &&& self.stack.wf()
        &&& self.pc < 0x1000
    }

    /// Power-on state: everything cleared.
    pub fn new() -> (r: Self)
        ensures
            r.wf(),
            r.get_pc_spec() == 0,
    {
        I4004 {
            regs: Indexer64::new(),
            carry: false,
            test: false,
            acc: 0,
            designated_index: DesignatedIndex { chip_index: 0, reg_index: 0, char_index: 0 },
            command_control: 0,
            stack: CallStack::new(),
            pc: 0,
        }
    }

    /// The current program counter, as the twelve-bit value the ROMs see.
    pub open spec fn get_pc_spec(&self) -> u16 {
        self.pc
    }

    /// Read the current program counter.
    pub fn get_pc(&self) -> (r: u16)
        ensures
            r == self.get_pc_spec(),
    {
        self.pc
    }

    /// Set the test pin. This is the only way other chips signal the 4004
    /// directly.
    pub fn set_test_flag(&mut self, test: bool)
        ensures
            *final(self) == (I4004 { test, ..*old(self) }),
    {
        self.test = test;
    }

    /// Load the accumulator from a 5-bit intermediate sum: the low four
    /// bits stay, the fifth becomes the carry.
    fn set_acc_carry(&mut self, val: u8)
        requires
            val < 32,
        ensures
            *final(self) == (I4004 {
                acc: (val % 16) as u8,
                carry: val > 0xF,
                ..*old(self)
            }),
    {
        self.carry = val > 0xF;
        self.acc = val & 0xF;
    }

    /// Jump to a full twelve-bit address.
    fn jump(&mut self, low_byte: u8, high_nibble: u8)
        requires
            high_nibble < 16,
        ensures
            *final(self) == (I4004 {
                pc: (high_nibble * 0x100 + low_byte) as u16,
                ..*old(self)
            }),
            final(self).pc < 0x1000,
    {
        self.pc = ((high_nibble as u16) << 8) | (low_byte as u16);
    }

    /// Jump inside the current ROM page: only the low byte changes.
    fn jump_near(&mut self, low_byte: u8)
        requires
            old(self).pc < 0x1000,
        ensures
            *final(self) == (I4004 {
                pc: ((old(self).pc / 0x100) * 0x100 + low_byte) as u16,
                ..*old(self)
            }),
            final(self).pc < 0x1000,
    {
        proof {
            crate::bitops::lemma_u16_or_low_byte(self.pc & 0xF00, low_byte as u16);
        }
        self.pc = (self.pc & 0xF00) | (low_byte as u16);
    }

    /// Fetch the byte at the program counter and advance it, wrapping at
    /// the end of the twelve-bit space.
    fn next_rom_byte(&mut self, io: &mut impl IO) -> (r: u8)
        requires
            old(self).pc < 0x1000,
        ensures
            *final(self) == (I4004 {
                pc: (((old(self).pc + 1) % 0x1000) as u16),
                ..*old(self)
            }),
            final(self).pc < 0x1000,
    {
        let address: ROMAddress = self.split_pc();
        let ret: u8 = io.read_rom_byte(address);
        self.pc = (self.pc + 1) & 0xFFF;
        ret
    }

    /// The program counter as the chip-plus-offset pair the bus carries.
    fn split_pc(&self) -> (r: ROMAddress)
        requires
            self.pc < 0x1000,
        ensures
            r.chip_index == self.pc / 0x100,
            r.offset == self.pc % 0x100,
            r.wf(),
    {
        ROMAddress { chip_index: (self.pc >> 8) as u8, offset: (self.pc & 0xFF) as u8 }
    }

    /// Execute one instruction: fetch the opcode at the program counter,
    /// decode it, fetch a second byte when the format has one, execute.
    ///
    /// The two byte values the chip never decodes are refused as illegal;
    /// everything else runs to completion and keeps the chip well-formed.
    pub fn run_cycle(&mut self, io: &mut impl IO) -> (r: Result<(), Fault>)
        requires
            old(self).wf(),
        ensures
            final(self).wf(),
            r is Err ==> r == Err::<(), Fault>(Fault::IllegalOpcode),
            // Nothing inside the chip can write the test pin.
            final(self).test == old(self).test,
    {
        let opcode: u8 = self.next_rom_byte(io);
        if opcode < 0x60 {
            self.execute_ctrl(io, opcode)
        } else if opcode < 0xF0 {
            self.execute_reg(io, opcode)
        } else {
            self.execute_acc(opcode)
        }
    }

    /// The control rows: jumps, calls, the register pairs and the
    /// designated index. The program counter has already stepped past
    /// the opcode byte when these run.
    #[verifier::rlimit(100)]
    fn execute_ctrl(&mut self, io: &mut impl IO, opcode: u8) -> (r: Result<(), Fault>)
        requires
            old(self).wf(),
            opcode < 0x60,
        ensures
            final(self).wf(),
            final(self).test == old(self).test,
            final(self).command_control == old(self).command_control,
            r is Ok,
            // NOP leaves everything in place.
            opcode == 0 ==> *final(self) == *old(self),
            // JCN: the condition is decided by the chip's own state; a
            // taken jump stays inside the page past the two bytes.
            0x10 <= opcode <= 0x1F ==> ({
                let taken = spec_jcn_taken(*old(self), opcode);
                &&& final(self).regs == old(self).regs
                &&& final(self).stack == old(self).stack
                &&& final(self).acc == old(self).acc
                &&& final(self).carry == old(self).carry
                &&& final(self).designated_index == old(self).designated_index
                &&& !taken ==> final(self).pc == spec_inc_pc(old(self).pc)
                &&& taken ==> final(self).pc / 0x100 == spec_inc_pc(old(self).pc) / 0x100
            }),
            // FIM consumes a byte into the named register pair; what the
            // byte holds is the board's to answer.
            0x20 <= opcode <= 0x2F && opcode % 2 == 0 ==> final(self).pc == spec_inc_pc(
                old(self).pc,
            ) && final(self).stack == old(self).stack && final(self).acc == old(self).acc
                && final(self).carry == old(self).carry && final(self).designated_index == old(self).designated_index,
            // SRC broadcasts the designated index out of the named pair.
            0x20 <= opcode <= 0x2F && opcode % 2 == 1 ==> *final(self) == (I4004 {
                designated_index: spec_src_index(*old(self), opcode),
                ..*old(self)
            }),
            // FIN fetches through register pair zero; the pair lands
            // whatever the board answered, the counter holds still.
            0x30 <= opcode <= 0x3F && opcode % 2 == 0 ==> final(self).pc == old(self).pc && final(self).stack == old(self).stack && final(self).acc == old(self).acc && final(self).carry
                == old(self).carry && final(self).designated_index == old(self).designated_index,
            // JIN jumps inside the page through the named pair.
            0x30 <= opcode <= 0x3F && opcode % 2 == 1 ==> *final(self) == (I4004 {
                pc: spec_jin_target(*old(self), opcode),
                ..*old(self)
            }),
            // JUN and JMS take their page from the opcode; the offset
            // byte is the board's. JMS pushes the return address first.
            0x40 <= opcode <= 0x4F ==> final(self).pc / 0x100 == opcode % 16 && final(self).stack
                == old(self).stack && final(self).regs == old(self).regs && final(self).acc == old(self).acc && final(self).carry == old(self).carry && final(self).designated_index == old(self).designated_index,
            0x50 <= opcode <= 0x5F ==> final(self).pc / 0x100 == opcode % 16 && final(self).stack.slots@ == old(self).stack.slots@.update(
                old(self).stack.index as int,
                spec_inc_pc(old(self).pc),
            ) && final(self).stack.index == (old(self).stack.index + 1) % 4 && final(self).stack.pending == ((old(self).stack.pending + 1) % 0x1_0000_0000_0000_0000) && final(self).regs == old(self).regs && final(self).acc == old(self).acc && final(self).carry
                == old(self).carry && final(self).designated_index == old(self).designated_index,
    {
        match opcode {
            0 => {},  // NOP
            0x10..=0x1F => {
                // JCN: conditional jump on accumulator, carry or test.
                let opcode_low: u8 = self.next_rom_byte(io);
                let c1: bool = opcode & 0x8 == 0x8;  // invert
                let c2: bool = opcode & 0x4 == 0x4;  // accumulator zero
                let c3: bool = opcode & 0x2 == 0x2;  // carry
                let c4: bool = opcode & 0x1 == 0x1;  // test pin
                let condition: bool = (c4 && self.test) || (c3 && self.carry) || (c2 && self.acc
                    == 0);
                if (!c1 && condition) || (c1 && !condition) {
                    self.jump_near(opcode_low);
                }
            },
            0x20..=0x2F => {
                let pair: u8 = reg_pair_low(opcode);
                if opcode & 1 == 0 {
                    // FIM: fetch immediate into a register pair.
                    let opcode_low: u8 = self.next_rom_byte(io);
                    self.regs.write_nibble(pair | 1, opcode_low & 0xF);
                    self.regs.write_nibble(pair, opcode_low >> 4);
                } else {
                    // SRC: the designated index for later RAM/ROM traffic.
                    // The odd modifier masked even always lands one lower,
                    // a trick the original circuit plays as well.
                    let low: u8 = self.regs.read_nibble(pair | 1);
                    let high: u8 = self.regs.read_nibble(pair);
                    self.designated_index = DesignatedIndex {
                        chip_index: high >> 2,
                        reg_index: high & 0b11,
                        char_index: low,
                    };
                }
            },
            0x30..=0x3F => {
                let pair: u8 = reg_pair_low(opcode);
                if opcode & 1 == 0 {
                    // FIN: fetch indirect through register pair zero, from
                    // the page the program counter sits in.
                    let r0: u8 = self.regs.read_nibble(0);
                    let r1: u8 = self.regs.read_nibble(1);
                    let addr: u8 = r1 | (r0 << 4);
                    let page: ROMAddress = self.split_pc();
                    let full_addr: ROMAddress = ROMAddress {
                        chip_index: page.chip_index,
                        offset: addr,
                    };
                    let opcode_low: u8 = io.read_rom_byte(full_addr);
                    self.regs.write_nibble(pair | 1, opcode_low & 0xF);
                    self.regs.write_nibble(pair, opcode_low >> 4);
                } else {
                    // JIN: jump inside the page, through a register pair.
                    let low: u8 = self.regs.read_nibble(pair | 1);
                    let high: u8 = self.regs.read_nibble(pair);
                    self.jump_near(low | (high << 4));
                }
            },
            0x40..=0x4F => {
                // JUN: unconditional jump, twelve-bit target.
                let high_nibble: u8 = opcode & 0xF;
                let opcode_low: u8 = self.next_rom_byte(io);
                self.jump(opcode_low, high_nibble);
            },
            0x50..=0x5F => {
                // JMS: push the return address, jump to the subroutine.
                let high_nibble: u8 = opcode & 0xF;
                let opcode_low: u8 = self.next_rom_byte(io);
                let pc: u16 = self.pc;
                self.stack.push(pc);
                self.jump(opcode_low, high_nibble);
            },
            _ => {},
        }
        Ok(())
    }

    /// The register, accumulator and memory rows. Only the branch-back
    /// row and the two reserved byte values touch the counter or fail.
    #[verifier::rlimit(100)]
    fn execute_reg(&mut self, io: &mut impl IO, opcode: u8) -> (r: Result<(), Fault>)
        requires
            old(self).wf(),
            0x60 <= opcode <= 0xEF,
        ensures
            final(self).wf(),
            final(self).test == old(self).test,
            r is Err <==> opcode == 0xE3 || opcode == 0xFF,
            r is Err ==> r == Err::<(), Fault>(Fault::IllegalOpcode) && *final(self) == *old(self),
            // Every row the board does not decide, exactly; the rest by
            // frame.
            r is Ok && !(0xE8 <= opcode <= 0xEF) && !(0x70 <= opcode <= 0x7F) ==> Some(
                *final(self),
            ) == spec_reg_step(*old(self), opcode),
            // ISZ steps the register and consumes the target byte; the
            // jump stays inside the page when taken.
            0x70 <= opcode <= 0x7F ==> ({
                let reg = spec_reg(*old(self), (opcode % 16) as u8);
                &&& final(self).regs == spec_reg_set(
                    *old(self),
                    (opcode % 16) as u8,
                    ((reg + 1) % 16) as u8,
                )
                &&& final(self).acc == old(self).acc
                &&& final(self).carry == old(self).carry
                &&& final(self).stack == old(self).stack
                &&& final(self).designated_index == old(self).designated_index
                &&& reg == 0xF ==> final(self).pc == spec_inc_pc(old(self).pc)
                &&& reg != 0xF ==> final(self).pc / 0x100 == spec_inc_pc(old(self).pc) / 0x100
            }),
            // The memory and port reads land the board's digit in the
            // accumulator; everything else holds still.
            0xE8 <= opcode <= 0xEF ==> final(self).regs == old(self).regs && final(self).stack
                == old(self).stack && final(self).pc == old(self).pc
                && final(self).designated_index == old(self).designated_index
                && final(self).command_control == old(self).command_control,
    {
        proof {
            reveal(spec_reg_rows);
        }
        match opcode {
            0x60..=0x6F => {
                // INC: increment a register; no flags change.
                let reg_op: u8 = opcode & 0xF;
                let val: u8 = self.regs.read_nibble(reg_op);
                self.regs.write_nibble(reg_op, (val + 1) & 0xF);
            },
            0x70..=0x7F => {
                // ISZ: increment and jump unless the register wrapped.
                let reg_op: u8 = opcode & 0xF;
                let opcode_low: u8 = self.next_rom_byte(io);
                let val: u8 = self.regs.read_nibble(reg_op);
                if val == 0xF {
                    self.regs.write_nibble(reg_op, 0);
                } else {
                    self.regs.write_nibble(reg_op, val + 1);
                    self.jump_near(opcode_low);
                }
            },
            0x80..=0x8F => {
                // ADD: accumulator plus register plus carry.
                let reg_op: u8 = opcode & 0xF;
                let val: u8 = self.regs.read_nibble(reg_op);
                let acc: u8 = self.acc;
                self.set_acc_carry(acc + val + (self.carry as u8));
            },
            0x90..=0x9F => {
                // SUB: accumulator minus register minus borrow, done as
                // one's-complement addition.
                let reg_op: u8 = opcode & 0xF;
                let val: u8 = self.regs.read_nibble(reg_op);
                let inverted: u8 = (!val) & 0xF;
                let acc: u8 = self.acc;
                self.set_acc_carry(acc + inverted + ((!self.carry) as u8));
            },
            0xA0..=0xAF => {
                // LD: accumulator from register.
                let reg_op: u8 = opcode & 0xF;
                self.acc = self.regs.read_nibble(reg_op);
            },
            0xB0..=0xBF => {
                // XCH: exchange accumulator and register.
                let reg_op: u8 = opcode & 0xF;
                let nibble: u8 = self.regs.read_nibble(reg_op);
                let acc: u8 = self.acc;
                self.regs.write_nibble(reg_op, acc);
                self.acc = nibble;
            },
            0xC0..=0xCF => {
                // BBL: return from subroutine and load the accumulator.
                self.acc = opcode & 0xF;
                let popped: Option<u16> = self.stack.pop();
                match popped {
                    Some(addr) => {
                        self.pc = addr & 0xFFF;
                    },
                    None => {},
                }
            },
            0xD0..=0xDF => {
                // LDM: load immediate into the accumulator.
                self.acc = opcode & 0xF;
            },
            0xE0 => {
                // WRM: write the accumulator to the designated RAM
                // character.
                io.write_ram_character(self.command_control, self.designated_index, self.acc);
            },
            0xE1 => {
                // WMP: write the RAM port.
                io.write_ram_ports(self.command_control, self.designated_index, self.acc);
            },
            0xE2 => {
                // WRR: write the ROM port.
                io.write_rom_ports(self.designated_index, self.acc);
            },
            0xE4..=0xE7 => {
                // WR0..WR3: write a RAM status digit.
                let status_index: u8 = opcode & 0b11;
                io.write_ram_status(
                    self.command_control,
                    self.designated_index,
                    status_index,
                    self.acc,
                );
            },
            0xE8 => {
                // SBM: subtract the designated RAM character.
                let raw: u8 = io.read_ram_character(self.command_control, self.designated_index);
                let inverted: u8 = (!(raw & 0xF)) & 0xF;
                let acc: u8 = self.acc;
                self.set_acc_carry(acc + inverted + ((!self.carry) as u8));
            },
            0xE9 => {
                // RDM: read the designated RAM character.
                let raw: u8 = io.read_ram_character(self.command_control, self.designated_index);
                self.acc = raw & 0xF;
            },
            0xEA => {
                // RDR: read the ROM port.
                let raw: u8 = io.read_rom_ports(self.designated_index);
                self.acc = raw & 0xF;
            },
            0xEB => {
                // ADM: add the designated RAM character.
                let raw: u8 = io.read_ram_character(self.command_control, self.designated_index);
                let val: u8 = raw & 0xF;
                let acc: u8 = self.acc;
                self.set_acc_carry(acc + val + (self.carry as u8));
            },
            0xEC..=0xEF => {
                // RD0..RD3: read a RAM status digit.
                let status_index: u8 = opcode & 0b11;
                let raw: u8 = io.read_ram_status(
                    self.command_control,
                    self.designated_index,
                    status_index,
                );
                self.acc = raw & 0xF;
            },
            _ => {
                // 0xE3 decodes to nothing on this chip.
                return Err(Fault::IllegalOpcode);
            },
        }
        Ok(())
    }

    /// The accumulator-group row of the single-call engine.
    #[verifier::rlimit(100)]
    fn execute_acc(&mut self, opcode: u8) -> (r: Result<(), Fault>)
        requires
            old(self).wf(),
            0xF0 <= opcode,
        ensures
            final(self).wf(),
            final(self).test == old(self).test,
            r is Err <==> opcode == 0xFF,
            r is Err ==> r == Err::<(), Fault>(Fault::IllegalOpcode) && *final(self) == *old(self),
            r is Ok ==> Some(*final(self)) == spec_reg_step(*old(self), opcode),
    {
        proof {
            reveal(spec_acc_row);
        }
        match opcode {
            0xF0 => {
                // CLB: clear accumulator and carry.
                self.acc = 0;
                self.carry = false;
            },
            0xF1 => {
                // CLC: clear carry.
                self.carry = false;
            },
            0xF2 => {
                // IAC: increment the accumulator.
                let acc: u8 = self.acc;
                self.set_acc_carry(acc + 1);
            },
            0xF3 => {
                // CMC: complement carry.
                self.carry = !self.carry;
            },
            0xF4 => {
                // CMA: complement the accumulator.
                let acc: u8 = self.acc;
                self.acc = (!acc) & 0xF;
            },
            0xF5 => {
                // RAL: rotate left through carry.
                let new_carry: bool = self.acc & 8 == 8;
                let old_acc: u8 = self.acc;
                proof {
                    let a: u8 = old_acc;
                    assert(a < 16 ==> ((a << 1) & 0xF) == (a * 2) % 16 && (((a << 1) & 0xF) | 1)
                        == (a * 2) % 16 + 1 && ((a & 8) == 8) == (a >= 8)) by (bit_vector);
                }
                let mut acc: u8 = (old_acc << 1) & 0xF;
                if self.carry {
                    acc = acc | 1;
                }
                self.acc = acc;
                self.carry = new_carry;
            },
            0xF6 => {
                // RAR: rotate right through carry.
                let new_carry: bool = self.acc & 1 == 1;
                let old_acc: u8 = self.acc;
                let mut acc: u8 = old_acc >> 1;
                if self.carry {
                    acc = acc | 8;
                }
                self.acc = acc;
                self.carry = new_carry;
            },
            0xF7 => {
                // TCC: transmit carry and clear.
                self.acc = self.carry as u8;
                self.carry = false;
            },
            0xF8 => {
                // DAC: decrement the accumulator; the carry reads reversed.
                if self.acc == 0 {
                    self.acc = 0xF;
                    self.carry = false;
                } else {
                    self.acc = self.acc - 1;
                    self.carry = true;
                }
            },
            0xF9 => {
                // TCS: transfer carry subtract, for packed-decimal work.
                self.acc = if self.carry {
                    10
                } else {
                    9
                };
                self.carry = false;
            },
            0xFA => {
                // STC: set carry.
                self.carry = true;
            },
            0xFB => {
                // DAA: decimal adjust. The carry sets and never clears
                // here, a quirk the hardware has.
                let val: u8 = self.acc;
                if val > 9 || self.carry {
                    let adjusted: u8 = val + 6;
                    self.acc = adjusted & 0xF;
                    if adjusted > 0xF {
                        self.carry = true;
                    }
                }
            },
            0xFC => {
                // KBP: keyboard process, turn a one-hot accumulator into a
                // key number.
                self.acc = match self.acc {
                    0b0000 => 0,
                    0b0001 => 1,
                    0b0010 => 2,
                    0b0100 => 3,
                    0b1000 => 4,
                    _ => 0xF,
                };
            },
            0xFD => {
                // DCL: designate command line, selecting the RAM bank.
                self.command_control = self.acc;
            },
            0xFE => {
                // Recognized, does nothing: historical exercisers run it.
            },
            _ => {
                // 0xFF decodes to nothing on this chip.
                return Err(Fault::IllegalOpcode);
            },
        }
        Ok(())
    }
}

/// The even register index of the pair an opcode names.
fn reg_pair_low(opcode: u8) -> (r: u8)
    ensures
        r == ((opcode >> 1) % 8) * 2,
        r < 16,
        r % 2 == 0,
        (r | 1) == r + 1,
{
    let index: u8 = (opcode >> 1) & 0b111;
    let r: u8 = index * 2;
    r
}

} // verus!
