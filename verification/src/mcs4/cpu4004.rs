//! The 4004 as it really clocks: one logical instruction spans several
//! external phases, and each call here is one phase, not one instruction.
//!
//! The board first asks for the address, hands back the opcode byte the
//! ROMs drove onto the bus, and only then calls the execute phase. An
//! instruction with a second byte leaves a continuation phase pending; the
//! next execute call consumes the next byte and finishes the deferred
//! branch, far call, far jump or register load, returning to the start
//! phase. Memory effects are not performed here: the bus is shared, so the
//! engine hands the board a packed side-effect signal instead.

use vstd::prelude::*;

verus! {

broadcast use
    crate::bitops::lemma_u8_mask1,
    crate::bitops::lemma_u8_mask3,
    crate::bitops::lemma_u8_mask7,
    crate::bitops::lemma_u8_mask15,
    crate::bitops::lemma_u8_mask_even,
    crate::bitops::lemma_u8_shr1,
    crate::bitops::lemma_u8_shr2,
    crate::bitops::lemma_u8_shr4,
    crate::bitops::lemma_u8_shl1,
    crate::bitops::lemma_u8_not,
    crate::bitops::lemma_u8_or1,
    crate::bitops::lemma_u8_or8,
    crate::bitops::lemma_u16_mask15,
    crate::bitops::lemma_u16_mask255,
    crate::bitops::lemma_u16_mask4095,
    crate::bitops::lemma_u16_mask_page,
    crate::bitops::lemma_u16_shr4,
    crate::bitops::lemma_u16_shr8,
    crate::bitops::lemma_u16_or_low_byte,
    crate::bitops::lemma_u16_nib3_join,
    crate::indexer::lemma_nib64_at_bound;

use crate::Fault;
use crate::cpu::CallStack;
use crate::indexer::Indexer64;
use super::Address;
use super::Byte;
use super::ControlLines;
use super::ExecuteOut;

/// Which part of a multi-phase instruction is still pending. Exactly one
/// phase is active at a time; the transition out of `StartOver` is a pure
/// function of the opcode just decoded.
#[derive(Debug, Clone, Copy, PartialEq, Eq, Structural)]
pub enum ContinueFrom {
    /// No instruction in flight: decode the next opcode.
    StartOver,
    /// A conditional jump waits for its target byte.
    JumpConditional,
    /// A subroutine call waits for the rest of its target.
    CallFar,
    /// An unconditional jump waits for the rest of its target.
    JumpFar,
    /// A register pair waits for its immediate byte.
    SetReg,
    /// A register pair waits for a byte fetched indirectly.
    SetIndirectReg,
}

/// The phase the engine enters after decoding `opcode` in the start phase:
/// instructions that finish in one phase stay in `StartOver`, the
/// two-byte ones name their continuation.
pub open spec fn spec_next_phase(opcode: Byte) -> ContinueFrom {
    if opcode.high == 1 {
        ContinueFrom::JumpConditional
    } else if opcode.high == 2 && opcode.low % 2 == 0 {
        ContinueFrom::SetReg
    } else if opcode.high == 3 && opcode.low % 2 == 0 {
        ContinueFrom::SetIndirectReg
    } else if opcode.high == 4 {
        ContinueFrom::JumpFar
    } else if opcode.high == 5 {
        ContinueFrom::CallFar
    } else if opcode.high == 7 {
        ContinueFrom::JumpConditional
    } else {
        ContinueFrom::StartOver
    }
}

/// The program counter after its per-phase increment, wrapping at the end
/// of the twelve-bit space.
pub open spec fn spec_inc_pc(pc: u16) -> u16 {
    (((pc + 1) % 0x1000) as u16)
}

/// The index register a modifier nibble names.
pub open spec fn spec_reg(chip: CPU, i: u8) -> u8 {
    crate::indexer::nib64_at(chip.regs.data, (i % 16) as u32)
}

/// The register file after one register write.
pub open spec fn spec_reg_set(chip: CPU, i: u8, value: u8) -> Indexer64 {
    Indexer64 { data: crate::indexer::nib64_set(chip.regs.data, (i % 16) as u32, value) }
}

/// A jump target inside the page the given counter sits in.
pub open spec fn spec_page_target(pc: u16, high: u8, low: u8) -> u16 {
    ((pc / 0x100) * 0x100 + high * 16 + low) as u16
}

/// A full twelve-bit jump target from three nibbles.
pub open spec fn spec_far_target(chip: u8, high: u8, low: u8) -> u16 {
    (chip * 0x100 + high * 16 + low) as u16
}

/// Does a pending conditional jump fire? The stashed modifier names the
/// conditions: test pin, carry, accumulator zero, and an inverting bit.
pub open spec fn spec_jcn_taken(chip: CPU) -> bool {
    let m = chip.previous_modifier;
    let condition = (m & 0x1 == 0x1 && chip.test) || (m & 0x2 == 0x2 && chip.carry) || (m & 0x4
        == 0x4 && chip.acc == 0);
    if m & 0x8 == 0x8 {
        !condition
    } else {
        condition
    }
}

/// The start phase's whole transition: what one decoded opcode does to
/// the chip, and what it asks of the board, for the digit the bus
/// answered. The one nibble pair the chip never decodes maps to
/// nothing.
/// The shared preamble of every start-phase opcode: the stashed
/// modifier, and the stepped counter (held still for the indirect
/// fetches).
pub open spec fn spec_start_armed(chip: CPU) -> CPU {
    CPU {
        pc: if chip.opcode.high == 3 {
            chip.pc
        } else {
            spec_inc_pc(chip.pc)
        },
        previous_modifier: chip.opcode.low,
        ..chip
    }
}

/// The start phase's whole transition: what one decoded opcode does to
/// the chip, and what it asks of the board, for the digit the bus
/// answered. The one nibble pair the chip never decodes maps to
/// nothing.
pub open spec fn spec_start_step(chip: CPU, data: u8) -> Option<(CPU, ExecuteOut)> {
    let high = chip.opcode.high;
    if high <= 7 {
        spec_start_low(chip)
    } else if high <= 0xB {
        spec_start_mid(chip)
    } else if high <= 0xE {
        spec_start_mem(chip, data)
    } else {
        spec_start_top(chip)
    }
}

/// The control-flow and register-pair rows.
#[verifier::opaque]
pub open spec fn spec_start_low(chip: CPU) -> Option<(CPU, ExecuteOut)> {
    let high = chip.opcode.high;
    let low = chip.opcode.low;
    let armed = spec_start_armed(chip);
    let reg = spec_reg(chip, low);
    let even_reg = spec_reg(chip, ((low / 2) * 2) as u8);
    if high == 0x0 {
        Some((armed, ExecuteOut::Nothing))
    } else if high == 0x1 {
        Some((CPU { continue_from: ContinueFrom::JumpConditional, ..armed }, ExecuteOut::Nothing))
    } else if high == 0x2 {
        if low % 2 == 0 {
            Some((CPU { continue_from: ContinueFrom::SetReg, ..armed }, ExecuteOut::Nothing))
        } else {
            Some((armed, ExecuteOut::SRC(Byte { high: even_reg, low: reg })))
        }
    } else if high == 0x3 {
        if low % 2 == 0 {
            Some(
                (
                    CPU { continue_from: ContinueFrom::SetIndirectReg, ..armed },
                    ExecuteOut::Nothing,
                ),
            )
        } else {
            Some(
                (
                    CPU { pc: spec_page_target(chip.pc, even_reg, reg), ..armed },
                    ExecuteOut::Nothing,
                ),
            )
        }
    } else if high == 0x4 {
        Some((CPU { continue_from: ContinueFrom::JumpFar, ..armed }, ExecuteOut::Nothing))
    } else if high == 0x5 {
        Some((CPU { continue_from: ContinueFrom::CallFar, ..armed }, ExecuteOut::Nothing))
    } else if high == 0x6 {
        Some(
            (
                CPU { regs: spec_reg_set(chip, low, ((reg + 1) % 16) as u8), ..armed },
                ExecuteOut::Nothing,
            ),
        )
    } else if high == 0x7 {
        Some(
            (
                CPU {
                    continue_from: ContinueFrom::JumpConditional,
                    previous_modifier: if reg == 0xF {
                        0u8
                    } else {
                        8u8
                    },
                    regs: spec_reg_set(chip, low, ((reg + 1) % 16) as u8),
                    ..armed
                },
                ExecuteOut::Nothing,
            ),
        )
    } else {
        Some((armed, ExecuteOut::Nothing))
    }
}

/// The arithmetic and register rows.
#[verifier::opaque]
pub open spec fn spec_start_mid(chip: CPU) -> Option<(CPU, ExecuteOut)> {
    let high = chip.opcode.high;
    let low = chip.opcode.low;
    let armed = spec_start_armed(chip);
    let reg = spec_reg(chip, low);
if high == 0x8 {
        let sum = chip.acc + reg + (if chip.carry {
            1int
        } else {
            0int
        });
        Some((CPU { acc: (sum % 16) as u8, carry: sum > 15, ..armed }, ExecuteOut::Nothing))
    } else if high == 0x9 {
        let sum = chip.acc + (15 - reg) + (if chip.carry {
            0int
        } else {
            1int
        });
        Some((CPU { acc: (sum % 16) as u8, carry: sum > 15, ..armed }, ExecuteOut::Nothing))
    } else if high == 0xA {
        Some((CPU { acc: reg, ..armed }, ExecuteOut::Nothing))
    } else if high == 0xB {
        Some(
            (
                CPU { acc: reg, regs: spec_reg_set(chip, low, chip.acc), ..armed },
                ExecuteOut::Nothing,
            ),
        )
    } else {
        Some((armed, ExecuteOut::Nothing))
    }
}

/// The branch-back, immediate and memory rows.
#[verifier::opaque]
pub open spec fn spec_start_mem(chip: CPU, data: u8) -> Option<(CPU, ExecuteOut)> {
    let high = chip.opcode.high;
    let low = chip.opcode.low;
    let armed = spec_start_armed(chip);
if high == 0xC {
        if chip.stack.pending == 0 {
            Some((CPU { acc: low, ..armed }, ExecuteOut::Nothing))
        } else {
            let back = CallStack::pop_index(chip.stack.index as int);
            Some(
                (
                    CPU {
                        acc: low,
                        pc: ((chip.stack.slots@[back] % 0x1000) as u16),
                        stack: CallStack {
                            slots: chip.stack.slots,
                            index: back as usize,
                            pending: (chip.stack.pending - 1) as u64,
                        },
                        ..armed
                    },
                    ExecuteOut::Nothing,
                ),
            )
        }
    } else if high == 0xD {
        Some((CPU { acc: low, ..armed }, ExecuteOut::Nothing))
    } else if high == 0xE {
        if low == 0x8 {
            let sum = chip.acc + (15 - data) + (if chip.carry {
                0int
            } else {
                1int
            });
            Some((CPU { acc: (sum % 16) as u8, carry: sum > 15, ..armed }, ExecuteOut::Nothing))
        } else if low == 0x9 || low == 0xA || 0xC <= low {
            Some((CPU { acc: data, ..armed }, ExecuteOut::Nothing))
        } else if low == 0xB {
            let sum = chip.acc + data + (if chip.carry {
                1int
            } else {
                0int
            });
            Some((CPU { acc: (sum % 16) as u8, carry: sum > 15, ..armed }, ExecuteOut::Nothing))
        } else {
            Some((armed, ExecuteOut::Write(Byte { high: low, low: chip.acc })))
        }
    } else {
        Some((armed, ExecuteOut::Nothing))
    }
}

/// The accumulator-group row.
#[verifier::opaque]
pub open spec fn spec_start_top(chip: CPU) -> Option<(CPU, ExecuteOut)> {
    let low = chip.opcode.low;
    let armed = spec_start_armed(chip);
    if low == 0x0 {
        Some((CPU { acc: 0, carry: false, ..armed }, ExecuteOut::Nothing))
    } else if low == 0x1 {
        Some((CPU { carry: false, ..armed }, ExecuteOut::Nothing))
    } else if low == 0x2 {
        let sum = chip.acc + 1;
        Some((CPU { acc: (sum % 16) as u8, carry: sum > 15, ..armed }, ExecuteOut::Nothing))
    } else if low == 0x3 {
        Some((CPU { carry: !chip.carry, ..armed }, ExecuteOut::Nothing))
    } else if low == 0x4 {
        Some((CPU { acc: (15 - chip.acc) as u8, ..armed }, ExecuteOut::Nothing))
    } else if low == 0x5 {
        Some(
            (
                CPU {
                    acc: ((chip.acc * 2) % 16 + (if chip.carry {
                        1int
                    } else {
                        0int
                    })) as u8,
                    carry: chip.acc >= 8,
                    ..armed
                },
                ExecuteOut::Nothing,
            ),
        )
    } else if low == 0x6 {
        Some(
            (
                CPU {
                    acc: (chip.acc / 2 + (if chip.carry {
                        8int
                    } else {
                        0int
                    })) as u8,
                    carry: chip.acc % 2 == 1,
                    ..armed
                },
                ExecuteOut::Nothing,
            ),
        )
    } else if low == 0x7 {
        Some(
            (
                CPU {
                    acc: (if chip.carry {
                        1u8
                    } else {
                        0u8
                    }),
                    carry: false,
                    ..armed
                },
                ExecuteOut::Nothing,
            ),
        )
    } else if low == 0x8 {
        if chip.acc == 0 {
            Some((CPU { acc: 0xF, carry: false, ..armed }, ExecuteOut::Nothing))
        } else {
            Some(
                (CPU { acc: (chip.acc - 1) as u8, carry: true, ..armed }, ExecuteOut::Nothing),
            )
        }
    } else if low == 0x9 {
        Some(
            (
                CPU {
                    acc: (if chip.carry {
                        10u8
                    } else {
                        9u8
                    }),
                    carry: false,
                    ..armed
                },
                ExecuteOut::Nothing,
            ),
        )
    } else if low == 0xA {
        Some((CPU { carry: true, ..armed }, ExecuteOut::Nothing))
    } else if low == 0xB {
        if chip.acc > 9 || chip.carry {
            Some(
                (
                    CPU {
                        acc: ((chip.acc + 6) % 16) as u8,
                        carry: chip.carry || chip.acc + 6 > 0xF,
                        ..armed
                    },
                    ExecuteOut::Nothing,
                ),
            )
        } else {
            Some((armed, ExecuteOut::Nothing))
        }
    } else if low == 0xC {
        Some(
            (
                CPU {
                    acc: (if chip.acc == 0 {
                        0u8
                    } else if chip.acc == 1 {
                        1u8
                    } else if chip.acc == 2 {
                        2u8
                    } else if chip.acc == 4 {
                        3u8
                    } else if chip.acc == 8 {
                        4u8
                    } else {
                        0xFu8
                    }),
                    ..armed
                },
                ExecuteOut::Nothing,
            ),
        )
    } else if low == 0xD {
        Some(
            (
                CPU {
                    control_output: (if chip.acc == 0 {
                        ControlLines { rom: true, ram_mask: 0b0001 }
                    } else {
                        ControlLines { rom: true, ram_mask: ((chip.acc % 8) * 2) as u8 }
                    }),
                    ..armed
                },
                ExecuteOut::Nothing,
            ),
        )
    } else if low == 0xE {
        Some((armed, ExecuteOut::Nothing))
    } else {
        None
    }
}

/// Intel 4004 chip, split-phase model.
pub struct CPU {
    /// The pending continuation phase.
    pub continue_from: ContinueFrom,
    /// Operand fields stashed when the first byte was decoded.
    pub previous_modifier: u8,
    /// The control lines driven during IO instructions.
    pub control_output: ControlLines,
    /// The twelve-bit program counter.
    pub pc: u16,
    /// The four-deep circular call stack.
    pub stack: CallStack,
    /// The opcode byte currently being executed.
    pub opcode: Byte,
    /// The carry flag.
    pub carry: bool,
    /// The test pin, driven by other chips.
    pub test: bool,
    /// The accumulator, a 4-bit digit.
    pub acc: u8,
    /// Sixteen 4-bit index registers, packed.
    pub regs: Indexer64,
}

impl CPU {
    /// The chip's internal invariant.
    pub open spec fn wf(&self) -> bool {
        &&& self.previous_modifier < 16
        &&& self.control_output.wf()
        &&& self.pc < 0x1000
        &&& self.stack.wf()
        &&& self.opcode.wf()
        &&& self.acc < 16
    }

    /// Power-on state: bank zero selected, everything else cleared.
    pub fn new() -> (r: Self)
        ensures
            r.wf(),
            r.pc == 0,
            r.continue_from is StartOver,
            r.control_output == (ControlLines { rom: true, ram_mask: 0b0001 }),
    {
        CPU {
            continue_from: ContinueFrom::StartOver,
            previous_modifier: 0,
            control_output: ControlLines { rom: true, ram_mask: 0b0001 },
            pc: 0,
            stack: CallStack::new(),
            opcode: Byte { high: 0, low: 0 },
            carry: false,
            test: false,
            acc: 0,
            regs: Indexer64::new(),
        }
    }

    /// Set the test pin. This is the only way other chips signal the 4004
    /// directly.
    pub fn set_test_flag(&mut self, test: bool)
        ensures
            *final(self) == (CPU { test, ..*old(self) }),
    {
        self.test = test;
    }

    /// Read the current program counter.
    pub fn get_pc(&self) -> (r: u16)
        ensures
            r == self.pc,
    {
        self.pc
    }

    /// The address phase: what the CPU drives onto the address lines. A
    /// pending indirect fetch drives register pair zero inside the current
    /// page instead of the program counter.
    pub fn get_addr(&self) -> (r: Address)
        requires
            self.wf(),
        ensures
            r.wf(),
            !(self.continue_from is SetIndirectReg) ==> r == (Address {
                chip_index: (self.pc / 0x100) as u8,
                high: ((self.pc / 16) % 16) as u8,
                low: (self.pc % 16) as u8,
            }),
    {
        let chip_index: u8 = self.split_chip();
        if matches!(self.continue_from, ContinueFrom::SetIndirectReg) {
            let high: u8 = self.regs.read_nibble(0);
            let low: u8 = self.regs.read_nibble(1);
            Address { chip_index, high, low }
        } else {
            Address {
                chip_index,
                high: ((self.pc >> 4) & 0xF) as u8,
                low: (self.pc & 0xF) as u8,
            }
        }
    }

    /// The opcode phase: latch the byte the ROMs drove. The control lines
    /// go out only when an IO instruction is about to execute.
    pub fn set_opcode(&mut self, opcode: Byte) -> (r: ControlLines)
        requires
            old(self).wf(),
            opcode.wf(),
        ensures
            final(self).wf(),
            *final(self) == (CPU { opcode, ..*old(self) }),
            r == if old(self).continue_from is StartOver && opcode.high == 0xE {
                old(self).control_output
            } else {
                ControlLines { rom: false, ram_mask: 0 }
            },
    {
        self.opcode = opcode;
        if matches!(self.continue_from, ContinueFrom::StartOver) && self.opcode.high == 0xE {
            self.control_output
        } else {
            ControlLines { rom: false, ram_mask: 0 }
        }
    }

    /// The execute phase. `data_in` carries whatever digit the enabled
    /// memory chip answered; only its low four bits reach the chip.
    ///
    /// From the start phase the decoded opcode either executes fully or
    /// moves to its continuation phase, per [`spec_next_phase`]; every
    /// continuation phase finishes its deferred effect and returns to the
    /// start phase. The call stack moves only in the far-call phase (push)
    /// and at a branch-back opcode (pop). The result asks the board for a
    /// register-control broadcast or a memory write exactly when the
    /// opcode does; the one nibble pair the chip never decodes is refused.
    #[verifier::rlimit(100)]
    pub fn run_cycle(&mut self, data_in: u8) -> (r: Result<ExecuteOut, Fault>)
        requires
            old(self).wf(),
        ensures
            final(self).wf(),
            r is Err ==> r == Err::<ExecuteOut, Fault>(Fault::IllegalOpcode) && old(
                self,
            ).continue_from is StartOver && old(self).opcode.high == 0xF && old(self).opcode.low
                == 0xF,
            !(old(self).continue_from is StartOver) ==> final(self).continue_from
                is StartOver,
            old(self).continue_from is StartOver && r is Ok ==> final(self).continue_from
                == spec_next_phase(old(self).opcode),
            // The stack moves only on a far call's final phase or on a
            // branch-back; everything else leaves it alone.
            old(self).continue_from is CallFar ==> {
                &&& final(self).stack.slots@ == old(self).stack.slots@.update(
                    old(self).stack.index as int,
                    spec_inc_pc(old(self).pc),
                )
                &&& final(self).stack.index == (old(self).stack.index + 1) % 4
                &&& final(self).stack.pending == ((old(self).stack.pending + 1)
                    % 0x1_0000_0000_0000_0000)
            },
            old(self).continue_from is StartOver && old(self).opcode.high == 0xC ==> {
                &&& old(self).stack.pending == 0 ==> final(self).stack == old(self).stack
                &&& old(self).stack.pending > 0 ==> {
                    &&& final(self).stack.pending == old(self).stack.pending - 1
                    &&& final(self).stack.index == CallStack::pop_index(
                        old(self).stack.index as int,
                    )
                    &&& final(self).stack.slots == old(self).stack.slots
                    &&& final(self).pc == old(self).stack.slots@[CallStack::pop_index(
                        old(self).stack.index as int,
                    )] % 0x1000
                }
            },
            !(old(self).continue_from is CallFar) && !(old(self).continue_from is StartOver
                && old(self).opcode.high == 0xC) ==> final(self).stack == old(self).stack,
            // When the board must act, and how, is decided by the opcode
            // alone.
            r is Ok ==> ((r matches Ok(ExecuteOut::SRC(_))) <==> (old(self).continue_from
                is StartOver && old(self).opcode.high == 2 && old(self).opcode.low % 2 == 1)),
            r is Ok ==> ((r matches Ok(ExecuteOut::Write(_))) <==> (old(self).continue_from
                is StartOver && old(self).opcode.high == 0xE && old(self).opcode.low < 8)),
            r matches Ok(ExecuteOut::SRC(b)) ==> b.wf() && b == (Byte {
                high: spec_reg(*old(self), ((old(self).opcode.low / 2) * 2) as u8),
                low: spec_reg(*old(self), old(self).opcode.low),
            }),
            r matches Ok(ExecuteOut::Write(b)) ==> b.wf() && b == (Byte {
                high: old(self).opcode.low,
                low: old(self).acc,
            }),
            // Every continuation phase performs its whole deferred
            // effect.
            old(self).continue_from is JumpConditional ==> r == Ok::<ExecuteOut, Fault>(
                ExecuteOut::Nothing,
            ) && *final(self) == (CPU {
                pc: if spec_jcn_taken(*old(self)) {
                    spec_page_target(
                        spec_inc_pc(old(self).pc),
                        old(self).opcode.high,
                        old(self).opcode.low,
                    )
                } else {
                    spec_inc_pc(old(self).pc)
                },
                continue_from: ContinueFrom::StartOver,
                ..*old(self)
            }),
            old(self).continue_from is JumpFar ==> r == Ok::<ExecuteOut, Fault>(
                ExecuteOut::Nothing,
            ) && *final(self) == (CPU {
                pc: spec_far_target(
                    old(self).previous_modifier,
                    old(self).opcode.high,
                    old(self).opcode.low,
                ),
                continue_from: ContinueFrom::StartOver,
                ..*old(self)
            }),
            old(self).continue_from is CallFar ==> r == Ok::<ExecuteOut, Fault>(
                ExecuteOut::Nothing,
            ) && final(self).pc == spec_far_target(
                old(self).previous_modifier,
                old(self).opcode.high,
                old(self).opcode.low,
            ) && final(self).continue_from is StartOver
                && final(self).previous_modifier == old(self).previous_modifier
                && final(self).regs == old(self).regs && final(self).acc == old(self).acc
                && final(self).carry == old(self).carry && final(self).test == old(self).test
                && final(self).control_output == old(self).control_output
                && final(self).opcode == old(self).opcode,
            old(self).continue_from is SetReg || old(self).continue_from is SetIndirectReg ==> r
                == Ok::<ExecuteOut, Fault>(ExecuteOut::Nothing) && *final(self) == (CPU {
                pc: spec_inc_pc(old(self).pc),
                continue_from: ContinueFrom::StartOver,
                regs: Indexer64 {
                    data: crate::indexer::nib64_set(
                        crate::indexer::nib64_set(
                            old(self).regs.data,
                            (old(self).previous_modifier % 16) as u32,
                            old(self).opcode.high,
                        ),
                        ((old(self).previous_modifier | 1) % 16) as u32,
                        old(self).opcode.low,
                    ),
                },
                ..*old(self)
            }),
            // The start phase in full: its transition function pins the
            // next state and the side-channel output for every opcode.
            old(self).continue_from is StartOver ==> ({
                let outcome = spec_start_step(*old(self), (data_in % 16) as u8);
                &&& (r is Err <==> outcome is None)
                &&& (r matches Ok(out) ==> Some((*final(self), out)) == outcome)
            }),
    {
        proof {
            reveal(spec_start_low);
            reveal(spec_start_mid);
            reveal(spec_start_mem);
            reveal(spec_start_top);
        }
        let data_nibble: u8 = mask_nibble(data_in);
        if matches!(self.continue_from, ContinueFrom::StartOver) {
            return self.start_phase(data_nibble);
        }
        // Every continuation phase consumes the byte on the bus and
        // advances the counter first.
        self.pc = (self.pc + 1) & 0xFFF;
        match self.continue_from {
            ContinueFrom::StartOver => {},  // handled above
            ContinueFrom::JumpConditional => {
                let modifier: u8 = self.previous_modifier;
                let c1: bool = modifier & 0x8 == 0x8;  // invert
                let c2: bool = modifier & 0x4 == 0x4;  // accumulator zero
                let c3: bool = modifier & 0x2 == 0x2;  // carry
                let c4: bool = modifier & 0x1 == 0x1;  // test pin
                let partial_cond: bool = (c4 && self.test) || (c3 && self.carry) || (c2 && self.acc
                    == 0);
                if (!c1 && partial_cond) || (c1 && !partial_cond) {
                    let high: u8 = self.opcode.high;
                    let low: u8 = self.opcode.low;
                    self.set_page_offset(high, low);
                }
                self.continue_from = ContinueFrom::StartOver;
            },
            ContinueFrom::CallFar => {
                let pc: u16 = self.pc;
                self.stack.push(pc);
                self.set_far(self.previous_modifier, self.opcode.high, self.opcode.low);
                self.continue_from = ContinueFrom::StartOver;
            },
            ContinueFrom::JumpFar => {
                self.set_far(self.previous_modifier, self.opcode.high, self.opcode.low);
                self.continue_from = ContinueFrom::StartOver;
            },
            ContinueFrom::SetReg | ContinueFrom::SetIndirectReg => {
                // FIM and FIN land their byte in the register pair. The
                // even index ORed with one lands one higher, a trick the
                // original circuit plays as well.
                let index: u8 = self.previous_modifier;
                let odd: u8 = index | 1;
                let high: u8 = self.opcode.high;
                let low: u8 = self.opcode.low;
                self.regs.write_nibble(index, high);
                self.regs.write_nibble(odd, low);
                self.continue_from = ContinueFrom::StartOver;
            },
        }
        Ok(ExecuteOut::Nothing)
    }

    /// The start phase's execute step, exactly as [`spec_start_step`]
    /// states it. `data_nibble` is the already-masked bus digit.
    #[verifier::rlimit(100)]
    fn start_phase(&mut self, data_nibble: u8) -> (r: Result<ExecuteOut, Fault>)
        requires
            old(self).wf(),
            old(self).continue_from is StartOver,
            data_nibble < 16,
        ensures
            final(self).wf(),
            r is Err <==> spec_start_step(*old(self), data_nibble) is None,
            r is Err ==> r == Err::<ExecuteOut, Fault>(Fault::IllegalOpcode) && *final(self) == (
            CPU {
                pc: spec_inc_pc(old(self).pc),
                previous_modifier: old(self).opcode.low,
                ..*old(self)
            }),
            r matches Ok(out) ==> Some((*final(self), out)) == spec_start_step(
                *old(self),
                data_nibble,
            ),
    {
        if self.opcode.high <= 7 {
            self.start_rows_low(data_nibble)
        } else if self.opcode.high <= 0xB {
            self.start_rows_mid(data_nibble)
        } else if self.opcode.high <= 0xE {
            self.start_rows_mem(data_nibble)
        } else {
            self.start_row_top(data_nibble)
        }
    }

    /// The control-flow and register-pair rows of the start phase.
    #[verifier::rlimit(100)]
    fn start_rows_low(&mut self, data_nibble: u8) -> (r: Result<ExecuteOut, Fault>)
        requires
            old(self).wf(),
            old(self).continue_from is StartOver,
            old(self).opcode.high <= 7,
            data_nibble < 16,
        ensures
            final(self).wf(),
            r is Err <==> spec_start_step(*old(self), data_nibble) is None,
            r is Err ==> r == Err::<ExecuteOut, Fault>(Fault::IllegalOpcode) && *final(self) == (
            CPU {
                pc: spec_inc_pc(old(self).pc),
                previous_modifier: old(self).opcode.low,
                ..*old(self)
            }),
            r matches Ok(out) ==> Some((*final(self), out)) == spec_start_step(
                *old(self),
                data_nibble,
            ),
    {
        proof {
            reveal(spec_start_low);
        }
        let mut data_out: ExecuteOut = ExecuteOut::Nothing;
        // The indirect fetches hold the program counter still; every
        // other opcode advances it first.
        if self.opcode.high != 3 {
            self.pc = (self.pc + 1) & 0xFFF;
        }
        let modifier: u8 = self.opcode.low;
        self.previous_modifier = modifier;
        match self.opcode.high {
            0x1 => {
                // JCN: the condition byte waits for its target.
                self.continue_from = ContinueFrom::JumpConditional;
            },
            0x2 => {
                if modifier % 2 == 0 {
                    // FIM: wait for the immediate byte.
                    self.continue_from = ContinueFrom::SetReg;
                } else {
                    // SRC: broadcast the designated address. The
                    // odd modifier masked even lands one lower, a
                    // trick the original circuit plays as well.
                    let even: u8 = modifier & 0b1110;
                    data_out = ExecuteOut::SRC(
                        Byte {
                            high: self.regs.read_nibble(even),
                            low: self.regs.read_nibble(modifier),
                        },
                    );
                }
            },
            0x3 => {
                if modifier % 2 == 0 {
                    // FIN: wait for the indirectly fetched byte.
                    self.continue_from = ContinueFrom::SetIndirectReg;
                } else {
                    // JIN: jump inside the page through the pair.
                    let even: u8 = modifier & 0b1110;
                    let high: u8 = self.regs.read_nibble(even);
                    let low: u8 = self.regs.read_nibble(modifier);
                    self.set_page_offset(high, low);
                }
            },
            0x4 => {
                // JUN: wait for the rest of the target.
                self.continue_from = ContinueFrom::JumpFar;
            },
            0x5 => {
                // JMS: wait for the rest of the target.
                self.continue_from = ContinueFrom::CallFar;
            },
            0x6 => {
                // INC: increment a register; no flags change.
                let val: u8 = self.regs.read_nibble(modifier);
                self.regs.write_nibble(modifier, (val + 1) & 0xF);
            },
            0x7 => {
                // ISZ: increment, and arrange the continuation to
                // jump unless the register wrapped to zero.
                let val: u8 = self.regs.read_nibble(modifier);
                if val == 0xF {
                    self.regs.write_nibble(modifier, 0);
                    self.previous_modifier = 0b0000;  // never jump
                } else {
                    self.regs.write_nibble(modifier, val + 1);
                    self.previous_modifier = 0b1000;  // always jump
                }
                self.continue_from = ContinueFrom::JumpConditional;
            },
            _ => {},  // 0x0: NOP
        }
        Ok(data_out)
    }

    /// The arithmetic and register rows of the start phase.
    #[verifier::rlimit(100)]
    fn start_rows_mid(&mut self, data_nibble: u8) -> (r: Result<ExecuteOut, Fault>)
        requires
            old(self).wf(),
            old(self).continue_from is StartOver,
            8 <= old(self).opcode.high <= 0xB,
            data_nibble < 16,
        ensures
            final(self).wf(),
            r is Err <==> spec_start_step(*old(self), data_nibble) is None,
            r is Err ==> r == Err::<ExecuteOut, Fault>(Fault::IllegalOpcode) && *final(self) == (
            CPU {
                pc: spec_inc_pc(old(self).pc),
                previous_modifier: old(self).opcode.low,
                ..*old(self)
            }),
            r matches Ok(out) ==> Some((*final(self), out)) == spec_start_step(
                *old(self),
                data_nibble,
            ),
    {
        proof {
            reveal(spec_start_mid);
        }
        let data_out: ExecuteOut = ExecuteOut::Nothing;
        self.pc = (self.pc + 1) & 0xFFF;
        let modifier: u8 = self.opcode.low;
        self.previous_modifier = modifier;
        match self.opcode.high {
            0x8 => {
                // ADD: accumulator plus register plus carry.
                let val: u8 = self.regs.read_nibble(modifier);
                let acc: u8 = self.acc;
                self.set_acc_carry(acc + val + (self.carry as u8));
            },
            0x9 => {
                // SUB: one's-complement add of the register.
                let val: u8 = self.regs.read_nibble(modifier);
                let inverted: u8 = (!val) & 0xF;
                let acc: u8 = self.acc;
                self.set_acc_carry(acc + inverted + ((!self.carry) as u8));
            },
            0xA => {
                // LD: accumulator from register.
                self.acc = self.regs.read_nibble(modifier);
            },
            0xB => {
                // XCH: exchange accumulator and register.
                let nibble: u8 = self.regs.read_nibble(modifier);
                let acc: u8 = self.acc;
                self.regs.write_nibble(modifier, acc);
                self.acc = nibble;
            },
            _ => {},
        }
        Ok(data_out)
    }

    /// The branch-back, immediate and memory rows of the start phase.
    #[verifier::rlimit(100)]
    fn start_rows_mem(&mut self, data_nibble: u8) -> (r: Result<ExecuteOut, Fault>)
        requires
            old(self).wf(),
            old(self).continue_from is StartOver,
            0xC <= old(self).opcode.high <= 0xE,
            data_nibble < 16,
        ensures
            final(self).wf(),
            r is Err <==> spec_start_step(*old(self), data_nibble) is None,
            r is Err ==> r == Err::<ExecuteOut, Fault>(Fault::IllegalOpcode) && *final(self) == (
            CPU {
                pc: spec_inc_pc(old(self).pc),
                previous_modifier: old(self).opcode.low,
                ..*old(self)
            }),
            r matches Ok(out) ==> Some((*final(self), out)) == spec_start_step(
                *old(self),
                data_nibble,
            ),
    {
        proof {
            reveal(spec_start_mem);
        }
        let mut data_out: ExecuteOut = ExecuteOut::Nothing;
        self.pc = (self.pc + 1) & 0xFFF;
        let modifier: u8 = self.opcode.low;
        self.previous_modifier = modifier;
        match self.opcode.high {
            0xC => {
                // BBL: return from subroutine, load accumulator.
                self.acc = self.opcode.low;
                let popped: Option<u16> = self.stack.pop();
                match popped {
                    Some(addr) => {
                        self.pc = addr & 0xFFF;
                    },
                    None => {},
                }
            },
            0xD => {
                // LDM: load immediate into the accumulator.
                self.acc = self.opcode.low;
            },
            0xE => {
                match modifier {
                    0x8 => {
                        // SBM: subtract the RAM character.
                        let inverted: u8 = (!data_nibble) & 0xF;
                        let acc: u8 = self.acc;
                        self.set_acc_carry(acc + inverted + ((!self.carry) as u8));
                    },
                    0x9 | 0xA | 0xC..=0xF => {
                        // RDM, RDR, RD0..RD3: load what the bus
                        // answered.
                        self.acc = data_nibble;
                    },
                    0xB => {
                        // ADM: add the RAM character.
                        let acc: u8 = self.acc;
                        self.set_acc_carry(acc + data_nibble + (self.carry as u8));
                    },
                    _ => {
                        // WRM, WMP, WRR, WR0..WR3: ask the board
                        // to perform the write.
                        data_out = ExecuteOut::Write(
                            Byte { high: self.opcode.low, low: self.acc },
                        );
                    },
                }
            },
            _ => {},
        }
        Ok(data_out)
    }

    /// The accumulator-group row of the start phase.
    #[verifier::rlimit(100)]
    fn start_row_top(&mut self, data_nibble: u8) -> (r: Result<ExecuteOut, Fault>)
        requires
            old(self).wf(),
            old(self).continue_from is StartOver,
            old(self).opcode.high == 0xF,
            data_nibble < 16,
        ensures
            final(self).wf(),
            r is Err <==> spec_start_step(*old(self), data_nibble) is None,
            r is Err ==> r == Err::<ExecuteOut, Fault>(Fault::IllegalOpcode) && *final(self) == (
            CPU {
                pc: spec_inc_pc(old(self).pc),
                previous_modifier: old(self).opcode.low,
                ..*old(self)
            }),
            r matches Ok(out) ==> Some((*final(self), out)) == spec_start_step(
                *old(self),
                data_nibble,
            ),
    {
        proof {
            reveal(spec_start_top);
        }
        let data_out: ExecuteOut = ExecuteOut::Nothing;
        self.pc = (self.pc + 1) & 0xFFF;
        let modifier: u8 = self.opcode.low;
        self.previous_modifier = modifier;
        match self.opcode.high {
            0xF => {
                match modifier {
                    0x0 => {
                        // CLB: clear accumulator and carry.
                        self.acc = 0;
                        self.carry = false;
                    },
                    0x1 => {
                        // CLC: clear carry.
                        self.carry = false;
                    },
                    0x2 => {
                        // IAC: increment the accumulator.
                        let acc: u8 = self.acc;
                        self.set_acc_carry(acc + 1);
                    },
                    0x3 => {
                        // CMC: complement carry.
                        self.carry = !self.carry;
                    },
                    0x4 => {
                        // CMA: complement the accumulator.
                        let acc: u8 = self.acc;
                        self.acc = (!acc) & 0xF;
                    },
                    0x5 => {
                        // RAL: rotate left through carry.
                        let old_acc: u8 = self.acc;
                        proof {
                            let a: u8 = self.acc;
                            assert(a < 16 ==> ((a << 1) & 0xF) == (a * 2) % 16 && (((a << 1)
                                & 0xF) | 1) == (a * 2) % 16 + 1 && ((a & 8) == 8) == (a >= 8))
                                by (bit_vector);
                        }
                        let new_carry: bool = old_acc & 8 == 8;
                        let mut acc: u8 = (old_acc << 1) & 0xF;
                        if self.carry {
                            acc = acc | 1;
                        }
                        self.acc = acc;
                        self.carry = new_carry;
                    },
                    0x6 => {
                        // RAR: rotate right through carry.
                        let old_acc: u8 = self.acc;
                        let new_carry: bool = old_acc & 1 == 1;
                        let mut acc: u8 = old_acc >> 1;
                        if self.carry {
                            acc = acc | 8;
                        }
                        self.acc = acc;
                        self.carry = new_carry;
                    },
                    0x7 => {
                        // TCC: transmit carry and clear.
                        self.acc = self.carry as u8;
                        self.carry = false;
                    },
                    0x8 => {
                        // DAC: decrement; the carry reads
                        // reversed.
                        if self.acc == 0 {
                            self.acc = 0xF;
                            self.carry = false;
                        } else {
                            self.acc = self.acc - 1;
                            self.carry = true;
                        }
                    },
                    0x9 => {
                        // TCS: transfer carry subtract.
                        self.acc = if self.carry {
                            10
                        } else {
                            9
                        };
                        self.carry = false;
                    },
                    0xA => {
                        // STC: set carry.
                        self.carry = true;
                    },
                    0xB => {
                        // DAA: decimal adjust. The carry sets and
                        // never clears here, a quirk the hardware
                        // has.
                        let val: u8 = self.acc;
                        if val > 9 || self.carry {
                            let adjusted: u8 = val + 6;
                            self.acc = adjusted & 0xF;
                            if adjusted > 0xF {
                                self.carry = true;
                            }
                        }
                    },
                    0xC => {
                        // KBP: one-hot accumulator to key number.
                        self.acc = match self.acc {
                            0b0000 => 0,
                            0b0001 => 1,
                            0b0010 => 2,
                            0b0100 => 3,
                            0b1000 => 4,
                            _ => 0xF,
                        };
                    },
                    0xD => {
                        // DCL: select the RAM bank lines.
                        let acc: u8 = self.acc;
                        self.control_output = if acc == 0 {
                            ControlLines { rom: true, ram_mask: 0b0001 }
                        } else {
                            ControlLines { rom: true, ram_mask: (acc & 7) << 1 }
                        };
                    },
                    0xE => {
                        // Recognized, does nothing: historical
                        // exercisers run it.
                    },
                    _ => {
                        // 0xFF decodes to nothing on this chip.
                        return Err(Fault::IllegalOpcode);
                    },
                }
            },
            _ => {},
        }
        Ok(data_out)
    }

    /// The page the program counter sits in.
    fn split_chip(&self) -> (r: u8)
        requires
            self.pc < 0x1000,
        ensures
            r == self.pc / 0x100,
            r < 16,
    {
        (self.pc >> 8) as u8
    }

    /// Replace the offset inside the current page.
    fn set_page_offset(&mut self, high: u8, low: u8)
        requires
            old(self).pc < 0x1000,
            high < 16,
            low < 16,
        ensures
            *final(self) == (CPU {
                pc: ((old(self).pc / 0x100) * 0x100 + high * 16 + low) as u16,
                ..*old(self)
            }),
            final(self).pc < 0x1000,
    {
        proof {
            let pc: u16 = self.pc;
            let h: u16 = high as u16;
            let l: u16 = low as u16;
            assert(pc < 0x1000 && h < 16 && l < 16 ==> ((pc & 0xF00) | (h << 4) | l) == (pc
                / 0x100) * 0x100 + h * 16 + l && ((pc & 0xF00) | (h << 4) | l) < 0x1000)
                by (bit_vector);
        }
        self.pc = (self.pc & 0xF00) | ((high as u16) << 4) | (low as u16);
    }

    /// Load a full twelve-bit program counter from three nibbles.
    fn set_far(&mut self, chip: u8, high: u8, low: u8)
        requires
            chip < 16,
            high < 16,
            low < 16,
        ensures
            *final(self) == (CPU {
                pc: (chip * 0x100 + high * 16 + low) as u16,
                ..*old(self)
            }),
            final(self).pc < 0x1000,
    {
        self.pc = ((chip as u16) << 8) | ((high as u16) << 4) | (low as u16);
    }

    /// Load the accumulator from a 5-bit intermediate sum: the low four
    /// bits stay, the fifth becomes the carry.
    fn set_acc_carry(&mut self, val: u8)
        requires
            val < 32,
        ensures
            *final(self) == (CPU {
                acc: (val % 16) as u8,
                carry: val > 0xF,
                ..*old(self)
            }),
    {
        self.carry = val > 0xF;
        self.acc = val & 0xF;
    }
}

/// Keep a bus nibble's low four bits, as the four data lines would.
fn mask_nibble(value: u8) -> (r: u8)
    ensures
        r == value % 16,
        r < 16,
{
    value & 0xF
}

} // verus!
