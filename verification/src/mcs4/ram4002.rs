//! The 4002 RAM: four registers of sixteen 4-bit characters plus four
//! status digits each, and four output port lines, speaking the MCS-4 bus
//! protocol. Four chips form a bank; the designated index selects chip,
//! register and character.

use vstd::prelude::*;

verus! {

broadcast use
    crate::bitops::lemma_u8_mask3,
    crate::bitops::lemma_u8_shr2;

use crate::indexer::Indexer16;
use crate::indexer::Indexer64;
use super::Byte;

/// One RAM register: sixteen characters and four status digits.
#[derive(Default, Debug, Clone, Copy, PartialEq, Eq, Structural)]
pub struct Register {
    /// Sixteen 4-bit characters, packed.
    pub characters: Indexer64,
    /// Four 4-bit status digits, packed.
    pub status: Indexer16,
}

/// Intel 4002 chip.
pub struct RAM {
    /// Which chip of the bank this is.
    pub page_mask: u8,
    /// Did the last Send Register Control select this chip?
    pub active: bool,
    /// The register the designated index named.
    pub register_index: u8,
    /// The character the designated index named.
    pub character_index: u8,
    /// The four registers.
    pub registers: [Register; 4],
    /// The four output port bits.
    pub ports: u8,
}

impl RAM {
    /// The chip's internal invariant.
    pub open spec fn wf(&self) -> bool {
        &&& self.page_mask < 4
        &&& self.register_index < 4
        &&& self.character_index < 16
        &&& self.ports < 16
    }

    /// Create a cleared 4002 answering as chip `page_mask` of its bank.
    /// Chip zero starts out selected.
    pub fn new(page_mask: u8) -> (r: Self)
        requires
            page_mask < 4,
        ensures
            r.wf(),
            r.page_mask == page_mask,
            r.active == (page_mask == 0),
            r.register_index == 0,
            r.character_index == 0,
            r.ports == 0,
            r.registers@ == seq![
                Register { characters: Indexer64 { data: 0 }, status: Indexer16 { data: 0 } };
                4
            ],
    {
        let blank: Register = Register {
            characters: Indexer64::new(),
            status: Indexer16::new(),
        };
        let registers: [Register; 4] = [blank, blank, blank, blank];
        proof {
            assert(registers@ =~= seq![
                Register { characters: Indexer64 { data: 0 }, status: Indexer16 { data: 0 } };
                4
            ]);
        }
        RAM {
            page_mask,
            active: page_mask == 0,
            register_index: 0,
            character_index: 0,
            registers,
            ports: 0,
        }
    }

    /// Send Register Control: the high nibble's top half names the chip,
    /// its bottom half the register; the low nibble names the character.
    pub fn set_register_control(&mut self, data_in: Byte)
        requires
            old(self).wf(),
            data_in.wf(),
        ensures
            final(self).wf(),
            *final(self) == (RAM {
                active: data_in.high / 4 == old(self).page_mask,
                register_index: (data_in.high % 4) as u8,
                character_index: data_in.low,
                ..*old(self)
            }),
    {
        self.active = (data_in.high >> 2) == self.page_mask;
        self.register_index = data_in.high & 0b11;
        self.character_index = data_in.low;
    }

    /// The execute phase, read direction: the read-character and
    /// read-status opcodes answer on the selected chip; all else is zero.
    pub fn io_read(&self, modifier: u8) -> (r: u8)
        requires
            self.wf(),
            modifier < 16,
        ensures
            r < 16,
            self.active && (modifier == 0x8 || modifier == 0x9 || modifier == 0xB) ==> r
                == crate::indexer::nib64_at(
                self.registers@[self.register_index as int].characters.data,
                self.character_index as u32,
            ),
            self.active && 0xC <= modifier ==> r == crate::indexer::nib16_at(
                self.registers@[self.register_index as int].status.data,
                (modifier % 4) as u32,
            ),
            !(self.active && (modifier == 0x8 || modifier == 0x9 || modifier == 0xB || 0xC
                <= modifier)) ==> r == 0,
    {
        let mut data_out: u8 = 0;
        if self.active {
            match modifier {
                0x8 | 0x9 | 0xB => {
                    // RDM, ADM, SBM read the designated character.
                    let register: &Register = vstd::array::array_index_get(
                        &self.registers,
                        self.register_index as usize,
                    );
                    data_out = register.characters.read_nibble(self.character_index);
                },
                0xC..=0xF => {
                    // RD0..RD3 read a status digit.
                    let status_index: u8 = modifier & 0b11;
                    let register: &Register = vstd::array::array_index_get(
                        &self.registers,
                        self.register_index as usize,
                    );
                    data_out = register.status.read_nibble(status_index);
                },
                _ => {},
            }
        }
        data_out
    }

    /// The execute phase, write direction: character, port and status
    /// writes land on the selected chip; all else is ignored.
    pub fn io_write(&mut self, data_in: Byte)
        requires
            old(self).wf(),
            data_in.wf(),
        ensures
            final(self).wf(),
            !old(self).active ==> *final(self) == *old(self),
    {
        if self.active {
            match data_in.high {
                0x0 => {
                    // WRM: write the designated character.
                    let reg_index: usize = self.register_index as usize;
                    let char_index: u8 = self.character_index;
                    let mut register: Register = *vstd::array::array_index_get(
                        &self.registers,
                        reg_index,
                    );
                    register.characters.write_nibble(char_index, data_in.low);
                    self.registers[reg_index] = register;
                },
                0x1 => {
                    // WMP: write the output port.
                    self.ports = data_in.low;
                },
                0x4..=0x7 => {
                    // WR0..WR3: write a status digit.
                    let status_index: u8 = data_in.high & 0b11;
                    let reg_index: usize = self.register_index as usize;
                    let mut register: Register = *vstd::array::array_index_get(
                        &self.registers,
                        reg_index,
                    );
                    register.status.write_nibble(status_index, data_in.low);
                    self.registers[reg_index] = register;
                },
                _ => {},
            }
        }
    }

    /// All sixteen characters of one register, for the surrounding board
    /// to display; a register index past the four that exist reads blank.
    pub fn read_full_character(&self, reg_index: u8) -> (r: Indexer64)
        ensures
            reg_index < 4 ==> r == self.registers@[reg_index as int].characters,
            reg_index >= 4 ==> r.data == 0,
    {
        if reg_index < 4 {
            vstd::array::array_index_get(&self.registers, reg_index as usize).characters
        } else {
            Indexer64::new()
        }
    }

    /// All four status digits of one register; a register index past the
    /// four that exist reads blank.
    pub fn read_full_status(&self, reg_index: u8) -> (r: Indexer16)
        ensures
            reg_index < 4 ==> r == self.registers@[reg_index as int].status,
            reg_index >= 4 ==> r.data == 0,
    {
        if reg_index < 4 {
            vstd::array::array_index_get(&self.registers, reg_index as usize).status
        } else {
            Indexer16::new()
        }
    }
}

} // verus!
