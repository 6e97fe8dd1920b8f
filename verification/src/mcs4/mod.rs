//! MCS-4, Micro Computer System 4-bit: the 4004 family wired as a board.
//!
//! The board owns the ROM, RAM and CPU chips and carries one instruction
//! cycle's bus traffic between them: address out, opcode back, then the
//! execute-phase exchange. Chips wired to the common bus combine their
//! outputs with OR, as the open-collector lines did; a disabled chip
//! contributes zero.

use vstd::prelude::*;

pub mod cpu4004;
pub mod ram4002;
pub mod rom4001;
pub mod shifter4003;

verus! {

broadcast use
    crate::bitops::lemma_u8_mask15,
    crate::bitops::lemma_u8_shr4,
    crate::bitops::lemma_u8_nib_join_rev;

use crate::Fault;

/// One byte of bus traffic, seen as its two 4-bit halves: the operation
/// code in the high nibble, the modifier in the low one.
#[derive(Debug, Clone, Copy, PartialEq, Eq, Structural, Default)]
pub struct Byte {
    /// The high nibble.
    pub high: u8,
    /// The low nibble.
    pub low: u8,
}

impl Byte {
    /// Are both halves inside four bits?
    pub open spec fn wf(&self) -> bool {
        self.high < 16 && self.low < 16
    }

    /// Split a raw byte into its nibbles.
    pub fn from_raw(raw: u8) -> (r: Byte)
        ensures
            r.high == raw / 16,
            r.low == raw % 16,
            r.wf(),
    {
        Byte { high: raw >> 4, low: raw & 0xF }
    }

    /// The two nibbles re-joined into a raw byte.
    pub fn raw_value(&self) -> (r: u8)
        requires
            self.wf(),
        ensures
            r == self.high * 16 + self.low,
    {
        (self.high << 4) | self.low
    }
}

/// A twelve-bit instruction address on the bus: which ROM chip, then the
/// high and low nibbles of the offset inside it.
#[derive(Debug, Clone, Copy, PartialEq, Eq, Structural, Default)]
pub struct Address {
    /// Which ROM chip (four bits).
    pub chip_index: u8,
    /// The offset's high nibble.
    pub high: u8,
    /// The offset's low nibble.
    pub low: u8,
}

impl Address {
    /// Are all three nibbles inside four bits?
    pub open spec fn wf(&self) -> bool {
        self.chip_index < 16 && self.high < 16 && self.low < 16
    }
}

/// The memory-control lines the CPU drives: one line enables the ROMs, one
/// line per bank enables a group of RAM chips.
#[derive(Debug, Clone, Copy, PartialEq, Eq, Structural, Default)]
pub struct ControlLines {
    /// Is the ROM bus enabled?
    pub rom: bool,
    /// Which of the four RAM bank lines are high, as a 4-bit mask.
    pub ram_mask: u8,
}

impl ControlLines {
    /// Is the bank mask inside four bits?
    pub open spec fn wf(&self) -> bool {
        self.ram_mask < 16
    }

    /// The named bank line's level; lines past the four that exist read
    /// low.
    pub fn ram_line(&self, index: usize) -> (r: bool)
        ensures
            r == (index < 4 && crate::indexer::bit8_at(self.ram_mask, index as u32)),
    {
        if index < 4 {
            proof {
                let m: u8 = self.ram_mask;
                let i: u8 = index as u8;
                assert(i < 4 ==> ((m >> i) & 1 == 1) == crate::indexer::bit8_at(m, i as u32))
                    by (bit_vector);
            }
            (self.ram_mask >> (index as u8)) & 1 == 1
        } else {
            false
        }
    }
}

/// What the CPU asks the surrounding board to do at the end of a cycle.
///
/// The real bus is shared: for these two effects the CPU only broadcasts
/// packed fields, and whichever chip the control lines enable reacts.
#[derive(Debug, Clone, Copy, PartialEq, Eq, Structural)]
pub enum ExecuteOut {
    /// No side effect this cycle.
    Nothing,
    /// Send Register Control: chips latch the designated address.
    SRC(Byte),
    /// A memory or port write: the modifier and the value, packed.
    Write(Byte),
}

/// An MCS-4 board: ROM chips, RAM chips and the CPU on one bus.
pub struct Board {
    /// The 4001 ROM chips, one page each.
    pub roms: Vec<rom4001::ROM>,
    /// The 4002 RAM chips, four per bank.
    pub rams: Vec<ram4002::RAM>,
    /// The 4004 CPU.
    pub cpu: cpu4004::CPU,
}

impl Board {
    /// Every chip on the board is well-formed.
    pub open spec fn wf(&self) -> bool {
        &&& self.cpu.wf()
        &&& forall|i: int| 0 <= i < self.roms@.len() ==> (#[trigger] self.roms@[i]).wf()
        &&& forall|i: int| 0 <= i < self.rams@.len() ==> (#[trigger] self.rams@[i]).wf()
    }

    /// Build a board from a program image: one ROM chip per 256-byte
    /// page, the last page padded with zeros, and `ram_count` RAM chips.
    pub fn new(data: Vec<u8>, ram_count: u8) -> (r: Board)
        requires
            data@.len() <= 0x1000,
            ram_count <= 4,
        ensures
            r.wf(),
            r.cpu.pc == 0,
            r.cpu.continue_from is StartOver,
    {
        let mut roms: Vec<rom4001::ROM> = Vec::new();
        let mut page: u8 = 0;
        let total: usize = data.len();
        while (page as usize) * 256 < total
            invariant
                data@.len() <= 0x1000,
                total == data@.len(),
                page <= 16,
                forall|i: int| 0 <= i < roms@.len() ==> (#[trigger] roms@[i]).wf(),
            decreases total + 256 - (page as usize) * 256,
        {
            let base: usize = (page as usize) * 256;
            let mut chunk: [u8; 256] = vstd::array::array_fill_for_copy_types(0u8);
            let mut j: usize = 0;
            while j < 256
                invariant
                    j <= 256,
                    base + 256 <= 0x1000,
                    total == data@.len(),
                decreases 256 - j,
            {
                if base + j < total {
                    chunk[j] = data[base + j];
                }
                j = j + 1;
            }
            roms.push(rom4001::ROM::new(chunk, page));
            page = page + 1;
        }

        let mut rams: Vec<ram4002::RAM> = Vec::new();
        let mut bank_page: u8 = 0;
        while bank_page < ram_count
            invariant
                ram_count <= 4,
                forall|i: int| 0 <= i < rams@.len() ==> (#[trigger] rams@[i]).wf(),
            decreases ram_count - bank_page,
        {
            rams.push(ram4002::RAM::new(bank_page));
            bank_page = bank_page + 1;
        }

        Board { roms, rams, cpu: cpu4004::CPU::new() }
    }

    /// Run one clock phase for every chip on the bus: address out, the
    /// ROMs' opcode bytes ORed together, the execute exchange, and
    /// whatever broadcast or write the CPU asked for.
    pub fn run_cycle(&mut self) -> (r: Result<(), Fault>)
        requires
            old(self).wf(),
        ensures
            final(self).wf(),
            r is Err ==> r == Err::<(), Fault>(Fault::IllegalOpcode),
    {
        let mut address: Address = self.cpu.get_addr();
        // Hardware truncates the chip select to the chips that answer.
        if self.roms.len() > 0 {
            let wrapped: usize = (address.chip_index as usize) % self.roms.len();
            if wrapped < 16 {
                address.chip_index = wrapped as u8;
            }
        }

        let mut opcode_raw: u8 = 0;
        let mut i: usize = 0;
        while i < self.roms.len()
            invariant
                self.wf(),
                address.wf(),
            decreases self.roms@.len() - i,
        {
            opcode_raw = opcode_raw | self.roms[i].get_opcode(address);
            i = i + 1;
        }

        let opcode: Byte = Byte::from_raw(opcode_raw);
        let control_lines: ControlLines = self.cpu.set_opcode(opcode);

        // The control lines say which chips answer the execute phase.
        let mut read: u8 = 0;
        let mut i: usize = 0;
        while i < self.roms.len()
            invariant
                self.wf(),
                opcode.wf(),
            decreases self.roms@.len() - i,
        {
            if control_lines.rom {
                read = read | self.roms[i].io_read(opcode.low);
            }
            i = i + 1;
        }
        let mut i: usize = 0;
        while i < self.rams.len()
            invariant
                self.wf(),
                opcode.wf(),
            decreases self.rams@.len() - i,
        {
            if control_lines.ram_line(i / 4) {
                read = read | self.rams[i].io_read(opcode.low);
            }
            i = i + 1;
        }

        let command: ExecuteOut = match self.cpu.run_cycle(read) {
            Ok(command) => command,
            Err(fault) => {
                return Err(fault);
            },
        };
        match command {
            ExecuteOut::SRC(data) => {
                let mut i: usize = 0;
                while i < self.roms.len()
                    invariant
                        self.wf(),
                        data.wf(),
                    decreases self.roms@.len() - i,
                {
                    self.roms[i].set_register_control(data);
                    i = i + 1;
                }
                let mut i: usize = 0;
                while i < self.rams.len()
                    invariant
                        self.wf(),
                        data.wf(),
                    decreases self.rams@.len() - i,
                {
                    self.rams[i].set_register_control(data);
                    i = i + 1;
                }
            },
            ExecuteOut::Write(data) => {
                let mut i: usize = 0;
                while i < self.roms.len()
                    invariant
                        self.wf(),
                        data.wf(),
                    decreases self.roms@.len() - i,
                {
                    if control_lines.rom {
                        self.roms[i].io_write(data);
                    }
                    i = i + 1;
                }
                let mut i: usize = 0;
                while i < self.rams.len()
                    invariant
                        self.wf(),
                        data.wf(),
                    decreases self.rams@.len() - i,
                {
                    if control_lines.ram_line(i / 4) {
                        self.rams[i].io_write(data);
                    }
                    i = i + 1;
                }
            },
            ExecuteOut::Nothing => {},
        }
        Ok(())
    }
}

} // verus!
