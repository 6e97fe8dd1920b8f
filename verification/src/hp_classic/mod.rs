//! The HP classic calculators: the two-chip arithmetic/control pair,
//! the packed ROMs and the auxiliary storage on one board.
//!
//! Each cycle fetches one 10-bit word from whichever ROM drives the
//! bus, lets every ROM watch the select decoding, runs the control chip
//! and the storage, and hands the arithmetic chip its half together
//! with the merged word-select mask. Chips wired to the bus combine
//! their outputs with OR; a disabled chip contributes zero.

use vstd::prelude::*;

verus! {

broadcast use
    crate::bitops::lemma_u16_or_bound10,
    crate::bitops::lemma_u16_or_bound14;

use crate::Fault;
use crate::cpu::hp_anr::HP_AnR;
use crate::cpu::hp_cnt::HP_CnT;
use crate::ram::hp_ram::HP_RAM;
use crate::rom::HP_ROM;
use crate::shifter::Shifter16;

/// Is a value inside the fourteen-bit word-select width?
pub open spec fn spec_ws_fits(w: u16) -> bool {
    w < 0x4000 && crate::shifter::fits16(w, 14)
}

/// Each register of the pair holds fourteen digits in 56 bits.
pub type Register = crate::shifter::Shifter64<56>;

/// The per-digit word-select mask.
pub type WordSelect = Shifter16<14>;

/// HP classic board.
pub struct Board<const EXTRA_REGS: usize> {
    /// Arithmetic and Register chip.
    pub anr: HP_AnR,
    /// Control and Timing chip.
    pub cnt: HP_CnT,
    /// The ROM chips, 256 words each.
    pub roms: Vec<HP_ROM>,
    /// The auxiliary data storage.
    pub ram: HP_RAM<EXTRA_REGS>,
}

impl<const EXTRA_REGS: usize> Board<EXTRA_REGS> {
    /// Every chip on the board is well-formed.
    pub open spec fn wf(&self) -> bool {
        &&& self.anr.wf()
        &&& self.cnt.wf()
        &&& self.ram.wf()
        &&& forall|i: int| 0 <= i < self.roms@.len() ==> (#[trigger] self.roms@[i]).wf()
    }

    /// Build a board from a packed ROM image: one chip per 320 bytes,
    /// the last chunk padded with zeros.
    pub fn new(packed_rom_data: Vec<u8>) -> (r: Self)
        requires
            packed_rom_data@.len() <= 8 * 320,
            EXTRA_REGS < 16,
        ensures
            r.wf(),
            r.cnt.next_address == 0,
    {
        let mut roms: Vec<HP_ROM> = Vec::new();
        let mut rom_num: u8 = 0;
        let total: usize = packed_rom_data.len();
        while (rom_num as usize) * 320 < total
            invariant
                packed_rom_data@.len() <= 8 * 320,
                total == packed_rom_data@.len(),
                rom_num <= 8,
                forall|i: int| 0 <= i < roms@.len() ==> (#[trigger] roms@[i]).wf(),
            decreases total + 320 - (rom_num as usize) * 320,
        {
            let base: usize = (rom_num as usize) * 320;
            let mut chunk: [u8; 320] = vstd::array::array_fill_for_copy_types(0u8);
            let mut j: usize = 0;
            while j < 320
                invariant
                    j <= 320,
                    base + 320 <= 9 * 320,
                    total == packed_rom_data@.len(),
                decreases 320 - j,
            {
                if base + j < total {
                    chunk[j] = packed_rom_data[base + j];
                }
                j = j + 1;
            }
            roms.push(HP_ROM::new(chunk, rom_num));
            rom_num = rom_num + 1;
        }
        Board { anr: HP_AnR::new(), cnt: HP_CnT::new(), roms, ram: HP_RAM::new() }
    }

    /// Run one instruction cycle for the whole board.
    pub fn run_cycle(&mut self) -> (r: Result<(), Fault>)
        requires
            old(self).wf(),
        ensures
            final(self).wf(),
            r is Err ==> r == Err::<(), Fault>(Fault::NotSupported),
    {
        let mut opcode: u16 = 0;
        let mut word_select_data: u16 = 0;
        let next_address: u8 = self.cnt.next_address;
        let mut i: usize = 0;
        while i < self.roms.len()
            invariant
                self.wf(),
                opcode < 1024,
                word_select_data < 0x4000,
            decreases self.roms@.len() - i,
        {
            let (opcode_rom, ws_rom): (u16, WordSelect) = self.roms[i].read(next_address);
            proof {
                let d: u16 = ws_rom@;
                assert(spec_ws_fits(d)) by (bit_vector)
                    requires
                        crate::shifter::fits16(d, 14),
                ;
            }
            opcode = opcode | opcode_rom;
            word_select_data = word_select_data | ws_rom.read_parallel();
            i = i + 1;
        }

        // Every ROM watches the select decoding.
        let mut i: usize = 0;
        while i < self.roms.len()
            invariant
                self.wf(),
                opcode < 1024,
            decreases self.roms@.len() - i,
        {
            match self.roms[i].decode(opcode) {
                Ok(()) => {},
                Err(fault) => {
                    return Err(fault);
                },
            }
            i = i + 1;
        }

        // Control chip, storage, then the arithmetic chip with the
        // merged word select.
        let next_carry: bool = self.anr.next_carry;
        let cnt_ws: u16 = match self.cnt.run_cycle(opcode, next_carry) {
            Ok(ws) => ws,
            Err(fault) => {
                return Err(fault);
            },
        };
        proof {
            let m: u16 = word_select_data | cnt_ws;
            assert(spec_ws_fits(m)) by (bit_vector)
                requires
                    m < 0x4000,
            ;
        }
        let merged_ws: u16 = word_select_data | cnt_ws;
        let c_reg: Register = self.anr.c;
        let ram_data: Register = self.ram.run_cycle(opcode, c_reg);
        let word_select: WordSelect = Shifter16::new(merged_ws);
        match self.anr.run_cycle(opcode, word_select, ram_data) {
            Ok(()) => Ok(()),
            Err(fault) => Err(fault),
        }
    }
}

} // verus!
