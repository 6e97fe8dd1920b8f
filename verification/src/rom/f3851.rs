//! The 3851 Program Storage Unit: 1024 bytes of ROM that also carry the
//! F8 system's program and data counters, answering only for its own
//! page of the address space and driving zero elsewhere.

use vstd::prelude::*;

verus! {

broadcast use crate::bitops::lemma_u8_mask3;

use crate::rom::ROM;

/// Fairchild 3851 chip.
pub struct F3851 {
    /// The ROM contents.
    pub rom: ROM<1024>,
    /// The base address of the page this chip answers for.
    pub page_mask: usize,
    /// Program counter zero: where the next code byte comes from.
    pub pc0: u16,
    /// Program counter one: the single-level return backup.
    pub pc1: u16,
    /// Data counter zero: where the next data byte comes from.
    pub dc0: u16,
    /// The undocumented second data counter, swapped in by XDC; later
    /// parts of the family document it, and some programs need it.
    pub dc1: u16,
    /// The four IO ports.
    pub ports: [u8; 4],
    /// The base of the four-port window this chip answers for.
    pub port_mask: usize,
}

impl F3851 {
    /// Is this byte of the address space ours?
    pub open spec fn spec_owns(&self, pointer: int) -> bool {
        self.page_mask <= pointer < self.page_mask + 1024
    }

    /// Create a new 3851 holding `data`, answering for ROM page `page`
    /// and port window `port_select`.
    pub fn new(data: [u8; 1024], page: u8, port_select: u8) -> (r: Self)
        requires
            page < 64,
            port_select < 64,
        ensures
            r.rom@ == data@,
            r.page_mask == page * 1024,
            r.port_mask == port_select * 4,
            r.pc0 == 0 && r.pc1 == 0 && r.dc0 == 0 && r.dc1 == 0,
            r.ports@ == seq![0u8, 0u8, 0u8, 0u8],
    {
        proof {
            assert([0u8, 0u8, 0u8, 0u8]@ =~= seq![0u8, 0u8, 0u8, 0u8]);
        }
        F3851 {
            rom: ROM::new(data),
            page_mask: (page as usize) * 1024,
            pc0: 0,
            pc1: 0,
            dc0: 0,
            dc1: 0,
            ports: [0u8, 0u8, 0u8, 0u8],
            port_mask: (port_select as usize) * 4,
        }
    }

    /// JMP, PI and PK land here: load the program counter, backing the
    /// old one up when the instruction is a call.
    pub fn jump(&mut self, address: u16, push_pc: bool)
        ensures
            final(self).pc0 == address,
            final(self).pc1 == if push_pc {
                old(self).pc0
            } else {
                old(self).pc1
            },
            final(self).dc0 == old(self).dc0 && final(self).dc1 == old(self).dc1,
            final(self).ports == old(self).ports,
            final(self).rom == old(self).rom,
            final(self).page_mask == old(self).page_mask,
            final(self).port_mask == old(self).port_mask,
    {
        if push_pc {
            self.pc1 = self.pc0;
        }
        self.pc0 = address;
    }

    /// The relative branches land here; the displacement is signed and
    /// the counter wraps at the end of the address space.
    pub fn jump_relative(&mut self, relative_addr: i8)
        ensures
            final(self).pc0 == old(self).pc0.wrapping_add(relative_addr as u16),
            *final(self) == (F3851 { pc0: final(self).pc0, ..*old(self) }),
    {
        self.pc0 = self.pc0.wrapping_add(relative_addr as u16);
    }

    /// POP: return to the backed-up program counter.
    pub fn ret_pc(&mut self)
        ensures
            *final(self) == (F3851 { pc0: old(self).pc1, ..*old(self) }),
    {
        self.pc0 = self.pc1;
    }

    /// ADC: add the accumulator, as a signed byte, to the data counter.
    pub fn add_dc0(&mut self, a: i8)
        ensures
            final(self).dc0 == old(self).dc0.wrapping_add(a as u16),
            *final(self) == (F3851 { dc0: final(self).dc0, ..*old(self) }),
    {
        self.dc0 = self.dc0.wrapping_add(a as u16);
    }

    /// Read the next code byte and advance the program counter; a byte
    /// outside our page reads as zero, and the counter advances anyway.
    pub fn next_code(&mut self) -> (r: u8)
        ensures
            *final(self) == (F3851 { pc0: old(self).pc0.wrapping_add(1), ..*old(self) }),
            old(self).spec_owns(old(self).pc0 as int) ==> r == old(self).rom@[old(self).pc0 as int
                - old(self).page_mask],
            !old(self).spec_owns(old(self).pc0 as int) ==> r == 0,
    {
        let pointer: usize = self.pc0 as usize;
        self.pc0 = self.pc0.wrapping_add(1);
        if pointer >= self.page_mask && pointer < 1024 + self.page_mask {
            self.rom.read::<u8>(pointer - self.page_mask)
        } else {
            0
        }
    }

    /// Read the code byte under the program counter without advancing;
    /// the relative branches peek their displacement this way.
    pub fn peak_code(&self) -> (r: i8)
        ensures
            self.spec_owns(self.pc0 as int) ==> r == self.rom@[self.pc0 as int - self.page_mask]
                as i8,
            !self.spec_owns(self.pc0 as int) ==> r == 0,
    {
        let pointer: usize = self.pc0 as usize;
        if pointer >= self.page_mask && pointer < 1024 + self.page_mask {
            self.rom.read::<u8>(pointer - self.page_mask) as i8
        } else {
            0
        }
    }

    /// Read the next data byte and advance the data counter; a byte
    /// outside our page reads as zero, and the counter advances anyway.
    pub fn next_data(&mut self) -> (r: u8)
        ensures
            *final(self) == (F3851 { dc0: old(self).dc0.wrapping_add(1), ..*old(self) }),
            old(self).spec_owns(old(self).dc0 as int) ==> r == old(self).rom@[old(self).dc0 as int
                - old(self).page_mask],
            !old(self).spec_owns(old(self).dc0 as int) ==> r == 0,
    {
        let pointer: usize = self.dc0 as usize;
        self.dc0 = self.dc0.wrapping_add(1);
        if pointer >= self.page_mask && pointer < 1024 + self.page_mask {
            self.rom.read::<u8>(pointer - self.page_mask)
        } else {
            0
        }
    }

    /// XDC: exchange the two data counters.
    pub fn swap_dc(&mut self)
        ensures
            *final(self) == (F3851 { dc0: old(self).dc1, dc1: old(self).dc0, ..*old(self) }),
    {
        let swap: u16 = self.dc0;
        self.dc0 = self.dc1;
        self.dc1 = swap;
    }

    /// Write a port in our window; ports elsewhere ignore the write. The
    /// window's last port is left out of the comparison, as the original
    /// select logic leaves it out.
    pub fn write_port(&mut self, port: u8, value: u8)
        ensures
            old(self).port_mask <= port < (0b11 | old(self).port_mask) ==> final(self).ports@
                == old(self).ports@.update((port % 4) as int, value),
            !(old(self).port_mask <= port < (0b11 | old(self).port_mask)) ==> *final(self)
                == *old(self),
            final(self).pc0 == old(self).pc0 && final(self).dc0 == old(self).dc0,
            final(self).rom == old(self).rom,
    {
        if (port as usize) >= self.port_mask && (port as usize) < (0b11 | self.port_mask) {
            self.ports[(port & 0b11) as usize] = value;
        }
    }

    /// Read a port in our window; ports elsewhere read as zero.
    pub fn read_port(&self, port: u8) -> (r: u8)
        ensures
            self.port_mask <= port < (0b11 | self.port_mask) ==> r == self.ports@[(port % 4) as int],
            !(self.port_mask <= port < (0b11 | self.port_mask)) ==> r == 0,
    {
        if (port as usize) >= self.port_mask && (port as usize) < (0b11 | self.port_mask) {
            *vstd::array::array_index_get(&self.ports, (port & 0b11) as usize)
        } else {
            0
        }
    }
}

} // verus!
