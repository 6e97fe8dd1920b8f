//! The 4001 ROM: 256 bytes of code plus four IO port lines, speaking the
//! MCS-4 bus protocol. Up to sixteen can share the bus; each answers only
//! when the address names its page, and drives zero otherwise.

use vstd::prelude::*;

verus! {

use super::Address;
use super::Byte;

/// Intel 4001 chip.
pub struct ROM {
    /// Which page of the address space this chip answers for.
    pub page_mask: u8,
    /// Did the last Send Register Control select this chip?
    pub active: bool,
    /// The 256 bytes of code.
    pub data: [u8; 256],
    /// The four IO port bits.
    pub ports: u8,
}

impl ROM {
    /// The chip's internal invariant.
    pub open spec fn wf(&self) -> bool {
        self.page_mask < 16 && self.ports < 16
    }

    /// Create a new 4001 holding `data`, answering for page `page_mask`.
    /// Page zero starts out selected, as the CPU boots there.
    pub fn new(data: [u8; 256], page_mask: u8) -> (r: Self)
        requires
            page_mask < 16,
        ensures
            r.wf(),
            r.data@ == data@,
            r.page_mask == page_mask,
            r.active == (page_mask == 0),
            r.ports == 0,
    {
        ROM { page_mask, active: page_mask == 0, data, ports: 0 }
    }

    /// The address and opcode phases: drive the addressed byte when the
    /// page is ours, zero otherwise.
    pub fn get_opcode(&self, addr: Address) -> (r: u8)
        requires
            addr.wf(),
        ensures
            self.page_mask == addr.chip_index ==> r == self.data@[addr.high * 16 + addr.low],
            self.page_mask != addr.chip_index ==> r == 0,
    {
        if self.page_mask == addr.chip_index {
            let offset: usize = (addr.high as usize) * 16 + (addr.low as usize);
            *vstd::array::array_index_get(&self.data, offset)
        } else {
            0
        }
    }

    /// Send Register Control: the high nibble names a chip; compare it
    /// against our page.
    pub fn set_register_control(&mut self, data_in: Byte)
        ensures
            *final(self) == (ROM {
                active: data_in.high == old(self).page_mask,
                ..*old(self)
            }),
    {
        self.active = data_in.high == self.page_mask;
    }

    /// The execute phase, read direction: only the read-ROM-port opcode
    /// answers, and only on the selected chip.
    pub fn io_read(&self, modifier: u8) -> (r: u8)
        requires
            self.wf(),
        ensures
            self.active && modifier == 0xA ==> r == self.ports,
            !(self.active && modifier == 0xA) ==> r == 0,
            r < 16,
    {
        if self.active && modifier == 0xA {
            self.ports
        } else {
            0
        }
    }

    /// The execute phase, write direction: only the write-ROM-port opcode
    /// lands, and only on the selected chip.
    pub fn io_write(&mut self, data_in: Byte)
        requires
            data_in.wf(),
        ensures
            old(self).active && data_in.high == 0x2 ==> *final(self) == (ROM {
                ports: data_in.low,
                ..*old(self)
            }),
            !(old(self).active && data_in.high == 0x2) ==> *final(self) == *old(self),
    {
        if self.active && data_in.high == 0x2 {
            self.ports = data_in.low;
        }
    }
}

} // verus!
