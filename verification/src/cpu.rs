//! The CPU chips, and the byte arithmetic they share.

use vstd::prelude::*;

pub mod f3850;
pub mod f3859;
pub mod hp_anr;
pub mod hp_cnt;
pub mod i4004;
pub mod i8080;

verus! {

broadcast use crate::bitops::lemma_u8_mask15;

/// The board answers a CPU's memory traffic through these methods.
///
/// A CPU engine never reaches into concrete storage: whatever implements this
/// trait decides what each address holds, so an engine can be exercised with
/// any backing store. Nothing is assumed of the answers.
pub trait MemoryIO {
    /// Read one byte of memory.
    fn read_mem_byte(&self, address: u16) -> u8;

    /// Read one little-endian word of memory.
    fn read_mem_word(&self, address: u16) -> u16;

    /// Write one byte of memory.
    fn write_mem_byte(&mut self, address: u16, value: u8);

    /// Write one little-endian word of memory.
    fn write_mem_word(&mut self, address: u16, value: u16);
}

/// Program counter and stack pointer of a memory-stack CPU.
///
/// Both counters wrap at the end of the 16-bit address space: the hardware
/// truncates address lines, it does not fault.
pub struct CPU {
    /// Stack pointer.
    pub sp: u16,
    /// Program counter.
    pub pc: u16,
}

impl CPU {
    /// Both counters start at zero.
    pub fn new() -> (r: Self)
        ensures
            r.sp == 0,
            r.pc == 0,
    {
        CPU { sp: 0, pc: 0 }
    }

    /// Read the next code byte and advance the program counter by one.
    pub fn next_code_byte(&mut self, io: &impl MemoryIO) -> (r: u8)
        ensures
            final(self).pc == (old(self).pc + 1) % 0x1_0000,
            final(self).sp == old(self).sp,
    {
        let ret: u8 = io.read_mem_byte(self.pc);
        self.pc = self.pc.wrapping_add(1);
        ret
    }

    /// Read the next code word and advance the program counter by two.
    pub fn next_code_word(&mut self, io: &impl MemoryIO) -> (r: u16)
        ensures
            final(self).pc == (old(self).pc + 2) % 0x1_0000,
            final(self).sp == old(self).sp,
    {
        let ret: u16 = io.read_mem_word(self.pc);
        self.pc = self.pc.wrapping_add(2);
        ret
    }

    /// Push a word: move the stack pointer down by two, store there.
    pub fn push(&mut self, io: &mut impl MemoryIO, value: u16)
        ensures
            final(self).sp == (old(self).sp - 2) % 0x1_0000,
            final(self).pc == old(self).pc,
    {
        self.sp = self.sp.wrapping_sub(2);
        io.write_mem_word(self.sp, value);
    }

    /// Pop a word: read at the stack pointer, move it up by two.
    pub fn pop(&mut self, io: &impl MemoryIO) -> (r: u16)
        ensures
            final(self).sp == (old(self).sp + 2) % 0x1_0000,
            final(self).pc == old(self).pc,
    {
        let value: u16 = io.read_mem_word(self.sp);
        self.sp = self.sp.wrapping_add(2);
        value
    }
}

/// What an 8-bit add yields: the truncated sum.
pub open spec fn spec_add_result(byte1: u8, byte2: u8) -> u8 {
    ((byte1 + byte2) % 0x100) as u8
}

/// Add two bytes.
///
/// Returns (result, carry, nibble carry): the sum mod 256, whether the ninth
/// bit overflowed, and whether the low nibbles alone sum past nine.
pub fn execute_add(byte1: u8, byte2: u8) -> (r: (u8, bool, bool))
    ensures
        r.0 == spec_add_result(byte1, byte2),
        r.1 == (byte1 + byte2 > 255),
        r.2 == ((byte1 & 0xF) + (byte2 & 0xF) > 9),
{
    let result: u8 = byte1.wrapping_add(byte2);
    let carry: bool = (byte1 as u16) + (byte2 as u16) > 255;
    let nibble_carry: bool = (byte1 & 0xF) + (byte2 & 0xF) > 9;
    (result, carry, nibble_carry)
}

/// Add two bytes and an incoming carry.
///
/// Returns (result, carry, nibble carry) over the three-way sum.
pub fn execute_add_carry(byte1: u8, byte2: u8, carry: bool) -> (r: (u8, bool, bool))
    ensures
        r.0 == ((byte1 + byte2 + (carry as u8)) % 0x100) as u8,
        r.1 == (byte1 + byte2 + (carry as u8) > 255),
        r.2 == ((byte1 & 0xF) + (byte2 & 0xF) + (carry as u8) > 9),
{
    let result: u8 = byte1.wrapping_add(carry as u8).wrapping_add(byte2);
    let carry_out: bool = (byte1 as u16) + (byte2 as u16) + (carry as u16) > 255;
    let nibble_carry: bool = (byte1 & 0xF) + (byte2 & 0xF) + (carry as u8) > 9;
    (result, carry_out, nibble_carry)
}

/// What an 8-bit subtract yields: the wrapped difference.
pub open spec fn spec_sub_result(byte1: u8, byte2: u8) -> u8 {
    (((byte1 - byte2) % 0x100 + 0x100) % 0x100) as u8
}

/// Subtract two bytes.
///
/// Returns (result, borrow, nibble carry). The nibble carry is computed from
/// the result's low nibble, as the hardware does.
pub fn execute_sub(byte1: u8, byte2: u8) -> (r: (u8, bool, bool))
    ensures
        r.0 == spec_sub_result(byte1, byte2),
        r.1 == (byte1 < byte2),
        r.2 == ((r.0 & 0xF) + (byte2 & 0xF) > 9),
{
    let result: u8 = byte1.wrapping_sub(byte2);
    let carry: bool = byte1 < byte2;
    let nibble_carry: bool = (result & 0xF) + (byte2 & 0xF) > 9;
    (result, carry, nibble_carry)
}

/// Subtract two bytes and an incoming borrow.
///
/// Returns (result, borrow, nibble carry) over the three-way difference.
pub fn execute_sub_carry(byte1: u8, byte2: u8, carry: bool) -> (r: (u8, bool, bool))
    ensures
        r.0 == (((byte1 - byte2 - (carry as u8)) % 0x100 + 0x100) % 0x100) as u8,
        r.1 == (byte1 < byte2 + (carry as u8)),
        r.2 == ((r.0 & 0xF) + (byte2 & 0xF) + (carry as u8) > 9),
{
    let step: u8 = byte1.wrapping_sub(carry as u8);
    let borrow1: bool = byte1 < carry as u8;
    let result: u8 = step.wrapping_sub(byte2);
    let borrow2: bool = step < byte2;
    let nibble_carry: bool = (result & 0xF) + (byte2 & 0xF) + (carry as u8) > 9;
    (result, borrow1 || borrow2, nibble_carry)
}

/// What decimal adjust yields, in the order the hardware applies it: first
/// the low nibble is pushed past 15 when it exceeds nine or a half-carry is
/// pending, recording a fresh half-carry; only afterwards is the whole byte
/// tested against 0x90 or a pending carry, adding 0x60 and recording a fresh
/// carry. The order is significant.
pub open spec fn spec_daa(byte: u8, carry: bool, nibble_carry: bool) -> (u8, bool, bool) {
    let low_adjust = nibble_carry || (byte & 0xF) > 9;
    let step = if low_adjust {
        ((byte + 6) % 0x100) as u8
    } else {
        byte
    };
    let high_adjust = carry || step > 0x90;
    let result = if high_adjust {
        ((step + 0x60) % 0x100) as u8
    } else {
        step
    };
    (result, high_adjust, low_adjust)
}

/// Decimal Adjust after Addition: make a binary sum read as packed decimal.
pub fn execute_daa(byte: u8, carry: bool, nibble_carry: bool) -> (r: (u8, bool, bool))
    ensures
        r == spec_daa(byte, carry, nibble_carry),
{
    let mut value: u8 = byte;
    let nibble_carry_out: bool = if nibble_carry || (value & 0xF) > 9 {
        value = value.wrapping_add(6);
        true
    } else {
        false
    };
    let carry_out: bool = if carry || value > 0x90 {
        value = value.wrapping_add(0x60);
        true
    } else {
        false
    };
    (value, carry_out, nibble_carry_out)
}

/// A four-entry circular buffer of return addresses.
///
/// Pushing past the depth silently overwrites the oldest entry, and the
/// count of pending pushes keeps growing; popping with nothing pending is a
/// no-op. This is the hardware's real, undocumented behavior and the model
/// keeps it bit for bit.
pub struct CallStack {
    /// The four address slots.
    pub slots: [u16; 4],
    /// Where the next push lands.
    pub index: usize,
    /// How many pushes have not been popped yet.
    pub pending: u64,
}

impl CallStack {
    /// Is the write position inside the buffer?
    pub open spec fn wf(&self) -> bool {
        self.index < 4
    }

    /// Where a pop reads from: one slot behind the write position.
    pub open spec fn pop_index(index: int) -> int {
        (index + 3) % 4
    }

    /// An empty call stack.
    pub fn new() -> (r: Self)
        ensures
            r.slots@ == seq![0u16, 0u16, 0u16, 0u16],
            r.index == 0,
            r.pending == 0,
            r.wf(),
    {
        proof {
            assert([0u16, 0u16, 0u16, 0u16]@ =~= seq![0u16, 0u16, 0u16, 0u16]);
        }
        CallStack { slots: [0u16, 0u16, 0u16, 0u16], index: 0, pending: 0 }
    }

    /// Push a return address, overwriting the oldest entry when the buffer
    /// is full; the pending count wraps only at the machine word.
    pub fn push(&mut self, addr: u16)
        requires
            old(self).wf(),
        ensures
            final(self).wf(),
            final(self).slots@ == old(self).slots@.update(old(self).index as int, addr),
            final(self).index == (old(self).index + 1) % 4,
            final(self).pending == ((old(self).pending + 1) % 0x1_0000_0000_0000_0000),
    {
        self.slots[self.index] = addr;
        self.index = (self.index + 1) % 4;
        self.pending = self.pending.wrapping_add(1);
    }

    /// Pop the most recent pending push; with none pending, a no-op.
    pub fn pop(&mut self) -> (r: Option<u16>)
        requires
            old(self).wf(),
        ensures
            final(self).wf(),
            old(self).pending == 0 ==> r is None && *final(self) == *old(self),
            old(self).pending > 0 ==> {
                &&& final(self).pending == old(self).pending - 1
                &&& final(self).index == Self::pop_index(old(self).index as int)
                &&& final(self).slots == old(self).slots
                &&& r == Some(old(self).slots@[Self::pop_index(old(self).index as int)])
            },
    {
        if self.pending > 0 {
            self.pending = self.pending - 1;
            self.index = (self.index + 3) % 4;
            Some(self.slots[self.index])
        } else {
            None
        }
    }
}

/// Call-stack wraparound: pushing five addresses into the four-deep buffer
/// and popping four times returns the last four pushes, newest first; the
/// very first address is gone, its slot overwritten by the fifth push.
pub proof fn lemma_call_stack_wraparound(
    s: CallStack,
    a0: u16,
    a1: u16,
    a2: u16,
    a3: u16,
    a4: u16,
)
    requires
        s.wf(),
        s.pending == 0,
    ensures
        ({
            let i = s.index as int;
            let full = s.slots@.update(i, a0).update((i + 1) % 4, a1).update((i + 2) % 4, a2)
                .update((i + 3) % 4, a3).update((i + 4) % 4, a4);
            &&& full[(i + 4) % 4] == a4
            &&& (i + 4) % 4 == i
            &&& full[CallStack::pop_index((i + 5) % 4)] == a4
            &&& full[CallStack::pop_index(CallStack::pop_index((i + 5) % 4))] == a3
            &&& full[CallStack::pop_index(
                CallStack::pop_index(CallStack::pop_index((i + 5) % 4)),
            )] == a2
            &&& full[CallStack::pop_index(
                CallStack::pop_index(CallStack::pop_index(CallStack::pop_index((i + 5) % 4))),
            )] == a1
        }),
{
}

/// A byte already in normalized packed decimal is a fixed point of decimal
/// adjust: when both nibbles read at most nine, the byte does not exceed
/// 0x90, and no carry or half-carry is pending, adjusting changes nothing.
pub proof fn lemma_daa_normalized_fixed(byte: u8)
    requires
        byte & 0xF <= 9,
        byte <= 0x90,
    ensures
        spec_daa(byte, false, false) == (byte, false, false),
{
}

} // verus!
