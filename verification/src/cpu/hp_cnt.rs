//! The HP 1820-0849 Control and Timing (C&T) chip, the other half of
//! the classic calculator pair.
//!
//! It owns the eight-bit instruction counter and its single-level
//! return address, twelve status bits, the four-bit pointer, and the
//! keyboard code; it merges the carry line coming back from the
//! arithmetic chip and produces the pointer-shaped word-select masks.

use vstd::prelude::*;

verus! {

broadcast use
    crate::bitops::lemma_u8_mask15,
    crate::bitops::lemma_u8_mask31,
    crate::bitops::lemma_u8_shr4,
    crate::bitops::lemma_u8_shr5,
    crate::bitops::lemma_u16_mask3,
    crate::bitops::lemma_u16_mask16383,
    crate::bitops::lemma_u16_shr2;

use crate::Fault;

/// HP 1820-0849 Control and Timing chip.
#[allow(non_camel_case_types)]
pub struct HP_CnT {
    /// The instruction counter the ROMs read.
    pub next_address: u8,
    /// The saved counter for call and return.
    pub saved_address: u8,
    /// The twelve status flags; only number zero is wired to hardware,
    /// set by a key press.
    pub status: [bool; 12],
    /// The four-bit pointer.
    pub pointer: u8,
    /// The chip's own carry: set low by the test instructions to arm
    /// the next jump. Carries are recorded inverted throughout.
    pub carry: bool,
    /// The key code currently pressed, if any.
    pub current_keypress: Option<u8>,
}

/// A word-select mask with a single bit at the pointer's position.
pub open spec fn spec_ws_at(pointer: u8) -> u16 {
    (1u16 << (pointer as u16))
}

/// A word-select mask covering every position up to the pointer's.
pub open spec fn spec_ws_up_to(pointer: u8) -> u16 {
    ((((1u32 << ((pointer + 1) as u32)) - 1) % 0x1_0000) as u16)
}

impl HP_CnT {
    /// The chip's internal invariant: the pointer inside four bits, the
    /// key code inside six.
    pub open spec fn wf(&self) -> bool {
        &&& self.pointer < 16
        &&& match self.current_keypress {
            Some(key) => key < 64,
            None => true,
        }
    }

    /// Power-on state: everything cleared, the carry armed high.
    pub fn new() -> (r: Self)
        ensures
            r.wf(),
            r.next_address == 0,
            r.saved_address == 0,
            r.pointer == 0,
            !r.carry,
            r.current_keypress is None,
    {
        HP_CnT {
            next_address: 0,
            saved_address: 0,
            status: [false;12],
            pointer: 0,
            carry: false,
            current_keypress: None,
        }
    }

    /// Step the pointer up, wrapping at sixteen.
    fn increment_pointer(&mut self)
        requires
            old(self).pointer < 16,
        ensures
            *final(self) == (HP_CnT {
                pointer: ((old(self).pointer + 1) % 16) as u8,
                ..*old(self)
            }),
            final(self).pointer < 16,
    {
        if self.pointer == 0b1111 {
            self.pointer = 0;
        } else {
            self.pointer = self.pointer + 1;
        }
    }

    /// Step the pointer down, wrapping at sixteen.
    fn decrement_pointer(&mut self)
        requires
            old(self).pointer < 16,
        ensures
            *final(self) == (HP_CnT {
                pointer: ((old(self).pointer + 15) % 16) as u8,
                ..*old(self)
            }),
            final(self).pointer < 16,
    {
        if self.pointer == 0 {
            self.pointer = 0b1111;
        } else {
            self.pointer = self.pointer - 1;
        }
    }

    /// Decode and execute the control half of one instruction, and
    /// return the word-select mask the pointer shapes for the
    /// arithmetic chip — zero for every class that brings its own.
    ///
    /// The incoming carry is ANDed with the chip's own and arms the
    /// type-1 jump; the chip's carry then re-arms high until a test
    /// instruction pulls it low again. The key-to-address transfer and
    /// the status and pointer tests are exact; the external entry path
    /// is not modeled and says so.
    pub fn run_cycle(&mut self, opcode: u16, carry: bool) -> (r: Result<u16, Fault>)
        requires
            old(self).wf(),
            opcode < 1024,
        ensures
            final(self).wf(),
            r is Err ==> r == Err::<u16, Fault>(Fault::NotSupported),
            r matches Ok(ws) ==> ws < 0x4000,
            opcode % 4 == 3 ==> r == Ok::<u16, Fault>(0u16) && final(self).next_address == (if carry
                && old(self).carry {
                ((opcode / 4) % 0x100) as u8
            } else {
                ((old(self).next_address + 1) % 0x100) as u8
            }) && final(self).carry && final(self).status == old(self).status
                && final(self).pointer == old(self).pointer,
            opcode % 4 == 1 ==> r == Ok::<u16, Fault>(0u16) && final(self).next_address == ((opcode
                / 4) % 0x100) as u8 && final(self).saved_address == ((old(self).next_address + 1)
                % 0x100) as u8 && final(self).carry,
            // The type-2 word selects come out of the pointer: a single
            // bit at its position, or everything up to it, clipped to
            // the fourteen digit positions that exist.
            opcode % 4 == 2 ==> final(self).pointer == old(self).pointer && final(self).carry && r
                == Ok::<u16, Fault>(
                if opcode & 0b11100 == 0b00000 {
                    (spec_ws_at(old(self).pointer) & 0x3FFF)
                } else if opcode & 0b11100 == 0b10000 {
                    (spec_ws_up_to(old(self).pointer) & 0x3FFF)
                } else {
                    0u16
                },
            ),
            // The control class itself, instruction by instruction. The
            // counter has already stepped; `stepped` is that value.
            opcode % 4 == 0 ==> ({
                let b = (opcode / 4) as u8;
                let v = b / 16;
                let low = b % 16;
                let stepped = ((old(self).next_address + 1) % 0x100) as u8;
                let five = b % 32;
                &&& (low == 0b0000 || low == 0b0010 || low == 0b1010 || low == 0b1110) ==> r
                    == Ok::<u16, Fault>(0u16) && *final(self) == (HP_CnT {
                    next_address: stepped,
                    carry: true,
                    ..*old(self)
                })
                &&& low == 0b0001 ==> r == Ok::<u16, Fault>(0u16) && final(self).carry
                    && final(self).next_address == stepped
                    && final(self).pointer == old(self).pointer
                    && (v < 12 ==> final(self).status@ == old(self).status@.update(v as int, true))
                    && (v >= 12 ==> final(self).status == old(self).status)
                &&& low == 0b1001 ==> r == Ok::<u16, Fault>(0u16) && final(self).carry
                    && final(self).next_address == stepped
                    && final(self).pointer == old(self).pointer
                    && (v < 12 ==> final(self).status@ == old(self).status@.update(
                        v as int,
                        false,
                    )) && (v >= 12 ==> final(self).status == old(self).status)
                &&& low == 0b0101 ==> r == Ok::<u16, Fault>(0u16) && *final(self) == (HP_CnT {
                    next_address: stepped,
                    carry: !(v < 12 && old(self).status@[v as int]),
                    ..*old(self)
                })
                &&& low == 0b1101 ==> r == Ok::<u16, Fault>(0u16) && final(self).carry
                    && final(self).next_address == stepped
                    && final(self).pointer == old(self).pointer
                    && (v == 0 ==> forall|i: int| 0 <= i < 12 ==> !final(self).status@[i])
                    && (v != 0 ==> final(self).status == old(self).status)
                &&& low == 0b0011 ==> r == Ok::<u16, Fault>(0u16) && *final(self) == (HP_CnT {
                    next_address: stepped,
                    carry: true,
                    pointer: (v as u8),
                    ..*old(self)
                })
                &&& low == 0b0111 ==> r == Ok::<u16, Fault>(0u16) && *final(self) == (HP_CnT {
                    next_address: stepped,
                    carry: true,
                    pointer: ((old(self).pointer + 15) % 16) as u8,
                    ..*old(self)
                })
                &&& low == 0b1111 ==> r == Ok::<u16, Fault>(0u16) && *final(self) == (HP_CnT {
                    next_address: stepped,
                    carry: true,
                    pointer: ((old(self).pointer + 1) % 16) as u8,
                    ..*old(self)
                })
                &&& low == 0b1011 ==> r == Ok::<u16, Fault>(0u16) && *final(self) == (HP_CnT {
                    next_address: stepped,
                    carry: old(self).pointer != v,
                    ..*old(self)
                })
                &&& low == 0b0110 ==> r == Ok::<u16, Fault>(
                    if old(self).pointer < 14 {
                        spec_ws_at(old(self).pointer)
                    } else {
                        0u16
                    },
                ) && *final(self) == (HP_CnT {
                    next_address: stepped,
                    carry: true,
                    pointer: ((old(self).pointer + 15) % 16) as u8,
                    ..*old(self)
                })
                &&& (low == 0b0100 || low == 0b1100) ==> ({
                    &&& five == 0b00100 || five == 0b11100 ==> r == Ok::<u16, Fault>(0u16)
                        && *final(self) == (HP_CnT {
                        next_address: stepped,
                        carry: true,
                        ..*old(self)
                    })
                    &&& five == 0b01100 ==> r == Ok::<u16, Fault>(0u16) && *final(self) == (HP_CnT {
                        next_address: old(self).saved_address,
                        carry: true,
                        ..*old(self)
                    })
                    &&& five == 0b10100 && b / 32 == 1 ==> r == Ok::<u16, Fault>(0u16)
                        && *final(self) == (HP_CnT {
                        next_address: (match old(self).current_keypress {
                            Some(key_code) => key_code,
                            None => 0u8,
                        }),
                        carry: true,
                        ..*old(self)
                    })
                    &&& r is Err <==> (five == 0b10100 && b / 32 != 1) || (five != 0b00100 && five
                        != 0b01100 && five != 0b10100 && five != 0b11100)
                })
            }),
    {
        let na: u8 = self.next_address;
        self.next_address = na.wrapping_add(1);
        let merged: bool = carry && self.carry;
        self.carry = true;
        let byte_opcode: u8 = (opcode >> 2) as u8;

        if opcode & 0b11 == 0b11 {
            // Type 1: jump when the merged carry line is armed.
            if merged {
                self.next_address = byte_opcode;
            }
            Ok(0)
        } else if opcode & 0b11 == 0b01 {
            // Call: save the stepped counter, jump.
            self.saved_address = self.next_address;
            self.next_address = byte_opcode;
            Ok(0)
        } else if opcode & 0b11 == 0b10 {
            // Type 2 belongs to the arithmetic chip; the pointer-shaped
            // word selects are made here.
            let ws: u16 = if opcode & 0b11100 == 0b00000 {
                self.ws_single()
            } else if opcode & 0b11100 == 0b10000 {
                self.ws_up_to()
            } else {
                0
            };
            Ok(ws & 0x3FFF)
        } else {
            let value: u8 = byte_opcode >> 4;
            let low: u8 = byte_opcode & 0b1111;
            if low == 0b0000 {
                // No operation.
                Ok(0)
            } else if low == 0b0001 {
                // Set a status bit.
                self.set_status(value, true);
                Ok(0)
            } else if low == 0b0101 {
                // Test a status bit: arm the jump when it is clear.
                self.carry = !self.read_status(value);
                Ok(0)
            } else if low == 0b1001 {
                // Clear a status bit.
                self.set_status(value, false);
                Ok(0)
            } else if low == 0b1101 {
                // Clear every status bit; later family members overload
                // the nonzero encodings for delayed ROM select, so only
                // value zero clears.
                if value == 0 {
                    self.status = [false;12];
                }
                Ok(0)
            } else if low == 0b0011 {
                // Load the pointer.
                self.pointer = value;
                Ok(0)
            } else if low == 0b0111 {
                self.decrement_pointer();
                Ok(0)
            } else if low == 0b1011 {
                // Test the pointer: arm the jump on inequality, in the
                // chip's inverted carry convention.
                self.carry = self.pointer != value;
                Ok(0)
            } else if low == 0b1111 {
                self.increment_pointer();
                Ok(0)
            } else if low == 0b0010 || low == 0b1010 || low == 0b1110 {
                // Type 5: data entry, handled by the arithmetic chip.
                Ok(0)
            } else if low == 0b0110 {
                // Type 5 load constant: a single-digit word select at
                // the pointer, which then steps down. With the pointer
                // at its top position the mask leaves the word, and the
                // instruction has no effect there.
                let ws: u16 = self.ws_single();
                proof {
                    let p: u8 = self.pointer;
                    assert(p < 16 ==> ((1u16 << (p as u16)) <= 0x3FFF) == (p < 14))
                        by (bit_vector);
                }
                self.decrement_pointer();
                if ws <= 0b11111111111111 {
                    Ok(ws)
                } else {
                    Ok(0)
                }
            } else {
                // Type 6.
                let five: u8 = byte_opcode & 0b11111;
                if five == 0b00100 {
                    // ROM select: handled by the ROM chips.
                    Ok(0)
                } else if five == 0b01100 {
                    // Subroutine return.
                    self.next_address = self.saved_address;
                    Ok(0)
                } else if five == 0b10100 {
                    if byte_opcode >> 5 == 1 {
                        // Key code to address.
                        self.next_address = match self.current_keypress {
                            Some(key_code) => key_code,
                            None => 0,
                        };
                        Ok(0)
                    } else {
                        // External entry is not modeled.
                        Err(Fault::NotSupported)
                    }
                } else if five == 0b11100 {
                    // Auxiliary data storage: handled by the RAM chip.
                    Ok(0)
                } else {
                    // The remaining type-6 encodings are reserved.
                    Err(Fault::NotSupported)
                }
            }
        }
    }

    /// A word-select mask with a single bit at the pointer.
    fn ws_single(&self) -> (r: u16)
        requires
            self.pointer < 16,
        ensures
            r == spec_ws_at(self.pointer),
    {
        1u16 << (self.pointer as u16)
    }

    /// A word-select mask covering every position up to the pointer.
    fn ws_up_to(&self) -> (r: u16)
        requires
            self.pointer < 16,
        ensures
            r == spec_ws_up_to(self.pointer),
    {
        proof {
            let p: u8 = self.pointer;
            assert(p < 16 ==> (1u32 << ((p + 1) as u32)) >= 1 && ((1u32 << ((p + 1) as u32)) - 1)
                % 0x1_0000 == ((1u32 << ((p + 1) as u32)) - 1) as u16) by (bit_vector);
        }
        let wide: u32 = (1u32 << ((self.pointer + 1) as u32)) - 1;
        (wide % 0x1_0000) as u16
    }

    /// Read one status bit; numbers past the twelve that exist read
    /// clear.
    fn read_status(&self, index: u8) -> (r: bool)
        ensures
            r == (index < 12 && self.status@[index as int]),
    {
        if index < 12 {
            *vstd::array::array_index_get(&self.status, index as usize)
        } else {
            false
        }
    }

    /// Write one status bit; numbers past the twelve that exist are
    /// ignored.
    fn set_status(&mut self, index: u8, value: bool)
        ensures
            index < 12 ==> final(self).status@ == old(self).status@.update(index as int, value),
            index >= 12 ==> final(self).status == old(self).status,
            *final(self) == (HP_CnT { status: final(self).status, ..*old(self) }),
    {
        if index < 12 {
            self.status[index as usize] = value;
        }
    }
}

} // verus!
