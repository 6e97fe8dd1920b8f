//! The classic calculator ROM: 256 words of 10 bits, packed at a word
//! and a quarter per byte, plus the ROM-select decoding.
//!
//! Word `i` starts at bit `i * 10` of the packed image, low bits in the
//! earlier byte; this exact bit order is what makes the chip binary
//! compatible with the historical images. The chip also decodes the
//! ROM-select opcodes that decide which chip drives the bus, and it
//! produces the fixed word-select masks for the type-2 codes that do
//! not go through the pointer.

use vstd::prelude::*;

verus! {

broadcast use
    crate::bitops::lemma_u16_mask31,
    crate::bitops::lemma_u16_mask127,
    crate::bitops::lemma_u16_shr7,
    crate::bitops::lemma_u16_shr9;

use crate::Fault;
use crate::shifter::Shifter16;

/// The per-digit word-select mask.
pub type WordSelect = Shifter16<14>;

/// The 10-bit word at index `i` of a packed image: the low bits sit in
/// the low end of byte `i * 10 / 8`, and the rest come out of the next
/// byte.
pub open spec fn spec_unpacked(data: Seq<u8>, index: int) -> u16
    recommends
        0 <= index < 256,
        data.len() == 320,
{
    let bit_start = index * 10;
    let first = data[bit_start / 8] as u16;
    let second = data[bit_start / 8 + 1] as u16;
    let keep = (8 - (bit_start % 8)) as u16;
    (((first as u16) >> ((8 - keep) as u16)) | (((second as u16) << keep) & 0x3FF)) as u16
}

/// The fixed word-select mask a type-2 opcode carries, when it does not
/// go through the pointer. From the patent's figure; the codes read
/// reversed.
pub open spec fn spec_fixed_ws(opcode: u16) -> u16 {
    let low5 = opcode % 32;
    if low5 == 0b01010 {
        0b00000000000111u16  // exponent
    } else if low5 == 0b11010 {
        0b00000000000100u16  // exponent sign
    } else if low5 == 0b00110 {
        0b01111111111000u16  // mantissa only
    } else if low5 == 0b10110 {
        0b11111111111000u16  // mantissa with sign
    } else if low5 == 0b01110 {
        0b11111111111111u16  // entire word
    } else if low5 == 0b11110 {
        0b10000000000000u16  // mantissa sign
    } else {
        0u16  // pointer-shaped, handled by the control chip
    }
}

/// HP classic calculator ROM chip.
#[allow(non_camel_case_types)]
pub struct HP_ROM {
    /// The packed image: 256 words of 10 bits in 320 bytes.
    pub packed_data: [u8; 320],
    /// This chip's number on the bus.
    pub who_am_i: u8,
    /// Does this chip drive the bus?
    pub output_enable: bool,
    /// An enable level that takes hold only on the next word.
    pub delayed_output_enable: Option<bool>,
}

impl HP_ROM {
    /// The chip's internal invariant: the chip number is three bits.
    pub open spec fn wf(&self) -> bool {
        self.who_am_i < 8
    }

    /// Create a new ROM chip over a packed image. Chip zero starts out
    /// enabled; the others wait for a select.
    pub fn new(packed_data: [u8; 320], who_am_i: u8) -> (r: Self)
        requires
            who_am_i < 8,
        ensures
            r.wf(),
            r.packed_data@ == packed_data@,
            r.who_am_i == who_am_i,
            r.output_enable == (who_am_i == 0),
            r.delayed_output_enable is None,
    {
        HP_ROM {
            packed_data,
            who_am_i,
            output_enable: who_am_i == 0,
            delayed_output_enable: None,
        }
    }

    /// Read the word at `addr` and its fixed word-select mask; a chip
    /// not driving the bus answers all zeros. A pending delayed enable
    /// takes hold after the read.
    pub fn read(&mut self, addr: u8) -> (r: (u16, WordSelect))
        requires
            old(self).wf(),
        ensures
            final(self).wf(),
            final(self).packed_data == old(self).packed_data,
            final(self).who_am_i == old(self).who_am_i,
            final(self).delayed_output_enable is None,
            final(self).output_enable == (match old(self).delayed_output_enable {
                Some(enable) => enable,
                None => old(self).output_enable,
            }),
            r.1.wf(),
            old(self).output_enable ==> r.0 == spec_unpacked(old(self).packed_data@, addr as int)
                && r.0 < 1024 && r.1@ == spec_fixed_ws(r.0),
            !old(self).output_enable ==> r.0 == 0 && r.1@ == 0,
    {
        proof {
            crate::shifter::lemma_fits16_zero(14);
        }
        let result: (u16, WordSelect) = if self.output_enable {
            let opcode: u16 = self.unpack_data(addr);
            proof {
                assert(crate::shifter::fits16(0b00000000000111u16, 14) && crate::shifter::fits16(
                    0b00000000000100u16,
                    14,
                ) && crate::shifter::fits16(0b01111111111000u16, 14) && crate::shifter::fits16(
                    0b11111111111000u16,
                    14,
                ) && crate::shifter::fits16(0b11111111111111u16, 14) && crate::shifter::fits16(
                    0b10000000000000u16,
                    14,
                )) by (bit_vector);
            }
            let low5: u16 = opcode & 0b11111;
            let word_select: u16 = if low5 == 0b01010 {
                0b00000000000111
            } else if low5 == 0b11010 {
                0b00000000000100
            } else if low5 == 0b00110 {
                0b01111111111000
            } else if low5 == 0b10110 {
                0b11111111111000
            } else if low5 == 0b01110 {
                0b11111111111111
            } else if low5 == 0b11110 {
                0b10000000000000
            } else {
                0
            };
            (opcode, Shifter16::new(word_select))
        } else {
            (0, Shifter16::new(0))
        };
        match self.delayed_output_enable {
            Some(output_enable) => {
                self.output_enable = output_enable;
                self.delayed_output_enable = None;
            },
            None => {},
        }
        result
    }

    /// Unpack the 10-bit word at `index` from the packed image.
    fn unpack_data(&self, index: u8) -> (r: u16)
        ensures
            r == spec_unpacked(self.packed_data@, index as int),
            r < 1024,
    {
        let bit_start: usize = (index as usize) * 10;
        let first_byte_index: usize = bit_start / 8;
        let second_byte_index: usize = first_byte_index + 1;

        let first: u16 = *vstd::array::array_index_get(
            &self.packed_data,
            first_byte_index,
        ) as u16;
        let second: u16 = *vstd::array::array_index_get(
            &self.packed_data,
            second_byte_index,
        ) as u16;

        let bits_from_first: u16 = (8 - (bit_start % 8)) as u16;
        let value: u16 = (first >> ((8 - bits_from_first) as u16)) | ((second << bits_from_first)
            & 0x3FF);
        proof {
            let f: u16 = first;
            let sd: u16 = second;
            let k: u16 = bits_from_first;
            assert(f < 256 && k <= 8 ==> ((f >> ((8 - k) as u16)) | ((sd << k) & 0x3FF)) < 1024)
                by (bit_vector);
        }
        value
    }

    /// Decode the ROM-select family: a plain select re-aims the bus at
    /// once, a delayed select takes hold one word later, and the
    /// delayed group-select path is not modeled.
    pub fn decode(&mut self, opcode: u16) -> (r: Result<(), Fault>)
        requires
            old(self).wf(),
            opcode < 1024,
        ensures
            final(self).wf(),
            final(self).packed_data == old(self).packed_data,
            final(self).who_am_i == old(self).who_am_i,
            r is Err ==> r == Err::<(), Fault>(Fault::NotSupported) && *final(self) == *old(self),
            opcode % 128 == 0b0010000 ==> r is Ok && final(self).output_enable == (opcode / 128
                == old(self).who_am_i) && final(self).delayed_output_enable == old(
                self,
            ).delayed_output_enable,
            opcode % 128 == 0b1110100 ==> r is Ok && final(self).delayed_output_enable == Some(
                opcode / 128 == old(self).who_am_i,
            ) && final(self).output_enable == old(self).output_enable,
            // Every word outside the select family leaves the chip as it
            // was.
            opcode % 128 != 0b0010000 && opcode % 128 != 0b0110100 && opcode % 128 != 0b1110100
                ==> r is Ok && *final(self) == *old(self),
            opcode % 128 == 0b0110100 && opcode / 512 != 1 ==> r is Ok && *final(self) == *old(
                self,
            ),
    {
        let rom_num: u8 = (opcode >> 7) as u8;
        let low7: u16 = opcode & 0b1111111;
        if low7 == 0b0010000 {
            // ROM select.
            self.output_enable = self.who_am_i == rom_num;
            Ok(())
        } else if low7 == 0b0110100 {
            if (opcode >> 9) == 1 {
                // Delayed ROM group select: not modeled.
                Err(Fault::NotSupported)
            } else {
                Ok(())
            }
        } else if low7 == 0b1110100 {
            // Delayed ROM select: takes hold on the next word.
            self.delayed_output_enable = Some(self.who_am_i == rom_num);
            Ok(())
        } else {
            Ok(())
        }
    }
}

} // verus!
