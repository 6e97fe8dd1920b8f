//! Random-access memory chips.

use vstd::prelude::*;

pub mod hp_ram;

verus! {

/// A 512-byte static RAM part.
pub type I2107B = RAM<0x200>;

/// A 512-byte dynamic RAM part.
pub type MK4015 = RAM<0x200>;

/// A 512-byte dynamic RAM part.
pub type MK4027 = RAM<0x200>;

/// A generic RAM chip. It stores bytes; values of other widths are read and
/// written little-endian.
pub struct RAM<const LENGTH: usize> {
    /// The chip's contents.
    pub data: [u8; LENGTH],
}

impl<const LENGTH: usize> View for RAM<LENGTH> {
    type V = Seq<u8>;

    open spec fn view(&self) -> Seq<u8> {
        self.data@
    }
}

impl<const LENGTH: usize> RAM<LENGTH> {
    /// Create a cleared RAM chip.
    pub fn new() -> (r: Self)
        ensures
            r@ == Seq::<u8>::new(LENGTH as nat, |i: int| 0u8),
    {
        let data: [u8; LENGTH] = vstd::array::array_fill_for_copy_types(0u8);
        proof {
            assert(data@ =~= Seq::<u8>::new(LENGTH as nat, |i: int| 0u8));
        }
        RAM { data }
    }

    /// Read a value at a byte address.
    pub fn read<T: crate::ReadArr>(&self, addr: usize) -> (r: T)
        requires
            addr + T::size() <= LENGTH,
        ensures
            r == T::read_spec(self@, addr as int),
    {
        T::read(self.data.as_slice(), addr)
    }

    /// Write a value at a byte address.
    pub fn write<T: crate::WriteArr>(&mut self, addr: usize, value: T)
        requires
            addr + T::size() <= LENGTH,
        ensures
            final(self)@ == T::write_spec(old(self)@, addr as int, value),
    {
        let data: &mut [u8] = vstd::array::ref_mut_array_unsizing_coercion(&mut self.data);
        T::write(data, addr, value);
    }

    /// Read the bit at a bit address.
    pub fn read_bit(&self, bit_addr: usize) -> (r: bool)
        requires
            bit_addr < LENGTH * 8,
        ensures
            r == (self@[bit_addr as int / 8] >> ((bit_addr % 8) as u8) & 1 == 1),
    {
        let byte_addr: usize = bit_addr / 8;
        let which_bit: usize = bit_addr % 8;
        (*vstd::array::array_index_get(&self.data, byte_addr) >> (which_bit as u8)) & 1 == 1
    }

    /// Write the bit at a bit address.
    pub fn write_bit(&mut self, bit_addr: usize, bit_value: bool)
        requires
            bit_addr < LENGTH * 8,
        ensures
            final(self)@ == old(self)@.update(
                bit_addr as int / 8,
                crate::indexer::bit8_set(old(self)@[bit_addr as int / 8], (bit_addr % 8) as u32, bit_value),
            ),
    {
        let byte_addr: usize = bit_addr / 8;
        let which_bit: u8 = (bit_addr % 8) as u8;
        let old_byte: u8 = *vstd::array::array_index_get(&self.data, byte_addr);
        let cleared: u8 = old_byte & !(1u8 << which_bit);
        let inject: u8 = if bit_value {
            1u8
        } else {
            0u8
        };
        self.data[byte_addr] = cleared | (inject << which_bit);
    }

    /// Replace the whole contents at once, as a ROM is initialized.
    pub fn set_total(&mut self, data: [u8; LENGTH])
        ensures
            final(self)@ == data@,
    {
        self.data = data;
    }
}

} // verus!
