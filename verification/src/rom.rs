//! Read-only memory chips.

use vstd::prelude::*;

pub mod f3851;
pub mod hp_rom;

verus! {

pub use f3851::F3851;
pub use hp_rom::HP_ROM;

/// A 256-byte ROM part.
pub type I8702 = ROM<0x100>;

/// A 512-byte ROM part.
pub type I3604 = ROM<0x200>;

/// A 512-byte ROM part.
pub type I8604 = ROM<0x200>;

/// A one-kilobyte ROM part.
pub type I8308 = ROM<0x400>;

/// A two-kilobyte ROM part.
pub type I8316 = ROM<0x800>;

/// A two-kilobyte ROM part.
pub type TMS2716 = ROM<0x800>;

/// A programmable read-only chip: written once at construction, read-only
/// afterwards.
pub struct ROM<const LENGTH: usize> {
    /// The chip's contents.
    pub data: [u8; LENGTH],
}

impl<const LENGTH: usize> View for ROM<LENGTH> {
    type V = Seq<u8>;

    open spec fn view(&self) -> Seq<u8> {
        self.data@
    }
}

impl<const LENGTH: usize> ROM<LENGTH> {
    /// Create a new ROM chip holding `data`.
    pub fn new(data: [u8; LENGTH]) -> (r: Self)
        ensures
            r@ == data@,
    {
        ROM { data }
    }

    /// Read a value at a byte address.
    pub fn read<T: crate::ReadArr>(&self, addr: usize) -> (r: T)
        requires
            addr + T::size() <= LENGTH,
        ensures
            r == T::read_spec(self@, addr as int),
    {
        T::read(self.data.as_slice(), addr)
    }
}

} // verus!
