//! Cycle-accurate models of early-1970s microprocessor and calculator chips.
//!
//! Every chip runs independently: a chip that talks to its neighbours does so
//! through a trait that the surrounding board implements, and only during its
//! single `run_cycle` call. No chip blocks, no state is shared; the caller
//! decides when the next cycle happens.

use vstd::prelude::*;

pub mod and;
pub use and::AND;
pub mod bitops;
pub mod counter;
pub use counter::Counter;
pub mod cpu;
pub mod decoder;
pub use decoder::SegmentDecoder;
pub mod hp_classic;
pub mod indexer;
pub use indexer::Indexer16;
pub use indexer::Indexer64;
pub mod mcs4;
pub use mcs4::shifter4003::Shifter;
pub mod nand;
pub use nand::NAND;
pub mod or;
pub use or::OR;
pub mod ram;
pub use ram::RAM;
pub mod rom;
pub use rom::ROM;
pub mod shifter;
pub use shifter::Shifter16;
pub use shifter::Shifter64;
pub mod tms0800;

verus! {

broadcast use
    crate::bitops::lemma_u16_from_bytes,
    crate::bitops::lemma_u16_mask255,
    crate::bitops::lemma_u16_shr8;

/// Why an engine refused a cycle.
///
/// An opcode outside the chip's legal decode space is a caller bug: the
/// hardware can never fetch one from its own ROM, so the engine refuses it
/// outright rather than guessing. A recognized opcode whose feature this
/// model leaves out is reported separately, so a caller can tell bad machine
/// code from a missing feature.
#[derive(Debug, Clone, Copy, PartialEq, Eq, Structural)]
pub enum Fault {
    /// The opcode is not machine code for this chip.
    IllegalOpcode,
    /// The opcode is recognized but its feature is not modeled.
    NotSupported,
}

/// Generic read of a little-endian value out of a byte slice.
pub trait ReadArr: Sized {
    /// How many bytes one value occupies.
    spec fn size() -> nat;

    /// The value denoted by the bytes starting at `addr`.
    spec fn read_spec(data: Seq<u8>, addr: int) -> Self;

    /// Read one value from `data` at byte offset `addr`.
    fn read(data: &[u8], addr: usize) -> (r: Self)
        requires
            addr + Self::size() <= data@.len(),
        ensures
            r == Self::read_spec(data@, addr as int),
    ;
}

/// Generic write of a little-endian value into a byte slice.
pub trait WriteArr: Sized {
    /// How many bytes one value occupies.
    spec fn size() -> nat;

    /// The slice contents after writing `value` at byte offset `addr`.
    spec fn write_spec(data: Seq<u8>, addr: int, value: Self) -> Seq<u8>;

    /// Write `value` into `data` at byte offset `addr`.
    fn write(data: &mut [u8], addr: usize, value: Self)
        requires
            addr + Self::size() <= old(data)@.len(),
        ensures
            final(data)@ == Self::write_spec(old(data)@, addr as int, value),
    ;
}

impl ReadArr for u8 {
    open spec fn size() -> nat {
        1
    }

    open spec fn read_spec(data: Seq<u8>, addr: int) -> u8 {
        data[addr]
    }

    fn read(data: &[u8], addr: usize) -> (r: Self) {
        *vstd::slice::slice_index_get(data, addr)
    }
}

impl ReadArr for u16 {
    open spec fn size() -> nat {
        2
    }

    open spec fn read_spec(data: Seq<u8>, addr: int) -> u16 {
        (data[addr] + data[addr + 1] * 0x100) as u16
    }

    fn read(data: &[u8], addr: usize) -> (r: Self) {
        let n: usize = data.len();
        let low: u8 = *vstd::slice::slice_index_get(data, addr);
        let next: usize = addr + 1;
        let high: u8 = *vstd::slice::slice_index_get(data, next);
        (low as u16) | ((high as u16) << 8)
    }
}

impl WriteArr for u8 {
    open spec fn size() -> nat {
        1
    }

    open spec fn write_spec(data: Seq<u8>, addr: int, value: u8) -> Seq<u8> {
        data.update(addr, value)
    }

    fn write(data: &mut [u8], addr: usize, value: Self) {
        data[addr] = value;
    }
}

impl WriteArr for u16 {
    open spec fn size() -> nat {
        2
    }

    open spec fn write_spec(data: Seq<u8>, addr: int, value: u16) -> Seq<u8> {
        data.update(addr, (value % 0x100) as u8).update(addr + 1, (value / 0x100) as u8)
    }

    fn write(data: &mut [u8], addr: usize, value: Self) {
        let n: usize = data.len();
        let low: u8 = (value & 0xFF) as u8;
        let high: u8 = (value >> 8) as u8;
        data[addr] = low;
        let next: usize = addr + 1;
        data[next] = high;
    }
}

} // verus!
