//! The 3859: a 3850 CPU and a 3851 program storage unit in one package.

use vstd::prelude::*;

verus! {

broadcast use
    crate::bitops::lemma_u16_mask255,
    crate::bitops::lemma_u16_shr8,
    crate::bitops::lemma_u16_byte_join_rev;

use crate::Fault;
use crate::cpu::f3850::F3850;
use crate::cpu::f3850::IO;
use crate::cpu::f3850::spec_cycles;
use crate::cpu::f3850::spec_illegal;
use crate::cpu::f3850::spec_io_free;
use crate::cpu::f3850::spec_state;
use crate::cpu::f3850::spec_step_free;
use crate::rom::F3851;

/// The byte the package's own program counter points at: its storage's
/// word when the counter sits in the storage's page, the idle bus
/// otherwise.
pub open spec fn spec_fetched(psu: F3851) -> u8 {
    if psu.page_mask <= psu.pc0 < psu.page_mask + 1024 {
        psu.rom@[psu.pc0 - psu.page_mask]
    } else {
        0u8
    }
}

/// Fairchild 3859 combined CPU and PSU.
pub struct F3859 {
    /// The CPU half.
    pub cpu: F3850,
    /// The program storage half.
    pub psu: F3851,
}

/// The in-package wiring between the two halves. Port traffic and data
/// writes have no destination inside the package: touching them marks
/// the cycle as reaching past what this part provides.
struct F3859Io<'a> {
    rom: &'a mut F3851,
    unsupported: bool,
}

impl<'a> IO for F3859Io<'a> {
    fn output(&mut self, port: u8, value: u8) {
        self.unsupported = true;
    }

    fn input(&mut self, port: u8) -> u8 {
        self.unsupported = true;
        0
    }

    fn read_external_port(&mut self, port: u8) -> u8 {
        0
    }

    fn next_code(&mut self) -> u8 {
        self.rom.next_code()
    }

    fn peak_code(&mut self) -> i8 {
        self.rom.peak_code()
    }

    fn next_data(&mut self) -> u8 {
        self.rom.next_data()
    }

    fn write_data(&mut self, data: u8) {
        self.unsupported = true;
    }

    fn jump(&mut self, upper: u8, lower: u8, push_pc: bool) {
        self.rom.jump(join_bytes(upper, lower), push_pc);
    }

    fn jump_relative(&mut self, relative_addr: i8) {
        self.rom.jump_relative(relative_addr);
    }

    fn ret_pc(&mut self) {
        self.rom.ret_pc();
    }

    fn add_dc0(&mut self, a: i8) {
        self.rom.add_dc0(a);
    }

    fn get_dc0(&mut self) -> (u8, u8) {
        split_word(self.rom.dc0)
    }

    fn set_dc0(&mut self, upper: u8, lower: u8) {
        self.rom.dc0 = join_bytes(upper, lower);
    }

    fn swap_dc(&mut self) {
        self.rom.swap_dc();
    }

    fn get_pc1(&mut self) -> (u8, u8) {
        split_word(self.rom.pc1)
    }

    fn set_pc1(&mut self, upper: u8, lower: u8) {
        self.rom.pc1 = join_bytes(upper, lower);
    }
}

/// A big-endian address split into its two bytes.
fn split_word(source: u16) -> (r: (u8, u8))
    ensures
        r.0 == source / 0x100,
        r.1 == source % 0x100,
{
    ((source >> 8) as u8, (source & 0xFF) as u8)
}

/// Two bytes joined into a big-endian address.
fn join_bytes(upper: u8, lower: u8) -> (r: u16)
    ensures
        r == upper * 0x100 + lower,
{
    ((upper as u16) << 8) | (lower as u16)
}

impl F3859 {
    /// Create the package over a kilobyte of program.
    pub fn new(data: [u8; 1024]) -> (r: Self)
        ensures
            r.cpu.wf(),
            r.psu.rom@ == data@,
            r.psu.pc0 == 0,
    {
        F3859 { cpu: F3850::new(), psu: F3851::new(data, 0, 0) }
    }

    /// Run one CPU instruction against the in-package storage and
    /// return its clock pulses. The package fetches the opcode from
    /// its own storage, so what the byte under the program counter
    /// means is fixed here: a byte outside the decode space is
    /// refused with the storage counter already stepped past it, a
    /// legal one pays exactly its clock count, and an instruction
    /// that needs port traffic or a data write reaches past this part
    /// and is reported as such. A pending reset jumps the storage to
    /// address zero instead.
    pub fn run_cycle(&mut self) -> (r: Result<u8, Fault>)
        requires
            old(self).cpu.wf(),
        ensures
            final(self).cpu.wf(),
            old(self).cpu.reset ==> r == Ok::<u8, Fault>(14) && final(self).cpu == (F3850 {
                reset: false,
                ..old(self).cpu
            }) && final(self).psu == (F3851 {
                pc0: 0,
                pc1: old(self).psu.pc0,
                ..old(self).psu
            }),
            !old(self).cpu.reset ==> ({
                let fetched = spec_fetched(old(self).psu);
                &&& (r == Err::<u8, Fault>(Fault::IllegalOpcode) <==> spec_illegal(fetched))
                &&& (r == Err::<u8, Fault>(Fault::IllegalOpcode) ==> final(self).cpu == old(
                    self,
                ).cpu && final(self).psu == (F3851 {
                    pc0: old(self).psu.pc0.wrapping_add(1),
                    ..old(self).psu
                }))
                &&& (r matches Ok(cycles) ==> cycles == spec_cycles(old(self).cpu, fetched))
                &&& (r == Err::<u8, Fault>(Fault::NotSupported) ==> !spec_illegal(fetched))
                &&& (r is Ok && spec_io_free(fetched) ==> final(self).cpu.ports == old(
                    self,
                ).cpu.ports && spec_state(final(self).cpu) == spec_step_free(
                    spec_state(old(self).cpu),
                    fetched,
                ))
            }),
    {
        if self.cpu.reset {
            self.psu.jump(0, true);
            self.cpu.reset = false;
            return Ok(14);
        }
        let opcode: u8 = self.psu.next_code();
        if crate::cpu::f3850::is_illegal(opcode) {
            return Err(Fault::IllegalOpcode);
        }
        let mut io: F3859Io = F3859Io { rom: &mut self.psu, unsupported: false };
        let cycles: u8 = match self.cpu.execute(&mut io, opcode) {
            Ok(cycles) => cycles,
            Err(fault) => {
                return Err(fault);
            },
        };
        if io.unsupported {
            Err(Fault::NotSupported)
        } else {
            Ok(cycles)
        }
    }
}

} // verus!
