//! The 3850, the CPU of the Fairchild F8 family (1975).
//!
//! The chip owns only its accumulator, flags, scratchpad and ports; the
//! program and data counters live in the memory chips, reached through
//! the board. One `run_cycle` call executes one instruction and returns
//! how many clock pulses it consumed.

use vstd::prelude::*;

verus! {

broadcast use
    crate::bitops::lemma_u8_mask7,
    crate::bitops::lemma_u8_mask15,
    crate::bitops::lemma_u8_mask63,
    crate::bitops::lemma_u8_top_bit,
    crate::bitops::lemma_u8_not,
    crate::bitops::lemma_u8_shl1,
    crate::bitops::lemma_u8_shl4,
    crate::bitops::lemma_u8_shl4_nib,
    crate::bitops::lemma_u8_shr1,
    crate::bitops::lemma_u8_shr4,
    crate::bitops::lemma_u8_nib_join_rev;

use crate::Fault;

/// The board answers the 3850's bus traffic through these methods.
pub trait IO {
    /// Write to an internal IO port.
    fn output(&mut self, port: u8, value: u8);

    /// Read from an internal IO port.
    fn input(&mut self, port: u8) -> u8;

    /// Read from an external IO port.
    fn read_external_port(&mut self, port: u8) -> u8;

    /// Read the next code byte.
    fn next_code(&mut self) -> u8;

    /// Read the code byte under the program counter without advancing.
    fn peak_code(&mut self) -> i8;

    /// Read the next data byte.
    fn next_data(&mut self) -> u8;

    /// Write the next data byte.
    fn write_data(&mut self, data: u8);

    /// Jump to a direct address, backing the program counter up first
    /// when the instruction is a call.
    fn jump(&mut self, upper: u8, lower: u8, push_pc: bool);

    /// Jump by a signed displacement.
    fn jump_relative(&mut self, relative_addr: i8);

    /// Return to the backed-up program counter.
    fn ret_pc(&mut self);

    /// Add a signed byte to the data counter.
    fn add_dc0(&mut self, a: i8);

    /// Read the data counter, as its two bytes.
    fn get_dc0(&mut self) -> (u8, u8);

    /// Load the data counter from two bytes.
    fn set_dc0(&mut self, upper: u8, lower: u8);

    /// Exchange the two data counters.
    fn swap_dc(&mut self);

    /// Read the backup program counter, as its two bytes.
    fn get_pc1(&mut self) -> (u8, u8);

    /// Load the backup program counter from two bytes.
    fn set_pc1(&mut self, upper: u8, lower: u8);
}

/// What the full-width add leaves in the five flags: the sum, the ninth
/// bit as carry, the sign, the zero test, and the signed overflow read
/// off the pre-shifted second addition.
pub open spec fn spec_add_result(num1: u8, num2: u8) -> u8 {
    (((num1 + num2) % 0x100) as u8)
}

/// The carry out of bit six, computed by the parallel addition of both
/// operands shifted left one bit: together with the ninth-bit carry it
/// yields the signed overflow.
pub open spec fn spec_carry7(num1: u8, num2: u8) -> bool {
    (num1 % 0x80) + (num2 % 0x80) > 0x7F
}

/// The byte values the chip never decodes: the two gap opcodes, and
/// every register row aimed at the unused scratchpad selector.
pub open spec fn spec_illegal(opcode: u8) -> bool {
    opcode == 0x2D || opcode == 0x2E || ((opcode == 0x3F || opcode == 0x4F || opcode == 0x5F
        || opcode == 0xCF || opcode == 0xDF || opcode == 0xEF || opcode == 0xFF))
}

/// Test a byte against the decode space, as [`spec_illegal`] states it.
pub(crate) fn is_illegal(opcode: u8) -> (r: bool)
    ensures
        r == spec_illegal(opcode),
{
    opcode == 0x2D || opcode == 0x2E || opcode == 0x3F || opcode == 0x4F || opcode == 0x5F
        || opcode == 0xCF || opcode == 0xDF || opcode == 0xEF || opcode == 0xFF
}

/// The opcodes whose whole effect stays on the chip: no code or data
/// byte moves beyond the opcode itself, no port is touched, and no
/// counter in the memory chips is disturbed.
pub open spec fn spec_io_free(opcode: u8) -> bool {
    opcode <= 0x07 || opcode == 0x0A || opcode == 0x0B || (0x12 <= opcode && opcode <= 0x15) || (
    0x18 <= opcode && opcode <= 0x1B) || (0x1D <= opcode && opcode <= 0x1F) || opcode == 0x2B
        || opcode == 0x2F || (0x30 <= opcode && opcode <= 0x7F) || opcode >= 0xC0
}

/// The chip-internal architectural state as mathematics: the
/// scratchpad as a sequence of bytes, the rest as plain values. The
/// ports, the reset latch and everything on the bus stand outside it.
pub ghost struct F8State {
    /// Interrupt enable flag.
    pub interrupt: bool,
    /// Signed overflow flag.
    pub overflow: bool,
    /// Zero flag.
    pub zero: bool,
    /// Carry flag.
    pub carry: bool,
    /// Sign flag.
    pub negative: bool,
    /// Accumulator.
    pub acc: u8,
    /// The scratchpad pointer.
    pub isar: u8,
    /// The 64-byte scratchpad.
    pub regs: Seq<u8>,
}

/// Read the chip's register-visible state.
pub open spec fn spec_state(chip: F3850) -> F8State {
    F8State {
        interrupt: chip.interrupt,
        overflow: chip.overflow,
        zero: chip.zero,
        carry: chip.carry,
        negative: chip.negative,
        acc: chip.acc,
        isar: chip.isar,
        regs: chip.regs@,
    }
}

/// Load the accumulator and recompute the flags from it the way the
/// pure logic instructions do: sign and zero follow the byte, carry
/// and overflow drop.
pub open spec fn spec_flags_of(st: F8State, a: u8) -> F8State {
    F8State { acc: a, negative: a >= 0x80, carry: false, zero: a == 0, overflow: false, ..st }
}

/// Load the accumulator with a full-width sum and set all five flags
/// from the two parallel additions.
pub open spec fn spec_add_step(st: F8State, n1: u8, n2: u8) -> F8State {
    F8State {
        acc: spec_add_result(n1, n2),
        negative: spec_add_result(n1, n2) >= 0x80,
        carry: n1 + n2 > 255,
        zero: spec_add_result(n1, n2) == 0,
        overflow: (n1 + n2 > 255) != spec_carry7(n1, n2),
        ..st
    }
}

/// The packed-decimal sum: the binary sum, then ten added to each
/// nibble whose carry out stayed low, with the nibble-to-nibble carry
/// of the correction suppressed.
pub open spec fn spec_bcd_result(a: u8, n: u8) -> u8 {
    let sum = spec_add_result(a, n) as int;
    let high = if a + n > 255 {
        sum / 16
    } else {
        (sum / 16 + 10) % 16
    };
    let low = if a % 16 + n % 16 > 15 {
        sum % 16
    } else {
        (sum % 16 + 10) % 16
    };
    (high * 16 + low) as u8
}

/// The flag byte as the status-save instruction packs it into
/// scratchpad nine.
pub open spec fn spec_flag_word(st: F8State) -> u8 {
    (if st.interrupt {
        0x10u8
    } else {
        0u8
    }) | (if st.overflow {
        0x08u8
    } else {
        0u8
    }) | (if st.zero {
        0x04u8
    } else {
        0u8
    }) | (if st.carry {
        0x02u8
    } else {
        0u8
    }) | (if st.negative {
        0x01u8
    } else {
        0u8
    })
}

/// Which scratchpad byte a register selector names: the low twelve
/// directly, the rest through the pointer.
pub open spec fn spec_sel_idx(st: F8State, s: u8) -> int {
    if s <= 11 {
        s as int
    } else {
        st.isar as int
    }
}

/// Where the pointer stands after a selector is resolved: thirteen
/// and fourteen step its low octal digit up or down with wraparound.
pub open spec fn spec_sel_isar(st: F8State, s: u8) -> u8 {
    if s == 13 {
        ((st.isar / 8) * 8 + (st.isar % 8 + 1) % 8) as u8
    } else if s == 14 {
        ((st.isar / 8) * 8 + (st.isar % 8 + 7) % 8) as u8
    } else {
        st.isar
    }
}

/// One step of the low rows that stay on the chip: the moves among
/// the accumulator, the pointer and the scratchpad's upper bytes, the
/// four shifts, the complement, the carry link, the interrupt switch,
/// the two flag transfers, the increment, and the two no-effect
/// bytes.
#[verifier::opaque]
pub open spec fn spec_step_low(st: F8State, opcode: u8) -> F8State {
    if opcode <= 0x03 {
        F8State { acc: st.regs[opcode + 12], ..st }
    } else if opcode <= 0x07 {
        F8State { regs: st.regs.update(opcode + 8, st.acc), ..st }
    } else if opcode == 0x0A {
        F8State { acc: st.isar, ..st }
    } else if opcode == 0x0B {
        F8State { isar: (st.acc % 64) as u8, ..st }
    } else if opcode == 0x12 {
        spec_flags_of(st, st.acc / 2)
    } else if opcode == 0x13 {
        spec_flags_of(st, ((st.acc * 2) % 0x100) as u8)
    } else if opcode == 0x14 {
        spec_flags_of(st, st.acc / 16)
    } else if opcode == 0x15 {
        spec_flags_of(st, ((st.acc * 16) % 0x100) as u8)
    } else if opcode == 0x18 {
        spec_flags_of(st, (255 - st.acc) as u8)
    } else if opcode == 0x19 {
        spec_add_step(
            st,
            st.acc,
            if st.carry {
                1u8
            } else {
                0u8
            },
        )
    } else if opcode == 0x1A {
        F8State { interrupt: false, ..st }
    } else if opcode == 0x1B {
        F8State { interrupt: true, ..st }
    } else if opcode == 0x1D {
        let j = st.regs[9];
        F8State {
            interrupt: j & 0x10 == 0x10,
            overflow: j & 0x08 == 0x08,
            zero: j & 0x04 == 0x04,
            carry: j & 0x02 == 0x02,
            negative: j & 0x01 == 0x01,
            ..st
        }
    } else if opcode == 0x1E {
        F8State { regs: st.regs.update(9, spec_flag_word(st)), ..st }
    } else if opcode == 0x1F {
        spec_add_step(st, st.acc, 1)
    } else {
        st
    }
}

/// One step of the scratchpad rows: the decrement, the two register
/// moves, the three pointer loads and the short accumulator load.
#[verifier::opaque]
pub open spec fn spec_step_reg(st: F8State, opcode: u8) -> F8State {
    let s = opcode % 16;
    let i = spec_sel_idx(st, s);
    let stepped = F8State { isar: spec_sel_isar(st, s), ..st };
    if opcode <= 0x3F {
        let v = st.regs[i];
        F8State {
            regs: st.regs.update(i, spec_add_result(v, 0xFF)),
            negative: spec_add_result(v, 0xFF) >= 0x80,
            carry: v + 0xFF > 255,
            zero: spec_add_result(v, 0xFF) == 0,
            overflow: (v + 0xFF > 255) != spec_carry7(v, 0xFF),
            ..stepped
        }
    } else if opcode <= 0x4F {
        F8State { acc: st.regs[i], ..stepped }
    } else if opcode <= 0x5F {
        F8State { regs: st.regs.update(i, st.acc), ..stepped }
    } else if opcode <= 0x67 {
        F8State { isar: (st.isar % 8 + (opcode % 8) * 8) as u8, ..st }
    } else if opcode <= 0x6F {
        F8State { isar: ((st.isar / 8) * 8 + opcode % 8) as u8, ..st }
    } else {
        F8State { acc: s, ..st }
    }
}

/// One step of the accumulator arithmetic rows: binary add, decimal
/// add, exclusive-or and and against a scratchpad byte.
#[verifier::opaque]
pub open spec fn spec_step_acc(st: F8State, opcode: u8) -> F8State {
    let s = opcode % 16;
    let v = st.regs[spec_sel_idx(st, s)];
    let stepped = F8State { isar: spec_sel_isar(st, s), ..st };
    if opcode <= 0xCF {
        spec_add_step(stepped, st.acc, v)
    } else if opcode <= 0xDF {
        F8State { acc: spec_bcd_result(st.acc, v), ..spec_add_step(stepped, st.acc, v) }
    } else if opcode <= 0xEF {
        spec_flags_of(stepped, st.acc ^ v)
    } else {
        spec_flags_of(stepped, st.acc & v)
    }
}

/// One step of any legal opcode whose effect stays on the chip.
pub open spec fn spec_step_free(st: F8State, opcode: u8) -> F8State {
    if opcode <= 0x2F {
        spec_step_low(st, opcode)
    } else if opcode <= 0x7F {
        spec_step_reg(st, opcode)
    } else {
        spec_step_acc(st, opcode)
    }
}

/// Does a short-branch opcode take its jump? The condition bits test
/// sign, carry and zero.
pub open spec fn spec_bt_taken(chip: F3850, opcode: u8) -> bool {
    let c = opcode % 8;
    if c == 1 {
        !chip.negative
    } else if c == 2 {
        chip.carry
    } else if c == 3 {
        chip.carry || !chip.negative
    } else if c == 4 {
        chip.zero
    } else if c == 5 {
        chip.zero || !chip.negative
    } else if c == 6 {
        chip.zero || chip.carry
    } else if c == 7 {
        chip.zero || chip.carry || !chip.negative
    } else {
        false
    }
}

/// Does a wide-branch opcode take its jump?
pub open spec fn spec_br_taken(chip: F3850, opcode: u8) -> bool {
    if opcode == 0x8F {
        chip.isar % 8 != 7
    } else if opcode == 0x91 || opcode == 0x95 {
        chip.negative
    } else if opcode == 0x92 {
        !chip.carry
    } else if opcode == 0x93 || opcode == 0x97 {
        !chip.carry && chip.negative
    } else if opcode == 0x94 {
        !chip.zero
    } else if opcode == 0x96 {
        !chip.carry && !chip.zero
    } else if opcode == 0x98 {
        !chip.overflow
    } else if opcode == 0x99 || opcode == 0x9D {
        chip.negative && !chip.overflow
    } else if opcode == 0x9A {
        !chip.overflow && !chip.carry
    } else if opcode == 0x9B || opcode == 0x9F {
        !chip.overflow && !chip.carry && chip.negative
    } else if opcode == 0x9C {
        !chip.overflow && !chip.zero
    } else if opcode == 0x9E {
        !chip.overflow && !chip.carry && !chip.zero
    } else {
        true
    }
}

/// How many clock pulses each opcode consumes, as the data book gives
/// them; the branches pay more when taken, the ports more past the
/// chip's own four.
#[verifier::opaque]
pub open spec fn spec_cycles(chip: F3850, opcode: u8) -> u8 {
    if opcode <= 0x07 {
        4
    } else if opcode == 0x08 || opcode == 0x09 {
        16
    } else if opcode == 0x0A || opcode == 0x0B {
        4
    } else if opcode == 0x0C {
        10
    } else if opcode == 0x0D || opcode == 0x0E || opcode == 0x0F || opcode == 0x10 || opcode
        == 0x11 {
        16
    } else if opcode <= 0x15 {
        4
    } else if opcode == 0x16 || opcode == 0x17 {
        10
    } else if opcode == 0x18 || opcode == 0x19 {
        4
    } else if opcode == 0x1A || opcode == 0x1B {
        4
    } else if opcode == 0x1C {
        8
    } else if opcode == 0x1D {
        4
    } else if opcode == 0x1E {
        8
    } else if opcode == 0x1F {
        4
    } else if opcode <= 0x25 {
        10
    } else if opcode == 0x26 || opcode == 0x27 {
        16
    } else if opcode == 0x28 {
        26
    } else if opcode == 0x29 {
        22
    } else if opcode == 0x2A {
        24
    } else if opcode == 0x2B {
        4
    } else if opcode == 0x2C {
        8
    } else if opcode == 0x2F {
        0
    } else if opcode <= 0x3F {
        6
    } else if opcode <= 0x5F {
        4
    } else if opcode <= 0x7F {
        4
    } else if opcode <= 0x87 {
        if spec_bt_taken(chip, opcode) {
            14
        } else {
            12
        }
    } else if opcode <= 0x8D {
        10
    } else if opcode == 0x8E {
        10
    } else if opcode <= 0x9F {
        if opcode == 0x8F {
            if spec_br_taken(chip, opcode) {
                10
            } else {
                8
            }
        } else {
            if spec_br_taken(chip, opcode) {
                14
            } else {
                12
            }
        }
    } else if opcode <= 0xBF {
        if opcode % 16 <= 3 {
            4
        } else {
            8
        }
    } else if opcode <= 0xCF {
        4
    } else if opcode <= 0xDF {
        8
    } else {
        4
    }
}

/// Fairchild F3850 chip.
pub struct F3850 {
    /// Interrupt enable flag.
    pub interrupt: bool,
    /// Signed overflow flag.
    pub overflow: bool,
    /// Zero flag.
    pub zero: bool,
    /// Carry flag.
    pub carry: bool,
    /// Sign flag: set when the result reads negative.
    pub negative: bool,
    /// Accumulator.
    pub acc: u8,
    /// The indirect scratchpad address register, six bits.
    pub isar: u8,
    /// The 64-byte scratchpad.
    pub regs: [u8; 64],
    /// Power-on latch: the first cycle after reset jumps to zero.
    pub reset: bool,
    /// The four internal IO ports.
    pub ports: [u8; 4],
}

impl F3850 {
    /// The chip's internal invariant: the scratchpad pointer stays
    /// inside its six bits.
    pub open spec fn wf(&self) -> bool {
        self.isar < 64
    }

    /// Power-on state: everything cleared, no reset pending.
    pub fn new() -> (r: Self)
        ensures
            r.wf(),
            r.acc == 0,
            r.isar == 0,
            !r.reset,
    {
        F3850 {
            interrupt: false,
            overflow: false,
            zero: false,
            carry: false,
            negative: false,
            acc: 0,
            isar: 0,
            regs: [0u8; 64],
            reset: false,
            ports: [0u8; 4],
        }
    }

    /// Recompute the four arithmetic flags from the accumulator, the
    /// way the pure logic instructions do: carry and overflow clear.
    fn set_flags(&mut self)
        ensures
            *final(self) == (F3850 {
                negative: old(self).acc >= 0x80,
                carry: false,
                zero: old(self).acc == 0,
                overflow: false,
                ..*old(self)
            }),
    {
        self.negative = self.acc & 0b1000_0000 == 0b1000_0000;
        self.carry = false;
        self.zero = self.acc == 0;
        self.overflow = false;
    }

    /// Add two bytes and set all five flags from the result.
    ///
    /// The hardware runs two additions in parallel — one full-width, one
    /// on both operands pre-shifted left a bit — so the binary carry and
    /// the bit-six carry are available at once; their difference is the
    /// signed overflow. Both additions are reproduced exactly.
    fn add_and_set_flags(&mut self, num1: u8, num2: u8) -> (r: u8)
        ensures
            r == spec_add_result(num1, num2),
            *final(self) == (F3850 {
                negative: r >= 0x80,
                carry: num1 + num2 > 255,
                zero: r == 0,
                overflow: (num1 + num2 > 255) != spec_carry7(num1, num2),
                ..*old(self)
            }),
    {
        let result: u8 = num1.wrapping_add(num2);
        let carry8: bool = (num1 as u16) + (num2 as u16) > 255;
        let shifted1: u8 = num1 << 1;
        let shifted2: u8 = num2 << 1;
        let carry7: bool = (shifted1 as u16) + (shifted2 as u16) > 255;
        proof {
            let a: u8 = num1;
            let b: u8 = num2;
            assert((a << 1) == (a % 0x80) * 2 && (b << 1) == (b % 0x80) * 2) by (bit_vector);
        }
        self.negative = result & 0b1000_0000 == 0b1000_0000;
        self.carry = carry8;
        self.zero = result == 0;
        self.overflow = carry8 != carry7;
        result
    }

    /// Compare by two's complement: invert the accumulator, add one and
    /// the operand in sequence, folding the carries of both steps. Only
    /// the flags matter to the callers; the byte comes back anyway.
    fn subtract_and_set_flags(&mut self, num1: u8) -> (r: u8)
        ensures
            r == (((num1 + (0xFF - old(self).acc) + 1) % 0x100) as u8),
            final(self).acc == old(self).acc,
            final(self).isar == old(self).isar,
            final(self).regs == old(self).regs,
            final(self).ports == old(self).ports,
            final(self).reset == old(self).reset,
            final(self).interrupt == old(self).interrupt,
            final(self).zero == (r == 0),
            final(self).negative == (r >= 0x80),
    {
        let num2: u8 = !self.acc;
        let intermediate: u8 = num1.wrapping_add(num2);
        let carry8_first: bool = (num1 as u16) + (num2 as u16) > 255;
        let carry7_first: bool = ((num1 << 1) as u16) + ((num2 << 1) as u16) > 255;

        let result: u8 = intermediate.wrapping_add(1);
        let carry8_extra: bool = (intermediate as u16) + 1 > 255;
        let carry7_extra: bool = ((num1 << 1) as u16) + 2 > 255;

        let carry8: bool = carry8_first || carry8_extra;
        let carry7: bool = carry7_first || carry7_extra;
        self.negative = result & 0b1000_0000 == 0b1000_0000;
        self.carry = carry8;
        self.zero = result == 0;
        self.overflow = carry8 != carry7;
        result
    }

    /// Add a byte to the accumulator with packed-decimal correction, as
    /// the hardware's programming guide lays it out: a binary add whose
    /// carries are recorded, an intermediate carry taken from the
    /// low-nibble add, and a correction of 0xA on each nibble whose
    /// carry stayed low, with the nibble-to-nibble carry suppressed.
    fn add_bcd_and_set_flags(&mut self, num: u8) -> (r: u8)
        ensures
            r == spec_bcd_result(old(self).acc, num),
            *final(self) == (F3850 {
                negative: spec_add_result(old(self).acc, num) >= 0x80,
                carry: old(self).acc + num > 255,
                zero: spec_add_result(old(self).acc, num) == 0,
                overflow: (old(self).acc + num > 255) != spec_carry7(old(self).acc, num),
                ..*old(self)
            }),
    {
        let acc: u8 = self.acc;
        let normal_add: u8 = self.add_and_set_flags(acc, num);
        let intermediate_carry: bool = (((acc << 4) as u16) + ((num << 4) as u16)) > 255;

        let high: u8 = if self.carry {
            normal_add >> 4
        } else {
            ((normal_add >> 4).wrapping_add(0xA)) & 0xF
        };
        let low: u8 = if intermediate_carry {
            normal_add & 0xF
        } else {
            ((normal_add & 0xF).wrapping_add(0xA)) & 0xF
        };
        (high << 4) | low
    }

    /// Resolve a scratchpad selector: values up to eleven name a byte
    /// directly, twelve reads through the pointer, thirteen and
    /// fourteen read through it while stepping its low octal digit up
    /// or down with wraparound. Fifteen names nothing on this chip.
    fn reg_or_isar(&mut self, reg: u8) -> (r: Result<usize, Fault>)
        requires
            reg < 16,
            old(self).wf(),
        ensures
            final(self).wf(),
            final(self).acc == old(self).acc,
            final(self).regs == old(self).regs,
            r is Err <==> reg == 15,
            r is Err ==> r == Err::<usize, Fault>(Fault::IllegalOpcode) && *final(self) == *old(
                self,
            ),
            r matches Ok(i) ==> i < 64,
            reg <= 11 ==> (r matches Ok(i) ==> i == reg && *final(self) == *old(self)),
            reg == 12 ==> (r matches Ok(i) ==> i == old(self).isar && *final(self) == *old(self)),
            reg == 13 ==> (r matches Ok(i) ==> i == old(self).isar) && *final(self) == (F3850 {
                isar: ((old(self).isar / 8) * 8 + (old(self).isar % 8 + 1) % 8) as u8,
                ..*old(self)
            }),
            reg == 14 ==> (r matches Ok(i) ==> i == old(self).isar) && *final(self) == (F3850 {
                isar: ((old(self).isar / 8) * 8 + (old(self).isar % 8 + 7) % 8) as u8,
                ..*old(self)
            }),
    {
        if reg <= 11 {
            Ok(reg as usize)
        } else if reg == 12 {
            Ok(self.isar as usize)
        } else if reg == 15 {
            Err(Fault::IllegalOpcode)
        } else {
            let isar: u8 = self.isar;
            let isar_low: u8 = self.isar & 0b111;
            proof {
                let s: u8 = old(self).isar;
                assert(s < 64 ==> (s & 0b111) == s % 8 && (s & 0b111000) == (s / 8) * 8 && forall|
                    x: u8,
                | x < 8 ==> ((s & 0b111000) | x) == (s / 8) * 8 + x && ((s & 0b111000) | x) < 64)
                    by (bit_vector);
            }
            let new_isar_low: u8 = if reg == 13 {
                if isar_low == 0b111 {
                    0
                } else {
                    isar_low + 1
                }
            } else {
                if isar_low == 0 {
                    0b111
                } else {
                    isar_low - 1
                }
            };
            self.isar = (self.isar & 0b111000) | new_isar_low;
            Ok(isar as usize)
        }
    }

    /// Read a port: the low four are the chip's own, the rest belong to
    /// the board, and the external lines OR on top either way.
    fn input(&mut self, io: &mut impl IO, port: u8)
        ensures
            final(self).isar == old(self).isar,
            final(self).regs == old(self).regs,
            final(self).ports == old(self).ports,
            final(self).reset == old(self).reset,
            final(self).interrupt == old(self).interrupt,
            final(self).carry == false,
            final(self).overflow == false,
    {
        let own: u8 = if port < 4 {
            *vstd::array::array_index_get(&self.ports, port as usize)
        } else {
            io.input(port)
        };
        self.acc = own | io.read_external_port(port);
        self.set_flags();
    }

    /// Write a port: the low four latch on the chip as well as going to
    /// the board; the rest only go out.
    fn output(&mut self, io: &mut impl IO, port: u8)
        ensures
            final(self).acc == old(self).acc,
            final(self).isar == old(self).isar,
            final(self).regs == old(self).regs,
            final(self).reset == old(self).reset,
            port >= 4 ==> final(self).ports == old(self).ports,
    {
        if port < 4 {
            let acc: u8 = self.acc;
            self.ports[port as usize] = acc;
            io.output(port, acc);
        } else {
            io.output(port, self.acc);
        }
    }

    /// Execute one instruction and return how many clock pulses it
    /// took. A pending reset jumps to address zero instead. The two
    /// byte values the chip never decodes, and the unused scratchpad
    /// selector, are refused as illegal.
    pub fn run_cycle(&mut self, io: &mut impl IO) -> (r: Result<u8, Fault>)
        requires
            old(self).wf(),
        ensures
            final(self).wf(),
            r is Err ==> r == Err::<u8, Fault>(Fault::IllegalOpcode),
            // Execution only ever clears the power-on latch; nothing
            // raises it but the pin.
            final(self).reset ==> old(self).reset,
            // A pending reset jumps to address zero and pays its fixed
            // price; nothing else on the chip moves.
            old(self).reset ==> r == Ok::<u8, Fault>(14) && *final(self) == (F3850 {
                reset: false,
                ..*old(self)
            }),
    {
        if self.reset {
            io.jump(0, 0, true);
            self.reset = false;
            return Ok(14);
        }
        let opcode: u8 = io.next_code();
        self.execute(io, opcode)
    }

    /// The low rows that stay on the chip: moves among the
    /// accumulator, the pointer and the scratchpad's upper bytes, the
    /// shifts, the complement, the carry link, the interrupt switch,
    /// the flag transfers and the increment.
    #[verifier::rlimit(100)]
    fn step_low(&mut self, opcode: u8) -> (r: u8)
        requires
            old(self).wf(),
            spec_io_free(opcode) && opcode <= 0x2F,
        ensures
            final(self).wf(),
            spec_state(*final(self)) == spec_step_low(spec_state(*old(self)), opcode),
            final(self).ports == old(self).ports,
            final(self).reset == old(self).reset,
            r == spec_cycles(*old(self), opcode),
    {
        proof {
            reveal(spec_cycles);
            reveal(spec_step_low);
        }
        match opcode {
            0x00..=0x03 => {
                // LR Acc, KU/KL/QU/QL
                let r: u8 = opcode + 12;
                self.acc = *vstd::array::array_index_get(&self.regs, r as usize);
                4
            },
            0x04..=0x07 => {
                // LR KU/KL/QU/QL, Acc
                let r: u8 = opcode - 4 + 12;
                let acc: u8 = self.acc;
                self.regs[r as usize] = acc;
                proof {
                    assert(spec_state(*self) =~= spec_step_low(spec_state(*old(self)), opcode));
                }
                4
            },
            0x0A => {
                // LR Acc, IS
                self.acc = self.isar;
                4
            },
            0x0B => {
                // LR IS, Acc: the pointer keeps only six bits.
                self.isar = self.acc & 0b11_1111;
                4
            },
            0x12 => {
                // SR 1
                self.acc = self.acc >> 1;
                self.set_flags();
                4
            },
            0x13 => {
                // SL 1
                self.acc = self.acc << 1;
                self.set_flags();
                4
            },
            0x14 => {
                // SR 4
                self.acc = self.acc >> 4;
                self.set_flags();
                4
            },
            0x15 => {
                // SL 4
                self.acc = self.acc << 4;
                self.set_flags();
                4
            },
            0x18 => {
                // COM
                self.acc = !self.acc;
                self.set_flags();
                4
            },
            0x19 => {
                // LNK
                let acc: u8 = self.acc;
                let carry: u8 = self.carry as u8;
                self.acc = self.add_and_set_flags(acc, carry);
                4
            },
            0x1A => {
                // DI
                self.interrupt = false;
                4
            },
            0x1B => {
                // EI
                self.interrupt = true;
                4
            },
            0x1D => {
                // LR W, J: reload the flags from scratchpad nine.
                let j: u8 = *vstd::array::array_index_get(&self.regs, 9);
                self.interrupt = j & 0x10 == 0x10;
                self.overflow = j & 0x08 == 0x08;
                self.zero = j & 0x04 == 0x04;
                self.carry = j & 0x02 == 0x02;
                self.negative = j & 0x01 == 0x01;
                4
            },
            0x1E => {
                // LR J, W: store the flags into scratchpad nine.
                let w: u8 = (if self.interrupt {
                    0x10u8
                } else {
                    0u8
                }) | (if self.overflow {
                    0x08u8
                } else {
                    0u8
                }) | (if self.zero {
                    0x04u8
                } else {
                    0u8
                }) | (if self.carry {
                    0x02u8
                } else {
                    0u8
                }) | (if self.negative {
                    0x01u8
                } else {
                    0u8
                });
                self.regs[9] = w;
                proof {
                    assert(spec_state(*self) =~= spec_step_low(spec_state(*old(self)), opcode));
                }
                8
            },
            0x1F => {
                // INC
                let acc: u8 = self.acc;
                self.acc = self.add_and_set_flags(acc, 1);
                4
            },
            0x2B => {
                // NOP
                4
            },
            _ => {
                // A diagnostics hook on this part (0x2F); no
                // architectural effect.
                0
            },
        }
    }

    /// The scratchpad rows: decrement, the register moves in both
    /// directions, the pointer loads and the short accumulator load.
    #[verifier::rlimit(100)]
    fn step_reg(&mut self, opcode: u8) -> (r: Result<u8, Fault>)
        requires
            old(self).wf(),
            0x30 <= opcode <= 0x7F,
        ensures
            final(self).wf(),
            final(self).ports == old(self).ports,
            final(self).reset == old(self).reset,
            r is Err <==> spec_illegal(opcode),
            r is Err ==> r == Err::<u8, Fault>(Fault::IllegalOpcode) && *final(self) == *old(self),
            r is Ok ==> spec_state(*final(self)) == spec_step_reg(spec_state(*old(self)), opcode),
            r matches Ok(c) ==> c == spec_cycles(*old(self), opcode),
    {
        proof {
            reveal(spec_cycles);
            reveal(spec_step_reg);
        }
        if opcode < 0x60 {
            let selector: u8 = opcode & 0xF;
            let reg: usize = match self.reg_or_isar(selector) {
                Ok(reg) => reg,
                Err(fault) => {
                    return Err(fault);
                },
            };
            if opcode <= 0x3F {
                // DS: decrement scratchpad, by adding minus one.
                let value: u8 = *vstd::array::array_index_get(&self.regs, reg);
                let result: u8 = self.add_and_set_flags(value, 0xFF);
                self.regs[reg] = result;
                proof {
                    assert(spec_state(*self) =~= spec_step_reg(spec_state(*old(self)), opcode));
                }
                Ok(6)
            } else if opcode <= 0x4F {
                // LR Acc, r
                self.acc = *vstd::array::array_index_get(&self.regs, reg);
                Ok(4)
            } else {
                // LR r, Acc
                let acc: u8 = self.acc;
                self.regs[reg] = acc;
                proof {
                    assert(spec_state(*self) =~= spec_step_reg(spec_state(*old(self)), opcode));
                }
                Ok(4)
            }
        } else if opcode <= 0x67 {
            // LISU
            let imm: u8 = opcode & 0b111;
            proof {
                let x: u8 = opcode;
                let s: u8 = self.isar;
                assert(s < 64 ==> ((s & 0b111) | ((x & 0b111) << 3)) == s % 8 + (x % 8) * 8 && ((s
                    & 0b111) | ((x & 0b111) << 3)) < 64) by (bit_vector);
            }
            self.isar = (self.isar & 0b111) | (imm << 3);
            Ok(4)
        } else if opcode <= 0x6F {
            // LISL
            let imm: u8 = opcode & 0b111;
            proof {
                let x: u8 = opcode;
                let s: u8 = self.isar;
                assert(s < 64 ==> ((s & 0b111000) | (x & 0b111)) == (s / 8) * 8 + x % 8 && ((s
                    & 0b111000) | (x & 0b111)) < 64) by (bit_vector);
            }
            self.isar = (self.isar & 0b111000) | imm;
            Ok(4)
        } else {
            // LIS
            self.acc = opcode & 0xF;
            Ok(4)
        }
    }

    /// The accumulator arithmetic rows: binary add, decimal add,
    /// exclusive-or and and against a scratchpad byte.
    #[verifier::rlimit(100)]
    fn step_acc(&mut self, opcode: u8) -> (r: Result<u8, Fault>)
        requires
            old(self).wf(),
            opcode >= 0xC0,
        ensures
            final(self).wf(),
            final(self).ports == old(self).ports,
            final(self).reset == old(self).reset,
            r is Err <==> spec_illegal(opcode),
            r is Err ==> r == Err::<u8, Fault>(Fault::IllegalOpcode) && *final(self) == *old(self),
            r is Ok ==> spec_state(*final(self)) == spec_step_acc(spec_state(*old(self)), opcode),
            r matches Ok(c) ==> c == spec_cycles(*old(self), opcode),
    {
        proof {
            reveal(spec_cycles);
            reveal(spec_step_acc);
        }
        let selector: u8 = opcode & 0xF;
        let reg: usize = match self.reg_or_isar(selector) {
            Ok(reg) => reg,
            Err(fault) => {
                return Err(fault);
            },
        };
        let value: u8 = *vstd::array::array_index_get(&self.regs, reg);
        if opcode <= 0xCF {
            // AS
            let acc: u8 = self.acc;
            self.acc = self.add_and_set_flags(acc, value);
            Ok(4)
        } else if opcode <= 0xDF {
            // ASD
            self.acc = self.add_bcd_and_set_flags(value);
            Ok(8)
        } else if opcode <= 0xEF {
            // XS
            self.acc = self.acc ^ value;
            self.set_flags();
            Ok(4)
        } else {
            // NS
            self.acc = self.acc & value;
            self.set_flags();
            Ok(4)
        }
    }

    /// Decode and execute one fetched opcode. The returned clock count
    /// is fixed by the opcode and the flags; every opcode whose effect
    /// stays on the chip leaves the state the row transitions say; the
    /// bytes the chip never decodes are refused, the chip untouched.
    #[verifier::rlimit(100)]
    pub(crate) fn execute(&mut self, io: &mut impl IO, opcode: u8) -> (r: Result<u8, Fault>)
        requires
            old(self).wf(),
        ensures
            final(self).wf(),
            final(self).reset == old(self).reset,
            r is Err <==> spec_illegal(opcode),
            r is Err ==> r == Err::<u8, Fault>(Fault::IllegalOpcode) && *final(self) == *old(self),
            r matches Ok(cycles) ==> cycles == spec_cycles(*old(self), opcode),
            spec_io_free(opcode) && r is Ok ==> final(self).ports == old(self).ports && spec_state(
                *final(self),
            ) == spec_step_free(spec_state(*old(self)), opcode),
    {
        proof {
            reveal(spec_cycles);
        }
        match opcode {
            0x00..=0x07 | 0x0A | 0x0B | 0x12..=0x15 | 0x18..=0x1B | 0x1D..=0x1F | 0x2B | 0x2F => Ok(
                self.step_low(opcode),
            ),
            0x30..=0x7F => self.step_reg(opcode),
            0xC0..=0xFF => self.step_acc(opcode),
            0x08 => {
                // LR K, PC1
                let (upper, lower): (u8, u8) = io.get_pc1();
                self.regs[12] = upper;
                self.regs[13] = lower;
                Ok(16)
            },
            0x09 => {
                // LR PC1, K
                io.set_pc1(
                    *vstd::array::array_index_get(&self.regs, 12),
                    *vstd::array::array_index_get(&self.regs, 13),
                );
                Ok(16)
            },
            0x0C => {
                // PK
                io.jump(
                    *vstd::array::array_index_get(&self.regs, 12),
                    *vstd::array::array_index_get(&self.regs, 13),
                    true,
                );
                Ok(10)
            },
            0x0D => {
                // LR P0, Q
                io.jump(
                    *vstd::array::array_index_get(&self.regs, 14),
                    *vstd::array::array_index_get(&self.regs, 15),
                    false,
                );
                Ok(16)
            },
            0x0E => {
                // LR Q, DC
                let (upper, lower): (u8, u8) = io.get_dc0();
                self.regs[14] = upper;
                self.regs[15] = lower;
                Ok(16)
            },
            0x0F => {
                // LR DC, Q
                io.set_dc0(
                    *vstd::array::array_index_get(&self.regs, 14),
                    *vstd::array::array_index_get(&self.regs, 15),
                );
                Ok(16)
            },
            0x10 => {
                // LR DC, H
                io.set_dc0(
                    *vstd::array::array_index_get(&self.regs, 10),
                    *vstd::array::array_index_get(&self.regs, 11),
                );
                Ok(16)
            },
            0x11 => {
                // LR H, DC
                let (upper, lower): (u8, u8) = io.get_dc0();
                self.regs[10] = upper;
                self.regs[11] = lower;
                Ok(16)
            },
            0x16 => {
                // LM
                self.acc = io.next_data();
                Ok(10)
            },
            0x17 => {
                // SM
                io.write_data(self.acc);
                Ok(10)
            },
            0x1C => {
                // POP
                io.ret_pc();
                Ok(8)
            },
            0x20..=0x27 => {
                let imm: u8 = io.next_code();
                match opcode {
                    0x20 => {
                        // LI
                        self.acc = imm;
                        Ok(10)
                    },
                    0x21 => {
                        // NI
                        self.acc = self.acc & imm;
                        self.set_flags();
                        Ok(10)
                    },
                    0x22 => {
                        // OI
                        self.acc = self.acc | imm;
                        self.set_flags();
                        Ok(10)
                    },
                    0x23 => {
                        // XI
                        self.acc = self.acc ^ imm;
                        self.set_flags();
                        Ok(10)
                    },
                    0x24 => {
                        // AI
                        let acc: u8 = self.acc;
                        self.acc = self.add_and_set_flags(imm, acc);
                        Ok(10)
                    },
                    0x25 => {
                        // CI: compare immediate, flags only.
                        self.subtract_and_set_flags(imm);
                        Ok(10)
                    },
                    0x26 => {
                        // IN
                        self.input(io, imm);
                        Ok(16)
                    },
                    _ => {
                        // OUT (0x27)
                        self.output(io, imm);
                        Ok(16)
                    },
                }
            },
            0x28..=0x2A => {
                let upper: u8 = io.next_code();
                let lower: u8 = io.next_code();
                match opcode {
                    0x28 => {
                        // PI: call
                        self.acc = upper;
                        io.jump(upper, lower, true);
                        Ok(26)
                    },
                    0x29 => {
                        // JMP
                        self.acc = upper;
                        io.jump(upper, lower, false);
                        Ok(22)
                    },
                    _ => {
                        // DCI (0x2A)
                        io.set_dc0(upper, lower);
                        Ok(24)
                    },
                }
            },
            0x2C => {
                // XDC
                io.swap_dc();
                Ok(8)
            },
            0x80..=0x87 => {
                // BT: branch on the low condition bits.
                let relative_addr: i8 = io.peak_code();
                let condition: bool = match opcode & 0b111 {
                    1 => !self.negative,
                    2 => self.carry,
                    3 => self.carry || !self.negative,
                    4 => self.zero,
                    5 => self.zero || !self.negative,
                    6 => self.zero || self.carry,
                    7 => self.zero || self.carry || !self.negative,
                    _ => false,
                };
                if condition {
                    io.jump_relative(relative_addr);
                    Ok(14)
                } else {
                    io.next_code();
                    Ok(12)
                }
            },
            0x88..=0x8D => {
                let data: u8 = io.next_data();
                match opcode {
                    0x88 => {
                        // AM
                        let acc: u8 = self.acc;
                        self.acc = self.add_and_set_flags(acc, data);
                    },
                    0x89 => {
                        // AMD
                        self.acc = self.add_bcd_and_set_flags(data);
                    },
                    0x8A => {
                        // NM
                        self.acc = self.acc & data;
                        self.set_flags();
                    },
                    0x8B => {
                        // OM
                        self.acc = self.acc | data;
                        self.set_flags();
                    },
                    0x8C => {
                        // XM
                        self.acc = self.acc ^ data;
                        self.set_flags();
                    },
                    _ => {
                        // CM (0x8D): compare memory, flags only.
                        self.subtract_and_set_flags(data);
                    },
                };
                Ok(10)
            },
            0x8E => {
                // ADC
                io.add_dc0(self.acc as i8);
                Ok(10)
            },
            0x8F..=0x9F => {
                // BR and BF: the wider branch family.
                let relative_addr: i8 = io.peak_code();
                let condition: bool = match opcode {
                    0x8F => self.isar & 0b111 != 0b111,
                    0x91 | 0x95 => self.negative,
                    0x92 => !self.carry,
                    0x93 | 0x97 => !self.carry && self.negative,
                    0x94 => !self.zero,
                    0x96 => !self.carry && !self.zero,
                    0x98 => !self.overflow,
                    0x99 | 0x9D => self.negative && !self.overflow,
                    0x9A => !self.overflow && !self.carry,
                    0x9B | 0x9F => !self.overflow && !self.carry && self.negative,
                    0x9C => !self.overflow && !self.zero,
                    0x9E => !self.overflow && !self.carry && !self.zero,
                    _ => true,  // BR (0x90)
                };
                if condition {
                    io.jump_relative(relative_addr);
                    if opcode == 0x8F {
                        Ok(10)
                    } else {
                        Ok(14)
                    }
                } else {
                    io.next_code();
                    if opcode == 0x8F {
                        Ok(8)
                    } else {
                        Ok(12)
                    }
                }
            },
            0xA0..=0xAF => {
                // INS
                let port: u8 = opcode & 0xF;
                self.input(io, port);
                if port <= 3 {
                    Ok(4)
                } else {
                    Ok(8)
                }
            },
            0xB0..=0xBF => {
                // OUTS
                let port: u8 = opcode & 0xF;
                self.output(io, port);
                if port <= 3 {
                    Ok(4)
                } else {
                    Ok(8)
                }
            },
            _ => {
                // 0x2D and 0x2E decode to nothing on this chip.
                Err(Fault::IllegalOpcode)
            },
        }
    }
}

} // verus!
