//! The HP 1820-0848 Arithmetic and Register (A&R) chip of 1972's first
//! handheld scientific calculator.
//!
//! Seven 56-bit registers hold fourteen BCD digits each. The chip
//! executes the register half of each 10-bit instruction: fourteen
//! digit-serial passes under the word-select mask, the carry rippling
//! from digit to digit, with a constant one injected only on the first
//! selected pass. Carries travel to the control chip inverted: the
//! `next_carry` line idles high.

use vstd::prelude::*;

verus! {

broadcast use
    crate::shifter::lemma_shift64_fits,
    crate::shifter::lemma_shift16_fits,
    crate::shifter::lemma_nib64_ends_bound,
    crate::shifter::lemma_fits64_zero,
    crate::shifter::lemma_fits16_zero,
    crate::bitops::lemma_u8_mask3,
    crate::bitops::lemma_u8_mask15,
    crate::bitops::lemma_u8_mask31,
    crate::bitops::lemma_u8_mask63,
    crate::bitops::lemma_u8_shr2,
    crate::bitops::lemma_u16_mask3,
    crate::bitops::lemma_u16_mask15,
    crate::bitops::lemma_u16_shr4,
    crate::bitops::lemma_u16_shr5;

use crate::Fault;
use crate::shifter::Direction;
use crate::shifter::Shifter16;
use crate::shifter::Shifter64;
use crate::shifter::shl_nib64;
use crate::shifter::shr_nib64;
use crate::shifter::shl_bit16;
use crate::shifter::shr_bit16;
use crate::shifter::top_bit16;
use crate::shifter::low_bit16;
use crate::shifter::top_nib64;
use crate::shifter::low_nib64;
use crate::shifter::fits64;

/// Fourteen digits of the calculator's number format.
pub type Register = Shifter64<56>;

/// The per-digit word-select mask.
pub type WordSelect = Shifter16<14>;

/// One BCD digit addition: a digit at or past ten wraps and carries.
pub open spec fn spec_bcd_add(num1: u8, num2: u8, carry: bool) -> (u8, bool) {
    let sum = num1 + num2 + (if carry {
        1int
    } else {
        0int
    });
    if sum >= 10 {
        ((((sum - 10) % 16) as u8), true)
    } else {
        ((sum as u8), false)
    }
}

/// One BCD digit subtraction, borrowing against ten.
pub open spec fn spec_bcd_sub(num1: u8, num2: u8, borrow: bool) -> (u8, bool) {
    let diff = num1 - num2 - (if borrow {
        1int
    } else {
        0int
    });
    if diff < 0 {
        ((((diff + 26) % 16) as u8), true)
    } else {
        ((diff as u8), false)
    }
}

/// What one type-2 operation does at a selected digit position: the new
/// A, B and C digits, the rippling carry, and the one-digit shift
/// buffer. `one` is the injected constant: one on the first selected
/// pass, zero afterwards.
pub open spec fn spec_anr_digit(code: u8, a: u8, b: u8, c: u8, one: u8, carry: bool, prev: u8)
    -> (u8, u8, u8, bool, u8) {
    if code == 0b00000 {
        let (_r, cy) = spec_bcd_sub(0, b, carry);
        (a, b, c, cy, prev)
    } else if code == 0b00001 {
        (a, 0u8, c, carry, prev)
    } else if code == 0b00010 {
        let (_r, cy) = spec_bcd_sub(a, c, carry);
        (a, b, c, cy, prev)
    } else if code == 0b00011 {
        let (_r, cy) = spec_bcd_sub(c, one, carry);
        (a, b, c, cy, prev)
    } else if code == 0b00100 {
        (a, b, b, carry, prev)
    } else if code == 0b00101 {
        let (r, cy) = spec_bcd_sub(0, c, carry);
        (a, b, r, cy, prev)
    } else if code == 0b00110 {
        (a, b, 0u8, carry, prev)
    } else if code == 0b00111 {
        let (c1, cy1) = spec_bcd_sub(0, c, carry);
        let (c2, cy2) = spec_bcd_sub(c1, one, false);
        (a, b, c2, cy1 || cy2, prev)
    } else if code == 0b01000 {
        (prev, b, c, carry, a)
    } else if code == 0b01001 {
        (a, a, c, carry, prev)
    } else if code == 0b01010 {
        let (r, cy) = spec_bcd_sub(a, c, carry);
        (a, b, r, cy, prev)
    } else if code == 0b01011 {
        let (r, cy) = spec_bcd_sub(c, one, carry);
        (a, b, r, cy, prev)
    } else if code == 0b01100 {
        (c, b, c, carry, prev)
    } else if code == 0b01101 {
        let (_r, cy) = spec_bcd_sub(0, c, carry);
        (a, b, c, cy, prev)
    } else if code == 0b01110 {
        let (r, cy) = spec_bcd_add(a, c, carry);
        (a, b, r, cy, prev)
    } else if code == 0b01111 {
        let (r, cy) = spec_bcd_add(c, one, carry);
        (a, b, r, cy, prev)
    } else if code == 0b10000 {
        let (_r, cy) = spec_bcd_sub(a, b, carry);
        (a, b, c, cy, prev)
    } else if code == 0b10001 {
        (a, c, b, carry, prev)
    } else if code == 0b10010 {
        (a, b, prev, carry, c)
    } else if code == 0b10011 {
        let (_r, cy) = spec_bcd_sub(a, one, carry);
        (a, b, c, cy, prev)
    } else if code == 0b10100 {
        (a, prev, c, carry, b)
    } else if code == 0b10101 {
        let (r, cy) = spec_bcd_add(c, c, carry);
        (a, b, r, cy, prev)
    } else if code == 0b10110 {
        (prev, b, c, carry, a)
    } else if code == 0b10111 {
        (0u8, b, c, carry, prev)
    } else if code == 0b11000 {
        let (r, cy) = spec_bcd_sub(a, b, carry);
        (r, b, c, cy, prev)
    } else if code == 0b11001 {
        (b, a, c, carry, prev)
    } else if code == 0b11010 {
        let (r, cy) = spec_bcd_sub(a, c, carry);
        (r, b, c, cy, prev)
    } else if code == 0b11011 {
        let (r, cy) = spec_bcd_sub(a, one, carry);
        (r, b, c, cy, prev)
    } else if code == 0b11100 {
        let (r, cy) = spec_bcd_add(a, b, carry);
        (r, b, c, cy, prev)
    } else if code == 0b11101 {
        (c, b, a, carry, prev)
    } else if code == 0b11110 {
        let (r, cy) = spec_bcd_add(a, c, carry);
        (r, b, c, cy, prev)
    } else {
        let (r, cy) = spec_bcd_add(a, one, carry);
        (r, b, c, cy, prev)
    }
}

/// The rolling state of a type-2 instruction.
pub ghost struct AnrPass {
    /// The A register's bits.
    pub a: u64,
    /// The B register's bits.
    pub b: u64,
    /// The C register's bits.
    pub c: u64,
    /// The word-select mask still to be consumed.
    pub ws: u16,
    /// The carry rippling between digits.
    pub carry: bool,
    /// The one-digit buffer the shift operations carry forward.
    pub prev: u8,
    /// Has no selected digit been seen yet?
    pub first: bool,
}

/// The digit at the leading end of a 56-bit register.
pub open spec fn spec_lead_nib56(data: u64, dir: Direction) -> u8 {
    if dir is Left {
        (top_nib64(data, 56) as u8)
    } else {
        (low_nib64(data) as u8)
    }
}

/// A 56-bit register after the identity shift feeding `nib` back in.
pub open spec fn spec_shift56(data: u64, dir: Direction, nib: u8) -> u64 {
    if dir is Left {
        shl_nib64(data, 56, nib as u64)
    } else {
        shr_nib64(data, 56, nib as u64)
    }
}

/// The word-select bit at the leading end.
pub open spec fn spec_ws14_bit(ws: u16, dir: Direction) -> bool {
    if dir is Left {
        top_bit16(ws, 14)
    } else {
        low_bit16(ws)
    }
}

/// The mask after consuming one position.
pub open spec fn spec_ws14_shift(ws: u16, dir: Direction) -> u16 {
    if dir is Left {
        shl_bit16(ws, 14, false)
    } else {
        shr_bit16(ws, 14, false)
    }
}

/// One digit pass of a type-2 instruction.
pub open spec fn spec_anr_pass(st: AnrPass, code: u8, dir: Direction) -> AnrPass {
    let a_d = spec_lead_nib56(st.a, dir);
    let b_d = spec_lead_nib56(st.b, dir);
    let c_d = spec_lead_nib56(st.c, dir);
    if spec_ws14_bit(st.ws, dir) {
        let one = if st.first {
            1u8
        } else {
            0u8
        };
        let (a_w, b_w, c_w, carry_next, prev_next) = spec_anr_digit(
            code,
            a_d,
            b_d,
            c_d,
            one,
            st.carry,
            st.prev,
        );
        AnrPass {
            a: spec_shift56(st.a, dir, a_w),
            b: spec_shift56(st.b, dir, b_w),
            c: spec_shift56(st.c, dir, c_w),
            ws: spec_ws14_shift(st.ws, dir),
            carry: carry_next,
            prev: prev_next,
            first: false,
        }
    } else {
        AnrPass {
            a: spec_shift56(st.a, dir, a_d),
            b: spec_shift56(st.b, dir, b_d),
            c: spec_shift56(st.c, dir, c_d),
            ws: spec_ws14_shift(st.ws, dir),
            carry: st.carry,
            prev: st.prev,
            first: st.first,
        }
    }
}

/// `n` digit passes in a row.
pub open spec fn spec_anr_cycle(st: AnrPass, code: u8, dir: Direction, n: nat) -> AnrPass
    decreases n,
{
    if n == 0 {
        st
    } else {
        spec_anr_cycle(spec_anr_pass(st, code, dir), code, dir, (n - 1) as nat)
    }
}

/// One digit position of a constant load: the selected digits take the
/// constant, the rest pass through, and the register rotates one digit
/// toward the low end.
pub open spec fn spec_lc_pass(c: u64, ws: u16, konst: u8) -> (u64, u16) {
    let digit = if low_bit16(ws) {
        konst
    } else {
        (low_nib64(c) as u8)
    };
    (shr_nib64(c, 56, digit as u64), shr_bit16(ws, 14, false))
}

/// `n` constant-load positions in a row.
pub open spec fn spec_lc_cycle(c: u64, ws: u16, konst: u8, n: nat) -> (u64, u16)
    decreases n,
{
    if n == 0 {
        (c, ws)
    } else {
        let (c2, ws2) = spec_lc_pass(c, ws, konst);
        spec_lc_cycle(c2, ws2, konst, (n - 1) as nat)
    }
}

/// One identity rotation: the leading digit comes back in at the
/// trailing end.
pub open spec fn spec_rot56(data: u64, dir: Direction) -> u64 {
    spec_shift56(data, dir, spec_lead_nib56(data, dir))
}

/// `n` identity rotations in a row.
pub open spec fn spec_rot56_n(data: u64, dir: Direction, n: nat) -> u64
    decreases n,
{
    if n == 0 {
        data
    } else {
        spec_rot56_n(spec_rot56(data, dir), dir, (n - 1) as nat)
    }
}

/// One rotation toward the high end, written out in bit operations.
pub open spec fn spec_rotl56(data: u64) -> u64 {
    shl_nib64(data, 56, ((top_nib64(data, 56) as u8) as u64))
}

/// One rotation toward the low end, written out in bit operations.
pub open spec fn spec_rotr56(data: u64) -> u64 {
    shr_nib64(data, 56, ((low_nib64(data) as u8) as u64))
}

/// Fourteen identity rotations of a fourteen-digit register change
/// nothing.
#[verifier::rlimit(100)]
proof fn lemma_rot56_fourteen(data: u64, dir: Direction)
    requires
        fits64(data, 56),
    ensures
        spec_rot56_n(data, dir, 14) == data,
{
    reveal_with_fuel(spec_rot56_n, 15);
    let l0 = data;
    let l1 = spec_rotl56(l0);
    let l2 = spec_rotl56(l1);
    let l3 = spec_rotl56(l2);
    let l4 = spec_rotl56(l3);
    let l5 = spec_rotl56(l4);
    let l6 = spec_rotl56(l5);
    let l7 = spec_rotl56(l6);
    let l8 = spec_rotl56(l7);
    let l9 = spec_rotl56(l8);
    let l10 = spec_rotl56(l9);
    let l11 = spec_rotl56(l10);
    let l12 = spec_rotl56(l11);
    let l13 = spec_rotl56(l12);
    let l14 = spec_rotl56(l13);
    let r1 = spec_rotr56(l0);
    let r2 = spec_rotr56(r1);
    let r3 = spec_rotr56(r2);
    let r4 = spec_rotr56(r3);
    let r5 = spec_rotr56(r4);
    let r6 = spec_rotr56(r5);
    let r7 = spec_rotr56(r6);
    let r8 = spec_rotr56(r7);
    let r9 = spec_rotr56(r8);
    let r10 = spec_rotr56(r9);
    let r11 = spec_rotr56(r10);
    let r12 = spec_rotr56(r11);
    let r13 = spec_rotr56(r12);
    let r14 = spec_rotr56(r13);
    assert(l14 == l0 && r14 == l0) by (bit_vector)
        requires
            fits64(l0, 56),
            l1 == spec_rotl56(l0),
            l2 == spec_rotl56(l1),
            l3 == spec_rotl56(l2),
            l4 == spec_rotl56(l3),
            l5 == spec_rotl56(l4),
            l6 == spec_rotl56(l5),
            l7 == spec_rotl56(l6),
            l8 == spec_rotl56(l7),
            l9 == spec_rotl56(l8),
            l10 == spec_rotl56(l9),
            l11 == spec_rotl56(l10),
            l12 == spec_rotl56(l11),
            l13 == spec_rotl56(l12),
            l14 == spec_rotl56(l13),
            r1 == spec_rotr56(l0),
            r2 == spec_rotr56(r1),
            r3 == spec_rotr56(r2),
            r4 == spec_rotr56(r3),
            r5 == spec_rotr56(r4),
            r6 == spec_rotr56(r5),
            r7 == spec_rotr56(r6),
            r8 == spec_rotr56(r7),
            r9 == spec_rotr56(r8),
            r10 == spec_rotr56(r9),
            r11 == spec_rotr56(r10),
            r12 == spec_rotr56(r11),
            r13 == spec_rotr56(r12),
            r14 == spec_rotr56(r13),
    ;
    if dir is Left {
        assert(spec_rot56_n(data, dir, 14) == l14);
    } else {
        assert(spec_rot56_n(data, dir, 14) == r14);
    }
}

/// With no word-select bit set, every pass is the identity rotation:
/// the mask stays empty, the carry, the first-digit latch and the
/// digit buffer never move, and each register is only rotated.
proof fn lemma_anr_mask_empty(st: AnrPass, code: u8, dir: Direction, n: nat)
    requires
        st.ws == 0,
    ensures
        ({
            let end = spec_anr_cycle(st, code, dir, n);
            &&& end.ws == 0
            &&& end.carry == st.carry
            &&& end.first == st.first
            &&& end.prev == st.prev
            &&& end.a == spec_rot56_n(st.a, dir, n)
            &&& end.b == spec_rot56_n(st.b, dir, n)
            &&& end.c == spec_rot56_n(st.c, dir, n)
        }),
    decreases n,
{
    crate::shifter::lemma_ws_zero(14);
    if n > 0 {
        lemma_anr_mask_empty(spec_anr_pass(st, code, dir), code, dir, (n - 1) as nat);
    }
}

/// What a type-5 instruction leaves behind: a constant streamed into C
/// under the mask, a whole-register move through the working stack and
/// the memory register, a display latch change, or a clear to the
/// power-on state. The encodings this model leaves out map to nothing.
pub open spec fn spec_type5(chip: HP_AnR, instruction: u8, ws: u16, ram: u64) -> Option<HP_AnR> {
    if instruction % 4 == 1 {
        Some(
            HP_AnR {
                c: Shifter64 { data: spec_lc_cycle(chip.c@, ws, (instruction / 4) as u8, 14).0 },
                ..chip
            },
        )
    } else if instruction % 4 == 0 {
        Some(chip)
    } else {
        let selector = instruction / 4;
        if selector == 0b0000 {
            Some(HP_AnR { display_on: !chip.display_on, ..chip })
        } else if selector == 0b0010 {
            Some(HP_AnR { c: chip.m, m: chip.c, ..chip })
        } else if selector == 0b0100 {
            Some(HP_AnR { d: chip.c, e: chip.d, f: chip.e, ..chip })
        } else if selector == 0b0110 {
            Some(HP_AnR { a: chip.d, d: chip.e, e: chip.f, ..chip })
        } else if selector == 0b1000 {
            Some(HP_AnR { display_on: false, ..chip })
        } else if selector == 0b1010 {
            Some(HP_AnR { c: chip.m, ..chip })
        } else if selector == 0b1011 {
            Some(HP_AnR { c: Shifter64 { data: ram }, ..chip })
        } else if selector == 0b1100 {
            Some(HP_AnR { c: chip.d, d: chip.e, e: chip.f, f: chip.c, ..chip })
        } else if selector == 0b1110 {
            Some(
                HP_AnR {
                    a: Shifter64 { data: 0 },
                    b: Shifter64 { data: 0 },
                    c: Shifter64 { data: 0 },
                    d: Shifter64 { data: 0 },
                    e: Shifter64 { data: 0 },
                    f: Shifter64 { data: 0 },
                    m: Shifter64 { data: 0 },
                    next_carry: true,
                    display_on: false,
                },
            )
        } else {
            None
        }
    }
}

/// The shift direction a type-2 operation code selects.
pub open spec fn spec_anr_direction(code: u8) -> Direction {
    if code == 0b10010 || code == 0b10100 || code == 0b10110 {
        Direction::Left
    } else {
        Direction::Right
    }
}

/// HP 1820-0848 Arithmetic and Register chip.
#[allow(non_camel_case_types)]
pub struct HP_AnR {
    /// General register.
    pub a: Register,
    /// General register, usually holding the display mask.
    pub b: Register,
    /// Display register.
    pub c: Register,
    /// Stack register.
    pub d: Register,
    /// Stack register.
    pub e: Register,
    /// Top of stack.
    pub f: Register,
    /// Memory register.
    pub m: Register,
    /// The carry line the control chip reads; carries travel inverted,
    /// so it idles high.
    pub next_carry: bool,
    /// The display enable latch.
    pub display_on: bool,
}

impl HP_AnR {
    /// The chip's internal invariant: every register inside 56 bits.
    pub open spec fn wf(&self) -> bool {
        &&& self.a.wf()
        &&& self.b.wf()
        &&& self.c.wf()
        &&& self.d.wf()
        &&& self.e.wf()
        &&& self.f.wf()
        &&& self.m.wf()
    }

    /// Power-on state: registers cleared, the carry line high, the
    /// display dark.
    pub fn new() -> (r: Self)
        ensures
            r.wf(),
            r.a@ == 0 && r.b@ == 0 && r.c@ == 0 && r.d@ == 0 && r.e@ == 0 && r.f@ == 0 && r.m@
                == 0,
            r.next_carry,
            !r.display_on,
    {
        HP_AnR {
            a: Shifter64::new(0),
            b: Shifter64::new(0),
            c: Shifter64::new(0),
            d: Shifter64::new(0),
            e: Shifter64::new(0),
            f: Shifter64::new(0),
            m: Shifter64::new(0),
            next_carry: true,
            display_on: false,
        }
    }

    /// Execute the register half of one instruction. Type 2 runs the
    /// fourteen-pass arithmetic exactly as [`spec_anr_pass`] folds it,
    /// leaving the inverted final carry on the carry line; type 5 moves
    /// whole registers, loads constants and drives the display. Every
    /// other class belongs to the control chip and leaves only the
    /// carry line, reset high.
    pub fn run_cycle(&mut self, opcode: u16, word_select: WordSelect, ram_data: Register) -> (r:
        Result<(), Fault>)
        requires
            old(self).wf(),
            opcode < 1024,
            word_select.wf(),
            ram_data.wf(),
        ensures
            final(self).wf(),
            r is Err ==> r == Err::<(), Fault>(Fault::NotSupported),
            opcode % 4 == 2 ==> ({
                let code = ((opcode / 32) % 32) as u8;
                let dir = spec_anr_direction(code);
                let end = spec_anr_cycle(
                    AnrPass {
                        a: old(self).a@,
                        b: old(self).b@,
                        c: old(self).c@,
                        ws: word_select@,
                        carry: false,
                        prev: 0,
                        first: true,
                    },
                    code,
                    dir,
                    14,
                );
                &&& final(self).a@ == end.a
                &&& final(self).b@ == end.b
                &&& final(self).c@ == end.c
                &&& final(self).next_carry == !end.carry
                &&& final(self).d == old(self).d
                &&& final(self).e == old(self).e
                &&& final(self).f == old(self).f
                &&& final(self).m == old(self).m
                &&& final(self).display_on == old(self).display_on
            }),
            // The empty mask selects no digit: an arithmetic word
            // leaves every register as it stood and the carry line
            // high.
            opcode % 4 == 2 && word_select@ == 0 ==> final(self).a@ == old(self).a@
                && final(self).b@ == old(self).b@ && final(self).c@ == old(self).c@
                && final(self).next_carry,
            // Type 5, through its transition function; the carry line
            // re-arms before the instruction lands.
            opcode % 4 == 0 && opcode % 16 == 8 ==> ({
                let armed = HP_AnR { next_carry: true, ..*old(self) };
                let instruction = ((opcode / 16) % 64) as u8;
                let outcome = spec_type5(armed, instruction, word_select@, ram_data@);
                &&& (r is Err <==> outcome is None)
                &&& (r is Ok ==> Some(*final(self)) == outcome)
            }),
            !(opcode % 4 == 2) && !(opcode % 4 == 0 && opcode % 16 == 8) ==> *final(self) == (
            HP_AnR { next_carry: true, ..*old(self) }),
    {
        self.next_carry = true;
        if opcode & 0b11 == 0b10 {
            let code: u8 = ((opcode >> 5) as u8) & 0x1F;
            self.type_2(code, word_select);
            Ok(())
        } else if opcode & 0b11 == 0b00 && opcode & 0b1111 == 0b1000 {
            let instruction: u8 = ((opcode >> 4) as u8) & 0x3F;
            self.type_5(instruction, word_select, ram_data)
        } else {
            Ok(())
        }
    }

    /// A type-2 instruction: fourteen digit passes of the selected
    /// operation under the word-select mask. The final carry lands on
    /// the carry line inverted, as the hardware records all carries.
    fn type_2(&mut self, code: u8, word_select: WordSelect)
        requires
            old(self).wf(),
            code < 32,
            word_select.wf(),
        ensures
            final(self).wf(),
            ({
                let dir = spec_anr_direction(code);
                let end = spec_anr_cycle(
                    AnrPass {
                        a: old(self).a@,
                        b: old(self).b@,
                        c: old(self).c@,
                        ws: word_select@,
                        carry: false,
                        prev: 0,
                        first: true,
                    },
                    code,
                    dir,
                    14,
                );
                &&& final(self).a@ == end.a
                &&& final(self).b@ == end.b
                &&& final(self).c@ == end.c
                &&& final(self).next_carry == !end.carry
            }),
            final(self).d == old(self).d,
            final(self).e == old(self).e,
            final(self).f == old(self).f,
            final(self).m == old(self).m,
            final(self).display_on == old(self).display_on,
            // The empty mask selects no digit: the registers only
            // rotate back to where they stood and no carry is
            // recorded, so the carry line stays high.
            word_select@ == 0 ==> final(self).a@ == old(self).a@ && final(self).b@ == old(self).b@
                && final(self).c@ == old(self).c@ && final(self).next_carry,
    {
        let ghost st0 = AnrPass {
            a: self.a@,
            b: self.b@,
            c: self.c@,
            ws: word_select@,
            carry: false,
            prev: 0,
            first: true,
        };
        let mut ws: WordSelect = word_select;
        let mut carry: bool = false;
        let mut first_digit: bool = true;
        let mut prev_nibble: u8 = 0;
        let direction: Direction = if code == 0b10010 || code == 0b10100 || code == 0b10110 {
            Direction::Left
        } else {
            Direction::Right
        };
        let mut pass: usize = 0;
        while pass < 14
            invariant
                pass <= 14,
                code < 32,
                self.a.wf(),
                self.b.wf(),
                self.c.wf(),
                ws.wf(),
                prev_nibble < 16,
                direction == spec_anr_direction(code),
                self.d == old(self).d,
                self.e == old(self).e,
                self.f == old(self).f,
                self.m == old(self).m,
                self.display_on == old(self).display_on,
                self.next_carry == old(self).next_carry,
                spec_anr_cycle(
                    AnrPass {
                        a: self.a@,
                        b: self.b@,
                        c: self.c@,
                        ws: ws@,
                        carry,
                        prev: prev_nibble,
                        first: first_digit,
                    },
                    code,
                    direction,
                    (14 - pass) as nat,
                ) == spec_anr_cycle(st0, code, direction, 14),
            decreases 14 - pass,
        {
            self.digit_pass(&mut ws, &mut carry, &mut prev_nibble, &mut first_digit, code,
                direction);
            pass = pass + 1;
        }
        proof {
            if word_select@ == 0 {
                lemma_anr_mask_empty(st0, code, spec_anr_direction(code), 14);
                lemma_rot56_fourteen(st0.a, spec_anr_direction(code));
                lemma_rot56_fourteen(st0.b, spec_anr_direction(code));
                lemma_rot56_fourteen(st0.c, spec_anr_direction(code));
            }
        }
        self.next_carry = !carry;
    }

    /// One digit pass of a type-2 instruction, exactly as
    /// [`spec_anr_pass`] states it.
    #[verifier::rlimit(100)]
    fn digit_pass(
        &mut self,
        ws: &mut WordSelect,
        carry: &mut bool,
        prev_nibble: &mut u8,
        first_digit: &mut bool,
        code: u8,
        direction: Direction,
    )
        requires
            old(self).a.wf(),
            old(self).b.wf(),
            old(self).c.wf(),
            old(ws).wf(),
            *old(prev_nibble) < 16,
            code < 32,
        ensures
            final(self).a.wf(),
            final(self).b.wf(),
            final(self).c.wf(),
            final(ws).wf(),
            *final(prev_nibble) < 16,
            final(self).d == old(self).d,
            final(self).e == old(self).e,
            final(self).f == old(self).f,
            final(self).m == old(self).m,
            final(self).display_on == old(self).display_on,
            final(self).next_carry == old(self).next_carry,
            (AnrPass {
                a: final(self).a@,
                b: final(self).b@,
                c: final(self).c@,
                ws: final(ws)@,
                carry: *final(carry),
                prev: *final(prev_nibble),
                first: *final(first_digit),
            }) == spec_anr_pass(
                AnrPass {
                    a: old(self).a@,
                    b: old(self).b@,
                    c: old(self).c@,
                    ws: old(ws)@,
                    carry: *old(carry),
                    prev: *old(prev_nibble),
                    first: *old(first_digit),
                },
                code,
                direction,
            ),
    {
        let mut a: u8 = self.a.read_nibble(direction);
        let mut b: u8 = self.b.read_nibble(direction);
        let mut c: u8 = self.c.read_nibble(direction);
        if ws.read_and_shift_bit(direction, false) {
            let one: u8 = if *first_digit {
                1
            } else {
                0
            };
            let (a_w, b_w, c_w, carry_w, prev_w): (u8, u8, u8, bool, u8) = anr_digit(
                code,
                a,
                b,
                c,
                one,
                *carry,
                *prev_nibble,
            );
            a = a_w;
            b = b_w;
            c = c_w;
            *carry = carry_w;
            *prev_nibble = prev_w;
            *first_digit = false;
        }
        self.a.shift_with_nibble(direction, a);
        self.b.shift_with_nibble(direction, b);
        self.c.shift_with_nibble(direction, c);
    }

    /// A type-5 instruction: data entry and display. Constants stream
    /// into C under the word-select mask; the rest move whole registers
    /// through the four-deep working stack and the memory register, or
    /// drive the display latch. The reserved encodings do nothing; the
    /// ones this model leaves out are reported as such.
    fn type_5(&mut self, instruction: u8, word_select: WordSelect, ram_data: Register) -> (r:
        Result<(), Fault>)
        requires
            old(self).wf(),
            instruction < 64,
            word_select.wf(),
            ram_data.wf(),
        ensures
            final(self).wf(),
            r is Err ==> r == Err::<(), Fault>(Fault::NotSupported) && *final(self) == *old(self),
            r is Err <==> spec_type5(*old(self), instruction, word_select@, ram_data@) is None,
            r is Ok ==> Some(*final(self)) == spec_type5(
                *old(self),
                instruction,
                word_select@,
                ram_data@,
            ),
    {
        if instruction & 0b11 == 0b01 {
            // Load constant: the instruction's high bits stream into C
            // at each selected digit.
            let konst: u8 = instruction >> 2;
            let mut ws: WordSelect = word_select;
            let mut pass: usize = 0;
            while pass < 14
                invariant
                    pass <= 14,
                    konst < 16,
                    self.c.wf(),
                    ws.wf(),
                    self.a == old(self).a,
                    self.b == old(self).b,
                    self.d == old(self).d,
                    self.e == old(self).e,
                    self.f == old(self).f,
                    self.m == old(self).m,
                    self.next_carry == old(self).next_carry,
                    self.display_on == old(self).display_on,
                    spec_lc_cycle(self.c@, ws@, konst, (14 - pass) as nat) == spec_lc_cycle(
                        old(self).c@,
                        word_select@,
                        konst,
                        14,
                    ),
                decreases 14 - pass,
            {
                let mut c: u8 = self.c.read_nibble(Direction::Right);
                if ws.read_and_shift_bit(Direction::Right, false) {
                    c = konst;
                }
                self.c.shift_with_nibble(Direction::Right, c);
                pass = pass + 1;
            }
            Ok(())
        } else if instruction & 0b11 == 0b00 {
            // Reserved.
            Ok(())
        } else {
            let selector: u8 = instruction >> 2;
            if selector == 0b0000 {
                self.display_on = !self.display_on;
                Ok(())
            } else if selector == 0b0010 {
                // Exchange C and M.
                let swap: Register = self.c;
                self.c = self.m;
                self.m = swap;
                Ok(())
            } else if selector == 0b0100 {
                // Push C up the stack.
                self.f = self.e;
                self.e = self.d;
                self.d = self.c;
                Ok(())
            } else if selector == 0b0110 {
                // Pop the stack into A.
                self.a = self.d;
                self.d = self.e;
                self.e = self.f;
                Ok(())
            } else if selector == 0b1000 {
                self.display_on = false;
                Ok(())
            } else if selector == 0b1010 {
                // Recall M into C.
                self.c = self.m;
                Ok(())
            } else if selector == 0b1011 {
                // Data storage into C.
                self.c = ram_data;
                Ok(())
            } else if selector == 0b1100 {
                // Rotate the stack down.
                let swap: Register = self.c;
                self.c = self.d;
                self.d = self.e;
                self.e = self.f;
                self.f = swap;
                Ok(())
            } else if selector == 0b1110 {
                // Clear every register to the power-on state.
                let cleared: HP_AnR = HP_AnR::new();
                *self = cleared;
                Ok(())
            } else {
                Err(Fault::NotSupported)
            }
        }
    }
}

/// One type-2 digit operation on plain digit values.
fn anr_digit(code: u8, a: u8, b: u8, c: u8, one: u8, carry: bool, prev: u8) -> (r: (
    u8,
    u8,
    u8,
    bool,
    u8,
))
    requires
        code < 32,
        a < 16,
        b < 16,
        c < 16,
        one <= 1,
        prev < 16,
    ensures
        r == spec_anr_digit(code, a, b, c, one, carry, prev),
        r.0 < 16 && r.1 < 16 && r.2 < 16 && r.4 < 16,
{
    match code {
        0b00000 => {
            let (_r, cy): (u8, bool) = bcd_sub(0, b, carry);
            (a, b, c, cy, prev)
        },
        0b00001 => (a, 0, c, carry, prev),
        0b00010 => {
            let (_r, cy): (u8, bool) = bcd_sub(a, c, carry);
            (a, b, c, cy, prev)
        },
        0b00011 => {
            let (_r, cy): (u8, bool) = bcd_sub(c, one, carry);
            (a, b, c, cy, prev)
        },
        0b00100 => (a, b, b, carry, prev),
        0b00101 => {
            let (r, cy): (u8, bool) = bcd_sub(0, c, carry);
            (a, b, r, cy, prev)
        },
        0b00110 => (a, b, 0, carry, prev),
        0b00111 => {
            let (c1, cy1): (u8, bool) = bcd_sub(0, c, carry);
            let (c2, cy2): (u8, bool) = bcd_sub(c1, one, false);
            (a, b, c2, cy1 || cy2, prev)
        },
        0b01000 => (prev, b, c, carry, a),
        0b01001 => (a, a, c, carry, prev),
        0b01010 => {
            let (r, cy): (u8, bool) = bcd_sub(a, c, carry);
            (a, b, r, cy, prev)
        },
        0b01011 => {
            let (r, cy): (u8, bool) = bcd_sub(c, one, carry);
            (a, b, r, cy, prev)
        },
        0b01100 => (c, b, c, carry, prev),
        0b01101 => {
            let (_r, cy): (u8, bool) = bcd_sub(0, c, carry);
            (a, b, c, cy, prev)
        },
        0b01110 => {
            let (r, cy): (u8, bool) = bcd_add(a, c, carry);
            (a, b, r, cy, prev)
        },
        0b01111 => {
            let (r, cy): (u8, bool) = bcd_add(c, one, carry);
            (a, b, r, cy, prev)
        },
        0b10000 => {
            let (_r, cy): (u8, bool) = bcd_sub(a, b, carry);
            (a, b, c, cy, prev)
        },
        0b10001 => (a, c, b, carry, prev),
        0b10010 => (a, b, prev, carry, c),
        0b10011 => {
            let (_r, cy): (u8, bool) = bcd_sub(a, one, carry);
            (a, b, c, cy, prev)
        },
        0b10100 => (a, prev, c, carry, b),
        0b10101 => {
            let (r, cy): (u8, bool) = bcd_add(c, c, carry);
            (a, b, r, cy, prev)
        },
        0b10110 => (prev, b, c, carry, a),
        0b10111 => (0, b, c, carry, prev),
        0b11000 => {
            let (r, cy): (u8, bool) = bcd_sub(a, b, carry);
            (r, b, c, cy, prev)
        },
        0b11001 => (b, a, c, carry, prev),
        0b11010 => {
            let (r, cy): (u8, bool) = bcd_sub(a, c, carry);
            (r, b, c, cy, prev)
        },
        0b11011 => {
            let (r, cy): (u8, bool) = bcd_sub(a, one, carry);
            (r, b, c, cy, prev)
        },
        0b11100 => {
            let (r, cy): (u8, bool) = bcd_add(a, b, carry);
            (r, b, c, cy, prev)
        },
        0b11101 => (c, b, a, carry, prev),
        0b11110 => {
            let (r, cy): (u8, bool) = bcd_add(a, c, carry);
            (r, b, c, cy, prev)
        },
        _ => {
            let (r, cy): (u8, bool) = bcd_add(a, one, carry);
            (r, b, c, cy, prev)
        },
    }
}

/// Add two BCD digits with an incoming carry.
fn bcd_add(num1: u8, num2: u8, carry: bool) -> (r: (u8, bool))
    requires
        num1 < 16,
        num2 < 16,
    ensures
        r == spec_bcd_add(num1, num2, carry),
        r.0 < 16,
{
    let mut result: u8 = num1 + num2;
    if carry {
        result = result + 1;
    }
    if result >= 10 {
        ((result - 10) & 0xF, true)
    } else {
        (result, false)
    }
}

/// Subtract two BCD digits with an incoming borrow.
fn bcd_sub(num1: u8, num2: u8, borrow: bool) -> (r: (u8, bool))
    requires
        num1 < 16,
        num2 < 16,
    ensures
        r == spec_bcd_sub(num1, num2, borrow),
        r.0 < 16,
{
    let needed: u8 = num2 + (borrow as u8);
    if num1 >= needed {
        (num1 - needed, false)
    } else {
        (((num1 + 26) - needed) & 0xF, true)
    }
}

} // verus!
