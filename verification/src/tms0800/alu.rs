//! The arithmetic unit of the TMS0800 calculator-on-a-chip.
//!
//! Three 44-bit registers hold eleven 4-bit digits each. One instruction
//! is eleven digit-serial passes in a single shift direction; at each
//! position a word-select bit decides whether the decoded micro-operation
//! applies there, and an unselected digit only takes the identity shift.
//! The carry ripples from digit to digit inside the instruction; the
//! final-pass carry is what the control unit sees. A constant operand is
//! injected only on the first selected pass, modeling the single-cycle
//! constant latch; later passes receive zero in its place.

use vstd::prelude::*;

verus! {

broadcast use
    crate::bitops::lemma_u8_mask15,
    crate::shifter::lemma_shift64_fits,
    crate::shifter::lemma_shift16_fits,
    crate::shifter::lemma_nib64_ends_bound,
    crate::shifter::lemma_fits64_zero;

use crate::shifter::Direction;
use crate::shifter::Shifter16;
use crate::shifter::Shifter64;
use crate::shifter::fits64;
use crate::shifter::shl_bit16;
use crate::shifter::shr_bit16;
use crate::shifter::shl_nib64;
use crate::shifter::shr_nib64;
use crate::shifter::top_bit16;
use crate::shifter::low_bit16;
use crate::shifter::top_nib64;
use crate::shifter::low_nib64;

/// Eleven digits of the calculator's number format.
pub type Register = Shifter64<44>;

/// The per-digit word-select mask, one bit per digit position.
pub type WordSelect = Shifter16<11>;

/// What a micro-operation does at each selected digit.
#[derive(Debug, Clone, Copy, PartialEq, Eq, Structural)]
pub enum Oper {
    /// Digit-serial addition.
    Plus,
    /// Shift the destination register one digit toward the low end.
    Shr,
    /// Shift the destination register one digit toward the high end.
    Shl,
    /// Digit-serial subtraction.
    Minus,
    /// Exchange the A and B digits.
    ExchangeAB,
    /// Hold for an external event; arithmetically an addition.
    Wait,
}

/// The first operand of a micro-operation.
#[derive(Debug, Clone, Copy, PartialEq, Eq, Structural)]
pub enum Arg1 {
    /// The A register's digit.
    A,
    /// The C register's digit.
    C,
    /// No operand: zero.
    Zero,
}

/// The second operand of a micro-operation.
#[derive(Debug, Clone, Copy, PartialEq, Eq, Structural)]
pub enum Arg2 {
    /// The B register's digit.
    B,
    /// The latched constant.
    K,
    /// No operand: zero.
    Zero,
}

/// Where a micro-operation's result lands.
#[derive(Debug, Clone, Copy, PartialEq, Eq, Structural)]
pub enum Dest {
    /// The A register.
    A,
    /// The B register.
    B,
    /// The C register.
    C,
    /// The result is only tested, never stored.
    Discard,
}

/// One decoded micro-operation: operands, destination, arithmetic sense,
/// and whether the digit base is sixteen rather than ten.
#[derive(Debug, Clone, Copy, PartialEq, Eq, Structural)]
pub struct Opcode {
    /// The arithmetic sense.
    pub operation: Oper,
    /// Where the result lands.
    pub dest: Dest,
    /// The first operand.
    pub arg1: Arg1,
    /// The second operand.
    pub arg2: Arg2,
    /// Hexadecimal carry rules instead of decimal.
    pub hex: bool,
}

impl Opcode {
    /// Assemble one micro-operation descriptor.
    pub fn new(dest: Dest, arg1: Arg1, operation: Oper, arg2: Arg2, hex: bool) -> (r: Opcode)
        ensures
            r == (Opcode { operation, dest, arg1, arg2, hex }),
    {
        Opcode { operation, dest, arg1, arg2, hex }
    }
}

/// One digit-serial addition: the base is ten or sixteen, and a digit at
/// or past the base wraps and carries.
pub open spec fn spec_digit_add(num1: u8, num2: u8, carry: bool, hex: bool) -> (u8, bool) {
    let base = if hex {
        16int
    } else {
        10int
    };
    let sum = num1 + num2 + (if carry {
        1int
    } else {
        0int
    });
    if sum >= base {
        ((((sum - base) % 16) as u8), true)
    } else {
        ((sum as u8), false)
    }
}

/// One digit-serial subtraction, borrowing against the base.
pub open spec fn spec_digit_sub(num1: u8, num2: u8, borrow: bool, hex: bool) -> (u8, bool) {
    let base = if hex {
        16int
    } else {
        10int
    };
    let diff = num1 - num2 - (if borrow {
        1int
    } else {
        0int
    });
    if diff < 0 {
        ((((diff + base + 16) % 16) as u8), true)
    } else {
        ((diff as u8), false)
    }
}

/// The rolling state of one instruction: the three registers, the
/// word-select mask being consumed, the rippling carry, the one-digit
/// shift buffer, and whether the constant latch is still charged.
pub ghost struct AluPass {
    /// The A register's bits.
    pub a: u64,
    /// The B register's bits.
    pub b: u64,
    /// The C register's bits.
    pub c: u64,
    /// The word-select mask still to be consumed.
    pub ws: u16,
    /// The carry rippling between digits.
    pub carry: bool,
    /// The one-digit buffer the shift micro-operations carry forward.
    pub prev: u8,
    /// Is the constant latch still charged?
    pub first: bool,
}

/// The digit at the leading end of a register, for the given direction.
pub open spec fn spec_lead_nib(data: u64, dir: Direction) -> u8 {
    if dir is Left {
        (top_nib64(data, 44) as u8)
    } else {
        (low_nib64(data) as u8)
    }
}

/// A register after the identity shift that feeds `nib` back in at the
/// trailing end.
pub open spec fn spec_shift44(data: u64, dir: Direction, nib: u8) -> u64 {
    if dir is Left {
        shl_nib64(data, 44, nib as u64)
    } else {
        shr_nib64(data, 44, nib as u64)
    }
}

/// The word-select bit at the leading end, and the mask consumed by one
/// position.
pub open spec fn spec_ws_bit(ws: u16, dir: Direction) -> bool {
    if dir is Left {
        top_bit16(ws, 11)
    } else {
        low_bit16(ws)
    }
}

/// The mask after consuming one position.
pub open spec fn spec_ws_shift(ws: u16, dir: Direction) -> u16 {
    if dir is Left {
        shl_bit16(ws, 11, false)
    } else {
        shr_bit16(ws, 11, false)
    }
}

/// One digit pass: read the leading digits, apply the micro-operation if
/// the word-select bit names this position, and shift all three registers
/// by one digit.
pub open spec fn spec_alu_pass(st: AluPass, op: Opcode, k_const: u8, dir: Direction) -> AluPass {
    let a_d = spec_lead_nib(st.a, dir);
    let b_d = spec_lead_nib(st.b, dir);
    let c_d = spec_lead_nib(st.c, dir);
    let selected = spec_ws_bit(st.ws, dir);
    let ws_next = spec_ws_shift(st.ws, dir);
    if selected {
        let k = if st.first {
            k_const
        } else {
            0u8
        };
        let arg1 = match op.arg1 {
            Arg1::A => a_d,
            Arg1::C => c_d,
            Arg1::Zero => 0u8,
        };
        let arg2 = match op.arg2 {
            Arg2::B => b_d,
            Arg2::K => k,
            Arg2::Zero => 0u8,
        };
        match op.operation {
            Oper::Plus | Oper::Wait | Oper::Minus => {
                let (result, carry_next) = if op.operation is Minus {
                    spec_digit_sub(arg1, arg2, st.carry, op.hex)
                } else {
                    spec_digit_add(arg1, arg2, st.carry, op.hex)
                };
                let a_w = if op.dest is A {
                    result
                } else {
                    a_d
                };
                let b_w = if op.dest is B {
                    result
                } else {
                    b_d
                };
                let c_w = if op.dest is C {
                    result
                } else {
                    c_d
                };
                AluPass {
                    a: spec_shift44(st.a, dir, a_w),
                    b: spec_shift44(st.b, dir, b_w),
                    c: spec_shift44(st.c, dir, c_w),
                    ws: ws_next,
                    carry: carry_next,
                    prev: st.prev,
                    first: false,
                }
            },
            Oper::ExchangeAB => AluPass {
                a: spec_shift44(st.a, dir, b_d),
                b: spec_shift44(st.b, dir, a_d),
                c: spec_shift44(st.c, dir, c_d),
                ws: ws_next,
                carry: st.carry,
                prev: st.prev,
                first: false,
            },
            Oper::Shl | Oper::Shr => {
                let a_w = if op.dest is A {
                    st.prev
                } else {
                    a_d
                };
                let b_w = if op.dest is B {
                    st.prev
                } else {
                    b_d
                };
                let c_w = if op.dest is C {
                    st.prev
                } else {
                    c_d
                };
                let prev_next = match op.dest {
                    Dest::A => a_d,
                    Dest::B => b_d,
                    Dest::C => c_d,
                    Dest::Discard => st.prev,
                };
                AluPass {
                    a: spec_shift44(st.a, dir, a_w),
                    b: spec_shift44(st.b, dir, b_w),
                    c: spec_shift44(st.c, dir, c_w),
                    ws: ws_next,
                    carry: st.carry,
                    prev: prev_next,
                    first: false,
                }
            },
        }
    } else {
        AluPass {
            a: spec_shift44(st.a, dir, a_d),
            b: spec_shift44(st.b, dir, b_d),
            c: spec_shift44(st.c, dir, c_d),
            ws: ws_next,
            carry: st.carry,
            prev: st.prev,
            first: st.first,
        }
    }
}

/// `n` digit passes in a row.
pub open spec fn spec_alu_cycle(st: AluPass, op: Opcode, k_const: u8, dir: Direction, n: nat)
    -> AluPass
    decreases n,
{
    if n == 0 {
        st
    } else {
        spec_alu_cycle(spec_alu_pass(st, op, k_const, dir), op, k_const, dir, (n - 1) as nat)
    }
}

/// The shift direction an instruction number selects: the three
/// shift-left micro-operations run their passes from the high end.
pub open spec fn spec_direction(instruction: u8) -> Direction {
    if 0x17 <= instruction <= 0x19 {
        Direction::Left
    } else {
        Direction::Right
    }
}

/// TMS0800 arithmetic unit.
pub struct ALU {
    /// The display register.
    pub a: Register,
    /// The register that usually holds the decimal-point mask.
    pub b: Register,
    /// The general-purpose register.
    pub c: Register,
    /// The 32-entry micro-operation table, decoded at construction.
    pub opcodes: [Opcode; 32],
    /// The 16-entry constant table.
    pub constants: [u8; 16],
}

impl ALU {
    /// The unit's internal invariant: registers inside 44 bits, constants
    /// inside four.
    pub open spec fn wf(&self) -> bool {
        &&& self.a.wf()
        &&& self.b.wf()
        &&& self.c.wf()
        &&& forall|i: int| 0 <= i < 16 ==> (#[trigger] self.constants@[i]) < 16
    }

    /// Build the unit from its decoded micro-operation table and its
    /// constant table; the registers clear.
    pub fn new(opcodes: [Opcode; 32], constants: [u8; 16]) -> (r: Self)
        requires
            forall|i: int| 0 <= i < 16 ==> (#[trigger] constants@[i]) < 16,
        ensures
            r.wf(),
            r.a@ == 0 && r.b@ == 0 && r.c@ == 0,
            r.opcodes@ == opcodes@,
            r.constants@ == constants@,
    {
        ALU {
            a: Shifter64::new(0),
            b: Shifter64::new(0),
            c: Shifter64::new(0),
            opcodes,
            constants,
        }
    }

    /// Run one register instruction: eleven digit passes of the selected
    /// micro-operation under the word-select mask, returning the final
    /// pass's carry. The result is exactly the fold of
    /// [`spec_alu_pass`]; in particular a mask with no bit set performs
    /// no effective micro-operation at all, leaving every register and
    /// the carry untouched.
    pub fn run_cycle(&mut self, word_select: WordSelect, instruction: u8, mask: u8) -> (carry:
        bool)
        requires
            old(self).wf(),
            word_select.wf(),
            instruction < 32,
            mask < 16,
        ensures
            final(self).wf(),
            final(self).opcodes == old(self).opcodes,
            final(self).constants == old(self).constants,
            ({
                let dir = spec_direction(instruction);
                let end = spec_alu_cycle(
                    AluPass {
                        a: old(self).a@,
                        b: old(self).b@,
                        c: old(self).c@,
                        ws: word_select@,
                        carry: false,
                        prev: 0,
                        first: true,
                    },
                    old(self).opcodes@[instruction as int],
                    old(self).constants@[mask as int],
                    dir,
                    11,
                );
                &&& final(self).a@ == end.a
                &&& final(self).b@ == end.b
                &&& final(self).c@ == end.c
                &&& carry == end.carry
            }),
            word_select@ == 0 ==> final(self).a@ == old(self).a@ && final(self).b@ == old(self).b@
                && final(self).c@ == old(self).c@ && carry == false,
    {
        let ghost op = self.opcodes@[instruction as int];
        let ghost k_const = self.constants@[mask as int];
        let ghost st0 = AluPass {
            a: self.a@,
            b: self.b@,
            c: self.c@,
            ws: word_select@,
            carry: false,
            prev: 0,
            first: true,
        };

        let mut ws: WordSelect = word_select;
        let mut carry: bool = false;
        let direction: Direction = if 0x17 <= instruction && instruction <= 0x19 {
            Direction::Left
        } else {
            Direction::Right
        };
        let mut prev_nibble: u8 = 0;
        let mut first_time: bool = true;
        let opcode: Opcode = *vstd::array::array_index_get(&self.opcodes, instruction as usize);
        let k_first: u8 = *vstd::array::array_index_get(&self.constants, mask as usize);

        let mut pass: usize = 0;
        while pass < 11
            invariant
                pass <= 11,
                self.a.wf(),
                self.b.wf(),
                self.c.wf(),
                ws.wf(),
                prev_nibble < 16,
                k_first < 16,
                direction == spec_direction(instruction),
                opcode == op,
                k_first == k_const,
                self.opcodes == old(self).opcodes,
                self.constants == old(self).constants,
                spec_alu_cycle(
                    AluPass {
                        a: self.a@,
                        b: self.b@,
                        c: self.c@,
                        ws: ws@,
                        carry,
                        prev: prev_nibble,
                        first: first_time,
                    },
                    op,
                    k_const,
                    direction,
                    (11 - pass) as nat,
                ) == spec_alu_cycle(st0, op, k_const, direction, 11),
            decreases 11 - pass,
        {
            self.digit_pass(&mut ws, &mut carry, &mut prev_nibble, &mut first_time, opcode,
                k_first, direction);
            pass = pass + 1;
        }

        proof {
            if word_select@ == 0 {
                lemma_alu_mask_empty(st0, op, k_const, spec_direction(instruction), 11);
                lemma_rot44_eleven(st0.a, spec_direction(instruction));
                lemma_rot44_eleven(st0.b, spec_direction(instruction));
                lemma_rot44_eleven(st0.c, spec_direction(instruction));
            }
        }
        carry
    }

    /// One digit pass of the running instruction, exactly as
    /// [`spec_alu_pass`] states it.
    #[verifier::rlimit(100)]
    fn digit_pass(
        &mut self,
        ws: &mut WordSelect,
        carry: &mut bool,
        prev_nibble: &mut u8,
        first_time: &mut bool,
        opcode: Opcode,
        k_first: u8,
        direction: Direction,
    )
        requires
            old(self).a.wf(),
            old(self).b.wf(),
            old(self).c.wf(),
            old(ws).wf(),
            *old(prev_nibble) < 16,
            k_first < 16,
        ensures
            final(self).a.wf(),
            final(self).b.wf(),
            final(self).c.wf(),
            final(ws).wf(),
            *final(prev_nibble) < 16,
            final(self).opcodes == old(self).opcodes,
            final(self).constants == old(self).constants,
            (AluPass {
                a: final(self).a@,
                b: final(self).b@,
                c: final(self).c@,
                ws: final(ws)@,
                carry: *final(carry),
                prev: *final(prev_nibble),
                first: *final(first_time),
            }) == spec_alu_pass(
                AluPass {
                    a: old(self).a@,
                    b: old(self).b@,
                    c: old(self).c@,
                    ws: old(ws)@,
                    carry: *old(carry),
                    prev: *old(prev_nibble),
                    first: *old(first_time),
                },
                opcode,
                k_first,
                direction,
            ),
    {
        let mut a: u8 = self.a.read_nibble(direction);
        let mut b: u8 = self.b.read_nibble(direction);
        let mut c: u8 = self.c.read_nibble(direction);
        if ws.read_and_shift_bit(direction, false) {
            let k: u8 = if *first_time {
                k_first
            } else {
                0
            };
            match opcode.operation {
                Oper::Plus | Oper::Wait | Oper::Minus => {
                    let arg1: u8 = match opcode.arg1 {
                        Arg1::A => a,
                        Arg1::C => c,
                        Arg1::Zero => 0,
                    };
                    let arg2: u8 = match opcode.arg2 {
                        Arg2::B => b,
                        Arg2::K => k,
                        Arg2::Zero => 0,
                    };
                    let (result, new_carry): (u8, bool) = if matches!(
                        opcode.operation,
                        Oper::Minus,
                    ) {
                        digit_sub(arg1, arg2, *carry, opcode.hex)
                    } else {
                        digit_add(arg1, arg2, *carry, opcode.hex)
                    };
                    *carry = new_carry;
                    match opcode.dest {
                        Dest::A => a = result,
                        Dest::B => b = result,
                        Dest::C => c = result,
                        Dest::Discard => {},
                    }
                },
                Oper::ExchangeAB => {
                    let swap: u8 = a;
                    a = b;
                    b = swap;
                },
                Oper::Shl | Oper::Shr => {
                    match opcode.dest {
                        Dest::A => {
                            let swap: u8 = *prev_nibble;
                            *prev_nibble = a;
                            a = swap;
                        },
                        Dest::B => {
                            let swap: u8 = *prev_nibble;
                            *prev_nibble = b;
                            b = swap;
                        },
                        Dest::C => {
                            let swap: u8 = *prev_nibble;
                            *prev_nibble = c;
                            c = swap;
                        },
                        Dest::Discard => {},
                    }
                },
            }
            *first_time = false;
        }
        self.a.shift_with_nibble(direction, a);
        self.b.shift_with_nibble(direction, b);
        self.c.shift_with_nibble(direction, c);
    }
}

/// Add two digits of the given base with an incoming carry.
fn digit_add(num1: u8, num2: u8, carry: bool, hex: bool) -> (r: (u8, bool))
    requires
        num1 < 16,
        num2 < 16,
    ensures
        r == spec_digit_add(num1, num2, carry, hex),
        r.0 < 16,
{
    let mut result: u8 = num1 + num2;
    if carry {
        result = result + 1;
    }
    let base: u8 = if hex {
        16
    } else {
        10
    };
    if result >= base {
        ((result - base) & 0xF, true)
    } else {
        (result, false)
    }
}

/// Subtract two digits of the given base with an incoming borrow.
fn digit_sub(num1: u8, num2: u8, borrow: bool, hex: bool) -> (r: (u8, bool))
    requires
        num1 < 16,
        num2 < 16,
    ensures
        r == spec_digit_sub(num1, num2, borrow, hex),
        r.0 < 16,
{
    let base: u8 = if hex {
        16
    } else {
        10
    };
    let needed: u8 = num2 + (borrow as u8);
    if num1 >= needed {
        (num1 - needed, false)
    } else {
        (((num1 + base + 16) - needed) & 0xF, true)
    }
}

/// One identity rotation: the leading digit comes back in at the trailing
/// end.
pub open spec fn spec_rot44(data: u64, dir: Direction) -> u64 {
    spec_shift44(data, dir, spec_lead_nib(data, dir))
}

/// `n` identity rotations in a row.
pub open spec fn spec_rot44_n(data: u64, dir: Direction, n: nat) -> u64
    decreases n,
{
    if n == 0 {
        data
    } else {
        spec_rot44_n(spec_rot44(data, dir), dir, (n - 1) as nat)
    }
}

/// One rotation toward the high end, written out in bit operations.
pub open spec fn spec_rotl44(data: u64) -> u64 {
    shl_nib64(data, 44, ((top_nib64(data, 44) as u8) as u64))
}

/// One rotation toward the low end, written out in bit operations.
pub open spec fn spec_rotr44(data: u64) -> u64 {
    shr_nib64(data, 44, ((low_nib64(data) as u8) as u64))
}

/// Eleven identity rotations of an eleven-digit register change nothing.
proof fn lemma_rot44_eleven(data: u64, dir: Direction)
    requires
        fits64(data, 44),
    ensures
        spec_rot44_n(data, dir, 11) == data,
{
    reveal_with_fuel(spec_rot44_n, 12);
    let y0 = data;
    let y1 = spec_rot44(y0, dir);
    let y2 = spec_rot44(y1, dir);
    let y3 = spec_rot44(y2, dir);
    let y4 = spec_rot44(y3, dir);
    let y5 = spec_rot44(y4, dir);
    let y6 = spec_rot44(y5, dir);
    let y7 = spec_rot44(y6, dir);
    let y8 = spec_rot44(y7, dir);
    let y9 = spec_rot44(y8, dir);
    let y10 = spec_rot44(y9, dir);
    let y11 = spec_rot44(y10, dir);
    assert(spec_rot44_n(data, dir, 11) == y11);
    if dir is Left {
        assert(y11 == y0) by (bit_vector)
            requires
                fits64(y0, 44),
                y1 == spec_rotl44(y0),
                y2 == spec_rotl44(y1),
                y3 == spec_rotl44(y2),
                y4 == spec_rotl44(y3),
                y5 == spec_rotl44(y4),
                y6 == spec_rotl44(y5),
                y7 == spec_rotl44(y6),
                y8 == spec_rotl44(y7),
                y9 == spec_rotl44(y8),
                y10 == spec_rotl44(y9),
                y11 == spec_rotl44(y10),
        ;
    } else {
        assert(y11 == y0) by (bit_vector)
            requires
                fits64(y0, 44),
                y1 == spec_rotr44(y0),
                y2 == spec_rotr44(y1),
                y3 == spec_rotr44(y2),
                y4 == spec_rotr44(y3),
                y5 == spec_rotr44(y4),
                y6 == spec_rotr44(y5),
                y7 == spec_rotr44(y6),
                y8 == spec_rotr44(y7),
                y9 == spec_rotr44(y8),
                y10 == spec_rotr44(y9),
                y11 == spec_rotr44(y10),
        ;
    }
}

/// With no word-select bit set, every pass is the identity rotation: the
/// mask stays empty, the carry and the constant latch never move, and
/// each register is only rotated.
proof fn lemma_alu_mask_empty(st: AluPass, op: Opcode, k_const: u8, dir: Direction, n: nat)
    requires
        st.ws == 0,
    ensures
        ({
            let end = spec_alu_cycle(st, op, k_const, dir, n);
            &&& end.ws == 0
            &&& end.carry == st.carry
            &&& end.first == st.first
            &&& end.prev == st.prev
            &&& end.a == spec_rot44_n(st.a, dir, n)
            &&& end.b == spec_rot44_n(st.b, dir, n)
            &&& end.c == spec_rot44_n(st.c, dir, n)
        }),
    decreases n,
{
    crate::shifter::lemma_ws_zero(11);
    if n > 0 {
        lemma_alu_mask_empty(spec_alu_pass(st, op, k_const, dir), op, k_const, dir, (n - 1) as nat);
    }
}

/// One digit pass with the micro-operation applied unconditionally, as
/// a fully selected digit position behaves.
pub open spec fn spec_alu_pass_full(st: AluPass, op: Opcode, k_const: u8, dir: Direction)
    -> AluPass {
    spec_alu_pass(AluPass { ws: 0x7FF, ..st }, op, k_const, dir)
}

/// `n` unconditional digit passes in a row, consuming the mask the same
/// way the real passes do.
pub open spec fn spec_alu_cycle_full(st: AluPass, op: Opcode, k_const: u8, dir: Direction, n: nat)
    -> AluPass
    decreases n,
{
    if n == 0 {
        st
    } else {
        spec_alu_cycle_full(
            AluPass {
                ws: spec_ws_shift(st.ws, dir),
                ..spec_alu_pass_full(st, op, k_const, dir)
            },
            op,
            k_const,
            dir,
            (n - 1) as nat,
        )
    }
}

/// While the mask still covers the remaining passes, its leading bit is
/// set, and consuming it keeps covering one pass fewer.
proof fn lemma_full_mask_bits(k: u16)
    by (bit_vector)
    requires
        k <= 10,
    ensures
        low_bit16(0x7FFu16 >> k),
        shr_bit16(0x7FFu16 >> k, 11, false) == 0x7FFu16 >> ((k + 1) as u16),
        top_bit16((0x7FFu16 << k) & 0x7FF, 11),
        shl_bit16((0x7FFu16 << k) & 0x7FF, 11, false) == (0x7FFu16 << ((k + 1) as u16)) & 0x7FF,
        (0x7FFu16 >> 0u16) == 0x7FF,
        ((0x7FFu16 << 0u16) & 0x7FF) == 0x7FF,
        low_bit16(0x7FFu16),
        top_bit16(0x7FFu16, 11),
{
}

/// With every word-select bit set, every pass applies the
/// micro-operation: the masked fold and the unconditional fold agree.
pub proof fn lemma_full_mask_applies(st: AluPass, op: Opcode, k_const: u8, dir: Direction)
    requires
        st.ws == 0x7FF,
    ensures
        spec_alu_cycle(st, op, k_const, dir, 11) == spec_alu_cycle_full(st, op, k_const, dir, 11),
{
    lemma_full_mask_bits(0);
    lemma_full_mask_steps(st, op, k_const, dir, 11);
}

/// The inductive step of [`lemma_full_mask_applies`], parametrized by
/// how many passes remain under the shrinking mask.
proof fn lemma_full_mask_steps(st: AluPass, op: Opcode, k_const: u8, dir: Direction, n: nat)
    requires
        n <= 11,
        dir is Right ==> st.ws == 0x7FFu16 >> ((11 - n) as u16),
        dir is Left ==> st.ws == (0x7FFu16 << ((11 - n) as u16)) & 0x7FF,
    ensures
        spec_alu_cycle(st, op, k_const, dir, n) == spec_alu_cycle_full(st, op, k_const, dir, n),
    decreases n,
{
    if n > 0 {
        lemma_full_mask_bits((11 - n) as u16);
        let stepped = spec_alu_pass(st, op, k_const, dir);
        assert(stepped == AluPass {
            ws: spec_ws_shift(st.ws, dir),
            ..spec_alu_pass_full(st, op, k_const, dir)
        });
        lemma_full_mask_steps(stepped, op, k_const, dir, (n - 1) as nat);
    }
}

} // verus!
