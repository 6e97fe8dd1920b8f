//! The TMS0800 calculator chip: the bit-serial arithmetic unit, the
//! control unit, and the sticky carry latch between them.

use chips::shifter::Shifter16;
use chips::tms0800::TMS0800;
use chips::tms0800::alu::{ALU, Arg1, Arg2, Dest, Opcode, Oper};
use chips::tms0800::control::ControlUnit;

/// A small micro-operation table: enough opcodes to exercise addition,
/// subtraction, exchange and the digit shifts.
fn opcode_table() -> [Opcode; 32] {
    let nop = Opcode::new(Dest::Discard, Arg1::Zero, Oper::Plus, Arg2::Zero, false);
    let mut table = [nop; 32];
    table[0x01] = Opcode::new(Dest::A, Arg1::A, Oper::Plus, Arg2::K, false);  // A = A + K
    table[0x09] = Opcode::new(Dest::A, Arg1::A, Oper::Minus, Arg2::K, false);  // A = A - K
    table[0x00] = Opcode::new(Dest::A, Arg1::A, Oper::Plus, Arg2::B, false);  // A = A + B
    table[0x13] = Opcode::new(Dest::Discard, Arg1::A, Oper::ExchangeAB, Arg2::Zero, false);
    table[0x14] = Opcode::new(Dest::A, Arg1::Zero, Oper::Shl, Arg2::Zero, false);  // A up a digit
    table[0x17] = Opcode::new(Dest::A, Arg1::Zero, Oper::Shr, Arg2::Zero, false);  // A down a digit
    table[0x1B] = Opcode::new(Dest::A, Arg1::A, Oper::Plus, Arg2::K, true);  // A = A + K (hex)
    table
}

fn constants() -> [u8; 16] {
    let mut table = [0u8; 16];
    table[0] = 7;
    table[1] = 1;
    table[2] = 9;
    table
}

fn full_mask() -> Shifter16<11> {
    Shifter16::new(0x7FF)
}

#[test]
fn serial_add_injects_the_constant_once() {
    let mut alu = ALU::new(opcode_table(), constants());
    // A = A + K, constant seven, every digit selected: the seven lands
    // on the first pass only, later passes add zero.
    let carry = alu.run_cycle(full_mask(), 0x01, 0);
    assert!(!carry);
    assert_eq!(alu.a.read_parallel(), 7);
    // Again: 7 + 7 = 14 in BCD, the decimal carry ripples one digit up.
    let carry = alu.run_cycle(full_mask(), 0x01, 0);
    assert!(!carry);
    assert_eq!(alu.a.read_parallel(), 0x14);
}

#[test]
fn serial_subtract_borrows_through_the_whole_word() {
    let mut alu = ALU::new(opcode_table(), constants());
    // 0 - 1 in eleven-digit BCD: all nines, and the final borrow comes
    // out as the carry.
    let carry = alu.run_cycle(full_mask(), 0x09, 1);
    assert!(carry);
    assert_eq!(alu.a.read_parallel(), 0x99999999999);
}

#[test]
fn hex_base_wraps_at_sixteen() {
    let mut alu = ALU::new(opcode_table(), constants());
    let carry = alu.run_cycle(full_mask(), 0x1B, 2);  // A = 9 (hex add)
    assert!(!carry);
    let carry = alu.run_cycle(full_mask(), 0x1B, 2);  // 9 + 9 = 0x12
    assert!(!carry);
    assert_eq!(alu.a.read_parallel(), 0x12);
}

#[test]
fn empty_mask_is_a_complete_no_op() {
    let mut alu = ALU::new(opcode_table(), constants());
    alu.run_cycle(full_mask(), 0x01, 0);
    let before = alu.a.read_parallel();
    // No digit selected: the add must not happen anywhere, and no carry
    // may appear.
    let carry = alu.run_cycle(Shifter16::new(0), 0x01, 0);
    assert!(!carry);
    assert_eq!(alu.a.read_parallel(), before);
    assert_eq!(alu.b.read_parallel(), 0);
    assert_eq!(alu.c.read_parallel(), 0);
}

#[test]
fn partial_mask_touches_only_selected_digits() {
    let mut alu = ALU::new(opcode_table(), constants());
    // Select only digit position three: the constant lands there.
    let carry = alu.run_cycle(Shifter16::new(0b1000), 0x01, 0);
    assert!(!carry);
    assert_eq!(alu.a.read_parallel(), 0x7000);
}

#[test]
fn exchange_and_shift_move_whole_digits() {
    let mut alu = ALU::new(opcode_table(), constants());
    alu.run_cycle(full_mask(), 0x01, 0);  // A = 7
    alu.run_cycle(full_mask(), 0x13, 0);  // exchange A and B
    assert_eq!(alu.a.read_parallel(), 0);
    assert_eq!(alu.b.read_parallel(), 7);
    alu.run_cycle(full_mask(), 0x01, 1);  // A = 1
    alu.run_cycle(full_mask(), 0x14, 0);  // A up one digit
    assert_eq!(alu.a.read_parallel(), 0x10);
    alu.run_cycle(full_mask(), 0x17, 0);  // back down: the digit returns
    assert_eq!(alu.a.read_parallel(), 0x1);
    alu.run_cycle(full_mask(), 0x17, 0);  // down again: it falls off
    assert_eq!(alu.a.read_parallel(), 0x0);
}

#[test]
fn control_unit_jumps_consume_the_carry() {
    let mut control = ControlUnit::new();
    let ws = Shifter16::new(0);
    // Class zero: jump if no carry.
    let carry = control.run_cycle(ws, 0x123, 0, 0, false);
    assert!(!carry);
    assert_eq!(control.pc, 0x123);
    // Class zero with the carry up: no jump, and the carry is eaten.
    let carry = control.run_cycle(ws, 0x055, 0, 0, true);
    assert!(!carry);
    assert_eq!(control.pc, 0x124);
    // Class one: jump if carry.
    let carry = control.run_cycle(ws, (1 << 9) | 0x078, 1, 0, true);
    assert!(!carry);
    assert_eq!(control.pc, 0x078);
}

/// The chip's ROM words are class<<9 | instruction<<4 | mask.
fn word(class: u16, instruction: u16, mask: u16) -> u16 {
    (class << 9) | (instruction << 4) | mask
}

// The set-only carry behaviors below are patent-inferred, not verified
// against physical silicon: the latch semantics come from the comments
// in the patent filing.
#[test]
fn sticky_carry_survives_everything_but_its_consumers() {
    let mut rom = [0u16; 320];
    rom[0] = word(3, 0x09, 1);  // A = A - 1: borrows, sets the latch
    rom[1] = word(2, 19, 0);  // flag instruction: must not clear it
    rom[2] = word(3, 0x01, 1);  // arithmetic without carry: must not clear it
    rom[3] = word(1, 0, 0) | 0x100;  // jump if carry: consumes it
    let mut word_selects = [0u16; 16];
    word_selects[0] = 0x7FF;
    word_selects[1] = 0x7FF;
    let mut chip = TMS0800::new(rom, opcode_table(), word_selects, constants());

    chip.run_cycle();  // the borrow raises the sticky latch
    assert!(chip.carry);
    chip.run_cycle();  // a flag write leaves it up
    assert!(chip.carry);
    chip.run_cycle();  // a non-borrowing add leaves it up
    assert!(chip.carry);
    chip.run_cycle();  // the carry jump takes it down and branches
    assert!(!chip.carry);
    assert_eq!(chip.control.pc, 0x100);
}

#[test]
fn scan_is_the_one_control_write_to_the_carry() {
    let mut rom = [0u16; 320];
    rom[0] = word(3, 0x09, 1);  // raise the latch
    rom[1] = word(2, 22, 0);  // SCAN with no key down: clears it
    let mut word_selects = [0u16; 16];
    word_selects[0] = 0x7FF;
    word_selects[1] = 0x7FF;
    let mut chip = TMS0800::new(rom, opcode_table(), word_selects, constants());
    chip.run_cycle();
    assert!(chip.carry);
    chip.run_cycle();
    assert!(!chip.carry);
}

#[test]
fn addresses_past_the_rom_read_as_idle_bus() {
    // A jump can aim the nine-bit counter past the 320 words that
    // exist; the fetch answers zero, which decodes as a jump back to
    // word zero, never a fault.
    let mut rom = [0u16; 320];
    rom[0] = word(0, 0, 0) | 400;  // jump if no carry, target 400
    let word_selects = [0u16; 16];
    let mut chip = TMS0800::new(rom, opcode_table(), word_selects, constants());
    chip.run_cycle();
    assert_eq!(chip.control.pc, 400);
    chip.run_cycle();
    assert_eq!(chip.control.pc, 0);
}

#[test]
fn flag_instructions_move_the_flag_registers() {
    let mut rom = [0u16; 320];
    rom[0] = word(2, 20, 0);  // set flag A at every selected position
    rom[1] = word(2, 28, 1);  // toggle flag A there
    let mut word_selects = [0u16; 16];
    word_selects[0] = 0b00000000001;
    word_selects[1] = 0b00000000011;
    let mut chip = TMS0800::new(rom, opcode_table(), word_selects, constants());
    chip.run_cycle();
    assert_eq!(chip.control.fa.read_parallel(), 0b1);
    chip.run_cycle();
    assert_eq!(chip.control.fa.read_parallel(), 0b10);
}
