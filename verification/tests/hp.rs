//! The HP classic calculator pair, its packed ROM, and its storage.

use chips::Fault;
use chips::cpu::hp_anr::HP_AnR;
use chips::cpu::hp_cnt::HP_CnT;
use chips::hp_classic::Board;
use chips::ram::hp_ram::HP_RAM;
use chips::rom::HP_ROM;
use chips::shifter::{Shifter16, Shifter64};

fn full_ws() -> Shifter16<14> {
    Shifter16::new(0x3FFF)
}

fn register(value: u64) -> Shifter64<56> {
    Shifter64::new(value)
}

/// Type-2 opcodes carry their operation code at bits five and up.
fn type2(code: u16) -> u16 {
    (code << 5) | 0b10
}

/// Type-5 opcodes put their instruction above the 1000 signature.
fn type5(instruction: u16) -> u16 {
    (instruction << 4) | 0b1000
}

#[test]
fn serial_bcd_add_and_subtract() {
    let mut anr = HP_AnR::new();
    anr.a = register(0x005);
    anr.c = register(0x038);
    // A = A + C over the whole word: 5 + 38 = 43.
    anr.run_cycle(type2(0b11110), full_ws(), register(0)).unwrap();
    assert_eq!(anr.a.read_parallel(), 0x043);
    assert!(anr.next_carry);
    // A = A - C: 43 - 38 = 5.
    anr.run_cycle(type2(0b11010), full_ws(), register(0)).unwrap();
    assert_eq!(anr.a.read_parallel(), 0x005);
    // A = A - C again: 5 - 38 borrows through all fourteen digits, and
    // the recorded carry line reads low (carries travel inverted).
    anr.run_cycle(type2(0b11010), full_ws(), register(0)).unwrap();
    assert_eq!(anr.a.read_parallel(), 0x99999999999967);
    assert!(!anr.next_carry);
}

#[test]
fn empty_word_select_leaves_the_registers_and_arms_the_carry() {
    let mut anr = HP_AnR::new();
    anr.a = register(0x123);
    anr.b = register(0x456);
    anr.c = register(0x789);
    anr.next_carry = false;
    // A subtraction that borrows everywhere under a full mask touches
    // nothing under an empty one: every digit only rotates through.
    anr.run_cycle(type2(0b11010), Shifter16::new(0), register(0)).unwrap();
    assert_eq!(anr.a.read_parallel(), 0x123);
    assert_eq!(anr.b.read_parallel(), 0x456);
    assert_eq!(anr.c.read_parallel(), 0x789);
    assert!(anr.next_carry);
}

#[test]
fn increment_injects_one_only_at_the_first_selected_digit() {
    let mut anr = HP_AnR::new();
    anr.a = register(0x09);
    // A = A + 1: the constant one enters at the lowest selected digit.
    anr.run_cycle(type2(0b11111), full_ws(), register(0)).unwrap();
    assert_eq!(anr.a.read_parallel(), 0x10);
}

#[test]
fn type5_moves_whole_registers() {
    let mut anr = HP_AnR::new();
    anr.c = register(0x111);
    anr.run_cycle(type5(0b010010), full_ws(), register(0)).unwrap();  // push C
    anr.c = register(0x222);
    anr.run_cycle(type5(0b010010), full_ws(), register(0)).unwrap();  // push C
    assert_eq!(anr.d.read_parallel(), 0x222);
    assert_eq!(anr.e.read_parallel(), 0x111);
    anr.run_cycle(type5(0b011010), full_ws(), register(0)).unwrap();  // pop into A
    assert_eq!(anr.a.read_parallel(), 0x222);
    assert_eq!(anr.d.read_parallel(), 0x111);

    // Exchange C and M, then recall M.
    anr.c = register(0xABC);
    anr.run_cycle(type5(0b001010), full_ws(), register(0)).unwrap();
    assert_eq!(anr.m.read_parallel(), 0xABC);
    anr.run_cycle(type5(0b101010), full_ws(), register(0)).unwrap();
    assert_eq!(anr.c.read_parallel(), 0xABC);
}

#[test]
fn load_constant_streams_into_selected_digits() {
    let mut anr = HP_AnR::new();
    // Constant nine into digit zero only.
    let instruction = (9 << 2) | 0b01;
    anr.run_cycle(type5(instruction), Shifter16::new(0b1), register(0)).unwrap();
    assert_eq!(anr.c.read_parallel(), 9);
}

#[test]
fn type5_reserved_encoding_reports_not_supported() {
    let mut anr = HP_AnR::new();
    let err = anr.run_cycle(type5(0b000111), full_ws(), register(0));
    assert_eq!(err, Err(Fault::NotSupported));
}

#[test]
fn control_chip_jumps_calls_and_returns() {
    let mut cnt = HP_CnT::new();
    // A call saves the stepped counter.
    let ws = cnt.run_cycle((0x42 << 2) | 0b01, true).unwrap();
    assert_eq!(ws, 0);
    assert_eq!(cnt.next_address, 0x42);
    assert_eq!(cnt.saved_address, 1);
    // The unconditional-looking jump still wants both carry lines high;
    // the chip's own starts low and re-arms after every word.
    let _ = cnt.run_cycle((0x10 << 2) | 0b11, true).unwrap();
    assert_eq!(cnt.next_address, 0x10);
    // A return restores the saved counter.
    let _ = cnt.run_cycle(0b01100 << 2, true).unwrap();
    assert_eq!(cnt.next_address, 1);
}

#[test]
fn control_chip_tests_status_and_pointer() {
    let mut cnt = HP_CnT::new();
    // Set status five, test it: the test arms the jump only when the
    // bit is clear, and carries read inverted.
    cnt.run_cycle((5 << 6) | (0b0001 << 2), true).unwrap();
    assert!(cnt.status[5]);
    cnt.run_cycle((5 << 6) | (0b0101 << 2), true).unwrap();
    assert!(!cnt.carry);
    cnt.run_cycle((5 << 6) | (0b1001 << 2), true).unwrap();
    assert!(!cnt.status[5]);

    // Pointer: load, compare, step down.
    cnt.run_cycle((7 << 6) | (0b0011 << 2), true).unwrap();
    assert_eq!(cnt.pointer, 7);
    cnt.run_cycle((7 << 6) | (0b1011 << 2), true).unwrap();
    assert!(!cnt.carry);  // equal: no jump armed
    cnt.run_cycle((0b0111 << 2), true).unwrap();
    assert_eq!(cnt.pointer, 6);

    // The word selects the pointer shapes.
    let ws = cnt.run_cycle(0b10, true).unwrap();
    assert_eq!(ws, 1 << 6);
    let ws = cnt.run_cycle(0b100_10, true).unwrap();
    assert_eq!(ws, 0b1111111);
}

#[test]
fn control_chip_takes_the_key_code_as_an_address() {
    let mut cnt = HP_CnT::new();
    cnt.current_keypress = Some(0o30);
    cnt.run_cycle((0b1_10100 << 2), true).unwrap();
    assert_eq!(cnt.next_address, 0o30);
    // The external entry path is recognized and reported unsupported.
    let err = cnt.run_cycle(0b0_10100 << 2, true);
    assert_eq!(err, Err(Fault::NotSupported));
}

#[test]
fn rom_unpacks_ten_bit_words_across_byte_boundaries() {
    let mut packed = [0u8; 320];
    // Word zero: 0b01_1100_1110 = 0x0E low bits in byte zero, the top
    // two bits at the bottom of byte one.
    packed[0] = 0b1100_1110;
    packed[1] = 0b0000_0001;
    // Word one sits at bit ten: its low six bits fill byte one's top.
    packed[1] |= 0b1010_10 << 2;
    packed[2] = 0b0010_1010 >> 4;
    let mut rom = HP_ROM::new(packed, 0);
    let (word0, ws0) = rom.read(0);
    assert_eq!(word0, 0b01_1100_1110);
    // Its low five bits read 0b01110: the entire-word mask.
    assert_eq!(ws0.read_parallel(), 0b11111111111111);
    let (word1, _) = rom.read(1);
    assert_eq!(word1, 0b00_1010_1010);
}

#[test]
fn rom_select_re_aims_the_bus() {
    let packed = [0u8; 320];
    let mut rom0 = HP_ROM::new(packed, 0);
    let mut rom1 = HP_ROM::new(packed, 1);
    // Select ROM one: chip zero lets go at once.
    let select_one = (1 << 7) | 0b0010000;
    rom0.decode(select_one).unwrap();
    rom1.decode(select_one).unwrap();
    assert!(!rom0.output_enable);
    assert!(rom1.output_enable);
    // A delayed select takes hold only after the next read.
    let delayed_zero = 0b1110100;
    rom0.decode(delayed_zero).unwrap();
    assert!(!rom0.output_enable);
    rom0.read(0);
    assert!(rom0.output_enable);
    // The delayed group path is recognized and reported unsupported.
    let err = rom0.decode((1 << 9) | 0b0110100);
    assert_eq!(err, Err(Fault::NotSupported));
}

#[test]
fn storage_latches_an_address_and_stores_c() {
    let mut ram: HP_RAM<10> = HP_RAM::new();
    // The address rides in the digit under the mantissa sign.
    let c = register(0x3_000000000000);
    ram.run_cycle(0b1001110000, c);
    assert_eq!(ram.addr, 3);
    let value = register(0x12345);
    ram.run_cycle(0b1011110000, value);
    let out = ram.run_cycle(0, register(0));
    assert_eq!(out.read_parallel(), 0x12345);
}

#[test]
fn storage_answers_blank_past_its_registers() {
    let mut ram: HP_RAM<2> = HP_RAM::new();
    // Address nine: no such register on this part. The write is
    // swallowed and the read answers blank, as absent hardware would.
    let c = register(0x9_000000000000);
    ram.run_cycle(0b1001110000, c);
    assert_eq!(ram.addr, 9);
    ram.run_cycle(0b1011110000, register(0x777));
    let out = ram.run_cycle(0, register(0));
    assert_eq!(out.read_parallel(), 0);
}

#[test]
fn board_runs_a_packed_program() {
    // One ROM chip of no-operation words: the counter walks forward.
    let packed = vec![0u8; 320];
    let mut board: Board<10> = Board::new(packed);
    board.run_cycle().unwrap();
    board.run_cycle().unwrap();
    assert_eq!(board.cnt.next_address, 2);
}
