//! Gates, counters, decoders, indexable registers, shift registers, and
//! the plain storage chips.

use chips::and::AND;
use chips::counter::Counter;
use chips::decoder::SegmentDecoder;
use chips::indexer::{Indexer16, Indexer64};
use chips::nand::NAND;
use chips::or::OR;
use chips::ram::RAM;
use chips::rom::ROM;
use chips::shifter::{Direction, Shifter16, Shifter64};
use chips::mcs4::shifter4003::Shifter;

#[test]
fn gates_compute_bitwise() {
    assert_eq!(AND::and(0b1011, 0b1101), 0b1001);
    assert!(AND::and_bits(true, true));
    assert!(!AND::and_bits(true, false));
    assert_eq!(OR::or(0b1011, 0b1101), 0b1111);
    assert_eq!(NAND::nand(0b1011, 0b1101), !0b1001u8);
}

#[test]
fn counter_wraps_at_its_width() {
    let mut counter: Counter<8> = Counter::new();
    counter.increment();
    assert_eq!(counter.increment(), 2);
    counter.clear();
    for _ in 0..0x100 {
        counter.increment();
    }
    assert_eq!(counter.read(), 0);

    // The four-bit part wraps at sixteen.
    let mut nibble_counter: Counter<4> = Counter::new();
    for _ in 0..17 {
        nibble_counter.increment();
    }
    assert_eq!(nibble_counter.read(), 1);
}

#[test]
fn segment_decoders_differ_on_six_and_nine() {
    let plain = SegmentDecoder::new_s74x47();
    let barred = SegmentDecoder::new_s74x247();
    assert_eq!(plain.decode(0), 0b0111111);
    assert_eq!(plain.decode(6), 0b1111100);
    assert_eq!(barred.decode(6), 0b1111101);
    assert_eq!(plain.decode(9), 0b1100111);
    assert_eq!(barred.decode(9), 0b1101111);
    // A value past the table reads the last entry.
    assert_eq!(plain.decode(200), plain.decode(15));
}

#[test]
fn indexer_reads_back_what_it_stores() {
    let mut regs = Indexer64::new();
    regs.write_nibble(0, 0xA);
    regs.write_nibble(15, 0x5);
    regs.write_nibble(7, 0xF);
    assert_eq!(regs.read_nibble(0), 0xA);
    assert_eq!(regs.read_nibble(15), 0x5);
    assert_eq!(regs.read_nibble(7), 0xF);
    regs.write_bit(1, false);
    assert_eq!(regs.read_nibble(0), 0x8);
    assert!(regs.read_bit(3));

    // Out-of-range indices wrap modulo the register count.
    assert_eq!(regs.read_nibble(16), regs.read_nibble(0));
    assert_eq!(regs.read_bit(64), regs.read_bit(0));

    let mut small = Indexer16::new();
    small.write_nibble(2, 0x9);
    assert_eq!(small.read_nibble(2), 0x9);
    assert_eq!(small.read_nibble(6), 0x9);
    small.write_bit(0, true);
    assert!(small.read_bit(16));
}

#[test]
fn shifter_round_trips_digits_through_one_end() {
    // Write eleven digits in at one end, read the same end over eleven
    // further shifts: the digits come back in order.
    let digits: [u8; 11] = [1, 2, 3, 4, 5, 6, 7, 8, 9, 0xA, 0];
    let mut register: Shifter64<44> = Shifter64::new(0);
    for d in digits {
        register.shift_with_nibble(Direction::Left, d);
    }
    let mut read_back: Vec<u8> = Vec::new();
    for _ in 0..11 {
        read_back.push(register.read_nibble(Direction::Left));
        register.shift_with_nibble(Direction::Left, 0);
    }
    assert_eq!(read_back, digits.to_vec());
}

#[test]
fn shifter_round_trips_digits_through_the_other_end() {
    // The mirror trip: write at the top end, read the bottom end over
    // eleven further shifts.
    let digits: [u8; 11] = [3, 1, 4, 1, 5, 9, 2, 6, 5, 3, 5];
    let mut register: Shifter64<44> = Shifter64::new(0);
    for d in digits {
        register.shift_with_nibble(Direction::Right, d);
    }
    let mut read_back: Vec<u8> = Vec::new();
    for _ in 0..11 {
        read_back.push(register.read_nibble(Direction::Right));
        register.shift_with_nibble(Direction::Right, 0);
    }
    assert_eq!(read_back, digits.to_vec());
}

#[test]
fn shifter_moves_bits_both_ways() {
    let mut bits: Shifter16<11> = Shifter16::new(0);
    bits.shift_with_bit(Direction::Right, true);
    assert_eq!(bits.read_parallel(), 0b100_0000_0000);
    assert!(bits.read_bit(Direction::Left));
    assert!(!bits.read_bit(Direction::Right));
    let out = bits.read_and_shift_bit(Direction::Left, false);
    assert!(out);
    assert_eq!(bits.read_parallel(), 0);

    let mut wide: Shifter64<44> = Shifter64::new(0);
    wide.shift_with_bit(Direction::Left, true);
    assert_eq!(wide.read_parallel(), 1);
    assert_eq!(wide.read_nibble(Direction::Right), 1);
}

#[test]
fn pulse_clocked_shifter_moves_only_on_the_falling_edge() {
    let mut chip = Shifter::new();
    // High pulse: the write is ignored.
    chip.read_write_serial(Direction::Left, true, true);
    assert_eq!(chip.read_parallel(), 0);
    // Falling edge: the bit goes in.
    chip.read_write_serial(Direction::Left, true, false);
    assert_eq!(chip.read_parallel(), 1);
}

#[test]
fn rom_reads_bytes_and_words() {
    let mut image = [0u8; 256];
    image[1] = 20;
    image[2] = 0x34;
    image[3] = 0x12;
    let rom: ROM<256> = ROM::new(image);
    assert_eq!(rom.read::<u8>(1), 20);
    assert_eq!(rom.read::<u16>(2), 0x1234);
}

#[test]
fn ram_stores_bytes_words_and_bits() {
    let mut ram: RAM<200> = RAM::new();
    ram.write(123, 8u8);
    assert_eq!(ram.read::<u8>(123), 8);
    ram.write(10, 0xBEEFu16);
    assert_eq!(ram.read::<u16>(10), 0xBEEF);
    assert_eq!(ram.read::<u8>(10), 0xEF);
    assert_eq!(ram.read::<u8>(11), 0xBE);

    ram.write_bit(0, true);
    ram.write_bit(9, true);
    assert!(ram.read_bit(0));
    assert!(ram.read_bit(9));
    assert!(!ram.read_bit(1));
    assert_eq!(ram.read::<u8>(0), 1);
    assert_eq!(ram.read::<u8>(1), 2);
    ram.write_bit(0, false);
    assert!(!ram.read_bit(0));

    let mut fresh: RAM<4> = RAM::new();
    fresh.set_total([1, 2, 3, 4]);
    assert_eq!(fresh.read::<u8>(0), 1);
    assert_eq!(fresh.read::<u8>(3), 4);
}
