//! The Fairchild F8 pair: the 3850 CPU running against the in-package
//! program storage of the 3859, and the 3851 storage chip itself.

use chips::Fault;
use chips::cpu::f3859::F3859;
use chips::rom::F3851;

fn program(bytes: &[u8]) -> [u8; 1024] {
    let mut image = [0u8; 1024];
    image[..bytes.len()].copy_from_slice(bytes);
    image
}

#[test]
fn immediates_arithmetic_and_memory() {
    let mut rom = program(&[
        0x20, 0x42,        // LI 0x42
        0x24, 0x01,        // AI 0x01
        0x2A, 0x00, 0x20,  // DCI 0x0020
        0x16,              // LM
        0x1F,              // INC
    ]);
    rom[0x20] = 0x99;
    let mut chip = F3859::new(rom);
    chip.run_cycle().unwrap();
    assert_eq!(chip.cpu.acc, 0x42);
    chip.run_cycle().unwrap();
    assert_eq!(chip.cpu.acc, 0x43);
    assert!(!chip.cpu.zero);
    assert!(!chip.cpu.carry);
    chip.run_cycle().unwrap();
    chip.run_cycle().unwrap();
    assert_eq!(chip.cpu.acc, 0x99);
    chip.run_cycle().unwrap();
    assert_eq!(chip.cpu.acc, 0x9A);
}

#[test]
fn scratchpad_and_isar_addressing() {
    let mut chip = F3859::new(program(&[
        0x62,              // LISU 2
        0x6B,              // LISL 3
        0x0A,              // LR A, IS
        0x51,              // LR R1, A
        0x41,              // LR A, R1
    ]));
    chip.run_cycle().unwrap();
    chip.run_cycle().unwrap();
    assert_eq!(chip.cpu.isar, 0b010_011);
    chip.run_cycle().unwrap();
    assert_eq!(chip.cpu.acc, 0b010_011);
    chip.run_cycle().unwrap();
    assert_eq!(chip.cpu.regs[1], 0b010_011);
    chip.run_cycle().unwrap();
    assert_eq!(chip.cpu.acc, 0b010_011);
}

#[test]
fn branches_peek_their_displacement() {
    let mut chip = F3859::new(program(&[
        0x70,              // LIS 0 (accumulator zero)
        0x24, 0x00,        // AI 0: sets the zero flag
        0x84, 0x03,        // BZ +3: taken, lands on the LIS 5
        0x70,              // skipped
        0x70, 0x75,        // LIS 5 at offset 7
    ]));
    chip.run_cycle().unwrap();
    chip.run_cycle().unwrap();
    assert!(chip.cpu.zero);
    chip.run_cycle().unwrap();  // the taken branch
    assert_eq!(chip.psu.pc0, 7);
    chip.run_cycle().unwrap();
    assert_eq!(chip.cpu.acc, 5);
}

#[test]
fn subroutines_use_the_backup_counter() {
    let mut chip = F3859::new(program(&[
        0x28, 0x00, 0x10,  // PI 0x0010: call
        0x00,
    ]));
    chip.run_cycle().unwrap();
    assert_eq!(chip.psu.pc0, 0x10);
    assert_eq!(chip.psu.pc1, 3);
}

#[test]
fn decimal_add_follows_the_programming_guide() {
    // The guide's recipe: pre-add 0x66, binary add, correct each nibble
    // whose carry stayed low. 0x38 + 0x45: pre-added 0x9E, plus 0x45 is
    // 0xE3 with a nibble carry only; correcting the high nibble by 0xA
    // gives 0x83, decimal 38 + 45 = 83.
    let mut rom = program(&[
        0x20, 0x9E,        // LI 0x38 + 0x66
        0x2A, 0x00, 0x20,  // DCI 0x0020
        0x89,              // AMD
    ]);
    rom[0x20] = 0x45;
    let mut chip = F3859::new(rom);
    chip.run_cycle().unwrap();
    chip.run_cycle().unwrap();
    chip.run_cycle().unwrap();
    assert_eq!(chip.cpu.acc, 0x83);
}

#[test]
fn complement_shifts_link_and_flag_transfers() {
    let mut chip = F3859::new(program(&[
        0x20, 0xA5,        // LI 0xA5
        0x18,              // COM
        0x13,              // SL 1
        0x14,              // SR 4
        0x15,              // SL 4
        0x12,              // SR 1
        0x1B,              // EI
        0x1E,              // LR J, W
        0x1A,              // DI
        0x1F,              // INC
        0x19,              // LNK
        0x1D,              // LR W, J
    ]));
    chip.run_cycle().unwrap();
    chip.run_cycle().unwrap();
    assert_eq!(chip.cpu.acc, 0x5A);
    assert!(!chip.cpu.negative);
    chip.run_cycle().unwrap();
    assert_eq!(chip.cpu.acc, 0xB4);
    assert!(chip.cpu.negative);
    chip.run_cycle().unwrap();
    assert_eq!(chip.cpu.acc, 0x0B);
    chip.run_cycle().unwrap();
    assert_eq!(chip.cpu.acc, 0xB0);
    chip.run_cycle().unwrap();
    assert_eq!(chip.cpu.acc, 0x58);
    chip.run_cycle().unwrap();
    assert!(chip.cpu.interrupt);
    chip.run_cycle().unwrap();
    // Only the interrupt bit was up when the flags were saved.
    assert_eq!(chip.cpu.regs[9], 0x10);
    chip.run_cycle().unwrap();
    assert!(!chip.cpu.interrupt);
    chip.run_cycle().unwrap();
    assert_eq!(chip.cpu.acc, 0x59);
    chip.run_cycle().unwrap();
    // No carry was pending, so the link adds nothing.
    assert_eq!(chip.cpu.acc, 0x59);
    chip.run_cycle().unwrap();
    // The saved flag byte comes back: the interrupt bit alone.
    assert!(chip.cpu.interrupt);
    assert!(!chip.cpu.carry);
    assert!(!chip.cpu.zero);
}

#[test]
fn scratchpad_decrement_steps_the_pointer() {
    let mut chip = F3859::new(program(&[
        0x64,              // LISU 4
        0x3D,              // DS through S, stepping the pointer up
        0x3E,              // DS through S, stepping the pointer down
        0x3C,              // DS through S, pointer untouched
        0x6F,              // LISL 7
        0x3D,              // DS: the low octal digit wraps to zero
    ]));
    chip.run_cycle().unwrap();
    assert_eq!(chip.cpu.isar, 0b100_000);
    chip.run_cycle().unwrap();
    assert_eq!(chip.cpu.regs[32], 0xFF);
    assert_eq!(chip.cpu.isar, 33);
    chip.run_cycle().unwrap();
    assert_eq!(chip.cpu.regs[33], 0xFF);
    assert_eq!(chip.cpu.isar, 32);
    chip.run_cycle().unwrap();
    assert_eq!(chip.cpu.regs[32], 0xFE);
    assert_eq!(chip.cpu.isar, 32);
    chip.run_cycle().unwrap();
    assert_eq!(chip.cpu.isar, 0b100_111);
    chip.run_cycle().unwrap();
    assert_eq!(chip.cpu.regs[39], 0xFF);
    assert_eq!(chip.cpu.isar, 0b100_000);
}

#[test]
fn accumulator_rows_against_the_scratchpad() {
    let mut chip = F3859::new(program(&[
        0x75,              // LIS 5
        0x50,              // LR R0, A
        0x73,              // LIS 3
        0xE0,              // XS R0
        0xF0,              // NS R0
        0xC0,              // AS R0
        0xD0,              // ASD R0
    ]));
    for _ in 0..3 {
        chip.run_cycle().unwrap();
    }
    chip.run_cycle().unwrap();
    assert_eq!(chip.cpu.acc, 6);  // 3 xor 5
    chip.run_cycle().unwrap();
    assert_eq!(chip.cpu.acc, 4);  // 6 and 5
    chip.run_cycle().unwrap();
    assert_eq!(chip.cpu.acc, 9);  // 4 plus 5
    chip.run_cycle().unwrap();
    // Decimal add without the pre-added 0x66: 9 + 5 = 0x0E in binary,
    // neither nibble carried, so each takes the 0xA correction with
    // its own carry suppressed: high 0 + 0xA = 0xA, low 0xE + 0xA = 8.
    assert_eq!(chip.cpu.acc, 0xA8);
}

#[test]
fn port_traffic_reaches_past_the_package() {
    let mut chip = F3859::new(program(&[0xB4]));  // OUTS 4
    assert_eq!(chip.run_cycle(), Err(Fault::NotSupported));
}

#[test]
fn bytes_outside_the_decode_space_are_refused() {
    let mut chip = F3859::new(program(&[0x2D]));
    assert_eq!(chip.run_cycle(), Err(Fault::IllegalOpcode));
    let mut chip = F3859::new(program(&[0x3F]));  // DS through selector 15
    assert_eq!(chip.run_cycle(), Err(Fault::IllegalOpcode));
}

#[test]
fn storage_chip_answers_only_for_its_page_and_ports() {
    let mut data = [0u8; 1024];
    data[0] = 0xAB;
    data[1] = 0xCD;
    let mut psu = F3851::new(data, 1, 1);  // page 1: bytes 1024..2047
    // The counter starts at zero, outside our page: the bus reads zero,
    // the counter advances anyway.
    assert_eq!(psu.next_code(), 0);
    psu.jump(1024, false);
    assert_eq!(psu.next_code(), 0xAB);
    assert_eq!(psu.next_code(), 0xCD);

    // Ports: window one covers ports four and up, its last left out of
    // the select comparison, as the original logic leaves it out.
    psu.write_port(4, 0x55);
    assert_eq!(psu.read_port(4), 0x55);
    psu.write_port(2, 0x77);
    assert_eq!(psu.read_port(2), 0);
    assert_eq!(psu.read_port(7), 0);

    // The two data counters exchange.
    psu.jump_relative(-1);
    assert_eq!(psu.pc0, 1025);
    psu.swap_dc();
    psu.add_dc0(5);
    assert_eq!(psu.dc0, 5);
    psu.swap_dc();
    assert_eq!(psu.dc0, 0);
    assert_eq!(psu.dc1, 5);
}
