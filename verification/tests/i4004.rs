//! Single instructions of the 4004, on both the single-call and the
//! split-phase model.

use chips::Fault;
use chips::cpu::i4004::{DesignatedIndex, I4004, ROMAddress, IO};
use chips::mcs4::cpu4004::{CPU, ContinueFrom};
use chips::mcs4::{Byte, ExecuteOut};

/// A board that answers code from a small image and records RAM
/// character traffic in one register.
struct MiniBoard {
    rom: Vec<u8>,
    characters: [u8; 16],
}

impl MiniBoard {
    fn new(rom: Vec<u8>) -> MiniBoard {
        MiniBoard { rom, characters: [0; 16] }
    }
}

impl IO for MiniBoard {
    fn read_rom_byte(&self, address: ROMAddress) -> u8 {
        self.rom[(address.offset as usize) % self.rom.len()]
    }

    fn read_ram_character(&self, _cc: u8, designated_index: DesignatedIndex) -> u8 {
        self.characters[designated_index.char_index as usize]
    }

    fn write_ram_character(&mut self, _cc: u8, designated_index: DesignatedIndex, value: u8) {
        self.characters[designated_index.char_index as usize] = value;
    }

    fn read_ram_status(&self, _cc: u8, _di: DesignatedIndex, _si: u8) -> u8 {
        0
    }

    fn write_ram_status(&mut self, _cc: u8, _di: DesignatedIndex, _si: u8, _value: u8) {
    }

    fn write_ram_ports(&mut self, _cc: u8, _di: DesignatedIndex, _value: u8) {
    }

    fn read_rom_ports(&self, _di: DesignatedIndex) -> u8 {
        0
    }

    fn write_rom_ports(&mut self, _di: DesignatedIndex, _value: u8) {
    }
}

#[test]
fn accumulator_arithmetic_and_the_daa_quirk() {
    // LDM 8; IAC; DAA. The patent-era note holds here too: decimal
    // adjust sets the carry when the add overflows the digit, and
    // leaves it alone otherwise — it never clears it.
    let mut board = MiniBoard::new(vec![0xD8, 0xF2, 0xFB, 0xFA, 0xFB, 0x00]);
    let mut cpu = I4004::new();
    cpu.run_cycle(&mut board).unwrap();  // LDM 8
    cpu.run_cycle(&mut board).unwrap();  // IAC: acc nine, no carry
    assert_eq!(cpu.acc, 9);
    assert!(!cpu.carry);
    cpu.run_cycle(&mut board).unwrap();  // DAA on nine: unchanged
    assert_eq!(cpu.acc, 9);
    assert!(!cpu.carry);
    cpu.run_cycle(&mut board).unwrap();  // STC
    cpu.run_cycle(&mut board).unwrap();  // DAA with carry: adds six
    assert_eq!(cpu.acc, 0xF);
    // The adjusted digit stayed inside four bits: the carry is NOT
    // cleared, only ever set.
    assert!(cpu.carry);
}

#[test]
fn keyboard_process_maps_one_hot_bits() {
    let mut board = MiniBoard::new(vec![0xD4, 0xFC, 0xD7, 0xFC, 0x00]);
    let mut cpu = I4004::new();
    cpu.run_cycle(&mut board).unwrap();  // LDM 0b0100
    cpu.run_cycle(&mut board).unwrap();  // KBP
    assert_eq!(cpu.acc, 3);
    cpu.run_cycle(&mut board).unwrap();  // LDM 0b0111: not one-hot
    cpu.run_cycle(&mut board).unwrap();  // KBP
    assert_eq!(cpu.acc, 0xF);
}

#[test]
fn isz_loops_until_the_register_wraps() {
    // FIM R0R1 = 0xE0; ISZ R1, back to the ISZ itself.
    let mut board = MiniBoard::new(vec![0x20, 0xE0, 0x71, 0x02, 0x00]);
    let mut cpu = I4004::new();
    cpu.run_cycle(&mut board).unwrap();  // FIM: R0 = 0xE, R1 = 0
    let mut steps = 0;
    loop {
        cpu.run_cycle(&mut board).unwrap();  // ISZ R1
        steps += 1;
        if cpu.get_pc() == 4 {
            break;
        }
        assert_eq!(cpu.get_pc(), 2);
    }
    // Sixteen increments until R1 wraps to zero and falls through.
    assert_eq!(steps, 16);
}

#[test]
fn src_and_ram_traffic_use_the_designated_index() {
    // FIM R0R1 = 0x03 (chip 0, register 0, character 3); SRC R0R1;
    // LDM 0xA; WRM; CLB; RDM.
    let mut board = MiniBoard::new(vec![0x20, 0x03, 0x21, 0xDA, 0xE0, 0xF0, 0xE9, 0x00]);
    let mut cpu = I4004::new();
    for _ in 0..4 {
        cpu.run_cycle(&mut board).unwrap();
    }
    assert_eq!(cpu.designated_index.char_index, 3);
    assert_eq!(board.characters[3], 0xA);
    cpu.run_cycle(&mut board).unwrap();  // CLB
    assert_eq!(cpu.acc, 0);
    cpu.run_cycle(&mut board).unwrap();  // RDM
    assert_eq!(cpu.acc, 0xA);
}

#[test]
fn illegal_bytes_are_refused() {
    let mut board = MiniBoard::new(vec![0xFF]);
    let mut cpu = I4004::new();
    assert_eq!(cpu.run_cycle(&mut board), Err(Fault::IllegalOpcode));
    let mut board = MiniBoard::new(vec![0xE3]);
    let mut cpu = I4004::new();
    assert_eq!(cpu.run_cycle(&mut board), Err(Fault::IllegalOpcode));
}

#[test]
fn split_phase_instructions_span_two_calls() {
    // JUN 0x234: the first phase only decodes; the second consumes the
    // next byte and performs the far jump.
    let mut cpu = CPU::new();
    let control = cpu.set_opcode(Byte::from_raw(0x42));
    assert!(!control.rom);  // not an IO instruction
    let out = cpu.run_cycle(0).unwrap();
    assert_eq!(out, ExecuteOut::Nothing);
    assert_eq!(cpu.continue_from, ContinueFrom::JumpFar);
    cpu.set_opcode(Byte::from_raw(0x34));
    let out = cpu.run_cycle(0).unwrap();
    assert_eq!(out, ExecuteOut::Nothing);
    assert_eq!(cpu.continue_from, ContinueFrom::StartOver);
    assert_eq!(cpu.get_pc(), 0x234);
}

#[test]
fn split_phase_side_channel_asks_the_board_to_write() {
    // LDM 5, set the opcode for WRM: the engine never writes memory
    // itself; it hands the board the packed write request.
    let mut cpu = CPU::new();
    cpu.set_opcode(Byte::from_raw(0xD5));
    cpu.run_cycle(0).unwrap();
    let control = cpu.set_opcode(Byte::from_raw(0xE0));
    assert!(control.rom);  // the IO instruction raises the lines
    let out = cpu.run_cycle(0).unwrap();
    match out {
        ExecuteOut::Write(byte) => {
            assert_eq!(byte.high, 0x0);  // the WRM modifier
            assert_eq!(byte.low, 5);  // the accumulator
            assert_eq!(byte.raw_value(), 0x05);
        },
        _ => panic!("WRM must broadcast a write"),
    }
}

#[test]
fn split_phase_src_broadcasts_register_control() {
    // FIM R2R3 = 0x47, SRC R2R3.
    let mut cpu = CPU::new();
    cpu.set_opcode(Byte::from_raw(0x22));
    cpu.run_cycle(0).unwrap();
    cpu.set_opcode(Byte::from_raw(0x47));
    cpu.run_cycle(0).unwrap();
    cpu.set_opcode(Byte::from_raw(0x23));
    let out = cpu.run_cycle(0).unwrap();
    assert_eq!(out, ExecuteOut::SRC(Byte { high: 0x4, low: 0x7 }));
}
