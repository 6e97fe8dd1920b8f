//! The MCS-4 evaluation kit's self-test program, run on both 4004
//! models: reaching offset 0x050 is the program's documented success
//! marker.

use chips::cpu::i4004::{DesignatedIndex, I4004, ROMAddress, IO};
use chips::mcs4::Board;

/// The evaluation kit's self-test program.
fn test_rom() -> Vec<u8> {
    let mut binary = vec![
        0xE2, 0xCF, 0x2A, 0x41, 0x50, 0xDE, 0x50, 0xE5, 0x30, 0xFE, 0x50, 0xEE, 0x50, 0xE5, 0x50,
        0xEE, 0x50, 0xE5, 0x2A, 0x42, 0x5F, 0xFF, 0x57, 0x1A, 0x48, 0x24, 0x5F, 0xFF, 0x53, 0x20,
        0x4C, 0x18, 0x5F, 0xFF, 0x4F, 0xFF, 0x22, 0xCB, 0xF0, 0x2B, 0xE1, 0x21, 0xE0, 0xF2, 0x71,
        0x29, 0xE4, 0xF2, 0xE5, 0xF2, 0xE6, 0xF2, 0xE7, 0x60, 0x72, 0x29, 0xFA, 0x50, 0xF7, 0x73,
        0x39, 0x25, 0xFA, 0xF5, 0xE1, 0x1A, 0x47, 0x1C, 0x4F, 0x19, 0x50, 0x12, 0x50, 0x14, 0x52,
        0x11, 0x43, 0x40, 0x45, 0xF0, 0x40, 0x3F, 0x2C, 0x66, 0x2E, 0x59, 0x20, 0x00, 0x3D, 0x21,
        0x84, 0x85, 0xE0, 0xF6, 0x74, 0x59, 0x75, 0x59, 0x50, 0xDE, 0x40, 0x75, 0x50, 0xDE, 0x21,
        0x94, 0x95, 0xE0, 0xF0, 0x74, 0x68, 0x75, 0x68, 0xF0, 0x2B, 0xE1, 0x3F, 0xFA, 0x68, 0xA8,
        0xE0, 0xB9, 0xA9, 0xE2, 0xFB, 0xE0, 0x74, 0x75, 0xF0, 0xF8, 0xE0, 0xFC, 0xE0, 0x74, 0x81,
        0xF0, 0xFB, 0xE0, 0xF2, 0x74, 0x88, 0xDF, 0xE0, 0xF7, 0xE0, 0x1C, 0x8D, 0xF0, 0x2B, 0xE1,
        0xDF, 0xF9, 0xE0, 0xFA, 0xF9, 0xE0, 0xF3, 0xF6, 0xE0, 0x74, 0x9C, 0x24, 0xC0, 0x21, 0xE9,
        0x71, 0xA3, 0xEC, 0xED, 0xEE, 0xEF, 0x60, 0x74, 0xA3, 0x20, 0x20, 0x22, 0x30, 0x21, 0xE8,
        0x61, 0x23, 0xE8, 0xE0, 0x73, 0xB2, 0x20, 0x00, 0x20, 0x10, 0xF0, 0x2B, 0xE1, 0x21, 0xEB,
        0x61, 0x23, 0xEB, 0xE0, 0x73, 0xC1, 0x2B, 0xEC, 0x14, 0xD7, 0xD8, 0x21, 0xE1, 0xF0, 0x2B,
        0xE4, 0x19, 0xD3, 0x40, 0x20, 0xF2, 0xE4, 0xD2, 0x21, 0xE1, 0x40, 0x20, 0x2B, 0xAB, 0xF1,
        0xE1, 0xF5, 0xBB, 0xC0, 0x21, 0x23, 0x25, 0x27, 0x29, 0x2B, 0x2D, 0x2F, 0xC0, 0x32, 0x34,
        0x36, 0x38, 0x3A, 0x3C, 0x3E, 0x30, 0xC0, 0xA4, 0xF5, 0xFD, 0xB4, 0xEA, 0xC0, 0x00, 0xFF,
        0x00,
    ];
    binary.resize(0x100, 0xFF);
    binary
}

/// A plain board for the single-call engine: one ROM page, two RAM
/// chips of four registers each, one ROM port, one RAM port per chip.
struct KitBoard {
    rom: Vec<u8>,
    rom_ports: [u8; 16],
    ram_characters: [[[u8; 16]; 4]; 4],
    ram_status: [[[u8; 4]; 4]; 4],
    ram_ports: [u8; 4],
}

impl KitBoard {
    fn new(rom: Vec<u8>) -> KitBoard {
        KitBoard {
            rom,
            rom_ports: [0; 16],
            ram_characters: [[[0; 16]; 4]; 4],
            ram_status: [[[0; 4]; 4]; 4],
            ram_ports: [0; 4],
        }
    }

    fn ram_chip(command_control: u8, designated_index: DesignatedIndex) -> usize {
        let bank: usize = match command_control {
            0b000 => 0,
            0b001 => 1,
            0b010 => 2,
            0b100 => 3,
            _ => 0,
        };
        // Only one bank's worth of chips exists on the kit: wrap.
        ((designated_index.chip_index as usize) | (bank << 2)) % 4
    }
}

impl IO for KitBoard {
    fn read_rom_byte(&self, address: ROMAddress) -> u8 {
        // One ROM chip on the kit: the chip select wraps onto it.
        let index = (address.offset as usize) % self.rom.len();
        self.rom[index]
    }

    fn read_ram_character(&self, command_control: u8, designated_index: DesignatedIndex) -> u8 {
        let chip = KitBoard::ram_chip(command_control, designated_index);
        self.ram_characters[chip][designated_index.reg_index as usize][designated_index.char_index
            as usize]
    }

    fn write_ram_character(
        &mut self,
        command_control: u8,
        designated_index: DesignatedIndex,
        value: u8,
    ) {
        let chip = KitBoard::ram_chip(command_control, designated_index);
        self.ram_characters[chip][designated_index.reg_index as usize][designated_index.char_index
            as usize] = value;
    }

    fn read_ram_status(
        &self,
        command_control: u8,
        designated_index: DesignatedIndex,
        status_index: u8,
    ) -> u8 {
        let chip = KitBoard::ram_chip(command_control, designated_index);
        self.ram_status[chip][designated_index.reg_index as usize][(status_index as usize) % 4]
    }

    fn write_ram_status(
        &mut self,
        command_control: u8,
        designated_index: DesignatedIndex,
        status_index: u8,
        value: u8,
    ) {
        let chip = KitBoard::ram_chip(command_control, designated_index);
        self.ram_status[chip][designated_index.reg_index as usize][(status_index as usize) % 4] =
            value;
    }

    fn write_ram_ports(&mut self, command_control: u8, designated_index: DesignatedIndex, value: u8) {
        let chip = KitBoard::ram_chip(command_control, designated_index);
        self.ram_ports[chip] = value;
    }

    fn read_rom_ports(&self, designated_index: DesignatedIndex) -> u8 {
        let port = ((designated_index.chip_index << 2) | designated_index.reg_index) as usize;
        self.rom_ports[port % 16]
    }

    fn write_rom_ports(&mut self, designated_index: DesignatedIndex, value: u8) {
        let port = ((designated_index.chip_index << 2) | designated_index.reg_index) as usize;
        self.rom_ports[port % 16] = value;
    }
}

#[test]
fn mcs4_test() {
    let mut board = KitBoard::new(test_rom());
    let mut cpu = I4004::new();
    let mut cycles = 0;
    while cycles < 500 {
        cycles += 1;
        cpu.run_cycle(&mut board).expect("the self-test program is all legal machine code");
        if cpu.get_pc() & 0xFF == 0x50 {
            return;  // The documented success marker.
        }
    }
    panic!("Failed to run all parts of test code successfully.");
}

#[test]
fn mcs4_board_reaches_the_success_marker() {
    // The same program on the split-phase model: each call is one clock
    // phase, so a two-byte instruction takes two calls.
    let mut board = Board::new(test_rom(), 2);
    let mut phases = 0;
    while phases < 1000 {
        phases += 1;
        board.run_cycle().expect("the self-test program is all legal machine code");
        if board.cpu.get_pc() & 0xFF == 0x50 {
            return;
        }
    }
    panic!("Failed to run all parts of test code successfully.");
}
