//! The 8080 engine, driven by a RAM-backed board.

use chips::cpu::MemoryIO;
use chips::cpu::i8080::{I8080, IO};
use chips::ram::RAM;

/// A board with 64 KB of RAM and two latched ports.
struct Memory {
    ram: RAM<0x10000>,
    last_output: Option<(u8, u8)>,
    input_value: u8,
}

impl Memory {
    fn load(program: &[u8]) -> Memory {
        let mut ram: RAM<0x10000> = RAM::new();
        let mut address = 0;
        for byte in program {
            ram.write(address, *byte);
            address += 1;
        }
        Memory { ram, last_output: None, input_value: 0 }
    }
}

impl MemoryIO for Memory {
    fn read_mem_byte(&self, address: u16) -> u8 {
        self.ram.read::<u8>(address as usize)
    }

    fn read_mem_word(&self, address: u16) -> u16 {
        self.ram.read::<u16>(address as usize)
    }

    fn write_mem_byte(&mut self, address: u16, value: u8) {
        self.ram.write(address as usize, value);
    }

    fn write_mem_word(&mut self, address: u16, value: u16) {
        self.ram.write(address as usize, value);
    }
}

impl IO for Memory {
    fn output(&mut self, port: u8, value: u8) {
        self.last_output = Some((port, value));
    }

    fn input(&mut self, _port: u8) -> u8 {
        self.input_value
    }
}

#[test]
fn immediate_arithmetic_sets_the_flags() {
    // MVI A,0x38; ADI 0x45; DAA; STA 0x0100; HLT-less stop by JMP $.
    let program = [0x3E, 0x38, 0xC6, 0x45, 0x27, 0x32, 0x00, 0x01, 0xC3, 0x08, 0x00];
    let mut memory = Memory::load(&program);
    let mut cpu = I8080::new();
    for _ in 0..4 {
        cpu.run_cycle(&mut memory);
    }
    // Binary 0x38 + 0x45 = 0x7D, decimal adjusted to 0x83.
    assert_eq!(memory.read_mem_byte(0x0100), 0x83);
    assert_eq!(cpu.regs.acc, 0x83);
    assert!(cpu.regs.sign);
    assert!(!cpu.regs.zero);
    assert!(!cpu.regs.carry);
    assert!(cpu.regs.aux);
}

#[test]
fn calls_push_and_returns_pop() {
    // LXI SP,0x2000; CALL 0x0006; <target>: LXI B,0xBEEF; RET at 0x0009
    // never runs because the return address was consumed first.
    let program = [
        0x31, 0x00, 0x20,  // LXI SP
        0xCD, 0x08, 0x00,  // CALL 0x0008
        0x76, 0x76,        // padding
        0x01, 0xEF, 0xBE,  // LXI B,0xBEEF
        0xC9,              // RET
    ];
    let mut memory = Memory::load(&program);
    let mut cpu = I8080::new();
    cpu.run_cycle(&mut memory);  // LXI SP
    assert_eq!(cpu.cpu.sp, 0x2000);
    cpu.run_cycle(&mut memory);  // CALL
    assert_eq!(cpu.cpu.pc, 0x0008);
    assert_eq!(cpu.cpu.sp, 0x1FFE);
    assert_eq!(memory.read_mem_word(0x1FFE), 0x0006);
    cpu.run_cycle(&mut memory);  // LXI B
    assert_eq!(cpu.regs.bc, 0xBEEF);
    cpu.run_cycle(&mut memory);  // RET
    assert_eq!(cpu.cpu.pc, 0x0006);
    assert_eq!(cpu.cpu.sp, 0x2000);
}

#[test]
fn push_psw_and_pop_psw_round_trip() {
    // LXI SP; MVI A,0x55; ADI 0xAB (acc 0, zero, carry, parity even);
    // PUSH PSW; MVI A,0x12; POP PSW.
    let program = [
        0x31, 0x00, 0x20,  // LXI SP,0x2000
        0x3E, 0x55,        // MVI A,0x55
        0xC6, 0xAB,        // ADI 0xAB
        0xF5,              // PUSH PSW
        0x3E, 0x12,        // MVI A,0x12
        0xF1,              // POP PSW
    ];
    let mut memory = Memory::load(&program);
    let mut cpu = I8080::new();
    for _ in 0..6 {
        cpu.run_cycle(&mut memory);
    }
    assert_eq!(cpu.regs.acc, 0x00);
    assert!(cpu.regs.zero);
    assert!(cpu.regs.carry);
    assert!(cpu.regs.parity);
    assert!(!cpu.regs.sign);
    assert!(cpu.regs.aux);
}

#[test]
fn rotates_and_conditions_follow_the_accumulator() {
    // MVI A,0x81; RLC; JC 0x0010.
    let program = [0x3E, 0x81, 0x07, 0xDA, 0x10, 0x00];
    let mut memory = Memory::load(&program);
    let mut cpu = I8080::new();
    cpu.run_cycle(&mut memory);
    cpu.run_cycle(&mut memory);
    assert_eq!(cpu.regs.acc, 0x03);
    assert!(cpu.regs.carry);
    cpu.run_cycle(&mut memory);
    assert_eq!(cpu.cpu.pc, 0x0010);
}

#[test]
fn moves_reach_memory_through_hl() {
    // LXI H,0x0200; MVI M,0xAA; MOV B,M.
    let program = [0x21, 0x00, 0x02, 0x36, 0xAA, 0x46];
    let mut memory = Memory::load(&program);
    let mut cpu = I8080::new();
    for _ in 0..3 {
        cpu.run_cycle(&mut memory);
    }
    assert_eq!(memory.read_mem_byte(0x0200), 0xAA);
    assert_eq!(cpu.regs.bc, 0xAA00);
}

#[test]
fn ports_and_interrupt_latch() {
    // OUT 0x42; EI; IN 0x07.
    let program = [0xD3, 0x42, 0xFB, 0xDB, 0x07];
    let mut memory = Memory::load(&program);
    memory.input_value = 0x5A;
    let mut cpu = I8080::new();
    cpu.run_cycle(&mut memory);
    assert_eq!(memory.last_output, Some((0x42, 0x00)));
    cpu.run_cycle(&mut memory);
    assert!(cpu.interrupts_enabled);
    cpu.run_cycle(&mut memory);
    assert_eq!(cpu.regs.acc, 0x5A);
}
