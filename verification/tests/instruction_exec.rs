// Decoded-instruction execution against a harness machine.

use gameboy::cpu::{Cpu, Cpu16Register, CpuRegister};
use gameboy::instruction::Instruction;
use gameboy::memory::Memory;

#[test]
fn daa_instruction() {
    let mut cpu = Cpu::new();
    let mut mem = Memory::new(vec![0; 32 * 1024]);

    let test_cases = vec![
        (0b0001_0001, 0b0000_0000, 0b0001_0001),
        (0b0000_1001, 0b0000_0001, 0b0001_0000),
        (0b0001_1000, 0b0001_1000, 0b0011_0110),
    ];

    for test in test_cases.iter() {
        cpu.a = test.0;
        cpu.b = test.1;

        let instr = Instruction::ADDR { reg: CpuRegister::B };

        instr.execute(&mut cpu, &mut mem);

        let instr = Instruction::DAA;

        assert_eq!(instr.execute(&mut cpu, &mut mem), 4);
        assert_eq!(cpu.a, test.2);
    }
}

#[test]
fn subi_instruction() {
    let mut cpu = Cpu::new();
    let mut mem = Memory::new(vec![0; 32 * 1024]);

    cpu.a = 0xD8;
    cpu.f = 0xC0;

    let instr = Instruction::SUBI { val: 5 };

    instr.execute(&mut cpu, &mut mem);

    assert_eq!(cpu.a, 0xD3);
    assert_eq!(cpu.f, 0x40);
}

#[test]
fn push_pop_preserves_pair() {
    // PUSH then POP restores the pair and SP; popping AF masks the low
    // nibble of F away.
    let mut cpu = Cpu::new();
    let mut mem = Memory::new(vec![0; 32 * 1024]);

    cpu.sp = 0xD000;
    cpu.set16(Cpu16Register::DE, 0xBEEF);

    let sp0 = cpu.sp;
    Instruction::PUSH { reg: Cpu16Register::DE }.execute(&mut cpu, &mut mem);
    cpu.set16(Cpu16Register::DE, 0x0000);
    Instruction::POP { reg: Cpu16Register::DE }.execute(&mut cpu, &mut mem);

    assert_eq!(cpu.get16(Cpu16Register::DE), 0xBEEF);
    assert_eq!(cpu.sp, sp0);

    cpu.a = 0x12;
    cpu.f = 0xB0;
    Instruction::PUSH { reg: Cpu16Register::AF }.execute(&mut cpu, &mut mem);
    cpu.a = 0;
    cpu.f = 0;
    Instruction::POP { reg: Cpu16Register::AF }.execute(&mut cpu, &mut mem);

    assert_eq!(cpu.get16(Cpu16Register::AF), 0x12B0);
    assert_eq!(cpu.sp, sp0);
}

#[test]
fn call_then_ret_returns_after_call() {
    // CALL pushes the address of the next instruction; RET comes back to it
    // with SP unchanged.
    let mut cpu = Cpu::new();
    let mut mem = Memory::new(vec![0; 32 * 1024]);

    cpu.pc = 0x0200;
    cpu.sp = 0xD000;

    Instruction::CALL { addr: 0x1234 }.execute(&mut cpu, &mut mem);
    assert_eq!(cpu.pc, 0x1234);
    assert!(cpu.jumped);
    assert_eq!(cpu.sp, 0xCFFE);
    cpu.jumped = false;

    Instruction::RET.execute(&mut cpu, &mut mem);
    assert_eq!(cpu.pc, 0x0203);
    assert_eq!(cpu.sp, 0xD000);
}

#[test]
fn conditional_jump_cycle_costs() {
    let mut cpu = Cpu::new();
    let mut mem = Memory::new(vec![0; 32 * 1024]);

    cpu.set_flags(false, false, false, false);
    // Z clear: JP NZ taken at 16 clocks, JP Z declined at 12.
    assert_eq!(Instruction::JPNZ { addr: 0x3000 }.execute(&mut cpu, &mut mem), 16);
    assert_eq!(cpu.pc, 0x3000);
    cpu.jumped = false;
    assert_eq!(Instruction::JPZ { addr: 0x4000 }.execute(&mut cpu, &mut mem), 12);
    assert_eq!(cpu.pc, 0x3000);
}

#[test]
fn bit_set_res_instructions() {
    let mut cpu = Cpu::new();
    let mut mem = Memory::new(vec![0; 32 * 1024]);

    cpu.b = 0x00;
    Instruction::SET { n: 3, reg: CpuRegister::B }.execute(&mut cpu, &mut mem);
    assert_eq!(cpu.b, 0x08);

    Instruction::BIT { n: 3, reg: CpuRegister::B }.execute(&mut cpu, &mut mem);
    assert!(!cpu.z_flag());
    Instruction::BIT { n: 4, reg: CpuRegister::B }.execute(&mut cpu, &mut mem);
    assert!(cpu.z_flag());

    Instruction::RESET { n: 3, reg: CpuRegister::B }.execute(&mut cpu, &mut mem);
    assert_eq!(cpu.b, 0x00);
}

#[test]
fn decode_base_and_extended_pages() {
    let mut rom = vec![0u8; 32 * 1024];
    rom[0x0100] = 0x3E; // LD A, d8
    rom[0x0101] = 0x42;
    rom[0x0102] = 0xCB; // prefix
    rom[0x0103] = 0x37; // SWAP A
    rom[0x0104] = 0xC3; // JP a16
    rom[0x0105] = 0x34;
    rom[0x0106] = 0x12;
    let mem = Memory::new(rom);

    let i0 = Instruction::read(&mem, 0x0100);
    assert!(matches!(i0, Instruction::LDI8 { val: 0x42, reg: CpuRegister::A }));
    assert_eq!(Instruction::mem_size(&i0), 2);

    let i1 = Instruction::read(&mem, 0x0102);
    assert!(matches!(i1, Instruction::SWAP { reg: CpuRegister::A }));
    assert_eq!(Instruction::mem_size(&i1), 2);

    let i2 = Instruction::read(&mem, 0x0104);
    assert!(matches!(i2, Instruction::JP { addr: 0x1234 }));
    assert_eq!(Instruction::mem_size(&i2), 3);

    let listing = Instruction::disassemble(&mem, 0x0100, 3);
    assert_eq!(listing.len(), 3);
    assert!(matches!(listing[0], Instruction::LDI8 { val: 0x42, reg: CpuRegister::A }));
    assert!(matches!(listing[1], Instruction::SWAP { reg: CpuRegister::A }));
    assert!(matches!(listing[2], Instruction::JP { addr: 0x1234 }));
}

#[test]
fn illegal_opcodes_decode_as_illegal() {
    let mut rom = vec![0u8; 32 * 1024];
    for (k, op) in [0xD3u8, 0xDB, 0xDD, 0xE3, 0xE4, 0xEB, 0xEC, 0xED, 0xF4, 0xFC, 0xFD]
        .iter()
        .enumerate()
    {
        rom[0x0100 + k] = *op;
    }
    let mem = Memory::new(rom);
    for k in 0..11 {
        let i = Instruction::read(&mem, (0x0100 + k) as u16);
        assert!(matches!(i, Instruction::ILLEGAL));
    }
}
