// Further semantics: sprite compositing, joypad input through the machine,
// and the stack, I/O-page and SP-relative instructions.

use gameboy::cpu::{Cpu, Cpu16Register, CpuRegister};
use gameboy::gameboy::GameBoy;
use gameboy::gpu::sprite_in_row;
use gameboy::input::Button;
use gameboy::instruction::Instruction;
use gameboy::memory::Memory;

#[test]
fn sprite_draws_over_background() {
    let mut gb = GameBoy::new(vec![0u8; 32 * 1024]);

    // Sprites on; background tile 0 stays blank (palette colour 0, white).
    gb.mem.set(0xFF40, 0x93);

    // OAM entry 0: top-left corner at (8, 0) on screen, tile 1, no flips.
    gb.mem.set(0xFE00, 0x10);
    gb.mem.set(0xFE01, 0x10);
    gb.mem.set(0xFE02, 0x01);
    gb.mem.set(0xFE03, 0x00);

    // Tile 1 solid colour 3; the boot sprite palette maps it to black.
    for k in 0..16u16 {
        gb.mem.set(0x8010 + k, 0xFF);
    }

    for _ in 0..200 {
        gb.cycle(false, None);
    }

    let buf = gb.buffer();
    let row1 = 160 * 4;
    // Columns 8..=15 of line one carry the sprite; column 7 is background.
    assert_eq!(buf[row1 + 4 * 8], 0x00);
    assert_eq!(buf[row1 + 4 * 15], 0x00);
    assert_eq!(buf[row1 + 4 * 7], 0xFF);
}

#[test]
fn joypad_reads_through_machine() {
    let mut gb = GameBoy::new(vec![0u8; 32 * 1024]);

    gb.input().set_input(Button::Start, true);
    gb.mem.set(0xFF00, 0x10);
    assert_eq!(gb.mem.get(0xFF00) & 0x0F, 0x07);

    gb.input().set_input(Button::Start, false);
    assert_eq!(gb.mem.get(0xFF00) & 0x0F, 0x0F);
}

#[test]
fn add_sp_signed_immediate() {
    let mut cpu = Cpu::new();
    let mut mem = Memory::new(vec![0; 32 * 1024]);

    cpu.sp = 0x1000;
    // The immediate byte 0xFE reads as minus two.
    Instruction::ADDSP { val: 0xFE }.execute(&mut cpu, &mut mem);
    assert_eq!(cpu.sp, 0x0FFE);

    Instruction::LDHLI { offset: -2 }.execute(&mut cpu, &mut mem);
    assert_eq!(cpu.get16(Cpu16Register::HL), 0x0FFC);
}

#[test]
fn rst_pushes_and_vectors() {
    let mut cpu = Cpu::new();
    let mut mem = Memory::new(vec![0; 32 * 1024]);

    cpu.pc = 0x0234;
    cpu.sp = 0xD000;
    assert_eq!(Instruction::RST { addr: 0x0008 }.execute(&mut cpu, &mut mem), 16);
    assert_eq!(cpu.pc, 0x0008);
    assert_eq!(mem.get16(0xCFFE), 0x0235);
}

#[test]
fn reti_restores_master_enable() {
    let mut cpu = Cpu::new();
    let mut mem = Memory::new(vec![0; 32 * 1024]);

    cpu.sp = 0xD000;
    mem.set16(0xD000, 0x4321);
    cpu.disable_interrupts();

    Instruction::RETI.execute(&mut cpu, &mut mem);
    assert_eq!(cpu.pc, 0x4321);
    assert_eq!(cpu.sp, 0xD002);
    assert!(cpu.interrupts);
}

#[test]
fn high_page_store_and_load() {
    let mut cpu = Cpu::new();
    let mut mem = Memory::new(vec![0; 32 * 1024]);

    cpu.a = 0x77;
    Instruction::STHA { addr: 0x85 }.execute(&mut cpu, &mut mem);
    assert_eq!(mem.get(0xFF85), 0x77);

    cpu.a = 0x00;
    Instruction::LDHA { addr: 0x85 }.execute(&mut cpu, &mut mem);
    assert_eq!(cpu.a, 0x77);

    cpu.c = 0x85;
    cpu.a = 0x31;
    Instruction::STHCA.execute(&mut cpu, &mut mem);
    assert_eq!(mem.get(0xFF85), 0x31);
    cpu.a = 0x00;
    Instruction::LDHCA.execute(&mut cpu, &mut mem);
    assert_eq!(cpu.a, 0x31);
}

#[test]
fn halted_step_consumes_eight_clocks() {
    let mut gb = GameBoy::new(vec![0u8; 32 * 1024]);

    gb.cpu.halted = true;
    gb.mem.set(0xFFFF, 0x00);
    let before = gb.cycles;
    gb.cycle(false, None);
    assert_eq!(gb.cycles - before, 8);
    // Nothing pending: the CPU stays halted and PC does not move.
    assert_eq!(gb.cpu.pc, 0x0100);
    assert!(gb.cpu.halted);
}

#[test]
fn hl_pointer_increment_decrement_loads() {
    let mut cpu = Cpu::new();
    let mut mem = Memory::new(vec![0; 32 * 1024]);

    mem.set(0xC800, 0x42);
    cpu.set16(Cpu16Register::HL, 0xC800);
    Instruction::LDI.execute(&mut cpu, &mut mem);
    assert_eq!(cpu.a, 0x42);
    assert_eq!(cpu.get16(Cpu16Register::HL), 0xC801);

    Instruction::STD.execute(&mut cpu, &mut mem);
    assert_eq!(mem.get(0xC801), 0x42);
    assert_eq!(cpu.get16(Cpu16Register::HL), 0xC800);
}

#[test]
fn carry_and_complement_instructions() {
    let mut cpu = Cpu::new();
    let mut mem = Memory::new(vec![0; 32 * 1024]);

    cpu.set_flags(true, true, true, false);
    Instruction::SCF.execute(&mut cpu, &mut mem);
    // Z kept, N and H cleared, C set.
    assert_eq!(cpu.f, 0b1001_0000);

    Instruction::CCF.execute(&mut cpu, &mut mem);
    assert_eq!(cpu.f, 0b1000_0000);

    cpu.a = 0x35;
    Instruction::CPL.execute(&mut cpu, &mut mem);
    assert_eq!(cpu.a, 0xCA);
    // CPL sets N and H, keeps Z and C.
    assert_eq!(cpu.f, 0b1110_0000);
}

#[test]
fn test_sprite_in_row() {
    assert_eq!(true, sprite_in_row(0, -8, 16));
    assert_eq!(false, sprite_in_row(0, -8, 8));

    // A biased y of -1 (stored byte 15) puts line 0 strictly inside the
    // sprite's extent, so it is selected.
    assert_eq!(true, sprite_in_row(0, (65535 as i32) as i16, 8));
}

#[test]
fn fresh_press_of_selected_key_requests_joypad() {
    let mut gb = GameBoy::new(vec![0u8; 32 * 1024]);

    // Select the button nibble, then press A: the interrupt is requested.
    gb.mem.set(0xFF00, 0x10);
    gb.set_button(Button::A, true);
    assert_eq!(gb.mem.get(0xFF0F) & 0x10, 0x10);
    assert_eq!(gb.mem.get(0xFF00) & 0x0F, 0x0E);

    // Holding the key or releasing it requests nothing further.
    gb.mem.set(0xFF0F, 0x00);
    gb.set_button(Button::A, true);
    gb.set_button(Button::A, false);
    assert_eq!(gb.mem.get(0xFF0F) & 0x10, 0x00);

    // A press in the unselected group requests nothing.
    gb.set_button(Button::Down, true);
    assert_eq!(gb.mem.get(0xFF0F) & 0x10, 0x00);
}
