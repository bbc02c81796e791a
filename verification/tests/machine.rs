// End-to-end scenarios on the whole machine, each from the power-on state.

use gameboy::cpu::Cpu;
use gameboy::gameboy::GameBoy;
use gameboy::interrupt::{self, Interrupt};
use gameboy::memory::Memory;

fn rom_with(program: &[u8]) -> Vec<u8> {
    let mut rom = vec![0u8; 32 * 1024];
    for (k, b) in program.iter().enumerate() {
        rom[0x0100 + k] = *b;
    }
    rom
}

#[test]
fn simple_arithmetic_trace() {
    // LD A,5; ADD A,3; NOP: after three steps A=8, the flag byte is clear,
    // PC reached 0x0105 and twenty clocks have passed.
    let mut gb = GameBoy::new(rom_with(&[0x3E, 0x05, 0xC6, 0x03, 0x00]));

    gb.cycle(false, None);
    gb.cycle(false, None);
    gb.cycle(false, None);

    assert_eq!(gb.cpu.a, 0x08);
    assert_eq!(gb.cpu.f, 0x00);
    assert_eq!(gb.cpu.pc, 0x0105);
    assert_eq!(gb.cycles, 8 + 8 + 4);
}

#[test]
fn conditional_branch_taken() {
    // LD A,0; CP 1; JR NZ,+2: the compare clears Z, the relative jump is
    // taken at twelve clocks and PC lands at 0x0108.
    let mut gb = GameBoy::new(rom_with(&[0x3E, 0x00, 0xFE, 0x01, 0x20, 0x02, 0x00, 0x00]));

    gb.cycle(false, None);
    gb.cycle(false, None);
    assert!(!gb.cpu.z_flag());
    let before = gb.cycles;
    gb.cycle(false, None);

    assert_eq!(gb.cpu.pc, 0x0108);
    assert_eq!(gb.cycles - before, 12);
}

#[test]
fn write_then_echo_harness() {
    let mut mem = Memory::new(vec![0u8; 32 * 1024]);

    mem.set(0xC123, 0x5A);
    assert_eq!(mem.get(0xE123), 0x5A);
    mem.set(0xE456, 0x11);
    assert_eq!(mem.get(0xC456), 0x11);
}

#[test]
fn vblank_timing_one_frame() {
    // From power-on with LCDC=0x91, exactly one step crosses into VBlank;
    // afterwards IF bit 0 is set and LY reads 143.
    let mut gb = GameBoy::new(rom_with(&[]));
    assert_eq!(gb.mem.get(0xFF40), 0x91);

    let mut redraws = 0u32;
    let mut steps = 0u32;
    while redraws == 0 {
        if gb.cycle(false, None) {
            redraws += 1;
        }
        steps += 1;
        assert!(steps < 40_000, "no frame within a frame's worth of steps");
    }

    assert_eq!(gb.mem.get(0xFF0F) & 0x01, 0x01);
    assert_eq!(gb.mem.get(0xFF44), 143);

    // VBlank lasts ten lines: no second frame signal right away.
    for _ in 0..100 {
        assert!(!gb.cycle(false, None));
    }
}

#[test]
fn mbc1_bank_switch_through_machine() {
    let mut rom = vec![0u8; 64 * 1024];
    rom[0x0147] = 0x01;
    rom[0x8000] = 0x99;
    let mut gb = GameBoy::new(rom);

    gb.mem.set(0x2100, 0x02);
    assert_eq!(gb.mem.get(0x4000), 0x99);
}

#[test]
fn interrupt_vectoring() {
    // With IME on and IE bit 0 set, an injected VBlank request vectors the
    // next step: PC is pushed, execution continues at 0x0040, IME and the
    // request bit are cleared.
    let mut gb = GameBoy::new(rom_with(&[]));
    gb.mem.set(0xFFFF, 0x01);
    interrupt::set_interrupt(Interrupt::VBlank, &mut gb.mem);

    let sp0 = gb.cpu.sp;
    gb.cycle(false, None);

    assert_eq!(gb.cpu.pc, 0x0040);
    assert_eq!(gb.cpu.sp, sp0.wrapping_sub(2));
    assert!(!gb.cpu.interrupts);
    assert_eq!(gb.mem.get(0xFF0F) & 0x01, 0x00);
    // The NOP at 0x0100 finished first: its successor was pushed.
    assert_eq!(gb.mem.get16(gb.cpu.sp), 0x0101);
}

#[test]
fn halt_resumes_without_vectoring() {
    // A halted CPU with the master enable off and a pending interrupt wakes
    // up without vectoring; the request stays pending.
    let mut cpu = Cpu::new();
    let mut mem = Memory::new(vec![0u8; 32 * 1024]);

    cpu.disable_interrupts();
    cpu.halted = true;
    let pc0 = cpu.pc;
    let sp0 = cpu.sp;

    let vectored = cpu.interrupt(&mut mem, Interrupt::Timer);

    assert!(!vectored);
    assert!(!cpu.halted);
    assert_eq!(cpu.pc, pc0);
    assert_eq!(cpu.sp, sp0);
}

#[test]
fn ppu_line_counter_wraps() {
    // The line counter climbs to 153 and wraps to zero: two frame signals
    // are one frame of clocks apart.
    let mut gb = GameBoy::new(rom_with(&[]));

    let mut first: Option<u64> = None;
    let mut second: Option<u64> = None;
    let mut steps = 0u32;
    while second.is_none() {
        if gb.cycle(false, None) {
            if first.is_none() {
                first = Some(gb.cycles);
            } else {
                second = Some(gb.cycles);
            }
        }
        assert!(gb.mem.get(0xFF44) <= 153);
        steps += 1;
        assert!(steps < 80_000, "no two frames within bounds");
    }
    let frame_clocks = second.unwrap() - first.unwrap();
    assert_eq!(frame_clocks, 70224);
}

#[test]
fn background_renders_through_palette() {
    // A solid tile 0 with the boot palette paints scanline pixels black.
    let mut gb = GameBoy::new(rom_with(&[]));
    for k in 0..16u16 {
        gb.mem.set(0x8000 + k, 0xFF);
    }
    // Tile map already points every cell at tile 0.
    assert_eq!(gb.mem.get(0xFF47), 0xFC);

    // Run past the first drawn scanline (the machine starts at the tail of
    // line zero's HBlank, so line one is rasterized first).
    for _ in 0..200 {
        gb.cycle(false, None);
    }
    let buf = gb.buffer();
    assert_eq!(buf.len(), 160 * 144 * 4);
    let row1 = 160 * 4;
    assert_eq!(buf[row1], 0x00);
    assert_eq!(buf[row1 + 1], 0x00);
    assert_eq!(buf[row1 + 2], 0x00);
    assert_eq!(buf[row1 + 3], 0xFF);
    assert_eq!(buf[row1 + 4 * 159], 0x00);
    // Line zero is still the clear colour.
    assert_eq!(buf[0], 0xFF);
}

#[test]
fn title_is_read_from_the_header() {
    let mut rom = vec![0u8; 32 * 1024];
    for (k, b) in b"TESTGAME".iter().enumerate() {
        rom[0x0134 + k] = *b;
    }
    let gb = GameBoy::new(rom);
    assert_eq!(gb.title(), "TESTGAME");

    let state = gb.cpu.print_state();
    assert!(state.len() > 0);
}

#[test]
fn read_region_and_disassembly_rows() {
    let mut rom = vec![0u8; 32 * 1024];
    rom[0x0100] = 0x3E; // LD A, d8
    rom[0x0101] = 0x07;
    rom[0x0102] = 0x00; // NOP
    let gb = GameBoy::new(rom);

    let bytes = gb.read_region(0x0100, 0x0102);
    assert_eq!(bytes, vec![0x3E, 0x07, 0x00]);

    let rows = gameboy::disassemble::disassemble(0x0100, 0x0102, &gb.mem);
    assert_eq!(rows.len(), 2);
    assert_eq!(rows[0].addr, 0x0100);
    assert_eq!(rows[0].data_len, 2);
    assert_eq!(rows[0].data, vec![0x3E, 0x07]);
    assert!(rows[0].desc.len() > 0);
    assert_eq!(rows[1].addr, 0x0102);
    assert_eq!(rows[1].data_len, 1);
}

#[test]
fn lyc_interrupt_enabled_by_stat_bit_6() {
    // With the LYC=LY interrupt enable (STAT bit 6) and the coincidence
    // select (bit 2) set, reaching the compare line requests LCDStat.
    let mut gb = GameBoy::new(rom_with(&[]));
    gb.mem.set(0xFF41, 0x44);
    gb.mem.set(0xFF45, 0x02);

    let mut steps = 0u32;
    while gb.mem.get(0xFF44) != 0x02 {
        gb.cycle(false, None);
        steps += 1;
        assert!(steps < 1_000, "compare line not reached");
    }
    assert_eq!(gb.mem.get(0xFF0F) & 0x02, 0x02);

    // Bit 5 alone (a mode enable on strict hardware) requests nothing here.
    let mut gb2 = GameBoy::new(rom_with(&[]));
    gb2.mem.set(0xFF41, 0x24);
    gb2.mem.set(0xFF45, 0x02);
    for _ in 0..400 {
        gb2.cycle(false, None);
    }
    assert_eq!(gb2.mem.get(0xFF0F) & 0x02, 0x00);
}
