// The memory fabric: plain stores, the echo mirror, DMA, the serial
// buffer, the joypad latch, the timer block and the cartridge controller.

use gameboy::input::Button;
use gameboy::interrupt::{self, Interrupt};
use gameboy::memory::Memory;
use gameboy::timer::Timer;

#[test]
fn read_after_write_is_bit_exact() {
    let mut mem = Memory::new(vec![0; 32 * 1024]);

    // Work RAM, high RAM, VRAM and OAM all store bit-exact.
    mem.set(0xC000, 0xA5);
    assert_eq!(mem.get(0xC000), 0xA5);
    mem.set(0xFF80, 0x5A);
    assert_eq!(mem.get(0xFF80), 0x5A);
    mem.set(0x8123, 0x77);
    assert_eq!(mem.get(0x8123), 0x77);
    mem.set(0xFE3F, 0x12);
    assert_eq!(mem.get(0xFE3F), 0x12);
    mem.set(0xFFFF, 0x1F);
    assert_eq!(mem.get(0xFFFF), 0x1F);
}

#[test]
fn echo_ram_mirrors_work_ram() {
    // Write through one face of the mirror, read through the other.
    let mut mem = Memory::new(vec![0; 32 * 1024]);

    mem.set(0xC123, 0x5A);
    assert_eq!(mem.get(0xE123), 0x5A);

    mem.set(0xE456, 0x11);
    assert_eq!(mem.get(0xC456), 0x11);
}

#[test]
fn rom_writes_do_not_reach_the_image() {
    let mut rom = vec![0u8; 32 * 1024];
    rom[0x0150] = 0x77;
    let mut mem = Memory::new(rom);

    mem.set(0x0150, 0x00);
    assert_eq!(mem.get(0x0150), 0x77);
}

#[test]
fn word_access_is_little_endian() {
    let mut mem = Memory::new(vec![0; 32 * 1024]);

    mem.set16(0xC100, 0xBEEF);
    assert_eq!(mem.get(0xC100), 0xEF);
    assert_eq!(mem.get(0xC101), 0xBE);
    assert_eq!(mem.get16(0xC100), 0xBEEF);
}

#[test]
fn dma_copies_one_oam_page() {
    let mut mem = Memory::new(vec![0; 32 * 1024]);
    for k in 0..160u16 {
        mem.set(0xC000 + k, (k as u8).wrapping_mul(3));
    }

    mem.set(0xFF46, 0xC0);

    for k in 0..160u16 {
        assert_eq!(mem.get(0xFE00 + k), (k as u8).wrapping_mul(3));
    }
}

#[test]
fn serial_buffer_collects_bytes() {
    let mut mem = Memory::new(vec![0; 32 * 1024]);
    mem.set(0xFF01, b'h');
    mem.set(0xFF01, b'i');
    assert_eq!(mem.serial_buffer().as_slice(), b"hi");
}

#[test]
fn joypad_selector_reads_active_low() {
    let mut mem = Memory::new(vec![0; 32 * 1024]);

    mem.input().set_input(Button::A, true);
    mem.input().set_input(Button::Down, true);

    // Select the button nibble (bit 5 cleared): A pressed reads as a 0 bit.
    mem.set(0xFF00, 0x10);
    assert_eq!(mem.get(0xFF00) & 0x0F, 0x0E);

    // Select the direction nibble (bit 4 cleared): Down pressed.
    mem.set(0xFF00, 0x20);
    assert_eq!(mem.get(0xFF00) & 0x0F, 0x07);

    // Nothing selected: the low nibble reads all ones.
    mem.set(0xFF00, 0x30);
    assert_eq!(mem.get(0xFF00) & 0x0F, 0x0F);
}

#[test]
fn timer_reload_and_interrupt() {
    // TAC=0b101, TIMA=0xFF, TMA=0x42: sixteen clocks overflow TIMA, reload
    // it from TMA and request the interrupt.
    let mut t = Timer::new();
    t.write(0xFF07, 0b101);
    t.write(0xFF05, 0xFF);
    t.write(0xFF06, 0x42);

    let interrupt = t.tick(16);

    assert!(interrupt);
    assert_eq!(t.read(0xFF05), 0x42);
}

#[test]
fn divider_counts_and_resets() {
    let mut t = Timer::new();
    for _ in 0..32 {
        t.tick(16);
    }
    assert_eq!(t.read(0xFF04), 2);
    t.write(0xFF04, 0x55);
    assert_eq!(t.read(0xFF04), 0);
}

#[test]
fn interrupt_priority_order() {
    let mut mem = Memory::new(vec![0; 32 * 1024]);
    mem.set(0xFFFF, 0xFF);

    interrupt::set_interrupt(Interrupt::Timer, &mut mem);
    interrupt::set_interrupt(Interrupt::VBlank, &mut mem);
    interrupt::set_interrupt(Interrupt::Joypad, &mut mem);

    assert_eq!(interrupt::fetch_interrupt(&mut mem), Some(Interrupt::VBlank));
    interrupt::reset_interrupt(Interrupt::VBlank, &mut mem);
    assert_eq!(interrupt::fetch_interrupt(&mut mem), Some(Interrupt::Timer));
    interrupt::reset_interrupt(Interrupt::Timer, &mut mem);
    assert_eq!(interrupt::fetch_interrupt(&mut mem), Some(Interrupt::Joypad));
    interrupt::reset_interrupt(Interrupt::Joypad, &mut mem);
    assert_eq!(interrupt::fetch_interrupt(&mut mem), None);

    // Disabled sources stay pending but are not fetched.
    interrupt::set_interrupt(Interrupt::LcdStat, &mut mem);
    mem.set(0xFFFF, 0x00);
    assert_eq!(interrupt::fetch_interrupt(&mut mem), None);
    assert_eq!(mem.get(0xFF0F) & 0x02, 0x02);
}

#[test]
fn mbc1_bank_switch_and_ram_enable() {
    let mut rom = vec![0u8; 64 * 1024];
    rom[0x0147] = 0x01;
    rom[0x8000] = 0xAB;
    let mut mem = Memory::new(rom);

    // Bank 2 maps file offset 0x8000 at 0x4000.
    mem.set(0x2100, 0x02);
    assert_eq!(mem.get(0x4000), 0xAB);

    // Cartridge RAM is disabled until a 0x?A enable: reads yield the quiet
    // zero and writes are discarded.
    mem.set(0xA000, 0x33);
    assert_eq!(mem.get(0xA000), 0x00);
    mem.set(0x0000, 0x0A);
    mem.set(0xA000, 0x33);
    assert_eq!(mem.get(0xA000), 0x33);
    mem.set(0x0000, 0x00);
    assert_eq!(mem.get(0xA000), 0x00);
}

#[test]
fn mbc3_seven_bit_rom_bank() {
    let mut rom = vec![0u8; 128 * 1024];
    rom[0x0147] = 0x11;
    rom[7 * 0x4000] = 0xCD;
    let mut mem = Memory::new(rom);

    mem.set(0x2000, 0x07);
    assert_eq!(mem.get(0x4000), 0xCD);

    // A zero selects bank one.
    mem.set(0x2000, 0x00);
    assert_eq!(mem.get(0x4000), 0x00);
}
