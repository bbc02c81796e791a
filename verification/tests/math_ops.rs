// The ALU and flag unit on concrete operands.

use gameboy::cpu::Cpu;
use gameboy::math;

#[test]
fn test_set() {
    assert_eq!(0x01, math::set(0, 0));
    assert_eq!(0x02, math::set(0, 1));
    assert_eq!(0x04, math::set(0, 2));
    assert_eq!(0x08, math::set(0, 3));
    assert_eq!(0x10, math::set(0, 4));
    assert_eq!(0x20, math::set(0, 5));
    assert_eq!(0x40, math::set(0, 6));
    assert_eq!(0x80, math::set(0, 7));

    assert_eq!(0x01, math::set(1, 0));
}

#[test]
fn test_cast() {
    assert_eq!(255, i16::from(0xFF as u8));
}

#[test]
fn test_add_half_full_carry_zero() {
    let mut cpu = Cpu::new();

    cpu.a = 0xFF;

    math::add(&mut cpu, 0x01);

    assert_eq!(cpu.a, 0x00);

    let expected_flags = 0b1011_0000;
    assert_eq!(cpu.f, expected_flags);
}

#[test]
fn test_add_half_carry() {
    let mut cpu = Cpu::new();

    cpu.a = 0x0F;

    math::add(&mut cpu, 0x01);

    assert_eq!(cpu.a, 0x10);

    let expected_flags = 0b0010_0000;
    assert_eq!(cpu.f, expected_flags);
}

#[test]
fn test_sub_borrow_flags() {
    // SUB with A=0x10 and v=0x01: A=0x0F, Z=0, N=1, H=1, C=0.
    let mut cpu = Cpu::new();

    cpu.a = 0x10;

    math::subtract(&mut cpu, 0x01);

    assert_eq!(cpu.a, 0x0F);
    assert_eq!(cpu.f, 0b0110_0000);
}

#[test]
fn test_adc_carry_in() {
    let mut cpu = Cpu::new();

    cpu.a = 0x0F;
    cpu.set_flags(false, false, false, true);
    math::adc(&mut cpu, 0x00);

    assert_eq!(cpu.a, 0x10);
    // The half-carry comes from the carry-in crossing bit 3.
    assert_eq!(cpu.f, 0b0010_0000);
}

#[test]
fn test_sbc_borrow_in() {
    let mut cpu = Cpu::new();

    cpu.a = 0x10;
    cpu.set_flags(false, false, false, true);
    math::sbc(&mut cpu, 0x0F);

    assert_eq!(cpu.a, 0x00);
    // 0x10 - 0x0F - 1 = 0: zero, subtract, half-borrow, no full borrow.
    assert_eq!(cpu.f, 0b1110_0000);
}

#[test]
fn test_daa_bcd_pairs() {
    // A selection of packed-BCD pairs: the adjusted accumulator encodes the
    // decimal sum modulo one hundred, the carry its overflow.
    let cases: Vec<(u8, u8, u8, bool)> = vec![
        (0x09, 0x01, 0x10, false),
        (0x55, 0x45, 0x00, true),
        (0x99, 0x65, 0x64, true),
        (0x99, 0x99, 0x98, true),
        (0x45, 0x45, 0x90, false),
        (0x80, 0x90, 0x70, true),
        (0x00, 0x00, 0x00, false),
    ];

    for (x, y, want, want_carry) in cases {
        let mut cpu = Cpu::new();
        cpu.a = x;
        math::add(&mut cpu, y);
        math::daa(&mut cpu);
        assert_eq!(cpu.a, want, "daa of {:#x} + {:#x}", x, y);
        assert_eq!(cpu.c_flag(), want_carry, "carry of {:#x} + {:#x}", x, y);
    }
}

#[test]
fn test_and_sets_half_flag() {
    let mut cpu = Cpu::new();
    cpu.a = 0xF0;
    math::and(&mut cpu, 0x0F);
    assert_eq!(cpu.a, 0x00);
    // Z set, H set for AND, N and C clear.
    assert_eq!(cpu.f, 0b1010_0000);
}

#[test]
fn test_rotates() {
    let mut cpu = Cpu::new();
    cpu.set_flags(false, false, false, false);

    // RLC: bit 7 rotates into bit 0 and into C.
    assert_eq!(math::rlc(&mut cpu, 0x80), 0x01);
    assert!(cpu.c_flag());

    // RL: the old carry enters bit 0.
    assert_eq!(math::rl(&mut cpu, 0x00), 0x01);
    assert!(!cpu.c_flag());

    // RRC: bit 0 rotates into bit 7 and into C.
    assert_eq!(math::rrc(&mut cpu, 0x01), 0x80);
    assert!(cpu.c_flag());

    // RR: the old carry enters bit 7.
    assert_eq!(math::rr(&mut cpu, 0x00), 0x80);
    assert!(!cpu.c_flag());
}

#[test]
fn test_shifts() {
    let mut cpu = Cpu::new();
    assert_eq!(math::sla(&mut cpu, 0x81), 0x02);
    assert!(cpu.c_flag());
    assert_eq!(math::srl(&mut cpu, 0x81), 0x40);
    assert!(cpu.c_flag());
    // SRA preserves the sign bit.
    assert_eq!(math::sra(&mut cpu, 0x81), 0xC0);
    assert!(cpu.c_flag());
}

#[test]
fn test_swap_nibble() {
    let mut cpu = Cpu::new();
    assert_eq!(math::swap_nibble(&mut cpu, 0xA5), 0x5A);
    assert_eq!(math::swap_nibble(&mut cpu, 0x00), 0x00);
    assert!(cpu.z_flag());
}

#[test]
fn test_increment16_leaves_flags() {
    let mut cpu = Cpu::new();
    cpu.set_flags(true, true, true, true);
    let before = cpu.f;
    math::increment16(&mut cpu, gameboy::cpu::Cpu16Register::BC);
    assert_eq!(cpu.get16(gameboy::cpu::Cpu16Register::BC), 0x0014);
    assert_eq!(cpu.f, before);
}
