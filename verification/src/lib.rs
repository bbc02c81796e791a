//! A cycle-approximate emulator core for the original handheld Game Boy (DMG).
//!
//! The crate models the machine as six cooperating components advanced by a
//! single-threaded step loop: the CPU with its register/flag model, the
//! instruction decoder (base page plus the 0xCB-prefixed extended page), the
//! ALU and flag unit, the memory-management unit with cartridge bank
//! switching, the scanline-oriented picture processing unit, and the
//! divider/timer block with the interrupt controller.

pub mod bits;
pub mod cpu;
pub mod disassemble;
pub mod gameboy;
pub mod gpu;
pub mod input;
pub mod instruction;
pub mod interrupt;
pub mod math;
pub mod memory;
pub mod opcode;
pub mod rom;
pub mod timer;
