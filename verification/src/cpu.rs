//! The CPU register and flag model: eight byte registers with the ZNHC flag
//! byte whose low nibble is always zero, the 16-bit PC and SP, the interrupt
//! master enable, and the transient `jumped` and `halted` flags.

use vstd::prelude::*;
use crate::bits::{lemma_high_nibble_mask, lemma_pack_flags, pack_flags};
use crate::instruction::{exec_post, is_legal, lemma_decode_wf, read_spec, size_spec, Instruction};
use crate::interrupt::{self, Interrupt};
use crate::memory::{mem_read, mem_read16, mem_write16, MemView, Memory};

verus! {

#[derive(PartialEq, Eq, Structural, Debug)]
pub struct Cpu {
    pub pc: u16,
    pub sp: u16,
    pub a: u8,
    pub b: u8,
    pub c: u8,
    pub d: u8,
    pub e: u8,
    pub f: u8,
    pub h: u8,
    pub l: u8,
    /// The interrupt master enable.
    pub interrupts: bool,
    /// Raised by a control transfer so the fetch loop does not advance PC.
    pub jumped: bool,
    /// Suspends instruction fetch until an interrupt becomes pending.
    pub halted: bool,
}

#[derive(Debug, Clone, Copy)]
pub enum Cpu16Register {
    SP,
    BC,
    DE,
    HL,
    AF,
}

#[derive(Debug, Clone, Copy)]
pub enum CpuRegister {
    A,
    B,
    C,
    D,
    E,
    H,
    L,
}

/// The fixed service vector of an interrupt source.
pub open spec fn vector_of(intr: Interrupt) -> u16 {
    match intr {
        Interrupt::VBlank => 0x0040,
        Interrupt::LcdStat => 0x0048,
        Interrupt::Timer => 0x0050,
        Interrupt::Joypad => 0x0060,
    }
}

/// The effect of one fetch-decode-execute step: a halted CPU consumes eight
/// clocks untouched; otherwise the instruction at PC executes per
/// `exec_post`, PC advances by its length unless it transferred control, and
/// the transfer mark ends clear.
pub open spec fn cpu_step_post(c0: Cpu, v0: MemView, c1: Cpu, v1: MemView, cycles: u8) -> bool {
    if c0.halted {
        c1 == c0 && v1 == v0 && cycles == 8
    } else {
        let i = read_spec(v0, c0.pc);
        exists|cm: Cpu|
            {
                &&& #[trigger] exec_post(i, c0, v0, cm, v1, cycles)
                &&& c1 == (Cpu {
                    pc: if cm.jumped {
                        cm.pc
                    } else {
                        cm.pc.wrapping_add(size_spec(i))
                    },
                    jumped: false,
                    ..cm
                })
            }
    }
}

/// The effect of servicing an interrupt: the halt is always released; with
/// the master enable set, PC is pushed onto the stack, the fixed vector is
/// entered, the request bit is dismissed and the master enable is cleared;
/// with it clear, nothing else moves.
pub open spec fn interrupt_post(c0: Cpu, v0: MemView, c1: Cpu, v1: MemView, intr: Interrupt) -> bool {
    if c0.interrupts {
        &&& c1 == (Cpu {
            halted: false,
            interrupts: false,
            pc: vector_of(intr),
            sp: c0.sp.wrapping_sub(2),
            ..c0
        })
        &&& v1 == interrupt::dismiss_spec(mem_write16(v0, c0.sp.wrapping_sub(2), c0.pc), intr)
    } else {
        c1 == (Cpu { halted: false, ..c0 }) && v1 == v0
    }
}

impl Cpu {
    /// The flag byte carries nothing in its low nibble.
    pub open spec fn wf(self) -> bool {
        self.f & 0x0F == 0
    }

    /// The power-on register file.
    pub open spec fn init_spec() -> Cpu {
        Cpu {
            pc: 0x0100u16,
            sp: 0xFFFEu16,
            a: 0x01u8,
            b: 0x00u8,
            c: 0x13u8,
            d: 0x00u8,
            e: 0xD8u8,
            f: 0xB0u8,
            h: 0x01u8,
            l: 0x4Du8,
            interrupts: true,
            jumped: false,
            halted: false,
        }
    }

    pub open spec fn get_spec(self, reg: CpuRegister) -> u8 {
        match reg {
            CpuRegister::A => self.a,
            CpuRegister::B => self.b,
            CpuRegister::C => self.c,
            CpuRegister::D => self.d,
            CpuRegister::E => self.e,
            CpuRegister::H => self.h,
            CpuRegister::L => self.l,
        }
    }

    pub open spec fn with_reg(self, reg: CpuRegister, val: u8) -> Cpu {
        match reg {
            CpuRegister::A => Cpu { a: val, ..self },
            CpuRegister::B => Cpu { b: val, ..self },
            CpuRegister::C => Cpu { c: val, ..self },
            CpuRegister::D => Cpu { d: val, ..self },
            CpuRegister::E => Cpu { e: val, ..self },
            CpuRegister::H => Cpu { h: val, ..self },
            CpuRegister::L => Cpu { l: val, ..self },
        }
    }

    /// A register pair read, high byte first in the pair's name.
    pub open spec fn get16_spec(self, reg: Cpu16Register) -> u16 {
        match reg {
            Cpu16Register::SP => self.sp,
            Cpu16Register::BC => (self.b * 256 + self.c) as u16,
            Cpu16Register::DE => (self.d * 256 + self.e) as u16,
            Cpu16Register::HL => (self.h * 256 + self.l) as u16,
            Cpu16Register::AF => (self.a * 256 + self.f) as u16,
        }
    }

    /// A register pair write; writing AF discards the low nibble of F.
    pub open spec fn with16(self, reg: Cpu16Register, val: u16) -> Cpu {
        let high = (val / 256) as u8;
        let low = (val % 256) as u8;
        match reg {
            Cpu16Register::SP => Cpu { sp: val, ..self },
            Cpu16Register::BC => Cpu { b: high, c: low, ..self },
            Cpu16Register::DE => Cpu { d: high, e: low, ..self },
            Cpu16Register::HL => Cpu { h: high, l: low, ..self },
            Cpu16Register::AF => Cpu { a: high, f: low & 0xF0, ..self },
        }
    }

    pub open spec fn z_flag_spec(self) -> bool {
        self.f & 0x80 != 0
    }

    pub open spec fn n_flag_spec(self) -> bool {
        self.f & 0x40 != 0
    }

    pub open spec fn h_flag_spec(self) -> bool {
        self.f & 0x20 != 0
    }

    pub open spec fn c_flag_spec(self) -> bool {
        self.f & 0x10 != 0
    }

    /// The register file with the four flags replaced.
    pub open spec fn with_flags(self, z: bool, n: bool, h: bool, c: bool) -> Cpu {
        Cpu { f: pack_flags(z, n, h, c), ..self }
    }

    pub fn new() -> (r: Cpu)
        ensures
            r == Cpu::init_spec(),
            r.wf(),
    {
        let r = Cpu {
            pc: 0x0100,
            sp: 0xFFFE,
            a: 0x01,
            b: 0x00,
            c: 0x13,
            d: 0x00,
            e: 0xD8,
            f: 0xB0,
            h: 0x01,
            l: 0x4D,
            interrupts: true,
            jumped: false,
            halted: false,
        };
        proof {
            assert(0xB0u8 & 0x0F == 0) by (bit_vector);
        }
        r
    }

    pub fn set(&mut self, reg: CpuRegister, val: u8)
        ensures
            *final(self) == old(self).with_reg(reg, val),
    {
        match reg {
            CpuRegister::A => self.a = val,
            CpuRegister::B => self.b = val,
            CpuRegister::C => self.c = val,
            CpuRegister::D => self.d = val,
            CpuRegister::E => self.e = val,
            CpuRegister::H => self.h = val,
            CpuRegister::L => self.l = val,
        }
    }

    pub fn get(&self, reg: CpuRegister) -> (r: u8)
        ensures
            r == self.get_spec(reg),
    {
        match reg {
            CpuRegister::A => self.a,
            CpuRegister::B => self.b,
            CpuRegister::C => self.c,
            CpuRegister::D => self.d,
            CpuRegister::E => self.e,
            CpuRegister::H => self.h,
            CpuRegister::L => self.l,
        }
    }

    pub fn set16(&mut self, reg: Cpu16Register, val: u16)
        ensures
            *final(self) == old(self).with16(reg, val),
            old(self).wf() ==> final(self).wf(),
    {
        let low: u8 = (val % 256) as u8;
        let high: u8 = (val / 256) as u8;

        match reg {
            Cpu16Register::SP => {
                self.sp = val;
            }
            Cpu16Register::BC => {
                self.b = high;
                self.c = low;
            }
            Cpu16Register::DE => {
                self.d = high;
                self.e = low;
            }
            Cpu16Register::HL => {
                self.h = high;
                self.l = low;
            }
            Cpu16Register::AF => {
                self.a = high;
                self.f = low & 0xF0;
                proof {
                    lemma_high_nibble_mask(low);
                }
            }
        }
    }

    pub fn get16(&self, reg: Cpu16Register) -> (r: u16)
        ensures
            r == self.get16_spec(reg),
    {
        let low: u8;
        let high: u16;

        match reg {
            Cpu16Register::SP => {
                return self.sp;
            }
            Cpu16Register::BC => {
                high = self.b as u16;
                low = self.c;
            }
            Cpu16Register::DE => {
                high = self.d as u16;
                low = self.e;
            }
            Cpu16Register::HL => {
                high = self.h as u16;
                low = self.l;
            }
            Cpu16Register::AF => {
                high = self.a as u16;
                low = self.f;
            }
        }

        high * 256 + (low as u16)
    }

    /// Replace the four flags; the low nibble of F stays zero.
    pub fn set_flags(&mut self, z: bool, n: bool, h: bool, c: bool)
        ensures
            *final(self) == old(self).with_flags(z, n, h, c),
            final(self).wf(),
            final(self).z_flag_spec() == z,
            final(self).n_flag_spec() == n,
            final(self).h_flag_spec() == h,
            final(self).c_flag_spec() == c,
    {
        let fv: u8 = (if z { 0x80u8 } else { 0u8 }) | (if n { 0x40u8 } else { 0u8 }) | (if h {
            0x20u8
        } else {
            0u8
        }) | (if c { 0x10u8 } else { 0u8 });
        proof {
            lemma_pack_flags(z, n, h, c);
        }
        self.f = fv;
    }

    pub fn c_flag(&self) -> (r: bool)
        ensures
            r == self.c_flag_spec(),
    {
        (self.f & 0x10) != 0
    }

    pub fn h_flag(&self) -> (r: bool)
        ensures
            r == self.h_flag_spec(),
    {
        (self.f & 0x20) != 0
    }

    pub fn n_flag(&self) -> (r: bool)
        ensures
            r == self.n_flag_spec(),
    {
        (self.f & 0x40) != 0
    }

    pub fn z_flag(&self) -> (r: bool)
        ensures
            r == self.z_flag_spec(),
    {
        (self.f & 0x80) != 0
    }

    /// An absolute control transfer; the fetch loop will not advance PC.
    pub fn jump(&mut self, addr: u16)
        ensures
            *final(self) == (Cpu { pc: addr, jumped: true, ..*old(self) }),
    {
        self.pc = addr;
        self.jumped = true;
    }

    /// A relative control transfer by a signed offset, wrapping 16-bit.
    pub fn rjump(&mut self, offset: i8)
        ensures
            *final(self) == (Cpu {
                pc: old(self).pc.wrapping_add_signed(offset as i16),
                jumped: true,
                ..*old(self)
            }),
    {
        self.pc = self.pc.wrapping_add_signed(offset as i16);
        self.jumped = true;
    }

    /// Pop a little-endian word off the stack and jump to it.
    pub fn ret(&mut self, mem: &Memory)
        requires
            mem.wf(),
        ensures
            *final(self) == (Cpu {
                pc: mem_read16(mem@, old(self).sp),
                sp: old(self).sp.wrapping_add(2),
                jumped: true,
                ..*old(self)
            }),
    {
        let newpc = mem.get16(self.sp);

        self.sp = self.sp.wrapping_add(2);
        self.jump(newpc);
    }

    pub fn enable_interrupts(&mut self)
        ensures
            *final(self) == (Cpu { interrupts: true, ..*old(self) }),
    {
        self.interrupts = true;
    }

    pub fn disable_interrupts(&mut self)
        ensures
            *final(self) == (Cpu { interrupts: false, ..*old(self) }),
    {
        self.interrupts = false;
    }

    /// The HALT instruction: suspend fetching until an interrupt pends.
    /// With the master enable off the halt is refused, mirroring the
    /// hardware's halt-skip behaviour.
    pub fn halt(&mut self)
        ensures
            *final(self) == if old(self).interrupts {
                Cpu { halted: true, ..*old(self) }
            } else {
                *old(self)
            },
    {
        if !self.interrupts {
            return ;
        }
        self.halted = true;
    }

    /// One fetch-decode-execute step. A halted CPU consumes eight clocks and
    /// fetches nothing. Otherwise the instruction at PC executes as
    /// `exec_post` says; PC then advances by the instruction's length unless
    /// the instruction transferred control, and the transfer mark is cleared
    /// either way.
    pub fn cycle(&mut self, mem: &mut Memory, _debug: bool) -> (cycles: u8)
        requires
            old(mem).wf(),
            !old(self).halted ==> is_legal(read_spec(old(mem)@, old(self).pc)),
        ensures
            final(mem).wf(),
            old(self).wf() ==> final(self).wf(),
            4 <= cycles <= 24,
            cpu_step_post(*old(self), old(mem)@, *final(self), final(mem)@, cycles),
            old(self).halted ==> *final(mem) == *old(mem),
    {
        if self.halted {
            return 8;
        }

        let instr = Instruction::read(mem, self.pc);

        proof {
            lemma_decode_wf(
                mem_read(old(mem)@, old(self).pc),
                mem_read(old(mem)@, old(self).pc.wrapping_add(1)),
                mem_read16(old(mem)@, old(self).pc.wrapping_add(1)),
            );
            lemma_decode_wf(
                mem_read(old(mem)@, old(self).pc.wrapping_add(1)),
                0,
                0,
            );
        }

        let cycles = instr.execute(self, mem);

        let ghost cm = *self;

        // A control transfer must not be skipped over.
        if !self.jumped {
            self.pc = self.pc.wrapping_add(Instruction::mem_size(&instr));
        }

        self.jumped = false;

        proof {
            let i = read_spec(old(mem)@, old(self).pc);
            assert(exec_post(i, *old(self), old(mem)@, cm, mem@, cycles));
        }

        cycles
    }

    /// Service a pending interrupt: the halt is always released; with the
    /// master enable set, PC is pushed, the fixed vector is entered, the
    /// request bit is dismissed and the master enable is cleared. The result
    /// says whether a VBlank was vectored.
    pub fn interrupt(&mut self, mem: &mut Memory, intr: Interrupt) -> (r: bool)
        requires
            old(mem).wf(),
        ensures
            final(mem).wf(),
            interrupt_post(*old(self), old(mem)@, *final(self), final(mem)@, intr),
            r == (old(self).interrupts && intr == Interrupt::VBlank),
            !old(self).interrupts ==> *final(mem) == *old(mem),
    {
        self.halted = false;

        if !self.interrupts {
            return false;
        }

        let targetpc: u16 = match intr {
            Interrupt::VBlank => 0x0040,
            Interrupt::LcdStat => 0x0048,
            Interrupt::Timer => 0x0050,
            Interrupt::Joypad => 0x0060,
        };

        // Push the current pc onto the stack, and continue at the vector.
        self.sp = self.sp.wrapping_sub(2);
        mem.set16(self.sp, self.pc);

        self.pc = targetpc;

        interrupt::reset_interrupt(intr, mem);

        // Further interrupts stay disabled until RETI or EI.
        self.disable_interrupts();

        intr == Interrupt::VBlank
    }

    /// Relies on the format! macro of std for hexadecimal rendering of the
    /// register file; diagnostic only, nothing is proved of the text.
    #[verifier::external_body]
    pub fn print_state(&self) -> String {
        format!(
            "pc {:4X} sp {:2X} a {:2X} b {:2X} c {:2X} d {:2X} e {:2X} f {:2X} h {:2X} l {:2X}",
            self.pc, self.sp, self.a, self.b, self.c, self.d, self.e, self.f, self.h, self.l
        )
    }
}

/// A pair written by `with16` reads back by `get16_spec`; writing AF masks
/// the low nibble of F away.
pub proof fn lemma_with16_get16(c: Cpu, reg: Cpu16Register, w: u16)
    ensures
        !(reg is AF) ==> c.with16(reg, w).get16_spec(reg) == w,
        reg is AF ==> c.with16(reg, w).get16_spec(reg) == w & 0xFFF0,
{
    vstd::arithmetic::div_mod::lemma_fundamental_div_mod(w as int, 256);
    if reg is AF {
        assert(w & 0xFFF0 == 256 * (w / 256) + ((w % 256) & 0xF0)) by (bit_vector);
    }
}

/// Law (interrupt vectoring): with the master enable set and the two stack
/// bytes in plain RAM, servicing an interrupt pushes the little-endian PC
/// (read back bit-exact from the new stack top), decrements SP by two,
/// enters the fixed vector, clears the master enable and the halt, and
/// clears the request's IF bit.
pub proof fn lemma_interrupt_vectoring(c0: Cpu, v0: MemView, c1: Cpu, v1: MemView, intr: Interrupt)
    requires
        v0.wf(),
        c0.interrupts,
        crate::memory::plain_ram(c0.sp.wrapping_sub(2)),
        crate::memory::plain_ram(c0.sp.wrapping_sub(1)),
        interrupt_post(c0, v0, c1, v1, intr),
    ensures
        c1.pc == vector_of(intr),
        c1.sp == c0.sp.wrapping_sub(2),
        !c1.interrupts,
        !c1.halted,
        mem_read16(v1, c1.sp) == c0.pc,
        mem_read(v1, 0xFF0F) & interrupt::mask_of(intr) == 0,
{
    let sp2 = c0.sp.wrapping_sub(2);
    assert(sp2.wrapping_add(1) == c0.sp.wrapping_sub(1));
    crate::memory::lemma_read16_after_write16(v0, sp2, c0.pc, 0);
    let w = mem_write16(v0, sp2, c0.pc);
    let m = interrupt::mask_of(intr);
    let x = mem_read(w, 0xFF0F);
    assert((x & !m) & m == 0) by (bit_vector);
}

} // verus!
