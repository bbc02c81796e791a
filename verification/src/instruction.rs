//! The decoded instruction set: one variant per distinct execution
//! semantics, each carrying its immediate operands and register selectors,
//! with its byte length and its exact cycle cost.

use vstd::prelude::*;
use crate::cpu::{Cpu, Cpu16Register, CpuRegister};
use crate::math;
use crate::memory::{mem_read, mem_read16, mem_write, mem_write16, MemView, Memory};
use crate::opcode::{decode, decode_extended, read_extended_opcode, read_opcode};

verus! {

#[derive(Debug)]
pub enum Instruction {
    Noop,
    LDI16 {
        val: u16,
        reg: Cpu16Register,
    },
    LDI8 {
        val: u8,
        reg: CpuRegister,
    },
    LDR8 {
        src: CpuRegister,
        dst: CpuRegister,
    },
    LDA8 {
        src_addr: Cpu16Register,
        dst: CpuRegister,
    },
    LDHA {
        addr: u8,
    },
    LDHCA,
    LDD,
    LDI,
    LDAA {
        addr: u16,
    },
    LDHLI {
        offset: i8,
    },
    LDSPA {
        addr: u16,
    },
    LDSPHL,
    JP {
        addr: u16,
    },
    JPNZ {
        addr: u16,
    },
    JPZ {
        addr: u16,
    },
    JPNC {
        addr: u16,
    },
    JPC {
        addr: u16,
    },
    JPA,
    JR {
        offset: i8,
    },
    JRNZ {
        offset: i8,
    },
    JRZ {
        offset: i8,
    },
    JRNC {
        offset: i8,
    },
    JRC {
        offset: i8,
    },
    CALL {
        addr: u16,
    },
    CALLNZ {
        addr: u16,
    },
    CALLNC {
        addr: u16,
    },
    CALLZ {
        addr: u16,
    },
    CALLC {
        addr: u16,
    },
    RET,
    RETNZ,
    RETZ,
    RETNC,
    RETC,
    RETI,
    RST {
        addr: u16,
    },
    STA8 {
        dst_addr: Cpu16Register,
        src: CpuRegister,
    },
    STI8 {
        dst_addr: Cpu16Register,
        val: u8,
    },
    STHA {
        addr: u8,
    },
    STHCA,
    STAA {
        addr: u16,
    },
    STD,
    STI,
    SUBR {
        reg: CpuRegister,
    },
    SUBA {
        reg_addr: Cpu16Register,
    },
    SUBI {
        val: u8,
    },
    SBCR {
        reg: CpuRegister,
    },
    SBCA {
        reg_addr: Cpu16Register,
    },
    SBCI {
        val: u8,
    },
    ADDR {
        reg: CpuRegister,
    },
    ADDA,
    ADDI {
        val: u8,
    },
    ADD16 {
        src: Cpu16Register,
    },
    ADDSP {
        val: u8,
    },
    ADC {
        reg: CpuRegister,
    },
    ADCA,
    ADCI {
        val: u8,
    },
    XORR {
        reg: CpuRegister,
    },
    XORA,
    XORI {
        val: u8,
    },
    INC {
        reg: CpuRegister,
    },
    INCA,
    DEC {
        reg: CpuRegister,
    },
    DECA,
    INC16 {
        reg: Cpu16Register,
    },
    DEC16 {
        reg: Cpu16Register,
    },
    CPL,
    CCF,
    DI,
    EI,
    CMPR {
        reg: CpuRegister,
    },
    CMPI {
        val: u8,
    },
    CMPA,
    ORR {
        reg: CpuRegister,
    },
    ORA,
    ORI {
        val: u8,
    },
    ANDR {
        reg: CpuRegister,
    },
    ANDA,
    ANDI {
        val: u8,
    },
    PUSH {
        reg: Cpu16Register,
    },
    POP {
        reg: Cpu16Register,
    },
    SWAP {
        reg: CpuRegister,
    },
    SWAPA,
    BIT {
        n: u8,
        reg: CpuRegister,
    },
    BITA {
        n: u8,
    },
    SET {
        n: u8,
        reg: CpuRegister,
    },
    SETA {
        n: u8,
    },
    RESET {
        n: u8,
        reg: CpuRegister,
    },
    RESETA {
        n: u8,
    },
    SLA {
        reg: CpuRegister,
    },
    SLAA,
    SRL {
        reg: CpuRegister,
    },
    SRLA,
    SRA {
        reg: CpuRegister,
    },
    SRAA,
    RLCA,
    RLA,
    RRCA,
    RRA,
    RLC {
        reg: CpuRegister,
    },
    RLCHL,
    RL {
        reg: CpuRegister,
    },
    RLHL,
    RRC {
        reg: CpuRegister,
    },
    RRCHL,
    RR {
        reg: CpuRegister,
    },
    RRHL,
    SCF,
    DAA,
    HALT,

    ILLEGAL,
    UNIMPLEMENTED {
        opcode: u8,
    },
}

/// Bit-numbered variants carry a bit index below eight.
pub open spec fn wf_instr(i: Instruction) -> bool {
    match i {
        Instruction::BIT { n, .. } => n < 8,
        Instruction::BITA { n } => n < 8,
        Instruction::SET { n, .. } => n < 8,
        Instruction::SETA { n } => n < 8,
        Instruction::RESET { n, .. } => n < 8,
        Instruction::RESETA { n } => n < 8,
        _ => true,
    }
}

/// Whether executing the instruction is defined; the illegal opcodes and the
/// unimplemented STOP are fatal to the emulation.
pub open spec fn is_legal(i: Instruction) -> bool {
    !(i is ILLEGAL || i is UNIMPLEMENTED)
}

/// The instruction's length in bytes.
pub open spec fn size_spec(inst: Instruction) -> u16 {
    match inst {
            Instruction::Noop => 1,
            Instruction::LDI16 { .. } => 3,
            Instruction::LDI8 { .. } => 2,
            Instruction::LDR8 { .. } => 1,
            Instruction::LDA8 { .. } => 1,
            Instruction::LDHA { .. } => 2,
            Instruction::LDHCA => 1,
            Instruction::LDD { .. } => 1,
            Instruction::LDI { .. } => 1,
            Instruction::LDAA { .. } => 3,
            Instruction::LDHLI { .. } => 2,
            Instruction::LDSPA { .. } => 3,
            Instruction::LDSPHL => 1,
            Instruction::JP { .. } => 3,
            Instruction::JPNZ { .. } => 3,
            Instruction::JPZ { .. } => 3,
            Instruction::JPNC { .. } => 3,
            Instruction::JPC { .. } => 3,
            Instruction::JPA => 1,
            Instruction::JR { .. } => 2,
            Instruction::JRNZ { .. } => 2,
            Instruction::JRZ { .. } => 2,
            Instruction::JRNC { .. } => 2,
            Instruction::JRC { .. } => 2,
            Instruction::CALL { .. } => 3,
            Instruction::CALLNC { .. } => 3,
            Instruction::CALLNZ { .. } => 3,
            Instruction::CALLC { .. } => 3,
            Instruction::CALLZ { .. } => 3,
            Instruction::RET => 1,
            Instruction::RETNZ => 1,
            Instruction::RETZ => 1,
            Instruction::RETNC => 1,
            Instruction::RETC => 1,
            Instruction::RETI => 1,
            Instruction::RST { .. } => 1,
            Instruction::STA8 { .. } => 1,
            Instruction::STI8 { .. } => 2,
            Instruction::STHA { .. } => 2,
            Instruction::STHCA => 1,
            Instruction::STAA { .. } => 3,
            Instruction::STD => 1,
            Instruction::STI => 1,
            Instruction::SUBR { .. } => 1,
            Instruction::SUBA { .. } => 1,
            Instruction::SUBI { .. } => 2,
            Instruction::SBCR { .. } => 1,
            Instruction::SBCA { .. } => 1,
            Instruction::SBCI { .. } => 2,
            Instruction::ADDR { .. } => 1,
            Instruction::ADDA => 1,
            Instruction::ADDI { .. } => 2,
            Instruction::ADD16 { .. } => 1,
            Instruction::ADDSP { .. } => 2,
            Instruction::ADC { .. } => 1,
            Instruction::ADCA => 1,
            Instruction::ADCI { .. } => 2,
            Instruction::XORR { .. } => 1,
            Instruction::XORA => 1,
            Instruction::XORI { .. } => 2,
            Instruction::INC { .. } => 1,
            Instruction::INCA => 1,
            Instruction::DEC { .. } => 1,
            Instruction::DECA => 1,
            Instruction::INC16 { .. } => 1,
            Instruction::DEC16 { .. } => 1,
            Instruction::CPL => 1,
            Instruction::CCF => 1,
            Instruction::DI => 1,
            Instruction::EI => 1,
            Instruction::CMPR { .. } => 1,
            Instruction::CMPA => 1,
            Instruction::CMPI { .. } => 2,
            Instruction::ORR { .. } => 1,
            Instruction::ORA => 1,
            Instruction::ORI { .. } => 2,
            Instruction::ANDR { .. } => 1,
            Instruction::ANDA => 1,
            Instruction::ANDI { .. } => 2,
            Instruction::PUSH { .. } => 1,
            Instruction::POP { .. } => 1,
            Instruction::SWAP { .. } => 2,
            Instruction::SWAPA => 2,
            Instruction::BIT { .. } => 2,
            Instruction::BITA { .. } => 2,
            Instruction::SET { .. } => 2,
            Instruction::SETA { .. } => 2,
            Instruction::RESET { .. } => 2,
            Instruction::RESETA { .. } => 2,
            Instruction::SLA { .. } => 2,
            Instruction::SLAA => 2,
            Instruction::SRL { .. } => 2,
            Instruction::SRLA => 2,
            Instruction::SRA { .. } => 2,
            Instruction::SRAA => 2,
            Instruction::RLCA => 1,
            Instruction::RRCA => 1,
            Instruction::RLA => 1,
            Instruction::RRA => 1,
            Instruction::RLC { .. } => 2,
            Instruction::RLCHL => 2,
            Instruction::RRC { .. } => 2,
            Instruction::RRCHL => 2,
            Instruction::RL { .. } => 2,
            Instruction::RLHL => 2,
            Instruction::RR { .. } => 2,
            Instruction::RRHL => 2,
            Instruction::SCF => 1,
            Instruction::DAA => 1,
            Instruction::HALT => 1,

            Instruction::ILLEGAL => 1,
            Instruction::UNIMPLEMENTED { .. } => 1,
    }
}

/// The instruction decoded at `addr`: the 0xCB prefix selects the extended
/// page, everything else the base page.
pub open spec fn read_spec(v: MemView, addr: u16) -> Instruction {
    let opcode = mem_read(v, addr);
    if opcode == 0xCB {
        decode_extended(mem_read(v, addr.wrapping_add(1)))
    } else {
        decode(opcode, mem_read(v, addr.wrapping_add(1)), mem_read16(v, addr.wrapping_add(1)))
    }
}

impl Instruction {
    /// Decode the instruction at `addr`; the machine is only read.
    pub fn read(mem: &Memory, addr: u16) -> (r: Instruction)
        requires
            mem.wf(),
        ensures
            r == read_spec(mem@, addr),
    {
        let opcode: u8 = mem.get(addr);

        if opcode == 0xCB {
            return read_extended_opcode(mem.get(addr.wrapping_add(1)), addr.wrapping_add(2), mem);
        }

        read_opcode(opcode, addr.wrapping_add(1), mem)
    }

    /// The instruction's length in bytes.
    pub fn mem_size(inst: &Instruction) -> (r: u16)
        ensures
            r == size_spec(*inst),
    {
        match *inst {
                Instruction::Noop => 1,
                Instruction::LDI16 { .. } => 3,
                Instruction::LDI8 { .. } => 2,
                Instruction::LDR8 { .. } => 1,
                Instruction::LDA8 { .. } => 1,
                Instruction::LDHA { .. } => 2,
                Instruction::LDHCA => 1,
                Instruction::LDD { .. } => 1,
                Instruction::LDI { .. } => 1,
                Instruction::LDAA { .. } => 3,
                Instruction::LDHLI { .. } => 2,
                Instruction::LDSPA { .. } => 3,
                Instruction::LDSPHL => 1,
                Instruction::JP { .. } => 3,
                Instruction::JPNZ { .. } => 3,
                Instruction::JPZ { .. } => 3,
                Instruction::JPNC { .. } => 3,
                Instruction::JPC { .. } => 3,
                Instruction::JPA => 1,
                Instruction::JR { .. } => 2,
                Instruction::JRNZ { .. } => 2,
                Instruction::JRZ { .. } => 2,
                Instruction::JRNC { .. } => 2,
                Instruction::JRC { .. } => 2,
                Instruction::CALL { .. } => 3,
                Instruction::CALLNC { .. } => 3,
                Instruction::CALLNZ { .. } => 3,
                Instruction::CALLC { .. } => 3,
                Instruction::CALLZ { .. } => 3,
                Instruction::RET => 1,
                Instruction::RETNZ => 1,
                Instruction::RETZ => 1,
                Instruction::RETNC => 1,
                Instruction::RETC => 1,
                Instruction::RETI => 1,
                Instruction::RST { .. } => 1,
                Instruction::STA8 { .. } => 1,
                Instruction::STI8 { .. } => 2,
                Instruction::STHA { .. } => 2,
                Instruction::STHCA => 1,
                Instruction::STAA { .. } => 3,
                Instruction::STD => 1,
                Instruction::STI => 1,
                Instruction::SUBR { .. } => 1,
                Instruction::SUBA { .. } => 1,
                Instruction::SUBI { .. } => 2,
                Instruction::SBCR { .. } => 1,
                Instruction::SBCA { .. } => 1,
                Instruction::SBCI { .. } => 2,
                Instruction::ADDR { .. } => 1,
                Instruction::ADDA => 1,
                Instruction::ADDI { .. } => 2,
                Instruction::ADD16 { .. } => 1,
                Instruction::ADDSP { .. } => 2,
                Instruction::ADC { .. } => 1,
                Instruction::ADCA => 1,
                Instruction::ADCI { .. } => 2,
                Instruction::XORR { .. } => 1,
                Instruction::XORA => 1,
                Instruction::XORI { .. } => 2,
                Instruction::INC { .. } => 1,
                Instruction::INCA => 1,
                Instruction::DEC { .. } => 1,
                Instruction::DECA => 1,
                Instruction::INC16 { .. } => 1,
                Instruction::DEC16 { .. } => 1,
                Instruction::CPL => 1,
                Instruction::CCF => 1,
                Instruction::DI => 1,
                Instruction::EI => 1,
                Instruction::CMPR { .. } => 1,
                Instruction::CMPA => 1,
                Instruction::CMPI { .. } => 2,
                Instruction::ORR { .. } => 1,
                Instruction::ORA => 1,
                Instruction::ORI { .. } => 2,
                Instruction::ANDR { .. } => 1,
                Instruction::ANDA => 1,
                Instruction::ANDI { .. } => 2,
                Instruction::PUSH { .. } => 1,
                Instruction::POP { .. } => 1,
                Instruction::SWAP { .. } => 2,
                Instruction::SWAPA => 2,
                Instruction::BIT { .. } => 2,
                Instruction::BITA { .. } => 2,
                Instruction::SET { .. } => 2,
                Instruction::SETA { .. } => 2,
                Instruction::RESET { .. } => 2,
                Instruction::RESETA { .. } => 2,
                Instruction::SLA { .. } => 2,
                Instruction::SLAA => 2,
                Instruction::SRL { .. } => 2,
                Instruction::SRLA => 2,
                Instruction::SRA { .. } => 2,
                Instruction::SRAA => 2,
                Instruction::RLCA => 1,
                Instruction::RRCA => 1,
                Instruction::RLA => 1,
                Instruction::RRA => 1,
                Instruction::RLC { .. } => 2,
                Instruction::RLCHL => 2,
                Instruction::RRC { .. } => 2,
                Instruction::RRCHL => 2,
                Instruction::RL { .. } => 2,
                Instruction::RLHL => 2,
                Instruction::RR { .. } => 2,
                Instruction::RRHL => 2,
                Instruction::SCF => 1,
                Instruction::DAA => 1,
                Instruction::HALT => 1,

                Instruction::ILLEGAL => 1,
                Instruction::UNIMPLEMENTED { .. } => 1,
        }
    }
}

/// Every decoded instruction carries well-formed bit indices.
pub proof fn lemma_decode_wf(opcode: u8, d8: u8, d16: u16)
    ensures
        wf_instr(decode(opcode, d8, d16)),
        wf_instr(decode_extended(opcode)),
{
}

/// The exact effect of executing an instruction: the register file, the
/// machine view, and the cycle cost that `execute` must produce from the
/// pre-state. Conditional control transfers take the dearer cycle count on
/// the taken branch.
pub open spec fn exec_post(i: Instruction, c0: Cpu, v0: MemView, c1: Cpu, v1: MemView, cy: u8) -> bool {
    match i {
        Instruction::Noop => c1 == c0 && v1 == v0 && cy == 4,
        Instruction::LDI16 { val, reg } => c1 == c0.with16(reg, val) && v1 == v0 && cy == 12,
        Instruction::LDI8 { val, reg } => c1 == c0.with_reg(reg, val) && v1 == v0 && cy == 8,
        Instruction::LDR8 { src, dst } => c1 == c0.with_reg(dst, c0.get_spec(src)) && v1 == v0 && cy == 4,
        Instruction::LDA8 { src_addr, dst } => c1 == c0.with_reg(dst, mem_read(v0, c0.get16_spec(src_addr))) && v1 == v0 && cy == 8,
        Instruction::LDHA { addr } => c1 == c0.with_reg(CpuRegister::A, mem_read(v0, (0xFF00 + addr) as u16)) && v1 == v0 && cy == 12,
        Instruction::LDHCA => c1 == c0.with_reg(CpuRegister::A, mem_read(v0, (0xFF00 + c0.c) as u16)) && v1 == v0 && cy == 8,
        Instruction::LDD => {
            let hl = c0.get16_spec(Cpu16Register::HL);
            c1 == c0.with_reg(CpuRegister::A, mem_read(v0, hl)).with16(Cpu16Register::HL, hl.wrapping_sub(1)) && v1 == v0 && cy == 8
        },
        Instruction::LDI => {
            let hl = c0.get16_spec(Cpu16Register::HL);
            c1 == c0.with_reg(CpuRegister::A, mem_read(v0, hl)).with16(Cpu16Register::HL, hl.wrapping_add(1)) && v1 == v0 && cy == 8
        },
        Instruction::LDAA { addr } => c1 == c0.with_reg(CpuRegister::A, mem_read(v0, addr)) && v1 == v0 && cy == 16,
        Instruction::LDHLI { offset } => c1 == c0.with16(Cpu16Register::HL, c0.sp.wrapping_add_signed(offset as i16)) && v1 == v0 && cy == 12,
        Instruction::LDSPA { addr } => c1 == c0.with16(Cpu16Register::SP, mem_read16(v0, addr)) && v1 == v0 && cy == 20,
        Instruction::LDSPHL => c1 == c0.with16(Cpu16Register::SP, c0.get16_spec(Cpu16Register::HL)) && v1 == v0 && cy == 8,
        Instruction::JP { addr } => c1 == (Cpu { pc: addr, jumped: true, ..c0 }) && v1 == v0 && cy == 16,
        Instruction::JPNZ { addr } => if !c0.z_flag_spec() {
            c1 == (Cpu { pc: addr, jumped: true, ..c0 }) && v1 == v0 && cy == 16
        } else {
            c1 == c0 && v1 == v0 && cy == 12
        },
        Instruction::JPZ { addr } => if c0.z_flag_spec() {
            c1 == (Cpu { pc: addr, jumped: true, ..c0 }) && v1 == v0 && cy == 16
        } else {
            c1 == c0 && v1 == v0 && cy == 12
        },
        Instruction::JPNC { addr } => if !c0.c_flag_spec() {
            c1 == (Cpu { pc: addr, jumped: true, ..c0 }) && v1 == v0 && cy == 16
        } else {
            c1 == c0 && v1 == v0 && cy == 12
        },
        Instruction::JPC { addr } => if c0.c_flag_spec() {
            c1 == (Cpu { pc: addr, jumped: true, ..c0 }) && v1 == v0 && cy == 16
        } else {
            c1 == c0 && v1 == v0 && cy == 12
        },
        Instruction::JPA => c1 == (Cpu { pc: c0.get16_spec(Cpu16Register::HL), jumped: true, ..c0 }) && v1 == v0 && cy == 4,
        Instruction::JR { offset } => c1 == (Cpu { pc: c0.pc.wrapping_add(2).wrapping_add_signed(offset as i16), jumped: true, ..c0 }) && v1 == v0 && cy == 12,
        Instruction::JRNZ { offset } => if !c0.z_flag_spec() {
            c1 == (Cpu { pc: c0.pc.wrapping_add(2).wrapping_add_signed(offset as i16), jumped: true, ..c0 }) && v1 == v0 && cy == 12
        } else {
            c1 == c0 && v1 == v0 && cy == 8
        },
        Instruction::JRZ { offset } => if c0.z_flag_spec() {
            c1 == (Cpu { pc: c0.pc.wrapping_add(2).wrapping_add_signed(offset as i16), jumped: true, ..c0 }) && v1 == v0 && cy == 12
        } else {
            c1 == c0 && v1 == v0 && cy == 8
        },
        Instruction::JRNC { offset } => if !c0.c_flag_spec() {
            c1 == (Cpu { pc: c0.pc.wrapping_add(2).wrapping_add_signed(offset as i16), jumped: true, ..c0 }) && v1 == v0 && cy == 12
        } else {
            c1 == c0 && v1 == v0 && cy == 8
        },
        Instruction::JRC { offset } => if c0.c_flag_spec() {
            c1 == (Cpu { pc: c0.pc.wrapping_add(2).wrapping_add_signed(offset as i16), jumped: true, ..c0 }) && v1 == v0 && cy == 12
        } else {
            c1 == c0 && v1 == v0 && cy == 8
        },
        Instruction::CALL { addr } => {
            let sp2 = c0.sp.wrapping_sub(2);
            c1 == (Cpu { pc: addr, sp: sp2, jumped: true, ..c0 }) && v1 == mem_write16(v0, sp2, c0.pc.wrapping_add(3)) && cy == 24
        },
        Instruction::CALLNZ { addr } => if !c0.z_flag_spec() {
            let sp2 = c0.sp.wrapping_sub(2);
            c1 == (Cpu { pc: addr, sp: sp2, jumped: true, ..c0 }) && v1 == mem_write16(v0, sp2, c0.pc.wrapping_add(3)) && cy == 24
        } else {
            c1 == c0 && v1 == v0 && cy == 12
        },
        Instruction::CALLNC { addr } => if !c0.c_flag_spec() {
            let sp2 = c0.sp.wrapping_sub(2);
            c1 == (Cpu { pc: addr, sp: sp2, jumped: true, ..c0 }) && v1 == mem_write16(v0, sp2, c0.pc.wrapping_add(3)) && cy == 24
        } else {
            c1 == c0 && v1 == v0 && cy == 12
        },
        Instruction::CALLZ { addr } => if c0.z_flag_spec() {
            let sp2 = c0.sp.wrapping_sub(2);
            c1 == (Cpu { pc: addr, sp: sp2, jumped: true, ..c0 }) && v1 == mem_write16(v0, sp2, c0.pc.wrapping_add(3)) && cy == 24
        } else {
            c1 == c0 && v1 == v0 && cy == 12
        },
        Instruction::CALLC { addr } => if c0.c_flag_spec() {
            let sp2 = c0.sp.wrapping_sub(2);
            c1 == (Cpu { pc: addr, sp: sp2, jumped: true, ..c0 }) && v1 == mem_write16(v0, sp2, c0.pc.wrapping_add(3)) && cy == 24
        } else {
            c1 == c0 && v1 == v0 && cy == 12
        },
        Instruction::RET => c1 == (Cpu { pc: mem_read16(v0, c0.sp), sp: c0.sp.wrapping_add(2), jumped: true, ..c0 }) && v1 == v0 && cy == 16,
        Instruction::RETNZ => if !c0.z_flag_spec() {
            c1 == (Cpu { pc: mem_read16(v0, c0.sp), sp: c0.sp.wrapping_add(2), jumped: true, ..c0 }) && v1 == v0 && cy == 20
        } else {
            c1 == c0 && v1 == v0 && cy == 8
        },
        Instruction::RETZ => if c0.z_flag_spec() {
            c1 == (Cpu { pc: mem_read16(v0, c0.sp), sp: c0.sp.wrapping_add(2), jumped: true, ..c0 }) && v1 == v0 && cy == 20
        } else {
            c1 == c0 && v1 == v0 && cy == 8
        },
        Instruction::RETNC => if !c0.c_flag_spec() {
            c1 == (Cpu { pc: mem_read16(v0, c0.sp), sp: c0.sp.wrapping_add(2), jumped: true, ..c0 }) && v1 == v0 && cy == 20
        } else {
            c1 == c0 && v1 == v0 && cy == 8
        },
        Instruction::RETC => if c0.c_flag_spec() {
            c1 == (Cpu { pc: mem_read16(v0, c0.sp), sp: c0.sp.wrapping_add(2), jumped: true, ..c0 }) && v1 == v0 && cy == 20
        } else {
            c1 == c0 && v1 == v0 && cy == 8
        },
        Instruction::RETI => c1 == (Cpu { pc: mem_read16(v0, c0.sp), sp: c0.sp.wrapping_add(2), jumped: true, interrupts: true, ..c0 }) && v1 == v0 && cy == 16,
        Instruction::RST { addr } => {
            let sp2 = c0.sp.wrapping_sub(2);
            c1 == (Cpu { pc: addr, sp: sp2, jumped: true, ..c0 }) && v1 == mem_write16(v0, sp2, c0.pc.wrapping_add(1)) && cy == 16
        },
        Instruction::STA8 { dst_addr, src } => c1 == c0 && v1 == mem_write(v0, c0.get16_spec(dst_addr), c0.get_spec(src)) && cy == 8,
        Instruction::STI8 { dst_addr, val } => c1 == c0 && v1 == mem_write(v0, c0.get16_spec(dst_addr), val) && cy == 8,
        Instruction::STHA { addr } => c1 == c0 && v1 == mem_write(v0, (0xFF00 + addr) as u16, c0.a) && cy == 12,
        Instruction::STHCA => c1 == c0 && v1 == mem_write(v0, (0xFF00 + c0.c) as u16, c0.a) && cy == 8,
        Instruction::STAA { addr } => c1 == c0 && v1 == mem_write(v0, addr, c0.a) && cy == 16,
        Instruction::STD => {
            let hl = c0.get16_spec(Cpu16Register::HL);
            c1 == c0.with16(Cpu16Register::HL, hl.wrapping_sub(1)) && v1 == mem_write(v0, hl, c0.a) && cy == 8
        },
        Instruction::STI => {
            let hl = c0.get16_spec(Cpu16Register::HL);
            c1 == c0.with16(Cpu16Register::HL, hl.wrapping_add(1)) && v1 == mem_write(v0, hl, c0.a) && cy == 8
        },
        Instruction::SUBR { reg } => c1 == math::sub_flow(c0, c0.get_spec(reg)) && v1 == v0 && cy == 4,
        Instruction::SUBA { reg_addr } => c1 == math::sub_flow(c0, mem_read(v0, c0.get16_spec(reg_addr))) && v1 == v0 && cy == 8,
        Instruction::SUBI { val } => c1 == math::sub_flow(c0, val) && v1 == v0 && cy == 8,
        Instruction::SBCR { reg } => c1 == math::sbc_flow(c0, c0.get_spec(reg)) && v1 == v0 && cy == 4,
        Instruction::SBCA { reg_addr } => c1 == math::sbc_flow(c0, mem_read(v0, c0.get16_spec(reg_addr))) && v1 == v0 && cy == 8,
        Instruction::SBCI { val } => c1 == math::sbc_flow(c0, val) && v1 == v0 && cy == 8,
        Instruction::ADDR { reg } => c1 == math::add_flow(c0, c0.get_spec(reg)) && v1 == v0 && cy == 4,
        Instruction::ADDA => c1 == math::add_flow(c0, mem_read(v0, c0.get16_spec(Cpu16Register::HL))) && v1 == v0 && cy == 8,
        Instruction::ADDI { val } => c1 == math::add_flow(c0, val) && v1 == v0 && cy == 8,
        Instruction::ADD16 { src } => c1 == math::add16_flow(c0, Cpu16Register::HL, c0.get16_spec(src)) && v1 == v0 && cy == 8,
        Instruction::ADDSP { val } => c1 == math::add16_flow(c0, Cpu16Register::SP, (val as i8) as u16) && v1 == v0 && cy == 16,
        Instruction::ADC { reg } => c1 == math::adc_flow(c0, c0.get_spec(reg)) && v1 == v0 && cy == 4,
        Instruction::ADCA => c1 == math::adc_flow(c0, mem_read(v0, c0.get16_spec(Cpu16Register::HL))) && v1 == v0 && cy == 8,
        Instruction::ADCI { val } => c1 == math::adc_flow(c0, val) && v1 == v0 && cy == 8,
        Instruction::XORR { reg } => c1 == math::xor_flow(c0, c0.get_spec(reg)) && v1 == v0 && cy == 4,
        Instruction::XORA => c1 == math::xor_flow(c0, mem_read(v0, c0.get16_spec(Cpu16Register::HL))) && v1 == v0 && cy == 8,
        Instruction::XORI { val } => c1 == math::xor_flow(c0, val) && v1 == v0 && cy == 8,
        Instruction::INC { reg } => c1 == math::inc_flags_flow(c0, c0.get_spec(reg)).with_reg(reg, c0.get_spec(reg).wrapping_add(1)) && v1 == v0 && cy == 4,
        Instruction::INCA => {
            let hl = c0.get16_spec(Cpu16Register::HL);
            let v = mem_read(v0, hl);
            c1 == math::inc_flags_flow(c0, v) && v1 == mem_write(v0, hl, v.wrapping_add(1)) && cy == 12
        },
        Instruction::DEC { reg } => c1 == math::dec_flags_flow(c0, c0.get_spec(reg)).with_reg(reg, c0.get_spec(reg).wrapping_sub(1)) && v1 == v0 && cy == 4,
        Instruction::DECA => {
            let hl = c0.get16_spec(Cpu16Register::HL);
            let v = mem_read(v0, hl);
            c1 == math::dec_flags_flow(c0, v) && v1 == mem_write(v0, hl, v.wrapping_sub(1)) && cy == 12
        },
        Instruction::INC16 { reg } => c1 == c0.with16(reg, c0.get16_spec(reg).wrapping_add(1)) && v1 == v0 && cy == 8,
        Instruction::DEC16 { reg } => c1 == c0.with16(reg, c0.get16_spec(reg).wrapping_sub(1)) && v1 == v0 && cy == 8,
        Instruction::CPL => c1 == math::cpl_flow(c0) && v1 == v0 && cy == 4,
        Instruction::CCF => c1 == math::ccf_flow(c0) && v1 == v0 && cy == 4,
        Instruction::DI => c1 == (Cpu { interrupts: false, ..c0 }) && v1 == v0 && cy == 4,
        Instruction::EI => c1 == (Cpu { interrupts: true, ..c0 }) && v1 == v0 && cy == 4,
        Instruction::CMPR { reg } => c1 == math::cmp_flow(c0, c0.get_spec(reg)) && v1 == v0 && cy == 4,
        Instruction::CMPI { val } => c1 == math::cmp_flow(c0, val) && v1 == v0 && cy == 8,
        Instruction::CMPA => c1 == math::cmp_flow(c0, mem_read(v0, c0.get16_spec(Cpu16Register::HL))) && v1 == v0 && cy == 8,
        Instruction::ORR { reg } => c1 == math::or_flow(c0, c0.get_spec(reg)) && v1 == v0 && cy == 4,
        Instruction::ORA => c1 == math::or_flow(c0, mem_read(v0, c0.get16_spec(Cpu16Register::HL))) && v1 == v0 && cy == 8,
        Instruction::ORI { val } => c1 == math::or_flow(c0, val) && v1 == v0 && cy == 8,
        Instruction::ANDR { reg } => c1 == math::and_flow(c0, c0.get_spec(reg)) && v1 == v0 && cy == 4,
        Instruction::ANDA => c1 == math::and_flow(c0, mem_read(v0, c0.get16_spec(Cpu16Register::HL))) && v1 == v0 && cy == 8,
        Instruction::ANDI { val } => c1 == math::and_flow(c0, val) && v1 == v0 && cy == 8,
        Instruction::PUSH { reg } => {
            let cm = Cpu { sp: c0.sp.wrapping_sub(2), ..c0 };
            c1 == cm && v1 == mem_write16(v0, cm.sp, cm.get16_spec(reg)) && cy == 16
        },
        Instruction::POP { reg } => {
            let cm = c0.with16(reg, mem_read16(v0, c0.sp));
            c1 == (Cpu { sp: cm.sp.wrapping_add(2), ..cm }) && v1 == v0 && cy == 16
        },
        Instruction::SWAP { reg } => {
            let r = math::swap_spec(c0.get_spec(reg));
            c1 == c0.with_flags(r == 0, false, false, false).with_reg(reg, r) && v1 == v0 && cy == 8
        },
        Instruction::SWAPA => {
            let hl = c0.get16_spec(Cpu16Register::HL);
            let r = math::swap_spec(mem_read(v0, hl));
            c1 == c0.with_flags(r == 0, false, false, false) && v1 == mem_write(v0, hl, r) && cy == 16
        },
        Instruction::BIT { n, reg } => c1 == math::bit_test_flow(c0, c0.get_spec(reg), n) && v1 == v0 && cy == 8,
        Instruction::BITA { n } => c1 == math::bit_test_flow(c0, mem_read(v0, c0.get16_spec(Cpu16Register::HL)), n) && v1 == v0 && cy == 16,
        Instruction::SET { n, reg } => c1 == c0.with_reg(reg, c0.get_spec(reg) | (1u8 << n)) && v1 == v0 && cy == 8,
        Instruction::SETA { n } => {
            let hl = c0.get16_spec(Cpu16Register::HL);
            c1 == c0 && v1 == mem_write(v0, hl, mem_read(v0, hl) | (1u8 << n)) && cy == 16
        },
        Instruction::RESET { n, reg } => c1 == c0.with_reg(reg, c0.get_spec(reg) & (!(1u8 << n))) && v1 == v0 && cy == 8,
        Instruction::RESETA { n } => {
            let hl = c0.get16_spec(Cpu16Register::HL);
            c1 == c0 && v1 == mem_write(v0, hl, mem_read(v0, hl) & (!(1u8 << n))) && cy == 16
        },
        Instruction::SLA { reg } => {
            let (cm, r) = math::sla_flow(c0, c0.get_spec(reg));
            c1 == cm.with_reg(reg, r) && v1 == v0 && cy == 8
        },
        Instruction::SLAA => {
            let hl = c0.get16_spec(Cpu16Register::HL);
            let (cm, r) = math::sla_flow(c0, mem_read(v0, hl));
            c1 == cm && v1 == mem_write(v0, hl, r) && cy == 16
        },
        Instruction::SRL { reg } => {
            let (cm, r) = math::srl_flow(c0, c0.get_spec(reg));
            c1 == cm.with_reg(reg, r) && v1 == v0 && cy == 8
        },
        Instruction::SRLA => {
            let hl = c0.get16_spec(Cpu16Register::HL);
            let (cm, r) = math::srl_flow(c0, mem_read(v0, hl));
            c1 == cm && v1 == mem_write(v0, hl, r) && cy == 16
        },
        Instruction::SRA { reg } => {
            let (cm, r) = math::sra_flow(c0, c0.get_spec(reg));
            c1 == cm.with_reg(reg, r) && v1 == v0 && cy == 8
        },
        Instruction::SRAA => {
            let hl = c0.get16_spec(Cpu16Register::HL);
            let (cm, r) = math::sra_flow(c0, mem_read(v0, hl));
            c1 == cm && v1 == mem_write(v0, hl, r) && cy == 16
        },
        Instruction::RLCA => {
            let (cm, r) = math::rlc_flow(c0, c0.a);
            c1 == cm.with_reg(CpuRegister::A, r).with_flags(false, false, false, cm.c_flag_spec()) && v1 == v0 && cy == 4
        },
        Instruction::RLA => {
            let (cm, r) = math::rl_flow(c0, c0.a);
            c1 == cm.with_reg(CpuRegister::A, r).with_flags(false, false, false, cm.c_flag_spec()) && v1 == v0 && cy == 4
        },
        Instruction::RRCA => {
            let (cm, r) = math::rrc_flow(c0, c0.a);
            c1 == cm.with_reg(CpuRegister::A, r).with_flags(false, false, false, cm.c_flag_spec()) && v1 == v0 && cy == 4
        },
        Instruction::RRA => {
            let (cm, r) = math::rr_flow(c0, c0.a);
            c1 == cm.with_reg(CpuRegister::A, r).with_flags(false, false, false, cm.c_flag_spec()) && v1 == v0 && cy == 4
        },
        Instruction::RLC { reg } => {
            let (cm, r) = math::rlc_flow(c0, c0.get_spec(reg));
            c1 == cm.with_reg(reg, r) && v1 == v0 && cy == 8
        },
        Instruction::RLCHL => {
            let hl = c0.get16_spec(Cpu16Register::HL);
            let (cm, r) = math::rlc_flow(c0, mem_read(v0, hl));
            c1 == cm && v1 == mem_write(v0, hl, r) && cy == 16
        },
        Instruction::RL { reg } => {
            let (cm, r) = math::rl_flow(c0, c0.get_spec(reg));
            c1 == cm.with_reg(reg, r) && v1 == v0 && cy == 8
        },
        Instruction::RLHL => {
            let hl = c0.get16_spec(Cpu16Register::HL);
            let (cm, r) = math::rl_flow(c0, mem_read(v0, hl));
            c1 == cm && v1 == mem_write(v0, hl, r) && cy == 16
        },
        Instruction::RRC { reg } => {
            let (cm, r) = math::rrc_flow(c0, c0.get_spec(reg));
            c1 == cm.with_reg(reg, r) && v1 == v0 && cy == 8
        },
        Instruction::RRCHL => {
            let hl = c0.get16_spec(Cpu16Register::HL);
            let (cm, r) = math::rrc_flow(c0, mem_read(v0, hl));
            c1 == cm && v1 == mem_write(v0, hl, r) && cy == 16
        },
        Instruction::RR { reg } => {
            let (cm, r) = math::rr_flow(c0, c0.get_spec(reg));
            c1 == cm.with_reg(reg, r) && v1 == v0 && cy == 8
        },
        Instruction::RRHL => {
            let hl = c0.get16_spec(Cpu16Register::HL);
            let (cm, r) = math::rr_flow(c0, mem_read(v0, hl));
            c1 == cm && v1 == mem_write(v0, hl, r) && cy == 16
        },
        Instruction::SCF => c1 == c0.with_flags(c0.z_flag_spec(), false, false, true) && v1 == v0 && cy == 4,
        Instruction::DAA => c1 == math::daa_flow(c0) && v1 == v0 && cy == 4,
        Instruction::HALT => c1 == (if c0.interrupts { Cpu { halted: true, ..c0 } } else { c0 }) && v1 == v0 && cy == 4,
        Instruction::ILLEGAL => false,
        Instruction::UNIMPLEMENTED { .. } => false,
    }
}

impl Instruction {
    /// Execute one decoded instruction against the CPU and the memory
    /// fabric; the result is its cycle cost. The whole effect is pinned by
    /// `exec_post`.
    pub fn execute(&self, cpu: &mut Cpu, mem: &mut Memory) -> (cycles: u8)
        requires
            wf_instr(*self),
            is_legal(*self),
            old(mem).wf(),
        ensures
            exec_post(*self, *old(cpu), old(mem)@, *final(cpu), final(mem)@, cycles),
            final(mem).wf(),
            old(cpu).wf() ==> final(cpu).wf(),
            4 <= cycles <= 24,
    {
        match *self {
            Instruction::Noop | Instruction::LDI16 { .. } | Instruction::LDI8 { .. } | Instruction::LDR8 { .. } | Instruction::LDA8 { .. } | Instruction::LDHA { .. } | Instruction::LDHCA | Instruction::LDD | Instruction::LDI | Instruction::LDAA { .. } | Instruction::LDHLI { .. } | Instruction::LDSPA { .. } | Instruction::LDSPHL | Instruction::STA8 { .. } | Instruction::STHA { .. } | Instruction::STHCA | Instruction::STI8 { .. } | Instruction::STAA { .. } | Instruction::STD | Instruction::STI => self.exec_load(cpu, mem),
            Instruction::JP { .. } | Instruction::JPNZ { .. } | Instruction::JPZ { .. } | Instruction::JPNC { .. } | Instruction::JPC { .. } | Instruction::JPA | Instruction::JR { .. } | Instruction::JRNZ { .. } | Instruction::JRZ { .. } | Instruction::JRNC { .. } | Instruction::JRC { .. } | Instruction::CALL { .. } | Instruction::CALLNZ { .. } | Instruction::CALLNC { .. } | Instruction::CALLZ { .. } | Instruction::CALLC { .. } | Instruction::RET | Instruction::RETNZ | Instruction::RETZ | Instruction::RETNC | Instruction::RETC | Instruction::RETI | Instruction::RST { .. } => self.exec_control(cpu, mem),
            Instruction::SUBR { .. } | Instruction::SUBA { .. } | Instruction::SUBI { .. } | Instruction::SBCR { .. } | Instruction::SBCA { .. } | Instruction::SBCI { .. } | Instruction::ADDR { .. } | Instruction::ADDA | Instruction::ADDI { .. } | Instruction::ADD16 { .. } | Instruction::ADDSP { .. } | Instruction::ADC { .. } | Instruction::ADCA | Instruction::ADCI { .. } | Instruction::INC { .. } | Instruction::INCA | Instruction::DEC { .. } | Instruction::DECA | Instruction::INC16 { .. } | Instruction::DEC16 { .. } | Instruction::CPL | Instruction::CCF | Instruction::SCF | Instruction::DAA => self.exec_arith(cpu, mem),
            Instruction::XORR { .. } | Instruction::XORA | Instruction::XORI { .. } | Instruction::CMPI { .. } | Instruction::CMPR { .. } | Instruction::CMPA | Instruction::ORR { .. } | Instruction::ORA | Instruction::ORI { .. } | Instruction::ANDR { .. } | Instruction::ANDA | Instruction::ANDI { .. } => self.exec_logic(cpu, mem),
            Instruction::PUSH { .. } | Instruction::POP { .. } | Instruction::SWAP { .. } | Instruction::SWAPA | Instruction::BIT { .. } | Instruction::BITA { .. } | Instruction::SET { .. } | Instruction::SETA { .. } | Instruction::RESET { .. } | Instruction::RESETA { .. } | Instruction::HALT | Instruction::DI | Instruction::EI => self.exec_bits(cpu, mem),
            Instruction::SLA { .. } | Instruction::SLAA | Instruction::SRL { .. } | Instruction::SRLA | Instruction::SRA { .. } | Instruction::SRAA | Instruction::RLCA | Instruction::RRCA | Instruction::RLA | Instruction::RRA | Instruction::RLC { .. } | Instruction::RLCHL | Instruction::RRC { .. } | Instruction::RRCHL | Instruction::RL { .. } | Instruction::RLHL | Instruction::RR { .. } | Instruction::RRHL => self.exec_shift(cpu, mem),
            Instruction::ILLEGAL | Instruction::UNIMPLEMENTED { .. } => {
                proof {
                    assert(false);
                }
                4
            }
        }
    }

    /// One family of the execute dispatch: loads and stores.
    fn exec_load(&self, cpu: &mut Cpu, mem: &mut Memory) -> (cycles: u8)
        requires
            wf_instr(*self),
            ({
            ||| *self is Noop
            ||| *self is LDI16
            ||| *self is LDI8
            ||| *self is LDR8
            ||| *self is LDA8
            ||| *self is LDHA
            ||| *self is LDHCA
            ||| *self is LDD
            ||| *self is LDI
            ||| *self is LDAA
            ||| *self is LDHLI
            ||| *self is LDSPA
            ||| *self is LDSPHL
            ||| *self is STA8
            ||| *self is STHA
            ||| *self is STHCA
            ||| *self is STI8
            ||| *self is STAA
            ||| *self is STD
            ||| *self is STI
            }),
            old(mem).wf(),
        ensures
            exec_post(*self, *old(cpu), old(mem)@, *final(cpu), final(mem)@, cycles),
            final(mem).wf(),
            old(cpu).wf() ==> final(cpu).wf(),
            4 <= cycles <= 24,
    {
        let cycles: u8;
        match *self {
            Instruction::Noop => {
                cycles = 4;
            }
            Instruction::LDI16 { val, reg } => {
                cpu.set16(reg, val);
                cycles = 12;
            }
            Instruction::LDI8 { val, reg } => {
                cpu.set(reg, val);
                cycles = 8;
            }
            Instruction::LDR8 { src, dst } => {
                let val: u8 = cpu.get(src);
                cpu.set(dst, val);
                cycles = 4;
            }
            Instruction::LDA8 { src_addr, dst } => {
                let addr: u16 = cpu.get16(src_addr);
                cpu.set(dst, mem.get(addr));
                cycles = 8;
            }
            Instruction::LDHA { addr } => {
                cpu.set(CpuRegister::A, mem.get(0xFF00 + (addr as u16)));
                cycles = 12;
            }
            Instruction::LDHCA => {
                let addr: u16 = cpu.get(CpuRegister::C) as u16;
                cpu.set(CpuRegister::A, mem.get(0xFF00 + addr));
                cycles = 8;
            }
            Instruction::LDD => {
                let addr: u16 = cpu.get16(Cpu16Register::HL);
                cpu.set(CpuRegister::A, mem.get(addr));
                cpu.set16(Cpu16Register::HL, addr.wrapping_sub(1));
                cycles = 8;
            }
            Instruction::LDI => {
                let addr: u16 = cpu.get16(Cpu16Register::HL);
                cpu.set(CpuRegister::A, mem.get(addr));
                cpu.set16(Cpu16Register::HL, addr.wrapping_add(1));
                cycles = 8;
            }
            Instruction::LDAA { addr } => {
                cpu.set(CpuRegister::A, mem.get(addr));
                cycles = 16;
            }
            Instruction::LDHLI { offset } => {
                let addr: u16 = cpu.get16(Cpu16Register::SP).wrapping_add_signed(offset as i16);
                cpu.set16(Cpu16Register::HL, addr);
                cycles = 12;
            }
            Instruction::LDSPA { addr } => {
                cpu.set16(Cpu16Register::SP, mem.get16(addr));
                cycles = 20;
            }
            Instruction::LDSPHL => {
                let val: u16 = cpu.get16(Cpu16Register::HL);
                cpu.set16(Cpu16Register::SP, val);
                cycles = 8;
            }
            Instruction::STA8 { dst_addr, src } => {
                let dst: u16 = cpu.get16(dst_addr);
                mem.set(dst, cpu.get(src));
                cycles = 8;
            }
            Instruction::STHA { addr } => {
                mem.set(0xFF00 + (addr as u16), cpu.get(CpuRegister::A));
                cycles = 12;
            }
            Instruction::STHCA => {
                let addr: u16 = cpu.get(CpuRegister::C) as u16;
                mem.set(0xFF00 + addr, cpu.get(CpuRegister::A));
                cycles = 8;
            }
            Instruction::STI8 { dst_addr, val } => {
                mem.set(cpu.get16(dst_addr), val);
                cycles = 8;
            }
            Instruction::STAA { addr } => {
                mem.set(addr, cpu.get(CpuRegister::A));
                cycles = 16;
            }
            Instruction::STD => {
                let addr: u16 = cpu.get16(Cpu16Register::HL);
                mem.set(addr, cpu.get(CpuRegister::A));
                cpu.set16(Cpu16Register::HL, addr.wrapping_sub(1));
                cycles = 8;
            }
            Instruction::STI => {
                let addr: u16 = cpu.get16(Cpu16Register::HL);
                mem.set(addr, cpu.get(CpuRegister::A));
                cpu.set16(Cpu16Register::HL, addr.wrapping_add(1));
                cycles = 8;
            }
            _ => {
                proof {
                    assert(false);
                }
                cycles = 4;
            }
        }

        cycles
    }

    /// One family of the execute dispatch: control transfers.
    fn exec_control(&self, cpu: &mut Cpu, mem: &mut Memory) -> (cycles: u8)
        requires
            wf_instr(*self),
            ({
            ||| *self is JP
            ||| *self is JPNZ
            ||| *self is JPZ
            ||| *self is JPNC
            ||| *self is JPC
            ||| *self is JPA
            ||| *self is JR
            ||| *self is JRNZ
            ||| *self is JRZ
            ||| *self is JRNC
            ||| *self is JRC
            ||| *self is CALL
            ||| *self is CALLNZ
            ||| *self is CALLNC
            ||| *self is CALLZ
            ||| *self is CALLC
            ||| *self is RET
            ||| *self is RETNZ
            ||| *self is RETZ
            ||| *self is RETNC
            ||| *self is RETC
            ||| *self is RETI
            ||| *self is RST
            }),
            old(mem).wf(),
        ensures
            exec_post(*self, *old(cpu), old(mem)@, *final(cpu), final(mem)@, cycles),
            final(mem).wf(),
            old(cpu).wf() ==> final(cpu).wf(),
            4 <= cycles <= 24,
    {
        let cycles: u8;
        match *self {
            Instruction::JP { addr } => {
                cpu.jump(addr);
                cycles = 16;
            }
            Instruction::JPNZ { addr } => {
                if !cpu.z_flag() {
                    cpu.jump(addr);
                    cycles = 16;
                } else {
                    cycles = 12;
                }
            }
            Instruction::JPZ { addr } => {
                if cpu.z_flag() {
                    cpu.jump(addr);
                    cycles = 16;
                } else {
                    cycles = 12;
                }
            }
            Instruction::JPNC { addr } => {
                if !cpu.c_flag() {
                    cpu.jump(addr);
                    cycles = 16;
                } else {
                    cycles = 12;
                }
            }
            Instruction::JPC { addr } => {
                if cpu.c_flag() {
                    cpu.jump(addr);
                    cycles = 16;
                } else {
                    cycles = 12;
                }
            }
            Instruction::JPA => {
                let addr = cpu.get16(Cpu16Register::HL);
                cpu.jump(addr);
                cycles = 4;
            }
            Instruction::JR { offset } => {
                cpu.pc = cpu.pc.wrapping_add(2);
                cpu.rjump(offset);
                cycles = 12;
            }
            Instruction::JRNZ { offset } => {
                if !cpu.z_flag() {
                    cpu.pc = cpu.pc.wrapping_add(2);
                    cpu.rjump(offset);
                    cycles = 12;
                } else {
                    cycles = 8;
                }
            }
            Instruction::JRZ { offset } => {
                if cpu.z_flag() {
                    cpu.pc = cpu.pc.wrapping_add(2);
                    cpu.rjump(offset);
                    cycles = 12;
                } else {
                    cycles = 8;
                }
            }
            Instruction::JRNC { offset } => {
                if !cpu.c_flag() {
                    cpu.pc = cpu.pc.wrapping_add(2);
                    cpu.rjump(offset);
                    cycles = 12;
                } else {
                    cycles = 8;
                }
            }
            Instruction::JRC { offset } => {
                if cpu.c_flag() {
                    cpu.pc = cpu.pc.wrapping_add(2);
                    cpu.rjump(offset);
                    cycles = 12;
                } else {
                    cycles = 8;
                }
            }
            Instruction::CALL { addr } => {
                cpu.sp = cpu.sp.wrapping_sub(2);
                mem.set16(cpu.sp, cpu.pc.wrapping_add(3));
                cpu.jump(addr);
                cycles = 24;
            }
            Instruction::CALLNZ { addr } => {
                if !cpu.z_flag() {
                    cpu.sp = cpu.sp.wrapping_sub(2);
                    mem.set16(cpu.sp, cpu.pc.wrapping_add(3));
                    cpu.jump(addr);
                    cycles = 24;
                } else {
                    cycles = 12;
                }
            }
            Instruction::CALLNC { addr } => {
                if !cpu.c_flag() {
                    cpu.sp = cpu.sp.wrapping_sub(2);
                    mem.set16(cpu.sp, cpu.pc.wrapping_add(3));
                    cpu.jump(addr);
                    cycles = 24;
                } else {
                    cycles = 12;
                }
            }
            Instruction::CALLZ { addr } => {
                if cpu.z_flag() {
                    cpu.sp = cpu.sp.wrapping_sub(2);
                    mem.set16(cpu.sp, cpu.pc.wrapping_add(3));
                    cpu.jump(addr);
                    cycles = 24;
                } else {
                    cycles = 12;
                }
            }
            Instruction::CALLC { addr } => {
                if cpu.c_flag() {
                    cpu.sp = cpu.sp.wrapping_sub(2);
                    mem.set16(cpu.sp, cpu.pc.wrapping_add(3));
                    cpu.jump(addr);
                    cycles = 24;
                } else {
                    cycles = 12;
                }
            }
            Instruction::RET => {
                cpu.ret(mem);
                cycles = 16;
            }
            Instruction::RETNZ => {
                if !cpu.z_flag() {
                    cpu.ret(mem);
                    cycles = 20;
                } else {
                    cycles = 8;
                }
            }
            Instruction::RETZ => {
                if cpu.z_flag() {
                    cpu.ret(mem);
                    cycles = 20;
                } else {
                    cycles = 8;
                }
            }
            Instruction::RETNC => {
                if !cpu.c_flag() {
                    cpu.ret(mem);
                    cycles = 20;
                } else {
                    cycles = 8;
                }
            }
            Instruction::RETC => {
                if cpu.c_flag() {
                    cpu.ret(mem);
                    cycles = 20;
                } else {
                    cycles = 8;
                }
            }
            Instruction::RETI => {
                cpu.ret(mem);
                cpu.enable_interrupts();
                cycles = 16;
            }
            Instruction::RST { addr } => {
                // Store the next pc on the stack and continue at the vector.
                cpu.sp = cpu.sp.wrapping_sub(2);
                mem.set16(cpu.sp, cpu.pc.wrapping_add(1));
                cpu.jump(addr);
                cycles = 16;
            }
            _ => {
                proof {
                    assert(false);
                }
                cycles = 4;
            }
        }

        cycles
    }

    /// One family of the execute dispatch: arithmetic.
    fn exec_arith(&self, cpu: &mut Cpu, mem: &mut Memory) -> (cycles: u8)
        requires
            wf_instr(*self),
            ({
            ||| *self is SUBR
            ||| *self is SUBA
            ||| *self is SUBI
            ||| *self is SBCR
            ||| *self is SBCA
            ||| *self is SBCI
            ||| *self is ADDR
            ||| *self is ADDA
            ||| *self is ADDI
            ||| *self is ADD16
            ||| *self is ADDSP
            ||| *self is ADC
            ||| *self is ADCA
            ||| *self is ADCI
            ||| *self is INC
            ||| *self is INCA
            ||| *self is DEC
            ||| *self is DECA
            ||| *self is INC16
            ||| *self is DEC16
            ||| *self is CPL
            ||| *self is CCF
            ||| *self is SCF
            ||| *self is DAA
            }),
            old(mem).wf(),
        ensures
            exec_post(*self, *old(cpu), old(mem)@, *final(cpu), final(mem)@, cycles),
            final(mem).wf(),
            old(cpu).wf() ==> final(cpu).wf(),
            4 <= cycles <= 24,
    {
        let cycles: u8;
        match *self {
            Instruction::SUBR { reg } => {
                let val: u8 = cpu.get(reg);
                math::subtract(cpu, val);
                cycles = 4;
            }
            Instruction::SUBA { reg_addr } => {
                let val: u8 = mem.get(cpu.get16(reg_addr));
                math::subtract(cpu, val);
                cycles = 8;
            }
            Instruction::SUBI { val } => {
                math::subtract(cpu, val);
                cycles = 8;
            }
            Instruction::SBCR { reg } => {
                let val: u8 = cpu.get(reg);
                math::sbc(cpu, val);
                cycles = 4;
            }
            Instruction::SBCA { reg_addr } => {
                let val: u8 = mem.get(cpu.get16(reg_addr));
                math::sbc(cpu, val);
                cycles = 8;
            }
            Instruction::SBCI { val } => {
                math::sbc(cpu, val);
                cycles = 8;
            }
            Instruction::ADDR { reg } => {
                let val = cpu.get(reg);
                math::add(cpu, val);
                cycles = 4;
            }
            Instruction::ADDA => {
                let val = mem.get(cpu.get16(Cpu16Register::HL));
                math::add(cpu, val);
                cycles = 8;
            }
            Instruction::ADDI { val } => {
                math::add(cpu, val);
                cycles = 8;
            }
            Instruction::ADD16 { src } => {
                let val: u16 = cpu.get16(src);
                math::add16(cpu, Cpu16Register::HL, val);
                cycles = 8;
            }
            Instruction::ADDSP { val } => {
                math::add16(cpu, Cpu16Register::SP, (val as i8) as u16);
                cycles = 16;
            }
            Instruction::ADC { reg } => {
                let val: u8 = cpu.get(reg);
                math::adc(cpu, val);
                cycles = 4;
            }
            Instruction::ADCA => {
                let val: u8 = mem.get(cpu.get16(Cpu16Register::HL));
                math::adc(cpu, val);
                cycles = 8;
            }
            Instruction::ADCI { val } => {
                math::adc(cpu, val);
                cycles = 8;
            }
            Instruction::INC { reg } => {
                let val = cpu.get(reg);
                let newval = math::increment(cpu, val);

                cpu.set(reg, newval);
                cycles = 4;
            }
            Instruction::INCA => {
                let addr = cpu.get16(Cpu16Register::HL);
                let val = math::increment(cpu, mem.get(addr));
                mem.set(addr, val);
                cycles = 12;
            }
            Instruction::DEC { reg } => {
                let val = cpu.get(reg);
                let newval = math::decrement(cpu, val);
                cpu.set(reg, newval);
                cycles = 4;
            }
            Instruction::DECA => {
                let addr = cpu.get16(Cpu16Register::HL);
                let val = math::decrement(cpu, mem.get(addr));
                mem.set(addr, val);
                cycles = 12;
            }
            Instruction::INC16 { reg } => {
                math::increment16(cpu, reg);
                cycles = 8;
            }
            Instruction::DEC16 { reg } => {
                math::decrement16(cpu, reg);
                cycles = 8;
            }
            Instruction::CPL => {
                math::complement(cpu);
                cycles = 4;
            }
            Instruction::CCF => {
                math::complement_carry(cpu);
                cycles = 4;
            }
            Instruction::SCF => {
                let z = cpu.z_flag();
                cpu.set_flags(z, false, false, true);
                cycles = 4;
            }
            Instruction::DAA => {
                math::daa(cpu);
                cycles = 4;
            }
            _ => {
                proof {
                    assert(false);
                }
                cycles = 4;
            }
        }

        cycles
    }

    /// One family of the execute dispatch: logic and comparisons.
    fn exec_logic(&self, cpu: &mut Cpu, mem: &mut Memory) -> (cycles: u8)
        requires
            wf_instr(*self),
            ({
            ||| *self is XORR
            ||| *self is XORA
            ||| *self is XORI
            ||| *self is CMPI
            ||| *self is CMPR
            ||| *self is CMPA
            ||| *self is ORR
            ||| *self is ORA
            ||| *self is ORI
            ||| *self is ANDR
            ||| *self is ANDA
            ||| *self is ANDI
            }),
            old(mem).wf(),
        ensures
            exec_post(*self, *old(cpu), old(mem)@, *final(cpu), final(mem)@, cycles),
            final(mem).wf(),
            old(cpu).wf() ==> final(cpu).wf(),
            4 <= cycles <= 24,
    {
        let cycles: u8;
        match *self {
            Instruction::XORR { reg } => {
                let val: u8 = cpu.get(reg);
                math::xor(cpu, val);
                cycles = 4;
            }
            Instruction::XORA => {
                let addr: u16 = cpu.get16(Cpu16Register::HL);
                math::xor(cpu, mem.get(addr));
                cycles = 8;
            }
            Instruction::XORI { val } => {
                math::xor(cpu, val);
                cycles = 8;
            }
            Instruction::CMPI { val } => {
                math::compare(cpu, val);
                cycles = 8;
            }
            Instruction::CMPR { reg } => {
                let val: u8 = cpu.get(reg);
                math::compare(cpu, val);
                cycles = 4;
            }
            Instruction::CMPA => {
                let addr: u16 = cpu.get16(Cpu16Register::HL);
                math::compare(cpu, mem.get(addr));
                cycles = 8;
            }
            Instruction::ORR { reg } => {
                let val: u8 = cpu.get(reg);
                math::or(cpu, val);
                cycles = 4;
            }
            Instruction::ORA => {
                let addr: u16 = cpu.get16(Cpu16Register::HL);
                math::or(cpu, mem.get(addr));
                cycles = 8;
            }
            Instruction::ORI { val } => {
                math::or(cpu, val);
                cycles = 8;
            }
            Instruction::ANDR { reg } => {
                let val: u8 = cpu.get(reg);
                math::and(cpu, val);
                cycles = 4;
            }
            Instruction::ANDA => {
                let val: u8 = mem.get(cpu.get16(Cpu16Register::HL));
                math::and(cpu, val);
                cycles = 8;
            }
            Instruction::ANDI { val } => {
                math::and(cpu, val);
                cycles = 8;
            }
            _ => {
                proof {
                    assert(false);
                }
                cycles = 4;
            }
        }

        cycles
    }

    /// One family of the execute dispatch: stack, bit and nibble operations.
    fn exec_bits(&self, cpu: &mut Cpu, mem: &mut Memory) -> (cycles: u8)
        requires
            wf_instr(*self),
            ({
            ||| *self is PUSH
            ||| *self is POP
            ||| *self is SWAP
            ||| *self is SWAPA
            ||| *self is BIT
            ||| *self is BITA
            ||| *self is SET
            ||| *self is SETA
            ||| *self is RESET
            ||| *self is RESETA
            ||| *self is HALT
            ||| *self is DI
            ||| *self is EI
            }),
            old(mem).wf(),
        ensures
            exec_post(*self, *old(cpu), old(mem)@, *final(cpu), final(mem)@, cycles),
            final(mem).wf(),
            old(cpu).wf() ==> final(cpu).wf(),
            4 <= cycles <= 24,
    {
        let cycles: u8;
        match *self {
            Instruction::PUSH { reg } => {
                cpu.sp = cpu.sp.wrapping_sub(2);
                mem.set16(cpu.sp, cpu.get16(reg));
                cycles = 16;
            }
            Instruction::POP { reg } => {
                let sp = cpu.sp;
                cpu.set16(reg, mem.get16(sp));
                cpu.sp = cpu.sp.wrapping_add(2);
                cycles = 16;
            }
            Instruction::SWAP { reg } => {
                let val = cpu.get(reg);
                let newval = math::swap_nibble(cpu, val);
                cpu.set(reg, newval);
                cycles = 8;
            }
            Instruction::SWAPA => {
                let addr: u16 = cpu.get16(Cpu16Register::HL);
                let val = mem.get(addr);
                mem.set(addr, math::swap_nibble(cpu, val));
                cycles = 16;
            }
            Instruction::BIT { n, reg } => {
                let val = cpu.get(reg);
                math::bit(cpu, val, n);
                cycles = 8;
            }
            Instruction::BITA { n } => {
                let addr = cpu.get16(Cpu16Register::HL);
                math::bit(cpu, mem.get(addr), n);
                cycles = 16;
            }
            Instruction::SET { n, reg } => {
                let newval = math::set(cpu.get(reg), n);
                cpu.set(reg, newval);
                cycles = 8;
            }
            Instruction::SETA { n } => {
                let addr = cpu.get16(Cpu16Register::HL);
                let newval = math::set(mem.get(addr), n);
                mem.set(addr, newval);
                cycles = 16;
            }
            Instruction::RESET { n, reg } => {
                let newval = math::reset(cpu.get(reg), n);
                cpu.set(reg, newval);
                cycles = 8;
            }
            Instruction::RESETA { n } => {
                let addr = cpu.get16(Cpu16Register::HL);
                let newval = math::reset(mem.get(addr), n);
                mem.set(addr, newval);
                cycles = 16;
            }
            Instruction::HALT => {
                cpu.halt();
                cycles = 4;
            }
            Instruction::DI => {
                cpu.disable_interrupts();
                cycles = 4;
            }
            Instruction::EI => {
                cpu.enable_interrupts();
                cycles = 4;
            }
            _ => {
                proof {
                    assert(false);
                }
                cycles = 4;
            }
        }

        cycles
    }

    /// One family of the execute dispatch: shifts and rotates.
    fn exec_shift(&self, cpu: &mut Cpu, mem: &mut Memory) -> (cycles: u8)
        requires
            wf_instr(*self),
            ({
            ||| *self is SLA
            ||| *self is SLAA
            ||| *self is SRL
            ||| *self is SRLA
            ||| *self is SRA
            ||| *self is SRAA
            ||| *self is RLCA
            ||| *self is RRCA
            ||| *self is RLA
            ||| *self is RRA
            ||| *self is RLC
            ||| *self is RLCHL
            ||| *self is RRC
            ||| *self is RRCHL
            ||| *self is RL
            ||| *self is RLHL
            ||| *self is RR
            ||| *self is RRHL
            }),
            old(mem).wf(),
        ensures
            exec_post(*self, *old(cpu), old(mem)@, *final(cpu), final(mem)@, cycles),
            final(mem).wf(),
            old(cpu).wf() ==> final(cpu).wf(),
            4 <= cycles <= 24,
    {
        let cycles: u8;
        match *self {
            Instruction::SLA { reg } => {
                let val = cpu.get(reg);
                let newval = math::sla(cpu, val);
                cpu.set(reg, newval);
                cycles = 8;
            }
            Instruction::SLAA => {
                let addr = cpu.get16(Cpu16Register::HL);
                let newval = math::sla(cpu, mem.get(addr));
                mem.set(addr, newval);
                cycles = 16;
            }
            Instruction::SRL { reg } => {
                let val = cpu.get(reg);
                let newval = math::srl(cpu, val);
                cpu.set(reg, newval);
                cycles = 8;
            }
            Instruction::SRLA => {
                let addr = cpu.get16(Cpu16Register::HL);
                let newval = math::srl(cpu, mem.get(addr));
                mem.set(addr, newval);
                cycles = 16;
            }
            Instruction::SRA { reg } => {
                let val = cpu.get(reg);
                let newval = math::sra(cpu, val);
                cpu.set(reg, newval);
                cycles = 8;
            }
            Instruction::SRAA => {
                let addr = cpu.get16(Cpu16Register::HL);
                let newval = math::sra(cpu, mem.get(addr));
                mem.set(addr, newval);
                cycles = 16;
            }
            Instruction::RLCA => {
                let newval = math::rlc(cpu, cpu.a);
                cpu.set(CpuRegister::A, newval);
                let cf = cpu.c_flag();
                cpu.set_flags(false, false, false, cf);
                cycles = 4;
            }
            Instruction::RRCA => {
                let newval = math::rrc(cpu, cpu.a);
                cpu.set(CpuRegister::A, newval);
                let cf = cpu.c_flag();
                cpu.set_flags(false, false, false, cf);
                cycles = 4;
            }
            Instruction::RLA => {
                let newval = math::rl(cpu, cpu.a);
                cpu.set(CpuRegister::A, newval);
                let cf = cpu.c_flag();
                cpu.set_flags(false, false, false, cf);
                cycles = 4;
            }
            Instruction::RRA => {
                let newval = math::rr(cpu, cpu.a);
                cpu.set(CpuRegister::A, newval);
                let cf = cpu.c_flag();
                cpu.set_flags(false, false, false, cf);
                cycles = 4;
            }
            Instruction::RLC { reg } => {
                let val = cpu.get(reg);
                let newval = math::rlc(cpu, val);
                cpu.set(reg, newval);
                cycles = 8;
            }
            Instruction::RLCHL => {
                let addr = cpu.get16(Cpu16Register::HL);
                let newval = math::rlc(cpu, mem.get(addr));
                mem.set(addr, newval);
                cycles = 16;
            }
            Instruction::RRC { reg } => {
                let val = cpu.get(reg);
                let newval = math::rrc(cpu, val);
                cpu.set(reg, newval);
                cycles = 8;
            }
            Instruction::RRCHL => {
                let addr = cpu.get16(Cpu16Register::HL);
                let newval = math::rrc(cpu, mem.get(addr));
                mem.set(addr, newval);
                cycles = 16;
            }
            Instruction::RL { reg } => {
                let val = cpu.get(reg);
                let newval = math::rl(cpu, val);
                cpu.set(reg, newval);
                cycles = 8;
            }
            Instruction::RLHL => {
                let addr = cpu.get16(Cpu16Register::HL);
                let newval = math::rl(cpu, mem.get(addr));
                mem.set(addr, newval);
                cycles = 16;
            }
            Instruction::RR { reg } => {
                let val = cpu.get(reg);
                let newval = math::rr(cpu, val);
                cpu.set(reg, newval);
                cycles = 8;
            }
            Instruction::RRHL => {
                let addr = cpu.get16(Cpu16Register::HL);
                let newval = math::rr(cpu, mem.get(addr));
                mem.set(addr, newval);
                cycles = 16;
            }
            _ => {
                proof {
                    assert(false);
                }
                cycles = 4;
            }
        }

        cycles
    }
}
/// The address of the `n`-th instruction of a straight-line listing that
/// starts at `start`, each instruction followed by the next at its length.
pub open spec fn disasm_addr(v: MemView, start: u16, n: nat) -> u16
    decreases n,
{
    if n == 0 {
        start
    } else {
        let p = disasm_addr(v, start, (n - 1) as nat);
        p.wrapping_add(size_spec(read_spec(v, p)))
    }
}

impl Instruction {
    /// Decode `num_instrs` consecutive instructions beginning at
    /// `start_addr`, each following the previous at its byte length.
    pub fn disassemble(mem: &Memory, start_addr: u16, num_instrs: usize) -> (r: Vec<Instruction>)
        requires
            mem.wf(),
        ensures
            r@.len() == num_instrs,
            forall|k: int|
                0 <= k < num_instrs ==> r@[k] == read_spec(
                    mem@,
                    #[trigger] disasm_addr(mem@, start_addr, k as nat),
                ),
    {
        let mut instrs: Vec<Instruction> = Vec::new();
        let mut addr = start_addr;
        let mut n: usize = 0;

        while n < num_instrs
            invariant
                mem.wf(),
                n <= num_instrs,
                instrs@.len() == n,
                addr == disasm_addr(mem@, start_addr, n as nat),
                forall|k: int|
                    0 <= k < n ==> instrs@[k] == read_spec(
                        mem@,
                        #[trigger] disasm_addr(mem@, start_addr, k as nat),
                    ),
            decreases num_instrs - n,
        {
            let i = Instruction::read(mem, addr);
            let sz = Instruction::mem_size(&i);
            instrs.push(i);
            addr = addr.wrapping_add(sz);
            n = n + 1;
        }

        instrs
    }
}

/// Law (push/pop round trip): pushing any register pair and popping it back
/// restores the pair (a pop into AF masking the low nibble of F away) and
/// leaves SP where it began, provided the two stack bytes lie in plain RAM.
pub proof fn lemma_push_pop(
    reg: Cpu16Register,
    c0: Cpu,
    v0: MemView,
    c1: Cpu,
    v1: MemView,
    c2: Cpu,
    v2: MemView,
    cy1: u8,
    cy2: u8,
)
    requires
        v0.wf(),
        crate::memory::plain_ram(c0.sp.wrapping_sub(2)),
        crate::memory::plain_ram(c0.sp.wrapping_sub(1)),
        exec_post(Instruction::PUSH { reg }, c0, v0, c1, v1, cy1),
        exec_post(Instruction::POP { reg }, c1, v1, c2, v2, cy2),
    ensures
        c2.sp == c0.sp,
        reg is AF ==> c2.get16_spec(reg) == c0.get16_spec(reg) & 0xFFF0,
        !(reg is AF) ==> c2.get16_spec(reg) == c0.get16_spec(reg),
        v2 == v1,
{
    let sp2 = c0.sp.wrapping_sub(2);
    assert(sp2.wrapping_add(1) == c0.sp.wrapping_sub(1));
    let cm = Cpu { sp: sp2, ..c0 };
    let w = cm.get16_spec(reg);
    crate::memory::lemma_read16_after_write16(v0, sp2, w, 0);
    assert(mem_read16(v1, sp2) == w);
    crate::cpu::lemma_with16_get16(c1, reg, w);
}

/// Law (call/ret round trip): a CALL followed by a RET with no intervening
/// stack traffic returns PC to the instruction after the CALL and leaves SP
/// unchanged, provided the two stack bytes lie in plain RAM.
pub proof fn lemma_call_ret(
    target: u16,
    c0: Cpu,
    v0: MemView,
    c1: Cpu,
    v1: MemView,
    c2: Cpu,
    v2: MemView,
    cy1: u8,
    cy2: u8,
)
    requires
        v0.wf(),
        crate::memory::plain_ram(c0.sp.wrapping_sub(2)),
        crate::memory::plain_ram(c0.sp.wrapping_sub(1)),
        exec_post(Instruction::CALL { addr: target }, c0, v0, c1, v1, cy1),
        exec_post(Instruction::RET, c1, v1, c2, v2, cy2),
    ensures
        c2.pc == c0.pc.wrapping_add(3),
        c2.sp == c0.sp,
        c2.jumped,
        v2 == v1,
{
    let sp2 = c0.sp.wrapping_sub(2);
    assert(sp2.wrapping_add(1) == c0.sp.wrapping_sub(1));
    crate::memory::lemma_read16_after_write16(v0, sp2, c0.pc.wrapping_add(3), 0);
    assert(mem_read16(v1, sp2) == c0.pc.wrapping_add(3));
}

} // verus!
