//! The ALU and flag unit: 8- and 16-bit arithmetic, logic, rotates, shifts,
//! bit test/set/reset and the BCD adjustment, each with its exact Z/N/H/C
//! flag rule. Every operation is characterised by a spec "flow" function on
//! the register file.

use vstd::prelude::*;
use vstd::arithmetic::div_mod::lemma_fundamental_div_mod_converse;
use crate::bits::{lemma_nibbles, lemma_pack_flags};
use crate::cpu::{Cpu, Cpu16Register, CpuRegister};

verus! {

/// A byte with bit `n` set or cleared according to `on`.
pub open spec fn bit_assign(val: u8, n: u8, on: bool) -> u8 {
    if on {
        val | (1u8 << n)
    } else {
        val & (!(1u8 << n))
    }
}

/// Set bit `n` of `val`.
pub fn set(val: u8, n: u8) -> (r: u8)
    requires
        n < 8,
    ensures
        r == (val | (1u8 << n)),
{
    let mask: u8 = 1u8 << n;
    val | mask
}

/// Clear bit `n` of `val`.
pub fn reset(val: u8, n: u8) -> (r: u8)
    requires
        n < 8,
    ensures
        r == (val & (!(1u8 << n))),
{
    let mask: u8 = 1u8 << n;
    let r = !((!val) | mask);
    proof {
        let m = mask;
        assert(!((!val) | m) == (val & (!m))) by (bit_vector);
    }
    r
}

/// Set or clear bit `n` of `val` according to `on`.
pub fn bit_write(val: u8, n: u8, on: bool) -> (r: u8)
    requires
        n < 8,
    ensures
        r == bit_assign(val, n, on),
{
    if on {
        set(val, n)
    } else {
        reset(val, n)
    }
}

// ---------------------------------------------------------------------------
// 8-bit arithmetic on the accumulator
// ---------------------------------------------------------------------------
/// SUB: A - v; Z from the result, N set, H on a low-nibble borrow, C on a
/// full borrow.
pub open spec fn sub_flow(c: Cpu, v: u8) -> Cpu {
    let lhs = c.a;
    let result = lhs.wrapping_sub(v);
    (Cpu { a: result, ..c }).with_flags(
        result == 0,
        true,
        (lhs & 0xF) < (v & 0xF),
        lhs < v,
    )
}

pub fn subtract(cpu: &mut Cpu, val: u8)
    ensures
        *final(cpu) == sub_flow(*old(cpu), val),
        final(cpu).wf(),
{
    let lhs: u8 = cpu.get(CpuRegister::A);

    let result: u8 = lhs.wrapping_sub(val);

    cpu.set(CpuRegister::A, result);

    let z = result == 0;
    let h = (lhs & 0xF) < (val & 0xF);
    let c = lhs < val;

    cpu.set_flags(z, true, h, c);
}

/// ADD: A + v; Z from the result, N clear, H on a low-nibble carry, C on a
/// full carry.
pub open spec fn add_flow(c: Cpu, v: u8) -> Cpu {
    let lhs = c.a;
    let result = lhs.wrapping_add(v);
    (Cpu { a: result, ..c }).with_flags(
        result == 0,
        false,
        (lhs & 0xF) + (v & 0xF) > 0xF,
        lhs + v > 0xFF,
    )
}

pub fn add(cpu: &mut Cpu, val: u8)
    ensures
        *final(cpu) == add_flow(*old(cpu), val),
        final(cpu).wf(),
{
    let lhs: u8 = cpu.get(CpuRegister::A);

    let result: u8 = lhs.wrapping_add(val);

    cpu.set(CpuRegister::A, result);

    let z = result == 0;
    let h = ((lhs & 0xF) as u16) + ((val & 0xF) as u16) > 0xF;
    let c = (lhs as u16) + (val as u16) > 0xFF;

    cpu.set_flags(z, false, h, c);
}

/// ADC: A + v + carry-in as one addition; H and C come from the full sum.
pub open spec fn adc_flow(c: Cpu, v: u8) -> Cpu {
    let lhs = c.a;
    let carry: u8 = if c.c_flag_spec() {
        1
    } else {
        0
    };
    let result = ((lhs + v + carry) % 256) as u8;
    (Cpu { a: result, ..c }).with_flags(
        result == 0,
        false,
        (lhs & 0xF) + (v & 0xF) + carry > 0xF,
        lhs + v + carry > 0xFF,
    )
}

pub fn adc(cpu: &mut Cpu, val: u8)
    ensures
        *final(cpu) == adc_flow(*old(cpu), val),
        final(cpu).wf(),
{
    let lhs: u8 = cpu.get(CpuRegister::A);
    let carry: u8 = if cpu.c_flag() {
        1
    } else {
        0
    };

    let result: u8 = (((lhs as u16) + (val as u16) + (carry as u16)) % 256) as u8;

    cpu.set(CpuRegister::A, result);

    let z = result == 0;
    let h = ((lhs & 0xF) as u16) + ((val & 0xF) as u16) + (carry as u16) > 0xF;
    let c = (lhs as u16) + (val as u16) + (carry as u16) > 0xFF;

    cpu.set_flags(z, false, h, c);
}

/// SBC: A - v - carry-in as one subtraction; H and C come from the full
/// borrow.
pub open spec fn sbc_flow(c: Cpu, v: u8) -> Cpu {
    let lhs = c.a;
    let carry: u8 = if c.c_flag_spec() {
        1
    } else {
        0
    };
    let result = lhs.wrapping_sub(v).wrapping_sub(carry);
    (Cpu { a: result, ..c }).with_flags(
        result == 0,
        true,
        (lhs & 0xF) < (v & 0xF) + carry,
        (lhs as int) < v + carry,
    )
}

pub fn sbc(cpu: &mut Cpu, val: u8)
    ensures
        *final(cpu) == sbc_flow(*old(cpu), val),
        final(cpu).wf(),
{
    let lhs: u8 = cpu.get(CpuRegister::A);
    let carry: u8 = if cpu.c_flag() {
        1
    } else {
        0
    };

    let result: u8 = lhs.wrapping_sub(val).wrapping_sub(carry);

    cpu.set(CpuRegister::A, result);

    let z = result == 0;
    let h = ((lhs & 0xF) as u16) < ((val & 0xF) as u16) + (carry as u16);
    let c = (lhs as u16) < (val as u16) + (carry as u16);

    cpu.set_flags(z, true, h, c);
}

/// ADD HL,rr and ADD SP,d: 16-bit addition into a pair; Z unchanged, N
/// clear, H on a carry out of bit 11, C on a carry out of bit 15.
pub open spec fn add16_flow(c: Cpu, reg: Cpu16Register, v: u16) -> Cpu {
    let lhs = c.get16_spec(reg);
    let result = lhs.wrapping_add(v);
    c.with16(reg, result).with_flags(
        c.z_flag_spec(),
        false,
        (lhs & 0xFFF) + (v & 0xFFF) > 0xFFF,
        lhs + v > 0xFFFF,
    )
}

pub fn add16(cpu: &mut Cpu, reg: Cpu16Register, val: u16)
    ensures
        *final(cpu) == add16_flow(*old(cpu), reg, val),
        final(cpu).wf(),
{
    let lhs: u16 = cpu.get16(reg);

    let result: u16 = lhs.wrapping_add(val);

    let z = cpu.z_flag();
    cpu.set16(reg, result);

    let h = ((lhs & 0xFFF) as u32) + ((val & 0xFFF) as u32) > 0xFFF;
    let c = (lhs as u32) + (val as u32) > 0xFFFF;
    cpu.set_flags(z, false, h, c);
}

/// INC r: flags Z and H from the increment, N clear, C untouched; the
/// incremented value is handed back for the caller to place.
pub open spec fn inc_flags_flow(c: Cpu, v: u8) -> Cpu {
    c.with_flags(v.wrapping_add(1) == 0, false, (v & 0xF) == 0xF, c.c_flag_spec())
}

pub fn increment(cpu: &mut Cpu, val: u8) -> (r: u8)
    ensures
        *final(cpu) == inc_flags_flow(*old(cpu), val),
        r == val.wrapping_add(1),
        final(cpu).wf(),
{
    let newval = val.wrapping_add(1);

    let z = newval == 0;
    let h = (val & 0xF) == 0xF;
    let c: bool = cpu.c_flag();

    cpu.set_flags(z, false, h, c);

    newval
}

/// DEC r: flags Z and H from the decrement, N set, C untouched.
pub open spec fn dec_flags_flow(c: Cpu, v: u8) -> Cpu {
    c.with_flags(v.wrapping_sub(1) == 0, true, (v & 0xF) == 0, c.c_flag_spec())
}

pub fn decrement(cpu: &mut Cpu, val: u8) -> (r: u8)
    ensures
        *final(cpu) == dec_flags_flow(*old(cpu), val),
        r == val.wrapping_sub(1),
        final(cpu).wf(),
{
    let newval = val.wrapping_sub(1);

    let z = newval == 0;
    let h = (val & 0xF) == 0;
    let c: bool = cpu.c_flag();

    cpu.set_flags(z, true, h, c);

    newval
}

/// INC rr: the pair steps up by one; no flag is touched.
pub fn increment16(cpu: &mut Cpu, reg: Cpu16Register)
    ensures
        *final(cpu) == old(cpu).with16(reg, old(cpu).get16_spec(reg).wrapping_add(1)),
        old(cpu).wf() ==> final(cpu).wf(),
{
    let val: u16 = cpu.get16(reg);
    cpu.set16(reg, val.wrapping_add(1));
}

/// DEC rr: the pair steps down by one; no flag is touched.
pub fn decrement16(cpu: &mut Cpu, reg: Cpu16Register)
    ensures
        *final(cpu) == old(cpu).with16(reg, old(cpu).get16_spec(reg).wrapping_sub(1)),
        old(cpu).wf() ==> final(cpu).wf(),
{
    let val: u16 = cpu.get16(reg);
    cpu.set16(reg, val.wrapping_sub(1));
}

/// CPL: complement the accumulator; N and H set, Z and C untouched.
pub open spec fn cpl_flow(c: Cpu) -> Cpu {
    (Cpu { a: !c.a, ..c }).with_flags(c.z_flag_spec(), true, true, c.c_flag_spec())
}

pub fn complement(cpu: &mut Cpu)
    ensures
        *final(cpu) == cpl_flow(*old(cpu)),
        final(cpu).wf(),
{
    let z = cpu.z_flag();
    let c = cpu.c_flag();
    cpu.set_flags(z, true, true, c);

    cpu.a = !cpu.a;
}

// ---------------------------------------------------------------------------
// logic on the accumulator
// ---------------------------------------------------------------------------
/// XOR: Z from the result, every other flag clear.
pub open spec fn xor_flow(c: Cpu, v: u8) -> Cpu {
    let result = c.a ^ v;
    (Cpu { a: result, ..c }).with_flags(result == 0, false, false, false)
}

pub fn xor(cpu: &mut Cpu, val: u8)
    ensures
        *final(cpu) == xor_flow(*old(cpu), val),
        final(cpu).wf(),
{
    let result: u8 = cpu.get(CpuRegister::A) ^ val;

    cpu.a = result;

    cpu.set_flags(result == 0, false, false, false);
}

/// OR: Z from the result, every other flag clear.
pub open spec fn or_flow(c: Cpu, v: u8) -> Cpu {
    let result = c.a | v;
    (Cpu { a: result, ..c }).with_flags(result == 0, false, false, false)
}

pub fn or(cpu: &mut Cpu, val: u8)
    ensures
        *final(cpu) == or_flow(*old(cpu), val),
        final(cpu).wf(),
{
    let result: u8 = cpu.get(CpuRegister::A) | val;

    cpu.a = result;

    cpu.set_flags(result == 0, false, false, false);
}

/// AND: Z from the result, H set, N and C clear.
pub open spec fn and_flow(c: Cpu, v: u8) -> Cpu {
    let result = c.a & v;
    (Cpu { a: result, ..c }).with_flags(result == 0, false, true, false)
}

pub fn and(cpu: &mut Cpu, val: u8)
    ensures
        *final(cpu) == and_flow(*old(cpu), val),
        final(cpu).wf(),
{
    let result: u8 = cpu.get(CpuRegister::A) & val;

    cpu.a = result;

    cpu.set_flags(result == 0, false, true, false);
}

/// CP: the subtraction's flags without writing the accumulator back.
pub open spec fn cmp_flow(c: Cpu, v: u8) -> Cpu {
    c.with_flags(c.a == v, true, (c.a & 0xF) < (v & 0xF), c.a < v)
}

pub fn compare(cpu: &mut Cpu, val: u8)
    ensures
        *final(cpu) == cmp_flow(*old(cpu), val),
        final(cpu).wf(),
{
    let a: u8 = cpu.get(CpuRegister::A);

    let z = a == val;
    let n = true;
    let h = (a & 0xF) < (val & 0xF);
    let c = a < val;

    cpu.set_flags(z, n, h, c);
}

// ---------------------------------------------------------------------------
// bit manipulation
// ---------------------------------------------------------------------------
/// SWAP: exchange the nibbles; Z from the result, the rest clear.
pub open spec fn swap_spec(v: u8) -> u8 {
    ((v & 0xF0) >> 4) | ((v & 0x0F) << 4)
}

pub fn swap_nibble(cpu: &mut Cpu, val: u8) -> (r: u8)
    ensures
        r == swap_spec(val),
        *final(cpu) == old(cpu).with_flags(swap_spec(val) == 0, false, false, false),
        final(cpu).wf(),
{
    let res = ((val & 0xF0) >> 4) | ((val & 0x0F) << 4);

    cpu.set_flags(res == 0, false, false, false);

    res
}

/// BIT n: Z reports a clear bit, N clear, H set, C untouched.
pub open spec fn bit_test_flow(c: Cpu, v: u8, n: u8) -> Cpu {
    c.with_flags(v & (1u8 << n) == 0, false, true, c.c_flag_spec())
}

pub fn bit(cpu: &mut Cpu, val: u8, n: u8)
    requires
        n < 8,
    ensures
        *final(cpu) == bit_test_flow(*old(cpu), val, n),
        final(cpu).wf(),
{
    let res = val & (1u8 << n);

    let c = cpu.c_flag();
    cpu.set_flags(res == 0, false, true, c);
}

// ---------------------------------------------------------------------------
// shifts and rotates
// ---------------------------------------------------------------------------
/// SLA: shift left, bit 7 into C.
pub open spec fn sla_flow(c: Cpu, v: u8) -> (Cpu, u8) {
    let res = v << 1;
    (c.with_flags(res == 0, false, false, v & 0x80 != 0), res)
}

pub fn sla(cpu: &mut Cpu, val: u8) -> (r: u8)
    ensures
        (*final(cpu), r) == sla_flow(*old(cpu), val),
        final(cpu).wf(),
{
    let res = val << 1;
    let msb = (val & 0x80) != 0;

    cpu.set_flags(res == 0, false, false, msb);

    res
}

/// SRL: shift right, bit 0 into C, bit 7 cleared.
pub open spec fn srl_flow(c: Cpu, v: u8) -> (Cpu, u8) {
    let res = v >> 1;
    (c.with_flags(res == 0, false, false, v & 1 != 0), res)
}

pub fn srl(cpu: &mut Cpu, val: u8) -> (r: u8)
    ensures
        (*final(cpu), r) == srl_flow(*old(cpu), val),
        final(cpu).wf(),
{
    let res = val >> 1;
    let lsb = (val & 1) != 0;

    cpu.set_flags(res == 0, false, false, lsb);

    res
}

/// SRA: shift right with bit 7 preserved, bit 0 into C.
pub open spec fn sra_flow(c: Cpu, v: u8) -> (Cpu, u8) {
    let res = (v >> 1) | (v & 0x80);
    (c.with_flags(res == 0, false, false, v & 1 != 0), res)
}

pub fn sra(cpu: &mut Cpu, val: u8) -> (r: u8)
    ensures
        (*final(cpu), r) == sra_flow(*old(cpu), val),
        final(cpu).wf(),
{
    let msb = val & 0x80;
    let res = (val >> 1) | msb;
    let lsb = (val & 1) != 0;

    cpu.set_flags(res == 0, false, false, lsb);

    res
}

/// RR: rotate right through the carry flag; bit 0 into C.
pub open spec fn rr_flow(c: Cpu, v: u8) -> (Cpu, u8) {
    let res = (v >> 1) | (if c.c_flag_spec() {
        0x80u8
    } else {
        0u8
    });
    (c.with_flags(res == 0, false, false, v & 1 != 0), res)
}

pub fn rr(cpu: &mut Cpu, val: u8) -> (r: u8)
    ensures
        (*final(cpu), r) == rr_flow(*old(cpu), val),
        final(cpu).wf(),
{
    let old_c: u8 = if cpu.c_flag() {
        0x80
    } else {
        0
    };
    let c: bool = (val & 1) != 0;

    let res = (val >> 1) | old_c;

    cpu.set_flags(res == 0, false, false, c);

    res
}

/// RL: rotate left through the carry flag; bit 7 into C.
pub open spec fn rl_flow(c: Cpu, v: u8) -> (Cpu, u8) {
    let res = (v << 1) | (if c.c_flag_spec() {
        1u8
    } else {
        0u8
    });
    (c.with_flags(res == 0, false, false, v & 0x80 != 0), res)
}

pub fn rl(cpu: &mut Cpu, val: u8) -> (r: u8)
    ensures
        (*final(cpu), r) == rl_flow(*old(cpu), val),
        final(cpu).wf(),
{
    let old_c: u8 = if cpu.c_flag() {
        1
    } else {
        0
    };
    let c: bool = (val & 0x80) != 0;

    let res = (val << 1) | old_c;

    cpu.set_flags(res == 0, false, false, c);

    res
}

/// RRC: rotate right; the ejected bit 0 lands in bit 7 and in C.
pub open spec fn rrc_flow(c: Cpu, v: u8) -> (Cpu, u8) {
    let res = (v >> 1) | (v << 7);
    (c.with_flags(res == 0, false, false, v & 1 != 0), res)
}

pub fn rrc(cpu: &mut Cpu, val: u8) -> (r: u8)
    ensures
        (*final(cpu), r) == rrc_flow(*old(cpu), val),
        final(cpu).wf(),
{
    let c: bool = (val & 1) != 0;
    let res = (val >> 1) | (val << 7);
    cpu.set_flags(res == 0, false, false, c);

    res
}

/// RLC: rotate left; the ejected bit 7 lands in bit 0 and in C.
pub open spec fn rlc_flow(c: Cpu, v: u8) -> (Cpu, u8) {
    let res = (v << 1) | (v >> 7);
    (c.with_flags(res == 0, false, false, v & 0x80 != 0), res)
}

pub fn rlc(cpu: &mut Cpu, val: u8) -> (r: u8)
    ensures
        (*final(cpu), r) == rlc_flow(*old(cpu), val),
        final(cpu).wf(),
{
    let c: bool = (val & 0x80) != 0;
    let res = (val << 1) | (val >> 7);
    cpu.set_flags(res == 0, false, false, c);

    res
}

/// CCF: invert the carry; N and H clear, Z untouched.
pub open spec fn ccf_flow(c: Cpu) -> Cpu {
    c.with_flags(c.z_flag_spec(), false, false, !c.c_flag_spec())
}

pub fn complement_carry(cpu: &mut Cpu)
    ensures
        *final(cpu) == ccf_flow(*old(cpu)),
        final(cpu).wf(),
{
    let z: bool = cpu.z_flag();
    let not_c = !cpu.c_flag();

    cpu.set_flags(z, false, false, not_c);
}

// ---------------------------------------------------------------------------
// BCD adjustment
// ---------------------------------------------------------------------------
/// DAA. After an addition (N clear): add 0x06 when H is set or the low
/// nibble exceeds 9, and add 0x60 with C set when C is set or the
/// accumulator exceeded 0x99. After a subtraction (N set): subtract 0x06
/// under H and 0x60 under C, C carrying over. Z follows the result, H is
/// always cleared, N is kept.
pub open spec fn daa_flow(c: Cpu) -> Cpu {
    let a = c.a;
    if !c.n_flag_spec() {
        let a1 = if c.h_flag_spec() || (a & 0x0F) > 0x09 {
            ((a + 0x06) % 256) as u8
        } else {
            a
        };
        let carry = c.c_flag_spec() || a > 0x99;
        let a2 = if carry {
            ((a1 + 0x60) % 256) as u8
        } else {
            a1
        };
        (Cpu { a: a2, ..c }).with_flags(a2 == 0, c.n_flag_spec(), false, carry)
    } else {
        let a1 = if c.h_flag_spec() {
            a.wrapping_sub(0x06)
        } else {
            a
        };
        let a2 = if c.c_flag_spec() {
            a1.wrapping_sub(0x60)
        } else {
            a1
        };
        (Cpu { a: a2, ..c }).with_flags(a2 == 0, c.n_flag_spec(), false, c.c_flag_spec())
    }
}

pub fn daa(cpu: &mut Cpu)
    ensures
        *final(cpu) == daa_flow(*old(cpu)),
        final(cpu).wf(),
{
    let n_flag = cpu.n_flag();
    let h_flag = cpu.h_flag();
    let c_flag = cpu.c_flag();

    if !n_flag {
        let a1: u8 = if h_flag || (cpu.a & 0x0F) > 0x09 {
            (((cpu.a as u16) + 0x06) % 256) as u8
        } else {
            cpu.a
        };
        let carry = c_flag || cpu.a > 0x99;
        let a2: u8 = if carry {
            (((a1 as u16) + 0x60) % 256) as u8
        } else {
            a1
        };
        cpu.a = a2;
        cpu.set_flags(a2 == 0, n_flag, false, carry);
    } else {
        let a1: u8 = if h_flag {
            cpu.a.wrapping_sub(0x06)
        } else {
            cpu.a
        };
        let a2: u8 = if c_flag {
            a1.wrapping_sub(0x60)
        } else {
            a1
        };
        cpu.a = a2;
        cpu.set_flags(a2 == 0, n_flag, false, c_flag);
    }
}

// ---------------------------------------------------------------------------
// the BCD round trip
// ---------------------------------------------------------------------------
/// Both nibbles of the byte are decimal digits.
pub open spec fn is_packed_bcd(x: u8) -> bool {
    x & 0x0F <= 0x09 && x & 0xF0 <= 0x90
}

/// The decimal value a packed-BCD byte encodes.
pub open spec fn bcd_val(x: u8) -> int {
    10 * ((x >> 4) as int) + ((x & 0x0F) as int)
}

/// The packed-BCD byte of a decimal value below one hundred.
pub open spec fn bcd_of(d: int) -> u8 {
    (16 * (d / 10) + d % 10) as u8
}

/// Law (DAA round trip): with any packed-BCD pair in the accumulator and
/// the operand, an addition followed by the BCD adjustment leaves the
/// packed-BCD encoding of the decimal sum modulo one hundred in the
/// accumulator, and sets the carry flag exactly when the decimal sum
/// reached one hundred.
pub proof fn lemma_daa_round_trip(c0: Cpu, x: u8, y: u8)
    requires
        is_packed_bcd(x),
        is_packed_bcd(y),
    ensures
        ({
            let c1 = add_flow(Cpu { a: x, ..c0 }, y);
            let c2 = daa_flow(c1);
            &&& c2.a == bcd_of((bcd_val(x) + bcd_val(y)) % 100)
            &&& c2.c_flag_spec() == (bcd_val(x) + bcd_val(y) >= 100)
        }),
{
    lemma_nibbles(x);
    lemma_nibbles(y);
    let xh = (x >> 4) as int;
    let xl = (x & 0x0F) as int;
    let yh = (y >> 4) as int;
    let yl = (y & 0x0F) as int;
    assert(0 <= xl <= 9 && 0 <= yl <= 9);
    assert(0 <= xh <= 9 && 0 <= yh <= 9);
    assert(x == 16 * xh + xl && y == 16 * yh + yl);

    let hh = xh + yh;
    let ll = xl + yl;

    let ca = Cpu { a: x, ..c0 };
    let c1 = add_flow(ca, y);
    let r = x.wrapping_add(y);
    let cf = x + y > 0xFF;
    let hf = (x & 0xF) + (y & 0xF) > 0xF;
    lemma_pack_flags(r == 0, false, hf, cf);
    assert(c1.a == r);
    assert(!c1.n_flag_spec());
    assert(c1.h_flag_spec() == hf);
    assert(c1.c_flag_spec() == cf);
    assert(hf == (ll > 15));

    let k: int = if cf { 1int } else { 0int };
    assert(r == x + y - 256 * k);
    assert(r == 16 * hh + ll - 256 * k);

    let clo: int = if ll >= 16 { 1int } else { 0int };
    let l16 = ll - 16 * clo;
    let q0 = hh + clo - 16 * k;
    assert(r == 16 * q0 + l16);
    assert(0 <= l16 < 16);
    assert(q0 >= 0) by {
        if q0 < 0 {
            assert(16 * q0 + l16 < 0);
        }
    }
    lemma_fundamental_div_mod_converse(r as int, 16, q0, l16);
    lemma_nibbles(r);
    assert((r & 0x0F) as int == l16);

    let c2 = daa_flow(c1);
    let lowadj = hf || (r & 0x0F) > 0x09;
    assert(lowadj == (ll > 9));
    let la: int = if lowadj { 1int } else { 0int };
    let cl2: int = if ll > 9 { 1int } else { 0int };
    assert(la == cl2);

    let a1: u8 = if lowadj { ((r + 0x06) % 256) as u8 } else { r };
    let k2: int = if lowadj && r + 6 >= 256 { 1int } else { 0int };
    assert(a1 == r + 6 * la - 256 * k2) by {
        if lowadj {
            if r + 6 >= 256 {
                lemma_fundamental_div_mod_converse(r + 6, 256, 1, r + 6 - 256);
            } else {
                lemma_fundamental_div_mod_converse(r + 6, 256, 0, r + 6);
            }
        }
    }

    let q1 = hh + cl2 - 16 * (k + k2);
    let l2 = ll - 10 * cl2;
    assert(a1 == 16 * q1 + l2);
    assert(0 <= l2 <= 9);
    assert(q1 >= 0) by {
        if q1 < 0 {
            assert(16 * q1 + l2 < 0);
        }
    }
    assert(q1 <= 15) by {
        if q1 >= 16 {
            assert(16 * q1 + l2 >= 256);
        }
    }
    lemma_fundamental_div_mod_converse(a1 as int, 16, q1, l2);
    lemma_nibbles(a1);

    let h2 = hh + cl2;
    let dsum = bcd_val(x) + bcd_val(y);
    assert(dsum == 10 * hh + ll);
    assert(dsum == 10 * h2 + l2);

    let carry = cf || r > 0x99;
    assert(carry == (h2 >= 10)) by {
        if cf {
            assert(16 * hh + ll > 255);
            assert(hh >= 15);
            if hh == 15 {
                assert(ll >= 16);
            }
            assert(h2 >= 16);
        } else {
            assert(r == 16 * hh + ll);
            if r > 0x99 {
                assert(hh >= 9);
                if hh == 9 {
                    assert(ll > 9);
                }
                assert(h2 >= 10);
            } else {
                if hh >= 10 {
                    assert(r >= 160);
                }
                if hh == 9 && ll > 9 {
                    assert(r >= 154);
                }
                assert(h2 <= 9);
            }
        }
    }
    assert(k + k2 <= 1 && (k + k2 == 1 ==> h2 >= 16)) by {
        assert(q1 == h2 - 16 * (k + k2));
        assert(q1 >= 0);
        if k + k2 >= 2 {
            assert(h2 >= 32);
            assert(hh <= 18);
        }
    }

    // The adjusted accumulator.
    if carry {
        let afin: u8 = ((a1 + 0x60) % 256) as u8;
        assert(c2.a == afin);
        if k + k2 == 1 {
            assert(h2 >= 16);
            assert(q1 == h2 - 16);
            assert(a1 + 0x60 == 16 * (h2 - 10) + l2);
            assert(a1 + 0x60 < 256);
            lemma_fundamental_div_mod_converse(a1 + 0x60, 256, 0, a1 + 0x60);
        } else {
            assert(q1 == h2);
            assert(h2 >= 10);
            assert(h2 <= 19);
            assert(a1 + 0x60 == 16 * (h2 + 6) + l2);
            assert(a1 + 0x60 - 256 == 16 * (h2 - 10) + l2);
            lemma_fundamental_div_mod_converse(a1 + 0x60, 256, 1, a1 + 0x60 - 256);
        }
        assert(afin == 16 * (h2 - 10) + l2);
        // dsum is at least one hundred and below two hundred
        assert(dsum >= 100 && dsum < 200);
        lemma_fundamental_div_mod_converse(dsum, 100, 1, dsum - 100);
        assert(dsum % 100 == 10 * (h2 - 10) + l2);
        lemma_fundamental_div_mod_converse(10 * (h2 - 10) + l2, 10, h2 - 10, l2);
        assert(bcd_of(dsum % 100) == afin);
    } else {
        assert(k + k2 == 0);
        assert(c2.a == a1);
        assert(h2 <= 9);
        assert(dsum < 100);
        lemma_fundamental_div_mod_converse(dsum, 100, 0, dsum);
        lemma_fundamental_div_mod_converse(dsum, 10, h2, l2);
        assert(bcd_of(dsum % 100) == a1);
    }

    // The carry flag reads back from the adjusted flag byte.
    lemma_pack_flags(c2.a == 0, false, false, carry);
    assert(c2.c_flag_spec() == carry);
    assert(carry == (dsum >= 100));
}

} // verus!
