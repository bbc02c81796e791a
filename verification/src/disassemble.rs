//! A linear disassembly listing over a bus address range.

use vstd::prelude::*;
use crate::instruction::{read_spec, size_spec, Instruction};
use crate::memory::{mem_read, MemView, Memory};

verus! {

pub struct Disassembly {
    pub addr: u16,
    pub data_len: u8,
    pub data: Vec<u8>,
    pub desc: String,
}

/// Relies on the format! macro of std over the derived Debug form of the
/// decoded instruction; diagnostic text only, nothing is proved of it.
#[verifier::external_body]
fn instruction_text(instr: &Instruction) -> String {
    format!("{:?}", instr)
}

/// One listing row is faithful: its length is the decoded instruction's,
/// and its bytes are the bus contents from its address.
#[verifier::opaque]
pub open spec fn row_ok(v: MemView, row: Disassembly) -> bool {
    &&& row.data_len == size_spec(read_spec(v, row.addr))
    &&& row.data@.len() == row.data_len
    &&& forall|i: int|
        0 <= i < row.data@.len() ==> row.data@[i] == mem_read(v, row.addr.wrapping_add(i as u16))
}

/// One listing row for the instruction at `a16`.
fn make_row(mem: &Memory, a16: u16) -> (row: Disassembly)
    requires
        mem.wf(),
    ensures
        row.addr == a16,
        row_ok(mem@, row),
        1 <= row.data_len <= 3,
{
    proof {
        reveal(row_ok);
    }
    let instr = Instruction::read(mem, a16);
    let len: u16 = Instruction::mem_size(&instr);

    Disassembly {
        addr: a16,
        data_len: len as u8,
        data: mem.clone_bytes(a16, len),
        desc: instruction_text(&instr),
    }
}

/// Disassemble every instruction whose first byte lies in `start..=end`:
/// each row carries its address, its decoded length, the raw bytes, and a
/// mnemonic rendering; rows follow each other at their byte lengths and
/// together cover the whole range.
#[verifier::rlimit(100)]
pub fn disassemble(start: u16, end: u16, mem: &Memory) -> (r: Vec<Disassembly>)
    requires
        mem.wf(),
    ensures
        r@.len() == 0 <==> start > end,
        r@.len() > 0 ==> r@[r@.len() - 1].addr + r@[r@.len() - 1].data_len > end,
        forall|k: int| 0 <= k < r@.len() ==> row_ok(mem@, #[trigger] r@[k]),
        r@.len() > 0 ==> r@[0].addr == start,
        forall|k: int|
            0 < k < r@.len() ==> (#[trigger] r@[k]).addr == r@[k - 1].addr + r@[k - 1].data_len,
{
    let mut output: Vec<Disassembly> = Vec::new();

    let mut addr: u32 = start as u32;

    while addr <= end as u32
        invariant
            mem.wf(),
            addr <= 0x1_0003,
            start > end ==> output@.len() == 0,
            output@.len() > 0 ==> output@[0].addr == start,
            output@.len() == 0 ==> addr == start,
            output@.len() > 0 ==> addr == output@[output@.len() - 1].addr + output@[output@.len()
                - 1].data_len,
            forall|k: int| 0 <= k < output@.len() ==> row_ok(mem@, #[trigger] output@[k]),
            forall|k: int|
                0 < k < output@.len() ==> (#[trigger] output@[k]).addr == output@[k - 1].addr
                    + output@[k - 1].data_len,
        decreases 0x1_0003 - addr,
    {
        let a16: u16 = addr as u16;
        let row = make_row(mem, a16);
        let len: u32 = row.data_len as u32;

        output.push(row);

        addr = addr + len;
    }

    output
}

} // verus!
