//! The interrupt controller: the request register IF (0xFF0F), the enable
//! mask IE (0xFFFF), and the fixed priority VBlank > LCDStat > Timer > Joypad.

use vstd::prelude::*;
use crate::memory::{mem_read, mem_write, MemView, Memory};

verus! {

#[derive(PartialEq, Eq, Structural, Debug, Clone, Copy)]
pub enum Interrupt {
    VBlank,
    LcdStat,
    Timer,
    Joypad,
}

/// The IF/IE bit of an interrupt source.
pub open spec fn mask_of(intr: Interrupt) -> u8 {
    match intr {
        Interrupt::VBlank => 1,
        Interrupt::LcdStat => 2,
        Interrupt::Timer => 4,
        Interrupt::Joypad => 16,
    }
}

/// The machine with the interrupt's bit raised in IF.
pub open spec fn request_spec(v: MemView, intr: Interrupt) -> MemView {
    mem_write(v, 0xFF0F, mem_read(v, 0xFF0F) | mask_of(intr))
}

/// The machine with the interrupt's bit cleared in IF.
pub open spec fn dismiss_spec(v: MemView, intr: Interrupt) -> MemView {
    mem_write(v, 0xFF0F, mem_read(v, 0xFF0F) & !mask_of(intr))
}

/// The pending-and-enabled interrupt of highest priority, if any.
pub open spec fn pending_spec(v: MemView) -> Option<Interrupt> {
    let avail = mem_read(v, 0xFF0F) & mem_read(v, 0xFFFF);
    if avail & 1 != 0 {
        Some(Interrupt::VBlank)
    } else if avail & 2 != 0 {
        Some(Interrupt::LcdStat)
    } else if avail & 4 != 0 {
        Some(Interrupt::Timer)
    } else if avail & 16 != 0 {
        Some(Interrupt::Joypad)
    } else {
        None
    }
}

/// Request an interrupt by raising its bit in IF.
pub fn set_interrupt(intr: Interrupt, mem: &mut Memory)
    requires
        old(mem).wf(),
    ensures
        final(mem).wf(),
        final(mem)@ == request_spec(old(mem)@, intr),
{
    let current = mem.get(0xFF0F);
    let new = match intr {
        Interrupt::VBlank => current | 1,
        Interrupt::LcdStat => current | 2,
        Interrupt::Timer => current | 4,
        Interrupt::Joypad => current | 16,
    };
    mem.set(0xFF0F, new);
}

/// The pending-and-enabled interrupt of highest priority; the machine is
/// left unchanged.
pub fn fetch_interrupt(mem: &mut Memory) -> (r: Option<Interrupt>)
    requires
        old(mem).wf(),
    ensures
        *final(mem) == *old(mem),
        r == pending_spec(old(mem)@),
{
    let available_enabled = mem.get(0xFF0F) & mem.get(0xFFFF);

    if available_enabled & 1 != 0 {
        Some(Interrupt::VBlank)
    } else if available_enabled & 2 != 0 {
        Some(Interrupt::LcdStat)
    } else if available_enabled & 4 != 0 {
        Some(Interrupt::Timer)
    } else if available_enabled & 16 != 0 {
        Some(Interrupt::Joypad)
    } else {
        None
    }
}

/// Dismiss a serviced interrupt by clearing its bit in IF.
pub fn reset_interrupt(intr: Interrupt, mem: &mut Memory)
    requires
        old(mem).wf(),
    ensures
        final(mem).wf(),
        final(mem)@ == dismiss_spec(old(mem)@, intr),
{
    let current = mem.get(0xFF0F);
    let new = match intr {
        Interrupt::VBlank => current & !1u8,
        Interrupt::LcdStat => current & !2u8,
        Interrupt::Timer => current & !4u8,
        Interrupt::Joypad => current & !16u8,
    };
    mem.set(0xFF0F, new);
}

} // verus!
