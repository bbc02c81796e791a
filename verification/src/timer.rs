//! The divider/timer block behind 0xFF04..=0xFF07.
//!
//! DIV counts up once every 256 CPU clocks regardless of the control
//! register; writing any value resets it. TIMA counts at the rate selected by
//! TAC bits 0..=1 when TAC bit 2 is set, and on overflowing 0xFF it reloads
//! from TMA and requests a Timer interrupt.

use vstd::prelude::*;
use vstd::arithmetic::div_mod::lemma_fundamental_div_mod_converse;

verus! {

pub struct Timer {
    /// CPU clocks accumulated toward the next DIV increment; below 256.
    pub div_cycles: u16,
    /// CPU clocks accumulated toward the next TIMA increment; below the period.
    pub tima_cycles: u16,
    /// DIV (0xFF04).
    pub divider: u8,
    /// TIMA (0xFF05).
    pub counter: u8,
    /// TMA (0xFF06).
    pub modulo: u8,
    /// TAC (0xFF07).
    pub control: u8,
}

/// TIMA advanced by `n` increments, reloading from `modulo` on each overflow.
pub open spec fn tima_step_n(counter: u8, modulo: u8, n: nat) -> u8
    decreases n,
{
    if n == 0 {
        counter
    } else {
        let prev = tima_step_n(counter, modulo, (n - 1) as nat);
        if prev == 0xFF {
            modulo
        } else {
            (prev + 1) as u8
        }
    }
}

/// Whether any of `n` TIMA increments overflowed 0xFF.
pub open spec fn tima_overflow_n(counter: u8, modulo: u8, n: nat) -> bool
    decreases n,
{
    if n == 0 {
        false
    } else {
        tima_overflow_n(counter, modulo, (n - 1) as nat) || tima_step_n(
            counter,
            modulo,
            (n - 1) as nat,
        ) == 0xFF
    }
}

impl Timer {
    /// TAC bit 2 gates TIMA.
    pub open spec fn enabled_spec(self) -> bool {
        self.control & 0x04 != 0
    }

    /// CPU clocks per TIMA increment, selected by TAC bits 0..=1.
    pub open spec fn period_spec(self) -> u16 {
        if self.control & 0x03 == 0 {
            1024
        } else if self.control & 0x03 == 1 {
            16
        } else if self.control & 0x03 == 2 {
            64
        } else {
            256
        }
    }

    pub open spec fn wf(self) -> bool {
        self.div_cycles < 256 && self.tima_cycles < self.period_spec()
    }

    pub open spec fn read_spec(self, addr: u16) -> u8 {
        if addr == 0xFF04 {
            self.divider
        } else if addr == 0xFF05 {
            self.counter
        } else if addr == 0xFF06 {
            self.modulo
        } else {
            self.control
        }
    }

    pub open spec fn write_spec(self, addr: u16, val: u8) -> Timer {
        if addr == 0xFF04 {
            Timer { divider: 0, div_cycles: 0, ..self }
        } else if addr == 0xFF05 {
            Timer { counter: val, ..self }
        } else if addr == 0xFF06 {
            Timer { modulo: val, ..self }
        } else {
            Timer { control: val, tima_cycles: 0, ..self }
        }
    }

    /// The block advanced by `cycles` CPU clocks, with the interrupt request
    /// that the advance produces.
    pub open spec fn tick_spec(self, cycles: u8) -> (Timer, bool) {
        let dtot = self.div_cycles + cycles;
        let divider2 = if dtot >= 256 {
            self.divider.wrapping_add(1)
        } else {
            self.divider
        };
        let div_cycles2 = (dtot % 256) as u16;
        if !self.enabled_spec() {
            (Timer { divider: divider2, div_cycles: div_cycles2, ..self }, false)
        } else {
            let total = self.tima_cycles + cycles;
            let n = (total / (self.period_spec() as int)) as nat;
            (
                Timer {
                    divider: divider2,
                    div_cycles: div_cycles2,
                    counter: tima_step_n(self.counter, self.modulo, n),
                    tima_cycles: (total % (self.period_spec() as int)) as u16,
                    ..self
                },
                tima_overflow_n(self.counter, self.modulo, n),
            )
        }
    }

    /// The quiet power-on timer block.
    pub open spec fn new_spec() -> Timer {
        Timer {
            div_cycles: 0u16,
            tima_cycles: 0u16,
            divider: 0u8,
            counter: 0u8,
            modulo: 0u8,
            control: 0u8,
        }
    }

    pub fn new() -> (r: Timer)
        ensures
            r == Timer::new_spec(),
            r.wf(),
    {
        Timer { div_cycles: 0, tima_cycles: 0, divider: 0, counter: 0, modulo: 0, control: 0 }
    }

    pub fn read(&self, addr: u16) -> (r: u8)
        requires
            0xFF04 <= addr <= 0xFF07,
        ensures
            r == self.read_spec(addr),
    {
        match addr {
            0xFF04 => self.divider,
            0xFF05 => self.counter,
            0xFF06 => self.modulo,
            _ => self.control,
        }
    }

    pub fn write(&mut self, addr: u16, val: u8)
        requires
            0xFF04 <= addr <= 0xFF07,
        ensures
            *final(self) == old(self).write_spec(addr, val),
            old(self).wf() ==> final(self).wf(),
    {
        match addr {
            0xFF04 => {
                self.divider = 0;
                self.div_cycles = 0;
            }
            0xFF05 => {
                self.counter = val;
            }
            0xFF06 => {
                self.modulo = val;
            }
            _ => {
                self.control = val;
                self.tima_cycles = 0;
            }
        }
    }

    /// Advance the block by the CPU clocks of one instruction; the result
    /// says whether a Timer interrupt must be requested.
    pub fn tick(&mut self, cycles: u8) -> (interrupt: bool)
        requires
            old(self).wf(),
        ensures
            final(self).wf(),
            (*final(self), interrupt) == old(self).tick_spec(cycles),
    {
        self.div_cycles = self.div_cycles + cycles as u16;
        if self.div_cycles >= 256 {
            self.divider = self.divider.wrapping_add(1);
            self.div_cycles = self.div_cycles - 256;
        }
        let ghost div1 = self.divider;
        let ghost divc1 = self.div_cycles;
        proof {
            assert(old(self).div_cycles + cycles < 512);
            assert(divc1 == (old(self).div_cycles + cycles) % 256);
        }

        if self.control & 0x04 == 0 {
            return false;
        }

        let period: u16 = if self.control & 0x03 == 0 {
            1024
        } else if self.control & 0x03 == 1 {
            16
        } else if self.control & 0x03 == 2 {
            64
        } else {
            256
        };
        assert(period == self.period_spec());

        let ghost c0 = old(self).counter;
        let ghost m0 = old(self).modulo;
        let ghost total = old(self).tima_cycles + cycles;

        self.tima_cycles = self.tima_cycles + cycles as u16;

        let mut interrupt = false;
        let ghost mut n: nat = 0;

        while self.tima_cycles >= period
            invariant
                16 <= period <= 1024,
                period == old(self).period_spec(),
                self.modulo == m0,
                self.control == old(self).control,
                self.divider == div1,
                self.div_cycles == divc1,
                self.tima_cycles + n * period == total,
                self.counter == tima_step_n(c0, m0, n),
                interrupt == tima_overflow_n(c0, m0, n),
            decreases self.tima_cycles,
        {
            self.tima_cycles = self.tima_cycles - period;
            if self.counter == 0xFF {
                self.counter = self.modulo;
                interrupt = true;
            } else {
                self.counter = self.counter + 1;
            }
            proof {
                n = n + 1;
            }
        }

        proof {
            lemma_fundamental_div_mod_converse(
                total as int,
                period as int,
                n as int,
                self.tima_cycles as int,
            );
        }

        interrupt
    }
}

} // verus!
