//! The machine: one value owning the CPU, the PPU, and the memory fabric,
//! advanced one instruction at a time by the step loop.

use vstd::prelude::*;
use crate::cpu::{cpu_step_post, interrupt_post, Cpu};
use crate::gpu::{gpu_cycle_post, Gpu, GpuDebugTrace, GpuMode, SCREEN_BYTES};
use crate::input::{Button, Input};
use crate::instruction::{is_legal, read_spec};
use crate::interrupt;
use crate::memory::{mem_init_post, mem_read, tick_timer_spec, MemView, Memory};
use crate::rom;

verus! {

pub struct GameBoy {
    pub title: String,
    pub cpu: Cpu,
    pub gpu: Gpu,
    pub mem: Memory,
    pub steps: u64,
    pub cycles: u64,
}

impl GameBoy {
    pub open spec fn wf(self) -> bool {
        &&& self.cpu.wf()
        &&& self.gpu.wf()
        &&& self.mem.wf()
    }

    pub open spec fn title_spec(self) -> Seq<char> {
        self.title@
    }

    /// The machine at power-on around a cartridge image: registers, PPU and
    /// fabric in their boot state, the title copied out of the header.
    pub fn new(rom_contents: Vec<u8>) -> (r: GameBoy)
        requires
            rom::rom_has_header(rom_contents@),
            rom::supported_cartridge_type(rom_contents@[0x0147]),
        ensures
            r.wf(),
            r.cpu == Cpu::init_spec(),
            r.gpu.mode == GpuMode::HBlank,
            r.gpu.mode_elapsed == 0,
            r.gpu.line == 0,
            r.gpu.screen_rgba@.len() == SCREEN_BYTES,
            forall|k: int| 0 <= k < SCREEN_BYTES ==> r.gpu.screen_rgba@[k] == 255u8,
            r.gpu.debug_lcd_pwr == false,
            mem_init_post(rom_contents@, r.mem@),
            r.steps == 0,
            r.cycles == 0,
            r.title_spec() == r.mem@.cart.title,
    {
        let mem = Memory::new(rom_contents);
        let title = mem.cartridge.game_title.clone();

        GameBoy { title, cpu: Cpu::new(), gpu: Gpu::new(), mem, steps: 0, cycles: 0 }
    }

    /// The cartridge header's NUL-trimmed title.
    pub fn title(&self) -> (r: &str)
        ensures
            r@ == self.title_spec(),
    {
        self.title.as_str()
    }

    /// One step of the outer driver: the CPU executes one instruction, the
    /// PPU and the timer advance by its cycle cost, and at most one pending
    /// enabled interrupt is vectored, each exactly per its own
    /// postcondition. The result reports a finished frame: exactly the steps
    /// on which the PPU moved into VBlank. The second argument, a debug aid
    /// that once stopped emulation at a chosen PC, is accepted for the
    /// host's convenience and ignored: a verified step cannot halt that way.
    pub fn cycle(&mut self, debug: bool, _debug_pc_panic: Option<u16>) -> (redraw: bool)
        requires
            old(self).wf(),
            !old(self).cpu.halted ==> is_legal(read_spec(old(self).mem@, old(self).cpu.pc)),
        ensures
            final(self).wf(),
            redraw == (!(old(self).gpu.mode is VBlank) && final(self).gpu.mode is VBlank),
            final(self).steps == old(self).steps.wrapping_add(1),
            final(self).title_spec() == old(self).title_spec(),
            exists|cycles: u8, c1: Cpu, v1: MemView, v2: MemView|
                #![trigger cpu_step_post(old(self).cpu, old(self).mem@, c1, v1, cycles),
                    gpu_cycle_post(old(self).gpu, v1, final(self).gpu, v2, cycles)]
                {
                    &&& cpu_step_post(old(self).cpu, old(self).mem@, c1, v1, cycles)
                    &&& gpu_cycle_post(old(self).gpu, v1, final(self).gpu, v2, cycles)
                    &&& ({
                        let v3 = tick_timer_spec(v2, cycles);
                        match interrupt::pending_spec(v3) {
                            Option::Some(intr) => interrupt_post(
                                c1,
                                v3,
                                final(self).cpu,
                                final(self).mem@,
                                intr,
                            ),
                            Option::None => final(self).cpu == c1 && final(self).mem@ == v3,
                        }
                    })
                    &&& 4 <= cycles <= 24
                    &&& final(self).cycles == old(self).cycles.wrapping_add(cycles as u64)
                },
    {
        let cycles: u8 = self.cpu.cycle(&mut self.mem, debug);
        self.cycles = self.cycles.wrapping_add(cycles as u64);

        let ghost c1 = self.cpu;
        let ghost v1 = self.mem@;

        let old_mode = self.gpu.mode;

        self.gpu.cycle(&mut self.mem, cycles);

        let ghost v2 = self.mem@;

        let redraw_screen = old_mode != GpuMode::VBlank && self.gpu.mode == GpuMode::VBlank;

        self.mem.tick_timer(cycles);

        let pending = interrupt::fetch_interrupt(&mut self.mem);
        if let Some(active) = pending {
            self.cpu.interrupt(&mut self.mem, active);
        }

        self.steps = self.steps.wrapping_add(1);

        proof {
            assert(cpu_step_post(old(self).cpu, old(self).mem@, c1, v1, cycles));
            assert(gpu_cycle_post(old(self).gpu, v1, self.gpu, v2, cycles));
        }

        redraw_screen
    }

    /// Update the button matrix for a key transition; a fresh press of a
    /// currently selected key requests the Joypad interrupt.
    pub fn set_button(&mut self, button: Button, pressed: bool)
        requires
            old(self).wf(),
        ensures
            final(self).wf(),
            final(self).cpu == old(self).cpu,
            final(self).gpu == old(self).gpu,
            final(self).steps == old(self).steps,
            final(self).cycles == old(self).cycles,
            final(self).title_spec() == old(self).title_spec(),
            final(self).mem@ == ({
                let v0 = old(self).mem@;
                let v1 = MemView { input: v0.input.set_input_spec(button, pressed), ..v0 };
                if v0.input.press_triggers_spec(button, pressed) {
                    interrupt::request_spec(v1, interrupt::Interrupt::Joypad)
                } else {
                    v1
                }
            }),
    {
        let trigger = self.mem.input.press_triggers(button, pressed);
        self.mem.input.set_input(button, pressed);
        if trigger {
            interrupt::set_interrupt(interrupt::Interrupt::Joypad, &mut self.mem);
        }
    }

    /// The live button matrix, for the host to feed key transitions into.
    pub fn input(&mut self) -> (r: &mut Input)
        ensures
            *r == old(self).mem.input,
            *final(self) == (GameBoy {
                mem: Memory { input: *final(r), ..old(self).mem },
                ..*old(self)
            }),
    {
        self.mem.input()
    }

    /// A copy of the bus contents over an inclusive address range.
    pub fn read_region(&self, start: u16, end: u16) -> (r: Vec<u8>)
        requires
            self.wf(),
            start <= end,
        ensures
            r@.len() == end - start + 1,
            forall|i: int| 0 <= i <= end - start ==> r@[i] == mem_read(self.mem@, (start + i) as u16),
    {
        let len: u32 = (end as u32) - (start as u32) + 1;
        let mut result: Vec<u8> = Vec::new();
        let mut k: u32 = 0;
        while k < len
            invariant
                self.wf(),
                k <= len,
                len == end - start + 1,
                result@.len() == k,
                forall|i: int|
                    0 <= i < k ==> result@[i] == mem_read(self.mem@, (start + i) as u16),
            decreases len - k,
        {
            result.push(self.mem.get(start + (k as u16)));
            k = k + 1;
        }
        result
    }

    /// The rasterizer counters of the last finished frame.
    pub fn gpu_trace(&self) -> (r: GpuDebugTrace)
        ensures
            r == self.gpu.debug_last_frame,
    {
        self.gpu.debug_last_frame
    }

    /// The 160x144 RGBA framebuffer, read-only.
    pub fn buffer(&self) -> (r: &Vec<u8>)
        ensures
            r@ == self.gpu.screen_rgba@,
    {
        &self.gpu.screen_rgba
    }

    /// The framebuffer as an owned-vector reference.
    pub fn buffer_vec(&self) -> (r: &Vec<u8>)
        ensures
            r@ == self.gpu.screen_rgba@,
    {
        &self.gpu.screen_rgba
    }
}

} // verus!
