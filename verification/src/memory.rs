//! The memory-management unit: one 16-bit address space mapping cartridge
//! ROM banks, video RAM, work RAM with its echo mirror, object attribute
//! memory, the I/O registers, and high RAM.
//!
//! Every read and write is characterised by the total spec functions
//! `mem_read` and `mem_write` over the ghost machine view `MemView`.

use vstd::prelude::*;
use crate::input::Input;
use crate::rom::{Cartridge, CartView};
use crate::timer::Timer;

verus! {

pub struct Memory {
    pub cartridge: Cartridge,
    pub vram: Vec<u8>,
    pub ram: Vec<u8>,
    pub sprite: Vec<u8>,
    pub io: Vec<u8>,
    pub highram: Vec<u8>,
    pub input: Input,
    pub timer: Timer,
    pub serial_buf: Vec<u8>,
}

/// The memory fabric as mathematics.
#[verifier::ext_equal]
pub struct MemView {
    pub cart: CartView,
    pub vram: Seq<u8>,
    pub ram: Seq<u8>,
    pub sprite: Seq<u8>,
    pub io: Seq<u8>,
    pub highram: Seq<u8>,
    pub input: Input,
    pub timer: Timer,
    pub serial: Seq<u8>,
}

impl View for Memory {
    type V = MemView;

    open spec fn view(&self) -> MemView {
        MemView {
            cart: self.cartridge@,
            vram: self.vram@,
            ram: self.ram@,
            sprite: self.sprite@,
            io: self.io@,
            highram: self.highram@,
            input: self.input,
            timer: self.timer,
            serial: self.serial_buf@,
        }
    }
}

pub const VRAM_SIZE: usize = 8192;

pub const RAM_SIZE: usize = 8192;

pub const SPRITE_SIZE: usize = 160;

pub const IO_SIZE: usize = 76;

pub const HIGHRAM_SIZE: usize = 128;

pub const MAX_SERIAL_BUF_LEN: usize = 50000;

impl MemView {
    pub open spec fn wf(self) -> bool {
        &&& self.vram.len() == VRAM_SIZE
        &&& self.ram.len() == RAM_SIZE
        &&& self.sprite.len() == SPRITE_SIZE
        &&& self.io.len() == IO_SIZE
        &&& self.highram.len() == HIGHRAM_SIZE
        &&& self.timer.wf()
        &&& self.serial.len() <= MAX_SERIAL_BUF_LEN
    }
}

/// The byte a read of `addr` observes: the address decode of the fabric,
/// including the joypad and timer registers and the echo of work RAM.
pub open spec fn mem_read(v: MemView, addr: u16) -> u8 {
    if addr < 0x8000 {
        v.cart.read(addr)
    } else if addr < 0xA000 {
        v.vram[addr - 0x8000]
    } else if addr < 0xC000 {
        v.cart.read(addr)
    } else if addr < 0xE000 {
        v.ram[addr - 0xC000]
    } else if addr < 0xFE00 {
        v.ram[addr - 0xE000]
    } else if addr < 0xFEA0 {
        v.sprite[addr - 0xFE00]
    } else if addr < 0xFF00 {
        0
    } else if addr == 0xFF00 {
        v.input.value_spec()
    } else if 0xFF04 <= addr && addr <= 0xFF07 {
        v.timer.read_spec(addr)
    } else if addr == 0xFF4D {
        0xFF
    } else if addr <= 0xFF4B {
        v.io[addr - 0xFF00]
    } else if addr <= 0xFF7F {
        0
    } else {
        v.highram[addr - 0xFF80]
    }
}

/// The serial diagnostic buffer after a byte lands in 0xFF01; it is cleared
/// once it would outgrow its bound.
pub open spec fn serial_append(s: Seq<u8>, val: u8) -> Seq<u8> {
    let s2 = s.push(val);
    if s2.len() > MAX_SERIAL_BUF_LEN {
        Seq::empty()
    } else {
        s2
    }
}

/// The 160 bytes that a DMA transfer from page `val` copies into OAM.
pub open spec fn dma_copy(v: MemView, val: u8) -> Seq<u8> {
    Seq::new(160, |i: int| mem_read(v, (val * 256 + i) as u16))
}

/// The machine after a write of `val` to `addr`: plain stores into the RAM
/// buffers (the echo range landing in work RAM), bank commands into the
/// cartridge controller, latches into the joypad and timer blocks, the DMA
/// copy, and discards for the unusable and unimplemented ranges.
pub open spec fn mem_write(v: MemView, addr: u16, val: u8) -> MemView {
    if addr < 0x8000 {
        MemView { cart: v.cart.write(addr, val), ..v }
    } else if addr < 0xA000 {
        MemView { vram: v.vram.update(addr - 0x8000, val), ..v }
    } else if addr < 0xC000 {
        MemView { cart: v.cart.write(addr, val), ..v }
    } else if addr < 0xE000 {
        MemView { ram: v.ram.update(addr - 0xC000, val), ..v }
    } else if addr < 0xFE00 {
        MemView { ram: v.ram.update(addr - 0xE000, val), ..v }
    } else if addr < 0xFEA0 {
        MemView { sprite: v.sprite.update(addr - 0xFE00, val), ..v }
    } else if addr < 0xFF00 {
        v
    } else if addr == 0xFF00 {
        MemView { input: Input { high4: val & 0xF0, ..v.input }, ..v }
    } else if addr == 0xFF01 {
        MemView { serial: serial_append(v.serial, val), ..v }
    } else if addr <= 0xFF03 {
        v
    } else if addr <= 0xFF07 {
        MemView { timer: v.timer.write_spec(addr, val), ..v }
    } else if addr == 0xFF46 {
        MemView { sprite: dma_copy(v, val), ..v }
    } else if addr <= 0xFF4B {
        MemView { io: v.io.update(addr - 0xFF00, val), ..v }
    } else if addr <= 0xFF7F {
        v
    } else {
        MemView { highram: v.highram.update(addr - 0xFF80, val), ..v }
    }
}

/// A little-endian 16-bit read: low byte at `addr`, high byte at the
/// successor address (wrapping).
pub open spec fn mem_read16(v: MemView, addr: u16) -> u16 {
    (mem_read(v, addr) + 256 * mem_read(v, addr.wrapping_add(1))) as u16
}

/// A little-endian 16-bit write: low byte to `addr`, high byte to the
/// successor address (wrapping).
pub open spec fn mem_write16(v: MemView, addr: u16, val: u16) -> MemView {
    mem_write(mem_write(v, addr, (val % 256) as u8), addr.wrapping_add(1), (val / 256) as u8)
}

/// The fabric after the timer block advances by `cycles` clocks, with a
/// Timer interrupt requested when the advance produced one.
pub open spec fn tick_timer_spec(v: MemView, cycles: u8) -> MemView {
    let (t2, irq) = v.timer.tick_spec(cycles);
    let v2 = MemView { timer: t2, ..v };
    if irq {
        crate::interrupt::request_spec(v2, crate::interrupt::Interrupt::Timer)
    } else {
        v2
    }
}

/// The I/O register file at power-on: LCDC and the three palettes hold their
/// boot values, everything else is zero.
pub open spec fn init_io() -> Seq<u8> {
    Seq::new(
        IO_SIZE as nat,
        |i: int|
            if i == 0x40 {
                0x91u8
            } else if i == 0x47 {
                0xFCu8
            } else if i == 0x48 {
                0xFFu8
            } else if i == 0x49 {
                0xFFu8
            } else {
                0u8
            },
    )
}

/// A zero-filled byte vector.
fn zero_vec(n: usize) -> (r: Vec<u8>)
    ensures
        r@.len() == n,
        forall|i: int| 0 <= i < n ==> r@[i] == 0u8,
{
    let mut v: Vec<u8> = Vec::new();
    let mut k: usize = 0;
    while k < n
        invariant
            k <= n,
            v@.len() == k,
            forall|i: int| 0 <= i < k ==> v@[i] == 0u8,
        decreases n - k,
    {
        v.push(0);
        k = k + 1;
    }
    v
}

/// The fabric at power-on around a ROM image: zeroed buffers and cartridge
/// RAM sized by the header, the boot I/O register values, and quiet input,
/// timer and serial blocks.
pub open spec fn mem_init_post(rom: Seq<u8>, v: MemView) -> bool {
    &&& v.wf()
    &&& v.cart.rom == rom
    &&& v.cart.mbc == crate::rom::mbc_from_byte(rom[0x0147])
    &&& v.cart.ram.len() == crate::rom::ram_len_for(rom[0x0149])
    &&& (forall|i: int| 0 <= i < v.cart.ram.len() ==> v.cart.ram[i] == 0u8)
    &&& (forall|i: int| 0 <= i < VRAM_SIZE ==> v.vram[i] == 0u8)
    &&& (forall|i: int| 0 <= i < RAM_SIZE ==> v.ram[i] == 0u8)
    &&& (forall|i: int| 0 <= i < SPRITE_SIZE ==> v.sprite[i] == 0u8)
    &&& (forall|i: int| 0 <= i < HIGHRAM_SIZE ==> v.highram[i] == 0u8)
    &&& v.io == init_io()
    &&& v.input == (Input { buttons: 0u8, joypad: 0u8, high4: 0xF0u8 })
    &&& v.timer == Timer::new_spec()
    &&& v.serial == Seq::<u8>::empty()
}

impl Memory {
    pub open spec fn wf(self) -> bool {
        self@.wf()
    }

    /// The fabric at power-on around a freshly loaded cartridge: zeroed
    /// buffers, the boot I/O register values, and quiet input and timer
    /// blocks.
    pub fn new(rom_contents: Vec<u8>) -> (r: Memory)
        requires
            crate::rom::rom_has_header(rom_contents@),
            crate::rom::supported_cartridge_type(rom_contents@[0x0147]),
        ensures
            r.wf(),
            mem_init_post(rom_contents@, r@),
            r@.cart.title == r.cartridge.game_title@,
    {
        let cartridge = Cartridge::load_rom(rom_contents);
        let mut mem = Memory {
            cartridge,
            vram: zero_vec(VRAM_SIZE),
            ram: zero_vec(RAM_SIZE),
            sprite: zero_vec(SPRITE_SIZE),
            io: zero_vec(IO_SIZE),
            highram: zero_vec(HIGHRAM_SIZE),
            input: Input::new(),
            timer: Timer::new(),
            serial_buf: Vec::new(),
        };

        mem.set(0xFF40, 0x91);
        mem.set(0xFF47, 0xFC);
        mem.set(0xFF48, 0xFF);
        mem.set(0xFF49, 0xFF);

        proof {
            assert(mem@.io =~= init_io());
        }

        mem
    }

    /// Read one byte; see `mem_read`.
    pub fn get(&self, addr: u16) -> (r: u8)
        requires
            self.wf(),
        ensures
            r == mem_read(self@, addr),
    {
        if addr < 0x8000 {
            self.cartridge.mbc(addr)
        } else if addr < 0xA000 {
            self.vram[(addr - 0x8000) as usize]
        } else if addr < 0xC000 {
            self.cartridge.mbc(addr)
        } else if addr < 0xE000 {
            self.ram[(addr - 0xC000) as usize]
        } else if addr < 0xFE00 {
            self.ram[(addr - 0xE000) as usize]
        } else if addr < 0xFEA0 {
            self.sprite[(addr - 0xFE00) as usize]
        } else if addr < 0xFF00 {
            0
        } else if addr == 0xFF00 {
            self.input.value()
        } else if addr >= 0xFF04 && addr <= 0xFF07 {
            self.timer.read(addr)
        } else if addr == 0xFF4D {
            0xFF
        } else if addr <= 0xFF4B {
            self.io[(addr - 0xFF00) as usize]
        } else if addr <= 0xFF7F {
            0
        } else {
            self.highram[(addr - 0xFF80) as usize]
        }
    }

    /// Read a little-endian 16-bit word; see `mem_read16`.
    pub fn get16(&self, addr: u16) -> (r: u16)
        requires
            self.wf(),
        ensures
            r == mem_read16(self@, addr),
    {
        let low = self.get(addr);
        let high = self.get(addr.wrapping_add(1));

        (high as u16) * 256 + (low as u16)
    }

    /// Write one byte; see `mem_write`.
    pub fn set(&mut self, addr: u16, val: u8)
        requires
            old(self).wf(),
        ensures
            final(self).wf(),
            final(self)@ == mem_write(old(self)@, addr, val),
    {
        if addr < 0x8000 {
            self.cartridge.mbc_write(addr, val);
        } else if addr < 0xA000 {
            self.vram[(addr - 0x8000) as usize] = val;
        } else if addr < 0xC000 {
            self.cartridge.mbc_write(addr, val);
        } else if addr < 0xE000 {
            self.ram[(addr - 0xC000) as usize] = val;
        } else if addr < 0xFE00 {
            self.ram[(addr - 0xE000) as usize] = val;
        } else if addr < 0xFEA0 {
            self.sprite[(addr - 0xFE00) as usize] = val;
        } else if addr < 0xFF00 {
            // unusable range: discard
        } else if addr == 0xFF00 {
            self.input.update(val);
        } else if addr == 0xFF01 {
            self.serial_buf.push(val);
            if self.serial_buf.len() > MAX_SERIAL_BUF_LEN {
                self.serial_buf.clear();
            }
        } else if addr <= 0xFF03 {
            // serial control: unimplemented
        } else if addr <= 0xFF07 {
            self.timer.write(addr, val);
        } else if addr == 0xFF46 {
            self.dma(val);
        } else if addr <= 0xFF4B {
            self.io[(addr - 0xFF00) as usize] = val;
        } else if addr <= 0xFF7F {
            // speed switch and undocumented registers: discard
        } else {
            self.highram[(addr - 0xFF80) as usize] = val;
        }
    }

    /// Write a little-endian 16-bit word; see `mem_write16`.
    pub fn set16(&mut self, addr: u16, val: u16)
        requires
            old(self).wf(),
        ensures
            final(self).wf(),
            final(self)@ == mem_write16(old(self)@, addr, val),
    {
        let low: u8 = (val % 256) as u8;
        let high: u8 = (val / 256) as u8;

        self.set(addr, low);
        self.set(addr.wrapping_add(1), high);
    }

    /// The synchronous 160-byte OAM transfer triggered by a write to 0xFF46.
    fn dma(&mut self, val: u8)
        requires
            old(self).wf(),
        ensures
            final(self).wf(),
            final(self)@ == (MemView { sprite: dma_copy(old(self)@, val), ..old(self)@ }),
    {
        let src: u16 = (val as u16) * 256;
        let mut i: u16 = 0;
        while i < 160
            invariant
                i <= 160,
                src == val as u16 * 256,
                self.wf(),
                self@ == (MemView { sprite: self@.sprite, ..old(self)@ }),
                forall|k: int| 0 <= k < i ==> self@.sprite[k] == mem_read(old(self)@, (src + k) as u16),
                forall|k: int| i <= k < 160 ==> self@.sprite[k] == old(self)@.sprite[k],
            decreases 160 - i,
        {
            let b = self.get(src + i);
            proof {
                assert(mem_read(self@, (src + i) as u16) == mem_read(old(self)@, (src + i) as u16));
            }
            self.sprite[i as usize] = b;
            i = i + 1;
        }
        proof {
            assert(self@.sprite =~= dma_copy(old(self)@, val));
            assert(self@ =~= (MemView { sprite: dma_copy(old(self)@, val), ..old(self)@ }));
        }
    }

    /// The live button matrix, for the host to feed key transitions into.
    pub fn input(&mut self) -> (r: &mut Input)
        ensures
            *r == old(self).input,
            *final(self) == (Memory { input: *final(r), ..*old(self) }),
    {
        &mut self.input
    }

    /// Advance the timer block and request a Timer interrupt when it asks
    /// for one.
    pub fn tick_timer(&mut self, cycles: u8)
        requires
            old(self).wf(),
        ensures
            final(self).wf(),
            final(self)@ == tick_timer_spec(old(self)@, cycles),
    {
        if self.timer.tick(cycles) {
            crate::interrupt::set_interrupt(crate::interrupt::Interrupt::Timer, self);
        }
    }

    /// A copy of `len` successive bytes as the bus observes them, the
    /// address wrapping at the top of the space.
    pub fn clone_bytes(&self, start: u16, len: u16) -> (r: Vec<u8>)
        requires
            self.wf(),
        ensures
            r@.len() == len,
            forall|i: int|
                0 <= i < len ==> r@[i] == mem_read(self@, start.wrapping_add(i as u16)),
    {
        let mut bytes: Vec<u8> = Vec::new();
        let mut k: u16 = 0;
        while k < len
            invariant
                self.wf(),
                k <= len,
                bytes@.len() == k,
                forall|i: int|
                    0 <= i < k ==> bytes@[i] == mem_read(self@, start.wrapping_add(i as u16)),
            decreases len - k,
        {
            bytes.push(self.get(start.wrapping_add(k)));
            k = k + 1;
        }
        bytes
    }

    /// The serial diagnostic buffer accumulated from writes to 0xFF01.
    pub fn serial_buffer(&self) -> (r: &Vec<u8>)
        ensures
            r@ == self@.serial,
    {
        &self.serial_buf
    }
}

// ---------------------------------------------------------------------------
// laws of the fabric
// ---------------------------------------------------------------------------
/// Addresses whose writes land bit-exact in a RAM buffer: VRAM, work RAM
/// with its echo mirror, OAM, and high RAM.
pub open spec fn plain_ram(a: u16) -> bool {
    (0x8000 <= a < 0xA000) || (0xC000 <= a < 0xFEA0) || 0xFF80 <= a
}

/// The cell an address reaches, the echo range folded onto work RAM.
pub open spec fn canon(a: u16) -> u16 {
    if 0xE000 <= a < 0xFE00 {
        (a - 0x2000) as u16
    } else {
        a
    }
}

/// Law (read after write): a byte written to a plain RAM address reads back
/// bit-exact, both at the address itself and at its echo alias; every other
/// address observes the same byte as before, and the fabric stays
/// well-formed.
pub proof fn lemma_plain_write(v: MemView, a: u16, val: u8, b: u16)
    requires
        v.wf(),
        plain_ram(a),
    ensures
        mem_write(v, a, val).wf(),
        canon(b) == canon(a) ==> mem_read(mem_write(v, a, val), b) == val,
        canon(b) != canon(a) ==> mem_read(mem_write(v, a, val), b) == mem_read(v, b),
{
}

/// Law (echo RAM): for any offset below 0x1E00, a byte written through
/// 0xC000+k reads back through 0xE000+k, and symmetrically.
pub proof fn lemma_echo_ram(v: MemView, k: u16, val: u8)
    requires
        v.wf(),
        k < 0x1E00,
    ensures
        mem_read(mem_write(v, (0xC000 + k) as u16, val), (0xE000 + k) as u16) == val,
        mem_read(mem_write(v, (0xE000 + k) as u16, val), (0xC000 + k) as u16) == val,
{
    lemma_plain_write(v, (0xC000 + k) as u16, val, (0xE000 + k) as u16);
    lemma_plain_write(v, (0xE000 + k) as u16, val, (0xC000 + k) as u16);
}

/// Law (16-bit read after write): a little-endian word written to two
/// plain RAM addresses reads back bit-exact, and the rest of the fabric is
/// untouched.
pub proof fn lemma_read16_after_write16(v: MemView, addr: u16, val: u16, b: u16)
    requires
        v.wf(),
        plain_ram(addr),
        plain_ram(addr.wrapping_add(1)),
    ensures
        mem_write16(v, addr, val).wf(),
        mem_read16(mem_write16(v, addr, val), addr) == val,
        canon(b) != canon(addr) && canon(b) != canon(addr.wrapping_add(1)) ==> mem_read(
            mem_write16(v, addr, val),
            b,
        ) == mem_read(v, b),
{
    let lo = (val % 256) as u8;
    let hi = (val / 256) as u8;
    let a2 = addr.wrapping_add(1);
    let v1 = mem_write(v, addr, lo);
    assert(canon(a2) != canon(addr));
    lemma_plain_write(v, addr, lo, addr);
    lemma_plain_write(v, addr, lo, a2);
    lemma_plain_write(v, addr, lo, b);
    lemma_plain_write(v1, a2, hi, addr);
    lemma_plain_write(v1, a2, hi, a2);
    lemma_plain_write(v1, a2, hi, b);
    assert(val == 256 * (val / 256) + val % 256) by {
        vstd::arithmetic::div_mod::lemma_fundamental_div_mod(val as int, 256);
    }
}

} // verus!
