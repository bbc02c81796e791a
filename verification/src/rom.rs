//! The cartridge: ROM image, optional cartridge RAM, and the memory-bank
//! controller that interprets writes into the ROM address range as
//! bank-switch and RAM-enable commands.

use vstd::prelude::*;
use vstd::string::StringExecFns;

verus! {

#[derive(Clone, Copy, Debug)]
pub enum MbcType {
    NoMbc,
    Mbc1 { rom_bank: u8, ram_bank: Option<u8> },
    Mbc3 { rom_bank: u8, ram_bank: Option<u8> },
}

pub struct Cartridge {
    pub game_title: String,
    pub mbc_type: MbcType,
    pub rom_size: u8,
    pub ram_size: u8,
    pub rom_contents: Vec<u8>,
    pub ram: Vec<u8>,
}

/// The cartridge as mathematics: the byte images and the controller state.
pub struct CartView {
    pub title: Seq<char>,
    pub mbc: MbcType,
    pub rom_size: u8,
    pub ram_size: u8,
    pub rom: Seq<u8>,
    pub ram: Seq<u8>,
}

impl View for Cartridge {
    type V = CartView;

    open spec fn view(&self) -> CartView {
        CartView {
            title: self.game_title@,
            mbc: self.mbc_type,
            rom_size: self.rom_size,
            ram_size: self.ram_size,
            rom: self.rom_contents@,
            ram: self.ram@,
        }
    }
}

/// The switchable-bank index; a controller holding no explicit bank reads bank 1.
pub open spec fn rom_bank_of(m: MbcType) -> int {
    match m {
        MbcType::NoMbc => 1,
        MbcType::Mbc1 { rom_bank, .. } => rom_bank as int,
        MbcType::Mbc3 { rom_bank, .. } => rom_bank as int,
    }
}

/// The cartridge-RAM bank; `None` means cartridge RAM is disabled.
pub open spec fn ram_bank_of(m: MbcType) -> Option<u8> {
    match m {
        MbcType::NoMbc => Some(0u8),
        MbcType::Mbc1 { ram_bank, .. } => ram_bank,
        MbcType::Mbc3 { ram_bank, .. } => ram_bank,
    }
}

/// The controller tag for a cartridge-type header byte.
pub open spec fn mbc_from_byte(n: u8) -> MbcType {
    if n == 0x00 {
        MbcType::NoMbc
    } else if 0x01 <= n <= 0x03 {
        MbcType::Mbc1 { rom_bank: 1u8, ram_bank: None }
    } else {
        MbcType::Mbc3 { rom_bank: 1u8, ram_bank: None }
    }
}

pub open spec fn supported_cartridge_type(n: u8) -> bool {
    n == 0x00 || (0x01 <= n <= 0x03) || (0x0F <= n <= 0x13)
}

/// Cartridge RAM bytes allocated for a RAM-size header byte.
pub open spec fn ram_len_for(ram_size: u8) -> int {
    if ram_size == 0x01 {
        2048int
    } else if ram_size == 0x03 {
        32768int
    } else {
        8192int
    }
}

impl CartView {
    /// A read decoded by the controller; out-of-image or disabled-RAM reads
    /// yield the quiet zero byte.
    pub open spec fn read(self, addr: u16) -> u8 {
        if addr < 0x4000 {
            if addr < self.rom.len() {
                self.rom[addr as int]
            } else {
                0
            }
        } else if addr < 0x8000 {
            let off = rom_bank_of(self.mbc) * 0x4000 + (addr - 0x4000);
            if off < self.rom.len() {
                self.rom[off]
            } else {
                0
            }
        } else if 0xA000 <= addr < 0xC000 {
            match ram_bank_of(self.mbc) {
                Some(b) => {
                    let off = b * 0x2000 + (addr - 0xA000);
                    if off < self.ram.len() {
                        self.ram[off]
                    } else {
                        0
                    }
                },
                None => 0,
            }
        } else {
            0
        }
    }

    /// A write decoded by the controller: bank-switch and RAM-enable commands
    /// in the ROM range, data stores into enabled cartridge RAM; the ROM
    /// image itself is never mutated.
    pub open spec fn write(self, addr: u16, val: u8) -> CartView {
        match self.mbc {
            MbcType::NoMbc => self,
            MbcType::Mbc1 { rom_bank, ram_bank } => {
                if addr < 0x2000 {
                    if val & 0x0F == 0x0A {
                        CartView { mbc: MbcType::Mbc1 { rom_bank, ram_bank: Some(0u8) }, ..self }
                    } else {
                        CartView { mbc: MbcType::Mbc1 { rom_bank, ram_bank: None }, ..self }
                    }
                } else if addr < 0x4000 {
                    let low = if val & 0x1F == 0 {
                        1u8
                    } else {
                        val & 0x1F
                    };
                    let bank = (rom_bank & 0x60) | low;
                    CartView { mbc: MbcType::Mbc1 { rom_bank: bank, ram_bank }, ..self }
                } else if addr < 0x6000 {
                    CartView { mbc: MbcType::Mbc1 { rom_bank, ram_bank: Some((val & 0x03) as u8) }, ..self }
                } else if 0xA000 <= addr < 0xC000 {
                    self.ram_store(addr, val)
                } else {
                    self
                }
            },
            MbcType::Mbc3 { rom_bank, ram_bank } => {
                if addr < 0x2000 {
                    if val & 0x0F == 0x0A {
                        CartView { mbc: MbcType::Mbc3 { rom_bank, ram_bank: Some(1u8) }, ..self }
                    } else {
                        CartView { mbc: MbcType::Mbc3 { rom_bank, ram_bank: None }, ..self }
                    }
                } else if addr < 0x4000 {
                    let bank = if val & 0x7F == 0 {
                        1u8
                    } else {
                        val & 0x7F
                    };
                    CartView { mbc: MbcType::Mbc3 { rom_bank: bank, ram_bank }, ..self }
                } else if addr < 0x6000 {
                    CartView { mbc: MbcType::Mbc3 { rom_bank, ram_bank: Some((val & 0x03) as u8) }, ..self }
                } else if 0xA000 <= addr < 0xC000 {
                    self.ram_store(addr, val)
                } else {
                    self
                }
            },
        }
    }

    /// A data store into cartridge RAM; discarded while RAM is disabled or
    /// when the banked offset falls outside the allocated RAM.
    pub open spec fn ram_store(self, addr: u16, val: u8) -> CartView {
        match ram_bank_of(self.mbc) {
            Some(b) => {
                let off = b * 0x2000 + (addr - 0xA000);
                if off < self.ram.len() {
                    CartView { ram: self.ram.update(off, val), ..self }
                } else {
                    self
                }
            },
            None => self,
        }
    }
}

/// A ROM image holds at least the cartridge header.
pub open spec fn rom_has_header(rom: Seq<u8>) -> bool {
    rom.len() >= 0x014A
}

/// The title bytes: 0x0134..0x0144, cut at the first NUL.
pub open spec fn title_bytes(rom: Seq<u8>) -> Seq<u8> {
    let region = rom.subrange(0x0134, 0x0144);
    let cut = first_nul(region, 0);
    region.take(cut)
}

/// Index of the first NUL at or after `i`, or the length when none.
pub open spec fn first_nul(s: Seq<u8>, i: int) -> int
    decreases s.len() - i,
{
    if i < 0 || i >= s.len() {
        s.len() as int
    } else if s[i] == 0 {
        i
    } else {
        first_nul(s, i + 1)
    }
}

/// Relies on core::str::from_utf8: an ASCII byte sequence is valid UTF-8 and
/// decodes to the identical characters, one per byte.
#[verifier::external_body]
fn utf8_to_string(bytes: &Vec<u8>) -> (r: Option<String>)
    ensures
        (forall|i: int| 0 <= i < bytes@.len() ==> bytes@[i] < 0x80) ==> {
            &&& r is Some
            &&& r.unwrap()@.len() == bytes@.len()
            &&& forall|i: int|
                0 <= i < bytes@.len() ==> (r.unwrap()@[i] as u32) == (bytes@[i] as u32)
        },
{
    match core::str::from_utf8(bytes.as_slice()) {
        Ok(s) => Some(String::from_str(s)),
        Err(_) => None,
    }
}

impl Cartridge {
    /// Construct the cartridge from a ROM image: decode the header's title,
    /// controller type and RAM size, and allocate zeroed cartridge RAM.
    pub fn load_rom(rom_contents: Vec<u8>) -> (r: Cartridge)
        requires
            rom_has_header(rom_contents@),
            supported_cartridge_type(rom_contents@[0x0147]),
        ensures
            r@.rom == rom_contents@,
            r@.mbc == mbc_from_byte(rom_contents@[0x0147]),
            r@.rom_size == rom_contents@[0x0148],
            r@.ram_size == rom_contents@[0x0149],
            r@.ram.len() == ram_len_for(rom_contents@[0x0149]),
            forall|i: int| 0 <= i < r@.ram.len() ==> r@.ram[i] == 0u8,
            (forall|i: int|
                0 <= i < title_bytes(rom_contents@).len() ==> title_bytes(rom_contents@)[i]
                    < 0x80) ==> {
                &&& r@.title.len() == title_bytes(rom_contents@).len()
                &&& forall|i: int|
                    0 <= i < r@.title.len() ==> (r@.title[i] as u32) == (title_bytes(
                        rom_contents@,
                    )[i] as u32)
            },
    {
        let type_byte = rom_contents[0x0147];
        let mbc_type = if type_byte == 0x00 {
            MbcType::NoMbc
        } else if type_byte >= 0x01 && type_byte <= 0x03 {
            MbcType::Mbc1 { rom_bank: 1, ram_bank: None }
        } else {
            MbcType::Mbc3 { rom_bank: 1, ram_bank: None }
        };
        let rom_size = rom_contents[0x0148];
        let ram_size = rom_contents[0x0149];

        let ram_len: usize = if ram_size == 0x01 {
            2 * 1024
        } else if ram_size == 0x03 {
            32 * 1024
        } else {
            8 * 1024
        };
        let mut ram: Vec<u8> = Vec::new();
        let mut k: usize = 0;
        while k < ram_len
            invariant
                k <= ram_len,
                ram@.len() == k,
                forall|i: int| 0 <= i < k ==> ram@[i] == 0u8,
            decreases ram_len - k,
        {
            ram.push(0);
            k = k + 1;
        }

        // Copy out the NUL-trimmed title bytes.
        let mut tbytes: Vec<u8> = Vec::new();
        let mut j: usize = 0x0134;
        let ghost region = rom_contents@.subrange(0x0134, 0x0144);
        while j < 0x0144 && rom_contents[j] != 0
            invariant
                0x0134 <= j <= 0x0144,
                rom_has_header(rom_contents@),
                region == rom_contents@.subrange(0x0134, 0x0144),
                tbytes@.len() == j - 0x0134,
                forall|i: int| 0 <= i < tbytes@.len() ==> tbytes@[i] == region[i] && region[i] != 0,
                first_nul(region, j - 0x0134) == first_nul(region, 0),
            decreases 0x0144 - j,
        {
            proof {
                assert(rom_contents@.subrange(0x0134, 0x0144)[j - 0x0134] == rom_contents@[j as int]);
                assert(region[j - 0x0134] == rom_contents@[j as int]);
                assert(first_nul(region, j - 0x0134) == first_nul(region, j - 0x0134 + 1));
            }
            tbytes.push(rom_contents[j]);
            j = j + 1;
        }
        proof {
            if j < 0x0144 {
                assert(region[j - 0x0134] == 0);
            }
            assert(first_nul(region, j - 0x0134) == j - 0x0134) by {
                if j < 0x0144 {
                } else {
                    assert(j - 0x0134 >= region.len());
                }
            }
            assert(tbytes@ =~= title_bytes(rom_contents@));
        }

        let game_title = match utf8_to_string(&tbytes) {
            Some(s) => s,
            None => String::from_str("Empty title"),
        };

        Cartridge { game_title, mbc_type, rom_size, ram_size, rom_contents, ram }
    }

    /// A controller-decoded read; see `CartView::read`.
    pub fn mbc(&self, addr: u16) -> (r: u8)
        requires
            addr < 0x8000 || (0xA000 <= addr < 0xC000),
        ensures
            r == self@.read(addr),
    {
        if addr < 0x4000 {
            if (addr as usize) < self.rom_contents.len() {
                self.rom_contents[addr as usize]
            } else {
                0
            }
        } else if addr < 0x8000 {
            let bank: usize = match self.mbc_type {
                MbcType::NoMbc => 1,
                MbcType::Mbc1 { rom_bank, .. } => rom_bank as usize,
                MbcType::Mbc3 { rom_bank, .. } => rom_bank as usize,
            };
            let off: usize = bank * 0x4000 + (addr as usize - 0x4000);
            if off < self.rom_contents.len() {
                self.rom_contents[off]
            } else {
                0
            }
        } else {
            let bank: Option<u8> = match self.mbc_type {
                MbcType::NoMbc => Some(0),
                MbcType::Mbc1 { ram_bank, .. } => ram_bank,
                MbcType::Mbc3 { ram_bank, .. } => ram_bank,
            };
            match bank {
                Some(b) => {
                    let off: usize = (b as usize) * 0x2000 + (addr as usize - 0xA000);
                    if off < self.ram.len() {
                        self.ram[off]
                    } else {
                        0
                    }
                },
                None => 0,
            }
        }
    }

    /// A controller-decoded write; see `CartView::write`.
    pub fn mbc_write(&mut self, addr: u16, val: u8)
        requires
            addr < 0x8000 || (0xA000 <= addr < 0xC000),
        ensures
            final(self)@ == old(self)@.write(addr, val),
    {
        match self.mbc_type {
            MbcType::NoMbc => {},
            MbcType::Mbc1 { rom_bank, ram_bank } => {
                if addr < 0x2000 {
                    if val & 0x0F == 0x0A {
                        self.mbc_type = MbcType::Mbc1 { rom_bank, ram_bank: Some(0) };
                    } else {
                        self.mbc_type = MbcType::Mbc1 { rom_bank, ram_bank: None };
                    }
                } else if addr < 0x4000 {
                    let low: u8 = if val & 0x1F == 0 {
                        1
                    } else {
                        val & 0x1F
                    };
                    let bank: u8 = (rom_bank & 0x60) | low;
                    self.mbc_type = MbcType::Mbc1 { rom_bank: bank, ram_bank };
                } else if addr < 0x6000 {
                    self.mbc_type = MbcType::Mbc1 { rom_bank, ram_bank: Some(val & 0x03) };
                } else if addr >= 0xA000 {
                    self.ram_write(addr, val);
                }
            },
            MbcType::Mbc3 { rom_bank, ram_bank } => {
                if addr < 0x2000 {
                    if val & 0x0F == 0x0A {
                        self.mbc_type = MbcType::Mbc3 { rom_bank, ram_bank: Some(1) };
                    } else {
                        self.mbc_type = MbcType::Mbc3 { rom_bank, ram_bank: None };
                    }
                } else if addr < 0x4000 {
                    let bank: u8 = if val & 0x7F == 0 {
                        1
                    } else {
                        val & 0x7F
                    };
                    self.mbc_type = MbcType::Mbc3 { rom_bank: bank, ram_bank };
                } else if addr < 0x6000 {
                    self.mbc_type = MbcType::Mbc3 { rom_bank, ram_bank: Some(val & 0x03) };
                } else if addr >= 0xA000 {
                    self.ram_write(addr, val);
                }
            },
        }
    }

    /// A data store into enabled cartridge RAM; see `CartView::ram_store`.
    fn ram_write(&mut self, addr: u16, val: u8)
        requires
            0xA000 <= addr < 0xC000,
        ensures
            final(self)@ == old(self)@.ram_store(addr, val),
    {
        let bank: Option<u8> = match self.mbc_type {
            MbcType::NoMbc => Some(0),
            MbcType::Mbc1 { ram_bank, .. } => ram_bank,
            MbcType::Mbc3 { ram_bank, .. } => ram_bank,
        };
        match bank {
            Some(b) => {
                let off: usize = (b as usize) * 0x2000 + (addr as usize - 0xA000);
                if off < self.ram.len() {
                    self.ram[off] = val;
                }
            },
            None => {},
        }
    }
}

} // verus!
