use vstd::prelude::*;

verus! {

/// What a cartridge holds, as the contracts see it.
pub struct CartState {
    /// 0: no bank controller; 1: MBC1.
    pub mbc_type: u8,
    /// Lower bank register (5 bits, never 0).
    pub bank1_reg: u8,
    /// Upper bank register (2 bits).
    pub bank2_reg: u8,
    pub ram_enabled: bool,
    /// Mask applied to the bank number: the number of banks, minus one.
    pub rom_bitmask: u8,
    /// 0: ROM banking mode; 1: RAM banking mode.
    pub mbc_mode: u8,
    pub rom: Seq<u8>,
}

/// Why a ROM image cannot be loaded.
#[derive(Clone, Copy, PartialEq, Eq, Structural, Debug)]
pub enum RomError {
    /// The image is shorter than its header.
    TruncatedHeader,
    /// The header's ROM-size byte names no size that exists.
    UnsupportedRomSize { code: u8 },
}

/// Length of the header that every image carries.
pub const HEADER_LEN: usize = 0x14F;

/// Size in bytes of the ROM that a header size code declares: 32 KiB doubled
/// `code` times.
pub open spec fn rom_size_for(code: u8) -> int {
    0x8000 * match code {
        0 => 1int,
        1 => 2,
        2 => 4,
        3 => 8,
        4 => 16,
        5 => 32,
        6 => 64,
        7 => 128,
        _ => 256,
    }
}

/// The bank mask for a size code: the number of 16 KiB banks minus one, at
/// most the seven bits that the bank registers can form.
pub open spec fn rom_mask_for(code: u8) -> u8 {
    match code {
        0 => 1u8,
        1 => 3,
        2 => 7,
        3 => 15,
        4 => 31,
        5 => 63,
        _ => 127,
    }
}

/// The controller kind named by the header's cartridge-type byte.
pub open spec fn mbc_for(kind: u8) -> u8 {
    if 1 <= kind <= 3 {
        1
    } else {
        0
    }
}

impl CartState {
    pub open spec fn wf(self) -> bool {
        &&& self.rom.len() >= 0x8000
        &&& (self.rom_bitmask as int + 1) * 0x4000 <= self.rom.len()
        &&& (self.mbc_type == 0 || self.mbc_type == 1)
        &&& self.rom_bitmask % 2 == 1
    }

    /// The upper two bank bits in effect: the upper register in ROM banking
    /// mode, none in RAM banking mode.
    pub open spec fn upper_bits(self) -> u8 {
        if self.mbc_mode == 0 {
            self.bank2_reg
        } else {
            0
        }
    }

    /// The bank mapped at 0x4000-0x7FFF under MBC1.
    pub open spec fn rom_bank(self) -> u8 {
        ((self.upper_bits() << 5) | self.bank1_reg) & self.rom_bitmask
    }

    /// The byte read at `loc`: without a controller the ROM byte there; under
    /// MBC1 bank 0 below 0x4000, the selected bank up to 0x7FFF, and 1 above,
    /// where cartridge RAM is not modelled.
    pub open spec fn read(self, loc: u16) -> u8 {
        if self.mbc_type == 0 || loc <= 0x3FFF {
            self.rom[loc as int]
        } else if loc <= 0x7FFF {
            self.rom[self.rom_bank() as int * 0x4000 + (loc as int - 0x4000)]
        } else {
            1
        }
    }

    /// The state after a write of `val` at `loc` (0x0000-0x7FFF).
    pub open spec fn write(self, loc: u16, val: u8) -> CartState {
        if self.mbc_type == 0 {
            self
        } else if loc <= 0x1FFF {
            CartState { ram_enabled: val & 0x0F == 0x0A, ..self }
        } else if loc <= 0x3FFF {
            CartState { bank1_reg: if val & 0x1F == 0 { 1 } else { val & 0x1F }, ..self }
        } else if loc <= 0x5FFF {
            if self.mbc_mode == 0 {
                CartState { bank2_reg: val & 0x03, ..self }
            } else {
                self
            }
        } else {
            CartState { mbc_mode: val & 0x01, ..self }
        }
    }
}

proof fn lemma_and_le(x: u8, m: u8)
    by (bit_vector)
    ensures
        x & m <= m,
{
}

/// A write of a value whose low five bits are 0 to the bank-select range of
/// an MBC1 cartridge selects bank 1: the lower bank register becomes 1, and
/// with no upper bits in effect 0x4000-0x7FFF reads bank 1.
pub proof fn lemma_bank_zero_selects_one(c: CartState, loc: u16, val: u8)
    requires
        c.wf(),
        c.mbc_type == 1,
        0x2000 <= loc <= 0x3FFF,
        val & 0x1F == 0,
    ensures
        c.write(loc, val).bank1_reg == 1,
        c.write(loc, val).upper_bits() == 0 ==> c.write(loc, val).rom_bank() == 1,
        c.write(loc, val).upper_bits() == 0 ==> forall|a: u16|
            0x4000 <= a <= 0x7FFF ==> #[trigger] c.write(loc, val).read(a) == c.rom[a as int],
{
    let m = c.rom_bitmask;
    assert(((0u8 << 5) | 1u8) & m == 1) by (bit_vector)
        requires
            m % 2 == 1,
    ;
}

/// A game cartridge: the ROM image and the MBC1 bank-control registers.
///
/// The ROM size comes from header byte 0x148 as 32 KiB doubled that many
/// times, the usual encoding of the format; the bank mask follows from it, so
/// that every bank the registers can select lies inside the image.
pub struct Cartridge {
    mbc_type: u8,
    bank1_reg: u8,
    bank2_reg: u8,
    ram_enabled: bool,
    rom_bitmask: u8,
    mbc_mode: u8,
    storage: Vec<u8>,
}

impl View for Cartridge {
    type V = CartState;

    closed spec fn view(&self) -> CartState {
        CartState {
            mbc_type: self.mbc_type,
            bank1_reg: self.bank1_reg,
            bank2_reg: self.bank2_reg,
            ram_enabled: self.ram_enabled,
            rom_bitmask: self.rom_bitmask,
            mbc_mode: self.mbc_mode,
            rom: self.storage@,
        }
    }
}

impl Cartridge {
    /// Builds a cartridge from a ROM image. The ROM is sized from the header;
    /// image bytes past that size are ignored and missing ones read as 0.
    pub fn new(image: &Vec<u8>) -> (r: Result<Cartridge, RomError>)
        ensures
            image.len() < HEADER_LEN ==> r == Err::<Cartridge, RomError>(RomError::TruncatedHeader),
            image.len() >= HEADER_LEN && image@[0x148] > 8 ==> r == Err::<Cartridge, RomError>(
                RomError::UnsupportedRomSize { code: image@[0x148] },
            ),
            image.len() >= HEADER_LEN && image@[0x148] <= 8 ==> r is Ok,
            r matches Ok(c) ==> {
                &&& c@.wf()
                &&& c@.mbc_type == mbc_for(image@[0x147])
                &&& c@.bank1_reg == 1
                &&& c@.bank2_reg == 0
                &&& !c@.ram_enabled
                &&& c@.mbc_mode == 0
                &&& c@.rom_bitmask == rom_mask_for(image@[0x148])
                &&& c@.rom.len() == rom_size_for(image@[0x148])
                &&& forall|i: int|
                    0 <= i < c@.rom.len() ==> #[trigger] c@.rom[i] == if i < image.len() {
                        image@[i]
                    } else {
                        0
                    }
            },
    {
        if image.len() < HEADER_LEN {
            return Err(RomError::TruncatedHeader);
        }
        let code = image[0x148];
        if code > 8 {
            return Err(RomError::UnsupportedRomSize { code });
        }
        let size: usize = match code {
            0 => 0x8000,
            1 => 0x10000,
            2 => 0x20000,
            3 => 0x40000,
            4 => 0x80000,
            5 => 0x100000,
            6 => 0x200000,
            7 => 0x400000,
            _ => 0x800000,
        };
        let rom_bitmask: u8 = match code {
            0 => 1,
            1 => 3,
            2 => 7,
            3 => 15,
            4 => 31,
            5 => 63,
            _ => 127,
        };
        let kind = image[0x147];
        let mbc_type: u8 = if 1 <= kind && kind <= 3 {
            1
        } else {
            0
        };
        let mut storage: Vec<u8> = Vec::new();
        while storage.len() < size
            invariant
                storage.len() <= size,
                forall|i: int| 0 <= i < storage.len() ==> #[trigger] storage@[i] == 0,
            decreases size - storage.len(),
        {
            storage.push(0);
        }
        let mut cartridge = Cartridge {
            mbc_type,
            bank1_reg: 1,
            bank2_reg: 0,
            ram_enabled: false,
            rom_bitmask,
            mbc_mode: 0,
            storage,
        };
        cartridge.load_rom(image);
        Ok(cartridge)
    }

    /// Copies `data` into the ROM from offset 0, as far as both reach; the
    /// ROM keeps its size and the rest of its bytes.
    pub fn load_rom(&mut self, data: &Vec<u8>)
        ensures
            final(self)@ == (CartState { rom: final(self)@.rom, ..old(self)@ }),
            final(self)@.rom.len() == old(self)@.rom.len(),
            forall|i: int|
                0 <= i < old(self)@.rom.len() ==> #[trigger] final(self)@.rom[i] == if i
                    < data.len() {
                    data@[i]
                } else {
                    old(self)@.rom[i]
                },
    {
        let n = if data.len() < self.storage.len() {
            data.len()
        } else {
            self.storage.len()
        };
        let mut i: usize = 0;
        while i < n
            invariant
                n <= data.len(),
                n <= self.storage.len(),
                i <= n,
                self.storage.len() == old(self).storage.len(),
                self.mbc_type == old(self).mbc_type,
                self.bank1_reg == old(self).bank1_reg,
                self.bank2_reg == old(self).bank2_reg,
                self.ram_enabled == old(self).ram_enabled,
                self.rom_bitmask == old(self).rom_bitmask,
                self.mbc_mode == old(self).mbc_mode,
                forall|j: int|
                    0 <= j < self.storage.len() ==> #[trigger] self.storage@[j] == if j < i {
                        data@[j]
                    } else {
                        old(self).storage@[j]
                    },
            decreases n - i,
        {
            self.storage[i] = data[i];
            i = i + 1;
        }
    }

    /// A write into the cartridge's address range 0x0000-0x7FFF: under MBC1 it
    /// sets a bank-control register; without a controller it is ignored.
    pub fn write_byte(&mut self, loc: u16, val: u8)
        requires
            old(self)@.wf(),
            loc <= 0x7FFF,
        ensures
            final(self)@ == old(self)@.write(loc, val),
            final(self)@.wf(),
    {
        if self.mbc_type != 0 {
            if loc <= 0x1FFF {
                self.ram_enabled = val & 0x0F == 0x0A;
            } else if loc <= 0x3FFF {
                let low_5_bits = val & 0x1F;
                self.bank1_reg = if low_5_bits == 0 {
                    1
                } else {
                    low_5_bits
                };
            } else if loc <= 0x5FFF {
                if self.mbc_mode == 0 {
                    self.bank2_reg = val & 0x03;
                }
            } else {
                self.mbc_mode = val & 0x01;
            }
        }
    }

    /// The byte at `loc`. Without a controller `loc` must lie in the ROM.
    pub fn read_byte(&self, loc: u16) -> (r: u8)
        requires
            self@.wf(),
            self@.mbc_type == 1 || loc < self@.rom.len(),
        ensures
            r == self@.read(loc),
    {
        if self.mbc_type == 0 || loc <= 0x3FFF {
            self.storage[loc as usize]
        } else if loc > 0x7FFF {
            1
        } else {
            let upper: u8 = if self.mbc_mode == 0 {
                self.bank2_reg
            } else {
                0
            };
            let rom_bank = ((upper << 5) | self.bank1_reg) & self.rom_bitmask;
            proof {
                lemma_and_le((upper << 5) | self.bank1_reg, self.rom_bitmask);
            }
            let offset: usize = rom_bank as usize * 0x4000 + (loc - 0x4000) as usize;
            self.storage[offset]
        }
    }
}

} // verus!
