//! Memory bank controllers: the cartridge header picks the variant, register
//! writes into `0000-7FFF` steer ROM/RAM banking, and reads in `4000-7FFF`
//! and `A000-BFFF` translate through the current bank.

use vstd::prelude::*;

verus! {

#[derive(Clone, Copy, PartialEq, Eq, Structural)]
pub enum MbcKind {
    Rom,
    Mbc1,
    Mbc2,
    Mbc3,
    Mbc5,
}

/// The variant the cartridge-type byte at `0147` declares, if supported.
pub open spec fn kind_of_s(code: u8) -> Option<MbcKind> {
    if code == 0x00 {
        Some(MbcKind::Rom)
    } else if 0x01 <= code <= 0x03 {
        Some(MbcKind::Mbc1)
    } else if 0x05 <= code <= 0x06 {
        Some(MbcKind::Mbc2)
    } else if 0x0f <= code <= 0x13 {
        Some(MbcKind::Mbc3)
    } else if 0x19 <= code <= 0x1e {
        Some(MbcKind::Mbc5)
    } else {
        None
    }
}

/// Cartridge RAM size in bytes, from the header byte at `0149`.
pub open spec fn ram_size_s(code: u8) -> int {
    if code == 1 {
        0x800
    } else if code == 2 {
        0x2000
    } else if code == 3 {
        0x8000
    } else if code == 4 {
        0x20000
    } else if code == 5 {
        0x10000
    } else {
        0
    }
}

/// ROM size in bytes that the header byte at `0148` declares.
pub open spec fn rom_size_s(code: u8) -> int {
    0x8000 * (if code == 0 { 1int } else if code == 1 { 2int } else if code == 2 { 4int }
        else if code == 3 { 8int } else if code == 4 { 16int } else if code == 5 { 32int }
        else if code == 6 { 64int } else if code == 7 { 128int } else { 256int })
}

/// A ROM image the core accepts: long enough to hold the header, of a known
/// cartridge type, and at least as long as its header declares.
pub open spec fn rom_ok(rom: Seq<u8>) -> bool {
    &&& rom.len() >= 0x8000
    &&& kind_of_s(rom[0x147]) is Some
    &&& rom[0x148] <= 8
    &&& rom.len() >= rom_size_s(rom[0x148])
}

/// Whether the core can run this image; `Mbc::new` and `System::new` ask for
/// exactly this.
pub fn rom_supported(rom: &[u8]) -> (r: bool)
    ensures
        r == rom_ok(rom@),
{
    if rom.len() < 0x8000 {
        return false;
    }
    let code: u8 = rom[0x147];
    let known: bool = code == 0x00 || (0x01 <= code && code <= 0x03)
        || (0x05 <= code && code <= 0x06) || (0x0f <= code && code <= 0x13)
        || (0x19 <= code && code <= 0x1e);
    if !known {
        return false;
    }
    let sz: u8 = rom[0x148];
    if sz > 8 {
        return false;
    }
    let declared: usize = 0x8000usize * (if sz == 0 { 1usize } else if sz == 1 { 2 }
        else if sz == 2 { 4 } else if sz == 3 { 8 } else if sz == 4 { 16 }
        else if sz == 5 { 32 } else if sz == 6 { 64 } else if sz == 7 { 128 } else { 256 });
    rom.len() >= declared
}

/// MBC1 bank-0 remap: writing 0 to the ROM-bank register (`2000-3FFF`)
/// selects low bank 1, never bank 0 — the switched region reads through
/// `hi * 32 + 1`, which is ROM bank 1 itself while the upper-bank register
/// holds its reset value.
pub proof fn lemma_mbc1_bank_zero_remap(m: Mbc, addr: u16, k: u16)
    requires
        m.wf(),
        m.kind is Mbc1,
        0x2000 <= addr < 0x4000,
        0x4000 <= k < 0x8000,
    ensures
        m.spec_write(addr, 0).rom_bank() == m.bank_hi % 4 * 32 + 1,
        m.bank_hi % 4 == 0 ==> m.spec_write(addr, 0).spec_read(k)
            == m.rom@[(0x4000 + (k - 0x4000)) % (m.rom@.len() as int)],
{
}

pub struct Mbc {
    pub kind: MbcKind,
    /// The whole cartridge ROM.
    pub rom: Vec<u8>,
    /// Battery-backed cartridge RAM (possibly empty).
    pub ram: Vec<u8>,
    pub ram_enable: bool,
    /// Low ROM-bank register (already remapped away from 0 where the variant
    /// asks for it).
    pub bank_lo: u8,
    /// Upper ROM-bank bits (MBC1: two bits, MBC5: ninth bit).
    pub bank_hi: u8,
    /// RAM-bank register.
    pub ram_bank: u8,
    /// MBC1 banking-mode bit.
    pub mode: bool,
}

impl Mbc {
    pub open spec fn wf(self) -> bool {
        self.rom@.len() >= 0x8000
    }

    /// The ROM bank that `4000-7FFF` reads go through.
    pub open spec fn rom_bank(self) -> int {
        if self.kind is Mbc1 {
            self.bank_hi % 4 * 32 + self.bank_lo
        } else if self.kind is Mbc5 {
            self.bank_hi % 2 * 256 + self.bank_lo
        } else if self.kind is Rom {
            1
        } else {
            self.bank_lo as int
        }
    }

    /// The RAM bank that `A000-BFFF` accesses go through.
    pub open spec fn eff_ram_bank(self) -> int {
        if self.kind is Mbc1 {
            if self.mode { (self.bank_hi % 4) as int } else { 0 }
        } else {
            self.ram_bank as int
        }
    }

    /// Byte offset into the cartridge RAM for an `A000-BFFF` access.
    pub open spec fn ram_index(self, addr: u16) -> int
        recommends
            self.ram@.len() > 0,
    {
        (self.eff_ram_bank() * 0x2000 + (addr - 0xa000)) % (self.ram@.len() as int)
    }

    /// Construct from a ROM image and the battery RAM to adopt.
    pub fn new(rom: Vec<u8>, ram: Vec<u8>) -> (r: Mbc)
        requires
            rom_ok(rom@),
        ensures
            r.wf(),
            r.kind == kind_of_s(rom@[0x147]).unwrap(),
            r.rom == rom,
            r.ram == ram,
            !r.ram_enable,
            r.bank_lo == 1 && r.bank_hi == 0 && r.ram_bank == 0 && !r.mode,
    {
        let code: u8 = rom[0x147];
        let kind: MbcKind = if code == 0x00 {
            MbcKind::Rom
        } else if 0x01 <= code && code <= 0x03 {
            MbcKind::Mbc1
        } else if 0x05 <= code && code <= 0x06 {
            MbcKind::Mbc2
        } else if 0x0f <= code && code <= 0x13 {
            MbcKind::Mbc3
        } else {
            MbcKind::Mbc5
        };
        Mbc {
            kind,
            rom,
            ram,
            ram_enable: false,
            bank_lo: 1,
            bank_hi: 0,
            ram_bank: 0,
            mode: false,
        }
    }

    /// What a read of `0000-7FFF` or `A000-BFFF` returns: bank 0 below
    /// `4000`, the switched bank above it, cartridge RAM (or `FF` when
    /// disabled or absent) in `A000-BFFF`.
    pub open spec fn spec_read(self, addr: u16) -> u8
        recommends
            self.wf(),
    {
        if addr < 0x4000 {
            self.rom@[addr as int]
        } else if addr < 0x8000 {
            self.rom@[(self.rom_bank() * 0x4000 + (addr - 0x4000)) % (self.rom@.len() as int)]
        } else {
            if !self.ram_enable || self.ram@.len() == 0 {
                0xff
            } else if self.kind is Mbc3 && self.ram_bank >= 4 {
                0xff
            } else if self.kind is Mbc2 {
                (self.ram@[self.ram_index(addr)] % 16 + 0xf0) as u8
            } else {
                self.ram@[self.ram_index(addr)]
            }
        }
    }

    pub fn on_read(&self, addr: u16) -> (r: u8)
        requires
            self.wf(),
            addr < 0x8000 || (0xa000 <= addr && addr < 0xc000),
        ensures
            r == self.spec_read(addr),
    {
        if addr < 0x4000 {
            self.rom[addr as usize]
        } else if addr < 0x8000 {
            let bank: usize = if matches!(self.kind, MbcKind::Mbc1) {
                (self.bank_hi % 4) as usize * 32 + self.bank_lo as usize
            } else if matches!(self.kind, MbcKind::Mbc5) {
                (self.bank_hi % 2) as usize * 256 + self.bank_lo as usize
            } else if matches!(self.kind, MbcKind::Rom) {
                1
            } else {
                self.bank_lo as usize
            };
            self.rom[(bank * 0x4000 + (addr as usize - 0x4000)) % self.rom.len()]
        } else {
            if !self.ram_enable || self.ram.len() == 0 {
                0xff
            } else if matches!(self.kind, MbcKind::Mbc3) && self.ram_bank >= 4 {
                0xff
            } else {
                let bank: usize = if matches!(self.kind, MbcKind::Mbc1) {
                    if self.mode { (self.bank_hi % 4) as usize } else { 0 }
                } else {
                    self.ram_bank as usize
                };
                let idx: usize = (bank * 0x2000 + (addr as usize - 0xa000)) % self.ram.len();
                let b: u8 = self.ram[idx];
                if matches!(self.kind, MbcKind::Mbc2) {
                    b % 16 + 0xf0
                } else {
                    b
                }
            }
        }
    }

    /// The banking-register decode, per variant. A write into `A000-BFFF`
    /// stores into the current RAM bank when RAM is enabled and present.
    pub open spec fn spec_write(self, addr: u16, v: u8) -> Mbc
        recommends
            self.wf(),
    {
        if addr < 0x2000 {
            if self.kind is Mbc2 {
                if addr % 2 == 0 { Mbc { ram_enable: v % 16 == 0x0a, ..self } } else { self }
            } else {
                Mbc { ram_enable: v % 16 == 0x0a, ..self }
            }
        } else if addr < 0x4000 {
            if self.kind is Mbc1 {
                let lo = v % 32;
                Mbc { bank_lo: if lo == 0 { 1 } else { lo }, ..self }
            } else if self.kind is Mbc2 {
                if addr % 2 == 0 {
                    let lo = v % 16;
                    Mbc { bank_lo: if lo == 0 { 1 } else { lo }, ..self }
                } else {
                    self
                }
            } else if self.kind is Mbc3 {
                let lo = v % 128;
                Mbc { bank_lo: if lo == 0 { 1 } else { lo }, ..self }
            } else if self.kind is Mbc5 {
                if addr < 0x3000 {
                    Mbc { bank_lo: v, ..self }
                } else {
                    Mbc { bank_hi: (v % 2) as u8, ..self }
                }
            } else {
                self
            }
        } else if addr < 0x6000 {
            if self.kind is Mbc1 {
                Mbc { bank_hi: (v % 4) as u8, ..self }
            } else if self.kind is Mbc3 || self.kind is Mbc5 {
                Mbc { ram_bank: (v % 16) as u8, ..self }
            } else {
                self
            }
        } else if addr < 0x8000 {
            if self.kind is Mbc1 {
                Mbc { mode: v % 2 == 1, ..self }
            } else {
                self
            }
        } else {
            self
        }
    }

    /// The view of the cartridge RAM after a write into `A000-BFFF`: the
    /// addressed cell of the current bank is replaced when RAM is enabled
    /// and present, and nothing happens otherwise.
    pub open spec fn ram_write_view(self, addr: u16, v: u8) -> Seq<u8>
        recommends
            0xa000 <= addr < 0xc000,
    {
        if !self.ram_enable || self.ram@.len() == 0 {
            self.ram@
        } else if self.kind is Mbc3 && self.ram_bank >= 4 {
            self.ram@
        } else {
            let b = if self.kind is Mbc2 { (v % 16) as u8 } else { v };
            self.ram@.update(self.ram_index(addr), b)
        }
    }

    pub fn on_write(&mut self, addr: u16, v: u8)
        requires
            old(self).wf(),
            addr < 0x8000 || (0xa000 <= addr && addr < 0xc000),
        ensures
            final(self).wf(),
            final(self).rom == old(self).rom,
            final(self).ram@.len() == old(self).ram@.len(),
            addr < 0x8000 ==> *final(self) == old(self).spec_write(addr, v),
            0xa000 <= addr ==> *final(self) == (Mbc { ram: final(self).ram, ..*old(self) })
                && final(self).ram@ == old(self).ram_write_view(addr, v),
    {
        if addr < 0x2000 {
            if matches!(self.kind, MbcKind::Mbc2) {
                if addr % 2 == 0 {
                    self.ram_enable = v % 16 == 0x0a;
                }
            } else {
                self.ram_enable = v % 16 == 0x0a;
            }
        } else if addr < 0x4000 {
            if matches!(self.kind, MbcKind::Mbc1) {
                let lo: u8 = v % 32;
                self.bank_lo = if lo == 0 { 1 } else { lo };
            } else if matches!(self.kind, MbcKind::Mbc2) {
                if addr % 2 == 0 {
                    let lo: u8 = v % 16;
                    self.bank_lo = if lo == 0 { 1 } else { lo };
                }
            } else if matches!(self.kind, MbcKind::Mbc3) {
                let lo: u8 = v % 128;
                self.bank_lo = if lo == 0 { 1 } else { lo };
            } else if matches!(self.kind, MbcKind::Mbc5) {
                if addr < 0x3000 {
                    self.bank_lo = v;
                } else {
                    self.bank_hi = v % 2;
                }
            }
        } else if addr < 0x6000 {
            if matches!(self.kind, MbcKind::Mbc1) {
                self.bank_hi = v % 4;
            } else if matches!(self.kind, MbcKind::Mbc3) || matches!(self.kind, MbcKind::Mbc5) {
                self.ram_bank = v % 16;
            }
        } else if addr < 0x8000 {
            if matches!(self.kind, MbcKind::Mbc1) {
                self.mode = v % 2 == 1;
            }
        } else {
            if self.ram_enable && self.ram.len() > 0
                && !(matches!(self.kind, MbcKind::Mbc3) && self.ram_bank >= 4) {
                let bank: usize = if matches!(self.kind, MbcKind::Mbc1) {
                    if self.mode { (self.bank_hi % 4) as usize } else { 0 }
                } else {
                    self.ram_bank as usize
                };
                let idx: usize = (bank * 0x2000 + (addr as usize - 0xa000)) % self.ram.len();
                let b: u8 = if matches!(self.kind, MbcKind::Mbc2) { v % 16 } else { v };
                self.ram.set(idx, b);
            }
        }
    }
}

} // verus!
