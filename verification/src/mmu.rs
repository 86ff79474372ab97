//! The memory bus: routes every byte-sized access to the peripheral that
//! owns the address, with the backing RAM behind them, and drives the OAM
//! DMA sequencer.
//!
//! The peripheral set is closed, so dispatch is a single match over the
//! memory map, with the precedence an ordered handler table would give the
//! peripherals. `spec_read` is the exact model of what a CPU read
//! returns; write contracts say per region which component changed and how.

use vstd::prelude::*;
use crate::cgb::Cgb;
use crate::dma::Dma;
use crate::gpu::Gpu;
use crate::ic::Ic;
use crate::joypad::{Joypad, joypad_read_s};
use crate::mbc::{Mbc, rom_ok};
use crate::serial::Serial;
use crate::sound::Sound;
use crate::timer::Timer;

verus! {

/// HRAM is the only memory the CPU may touch while DMA runs.
pub open spec fn is_hram(addr: u16) -> bool {
    0xff80 <= addr <= 0xfffe
}

pub struct Mmu {
    /// 64 KiB backing RAM: work RAM, HRAM, and the plain I/O backing.
    pub ram: Vec<u8>,
    pub mbc: Mbc,
    pub gpu: Gpu,
    pub timer: Timer,
    pub ic: Ic,
    pub joypad: Joypad,
    pub serial: Serial,
    pub dma: Dma,
    pub cgb: Cgb,
    pub sound: Sound,
}

impl Mmu {
    pub open spec fn wf(self) -> bool {
        &&& self.ram@.len() == 0x10000
        &&& self.mbc.wf()
        &&& self.gpu.wf()
        &&& self.serial.wf()
        &&& self.joypad.wf()
        &&& self.sound.wf()
        &&& self.dma.wf()
    }

    /// Construct the bus around a cartridge, adopting `ram` as backing RAM
    /// and `cart_ram` as the battery RAM.
    pub fn new(rom: Vec<u8>, ram: Vec<u8>, cart_ram: Vec<u8>) -> (r: Mmu)
        requires
            rom_ok(rom@),
            ram@.len() == 0x10000,
        ensures
            r.wf(),
            r.ram == ram,
            r.mbc.rom == rom,
            r.mbc.ram == cart_ram,
            !r.dma.active,
            r.ic.intf == 0 && r.ic.inte == 0,
            r.gpu.ly == 0 && r.gpu.clk == 0,
            r.timer.div == 0 && r.timer.tima == 0 && r.timer.tma == 0 && r.timer.tac == 0,
    {
        Mmu {
            ram,
            mbc: Mbc::new(rom, cart_ram),
            gpu: Gpu::new(),
            timer: Timer::new(),
            ic: Ic::new(),
            joypad: Joypad::new(),
            serial: Serial::new(),
            dma: Dma::new(),
            cgb: Cgb::new(),
            sound: Sound::new(),
        }
    }

    /// The byte behind `addr`, ignoring the DMA lock-out: the cartridge
    /// below `8000` and in `A000-BFFF`, mode-gated VRAM and OAM, work RAM
    /// with its echo, the I/O ports, HRAM, and `FF` in the holes.
    pub open spec fn spec_read_inner(self, addr: u16) -> u8
        recommends
            self.wf(),
    {
        if addr < 0x8000 {
            self.mbc.spec_read(addr)
        } else if addr < 0xa000 {
            self.gpu.spec_read_vram(addr)
        } else if addr < 0xc000 {
            self.mbc.spec_read(addr)
        } else if addr < 0xe000 {
            self.ram@[addr as int]
        } else if addr < 0xfe00 {
            self.ram@[addr - 0x2000]
        } else if addr < 0xfea0 {
            self.gpu.spec_read_oam(addr)
        } else if addr < 0xff00 {
            0xff
        } else if addr == 0xff00 {
            joypad_read_s(self.joypad)
        } else if addr <= 0xff02 {
            self.serial.spec_read(addr)
        } else if 0xff04 <= addr && addr <= 0xff07 {
            self.timer.spec_read(addr)
        } else if addr == 0xff0f {
            self.ic.intf
        } else if 0xff10 <= addr && addr <= 0xff3f {
            self.ram@[addr as int]
        } else if addr == 0xff46 {
            self.dma.spec_read()
        } else if (0xff40 <= addr && addr <= 0xff4b) || (0xff68 <= addr && addr <= 0xff6b) {
            self.gpu.spec_read_reg(addr)
        } else if addr == 0xff4d || addr == 0xff56 || addr == 0xff70 {
            self.cgb.spec_read(addr)
        } else if addr < 0xff80 {
            0xff
        } else if addr < 0xffff {
            self.ram@[addr as int]
        } else {
            self.ic.inte
        }
    }

    /// What a CPU read returns: `FF` outside HRAM while DMA runs, the
    /// mapped byte otherwise.
    pub open spec fn spec_read(self, addr: u16) -> u8
        recommends
            self.wf(),
    {
        if self.dma.active && !is_hram(addr) {
            0xff
        } else {
            self.spec_read_inner(addr)
        }
    }

    /// Read ignoring the DMA lock-out; the DMA sequencer itself reads so.
    fn read_raw(&self, addr: u16) -> (r: u8)
        requires
            self.wf(),
        ensures
            r == self.spec_read_inner(addr),
    {
        if addr < 0x8000 {
            self.mbc.on_read(addr)
        } else if addr < 0xa000 {
            self.gpu.read_vram(addr)
        } else if addr < 0xc000 {
            self.mbc.on_read(addr)
        } else if addr < 0xe000 {
            self.ram[addr as usize]
        } else if addr < 0xfe00 {
            self.ram[(addr - 0x2000) as usize]
        } else if addr < 0xfea0 {
            self.gpu.read_oam(addr)
        } else if addr < 0xff00 {
            0xff
        } else if addr == 0xff00 {
            self.joypad.on_read()
        } else if addr <= 0xff02 {
            self.serial.on_read(addr)
        } else if 0xff04 <= addr && addr <= 0xff07 {
            self.timer.on_read(addr)
        } else if addr == 0xff0f {
            self.ic.on_read(addr)
        } else if 0xff10 <= addr && addr <= 0xff3f {
            self.ram[addr as usize]
        } else if addr == 0xff46 {
            self.dma.on_read()
        } else if (0xff40 <= addr && addr <= 0xff4b) || (0xff68 <= addr && addr <= 0xff6b) {
            self.gpu.read_reg(addr)
        } else if addr == 0xff4d || addr == 0xff56 || addr == 0xff70 {
            self.cgb.on_read(addr)
        } else if addr < 0xff80 {
            0xff
        } else if addr < 0xffff {
            self.ram[addr as usize]
        } else {
            self.ic.on_read(addr)
        }
    }

    /// An 8-bit bus read.
    pub fn read8(&self, addr: u16) -> (r: u8)
        requires
            self.wf(),
        ensures
            r == self.spec_read(addr),
            self.dma.active && !is_hram(addr) ==> r == 0xff,
    {
        if self.dma.active && !(0xff80 <= addr && addr <= 0xfffe) {
            0xff
        } else {
            self.read_raw(addr)
        }
    }

    /// An 8-bit bus write. While DMA runs, writes outside HRAM are dropped.
    /// Each region's clause names the one component that absorbs the write;
    /// for plain memory the contract gives the read-back byte directly.
    pub fn write8(&mut self, addr: u16, v: u8)
        requires
            old(self).wf(),
        ensures
            final(self).wf(),
            old(self).dma.active && !is_hram(addr) ==> *final(self) == *old(self),
            !(old(self).dma.active && !is_hram(addr)) ==> {
                &&& (addr < 0x8000 ==> *final(self) == (Mmu { mbc: final(self).mbc, ..*old(self) })
                    && final(self).mbc == old(self).mbc.spec_write(addr, v))
                &&& (0x8000 <= addr < 0xa000 ==> *final(self) == (Mmu {
                    gpu: final(self).gpu, ..*old(self) })
                    && final(self).gpu == (Gpu { vram: final(self).gpu.vram, ..old(self).gpu })
                    && final(self).gpu.vram@ == old(self).gpu.vram_write_view(addr, v))
                &&& (0xa000 <= addr < 0xc000 ==> *final(self) == (Mmu {
                    mbc: final(self).mbc, ..*old(self) })
                    && final(self).mbc == (Mbc { ram: final(self).mbc.ram, ..old(self).mbc })
                    && final(self).mbc.ram@ == old(self).mbc.ram_write_view(addr, v))
                &&& (0xc000 <= addr < 0xe000 ==> *final(self) == (Mmu {
                    ram: final(self).ram, ..*old(self) })
                    && final(self).ram@ == old(self).ram@.update(addr as int, v))
                &&& (0xe000 <= addr < 0xfe00 ==> *final(self) == (Mmu {
                    ram: final(self).ram, ..*old(self) })
                    && final(self).ram@ == old(self).ram@.update(addr - 0x2000, v))
                &&& (0xfe00 <= addr < 0xfea0 ==> *final(self) == (Mmu {
                    gpu: final(self).gpu, ..*old(self) })
                    && final(self).gpu == (Gpu { oam: final(self).gpu.oam, ..old(self).gpu })
                    && final(self).gpu.oam@ == old(self).gpu.oam_write_view(addr, v))
                &&& (0xfea0 <= addr < 0xff00 ==> *final(self) == *old(self))
                &&& (addr == 0xff00 ==> *final(self) == (Mmu {
                    joypad: final(self).joypad, ..*old(self) })
                    && final(self).joypad == old(self).joypad.spec_write(v))
                &&& (0xff01 <= addr <= 0xff02 ==> *final(self) == (Mmu {
                    serial: final(self).serial, ..*old(self) })
                    && final(self).serial == old(self).serial.spec_write(addr, v))
                &&& (0xff04 <= addr <= 0xff07 ==> *final(self) == (Mmu {
                    timer: final(self).timer, ..*old(self) })
                    && final(self).timer == old(self).timer.spec_write(addr, v))
                &&& (addr == 0xff0f || addr == 0xffff ==> *final(self) == (Mmu {
                    ic: final(self).ic, ..*old(self) })
                    && final(self).ic == old(self).ic.spec_write(addr, v))
                &&& (0xff10 <= addr <= 0xff3f ==> *final(self) == (Mmu {
                    sound: final(self).sound, ..*old(self) })
                    && final(self).sound == old(self).sound.spec_write(addr, v))
                &&& (addr == 0xff46 ==> *final(self) == (Mmu { dma: final(self).dma, ..*old(self) })
                    && final(self).dma == old(self).dma.spec_write(v))
                &&& ((0xff40 <= addr <= 0xff4b && addr != 0xff46)
                    || (0xff68 <= addr <= 0xff6b) ==> *final(self) == (Mmu {
                    gpu: final(self).gpu, ..*old(self) })
                    && final(self).gpu == old(self).gpu.spec_write_reg(addr, v))
                &&& (addr == 0xff4d || addr == 0xff56 || addr == 0xff70 ==> *final(self) == (Mmu {
                    cgb: final(self).cgb, ..*old(self) })
                    && final(self).cgb == old(self).cgb.spec_write(addr, v))
                &&& (0xff80 <= addr <= 0xfffe ==> *final(self) == (Mmu {
                    ram: final(self).ram, ..*old(self) })
                    && final(self).ram@ == old(self).ram@.update(addr as int, v))
                // Work RAM, its echo, and HRAM read back what was written.
                &&& (0xc000 <= addr < 0xe000 || is_hram(addr)
                    ==> final(self).spec_read(addr) == v)
                // So does VRAM whenever the pixel pipeline does not own it.
                &&& (0x8000 <= addr < 0xa000 && old(self).gpu.mode_s() != 3
                    ==> final(self).spec_read(addr) == v)
            },
    {
        if self.dma.active && !(0xff80 <= addr && addr <= 0xfffe) {
            return;
        }
        if addr < 0x8000 {
            self.mbc.on_write(addr, v);
        } else if addr < 0xa000 {
            self.gpu.write_vram(addr, v);
        } else if addr < 0xc000 {
            self.mbc.on_write(addr, v);
        } else if addr < 0xe000 {
            self.ram.set(addr as usize, v);
        } else if addr < 0xfe00 {
            self.ram.set((addr - 0x2000) as usize, v);
        } else if addr < 0xfea0 {
            self.gpu.write_oam(addr, v);
        } else if addr < 0xff00 {
        } else if addr == 0xff00 {
            self.joypad.on_write(v);
        } else if addr <= 0xff02 {
            self.serial.on_write(addr, v);
        } else if 0xff04 <= addr && addr <= 0xff07 {
            self.timer.on_write(addr, v);
        } else if addr == 0xff0f {
            self.ic.on_write(addr, v);
        } else if 0xff10 <= addr && addr <= 0xff3f {
            self.sound.on_write(addr, v);
        } else if addr == 0xff46 {
            self.dma.on_write(v);
        } else if (0xff40 <= addr && addr <= 0xff4b) || (0xff68 <= addr && addr <= 0xff6b) {
            self.gpu.write_reg(addr, v);
        } else if addr == 0xff4d || addr == 0xff56 || addr == 0xff70 {
            self.cgb.on_write(addr, v);
        } else if addr < 0xff80 {
        } else if addr < 0xffff {
            self.ram.set(addr as usize, v);
        } else {
            self.ic.on_write(addr, v);
        }
    }

    /// Little-endian 16-bit read.
    pub fn get16(&self, addr: u16) -> (r: u16)
        requires
            self.wf(),
        ensures
            r == self.spec_read(addr) + self.spec_read(((addr + 1) % 0x10000) as u16) * 256,
    {
        let hi_addr: u16 = if addr == 0xffff { 0 } else { addr + 1 };
        let lo: u8 = self.read8(addr);
        let hi: u8 = self.read8(hi_addr);
        lo as u16 + hi as u16 * 256
    }

    /// Alias of `read8` under the bus's public name.
    pub fn get8(&self, addr: u16) -> (r: u8)
        requires
            self.wf(),
        ensures
            r == self.spec_read(addr),
    {
        self.read8(addr)
    }

    /// The backing RAM, as the debugger dumps it.
    pub fn dump(&self) -> (r: &Vec<u8>)
        ensures
            r == self.ram,
    {
        &self.ram
    }

    /// Little-endian 16-bit write. In plain memory the two bytes read back
    /// as written.
    pub fn set16(&mut self, addr: u16, v: u16)
        requires
            old(self).wf(),
        ensures
            final(self).wf(),
            !old(self).dma.active && 0xc000 <= addr && addr + 1 < 0xe000 ==> {
                &&& final(self).spec_read(addr) == v % 256
                &&& final(self).spec_read((addr + 1) as u16) == v / 256
                &&& *final(self) == (Mmu { ram: final(self).ram, ..*old(self) })
            },
            !old(self).dma.active && 0xff80 <= addr && addr + 1 <= 0xfffe ==> {
                &&& final(self).spec_read(addr) == v % 256
                &&& final(self).spec_read((addr + 1) as u16) == v / 256
                &&& *final(self) == (Mmu { ram: final(self).ram, ..*old(self) })
            },
    {
        let hi_addr: u16 = if addr == 0xffff { 0 } else { addr + 1 };
        self.write8(addr, (v % 256) as u8);
        self.write8(hi_addr, (v / 256) as u8);
    }
}

/// Reads below OAM do not change when only the OAM bytes and the DMA
/// sequencer differ between two bus states.
proof fn lemma_read_inner_frame(m1: Mmu, m2: Mmu, addr: u16)
    requires
        addr < 0xfe00,
        m2 == (Mmu { gpu: m2.gpu, dma: m2.dma, ..m1 }),
        m2.gpu == (Gpu { oam: m2.gpu.oam, ..m1.gpu }),
    ensures
        m1.spec_read_inner(addr) == m2.spec_read_inner(addr),
{
}

impl Mmu {
    /// Advance the DMA sequencer by `budget` machine cycles, one byte per
    /// cycle. A full transfer copies the 160 source bytes into OAM and
    /// switches the lock-out off; `spec_read_inner`, taken at the start,
    /// names the bytes that land. The copy is pinned for every source page
    /// up to `FD` (ROM, VRAM, cartridge RAM, work RAM and its echo); the
    /// two pages above read OAM and I/O through the transfer itself, so
    /// nothing is promised of them.
    pub fn dma_step(&mut self, budget: u32)
        requires
            old(self).wf(),
        ensures
            final(self).wf(),
            *final(self) == (Mmu { gpu: final(self).gpu, dma: final(self).dma, ..*old(self) }),
            final(self).gpu == (Gpu { oam: final(self).gpu.oam, ..old(self).gpu }),
            !old(self).dma.active ==> *final(self) == *old(self),
            final(self).dma.src == old(self).dma.src,
            old(self).dma.active && old(self).dma.ptr == 0 && budget >= 160
                && old(self).dma.src < 0xfe ==> {
                &&& !final(self).dma.active
                &&& forall|i: int| 0 <= i < 160 ==> final(self).gpu.oam@[i]
                    == old(self).spec_read_inner((old(self).dma.src * 256 + i) as u16)
            },
    {
        if !self.dma.active {
            return;
        }
        let mut left: u32 = budget;
        while self.dma.ptr < 160 && left > 0
            invariant
                self.wf(),
                self.dma.active == old(self).dma.active,
                self.dma.src == old(self).dma.src,
                old(self).dma.ptr <= self.dma.ptr <= 160,
                left <= budget,
                self.dma.ptr == 160 || self.dma.ptr - old(self).dma.ptr == budget - left,
                *self == (Mmu { gpu: self.gpu, dma: self.dma, ..*old(self) }),
                self.gpu == (Gpu { oam: self.gpu.oam, ..old(self).gpu }),
                old(self).dma.src < 0xfe ==> forall|i: int|
                    old(self).dma.ptr <= i < self.dma.ptr ==> self.gpu.oam@[i]
                        == old(self).spec_read_inner((old(self).dma.src * 256 + i) as u16),
            decreases left,
        {
            let a: u16 = self.dma.src as u16 * 256 + self.dma.ptr as u16;
            let b: u8 = self.read_raw(a);
            proof {
                if old(self).dma.src < 0xfe {
                    lemma_read_inner_frame(*old(self), *self, a);
                }
            }
            let p: u8 = self.dma.ptr;
            self.gpu.oam_force_set(p, b);
            self.dma.ptr = p + 1;
            left = left - 1;
        }
        if self.dma.ptr == 160 {
            self.dma.active = false;
        }
    }
}

} // verus!
