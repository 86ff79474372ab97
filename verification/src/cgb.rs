//! CGB register plumbing: the speed-switch, infrared and WRAM-bank registers
//! are stored and read back. The core runs the DMG memory model: work RAM
//! lives unbanked in the bus's backing RAM, and the stored SVBK value does
//! not rebank `D000-DFFF`.

use vstd::prelude::*;

verus! {

pub struct Cgb {
    /// `FF4D` (KEY1 speed switch; stored only).
    pub key1: u8,
    /// `FF56` (infrared port; stored only).
    pub rp: u8,
    /// `FF70` (WRAM bank select; stored only).
    pub svbk: u8,
}

impl Cgb {
    pub fn new() -> (r: Cgb)
        ensures
            r == (Cgb { key1: 0, rp: 0, svbk: 0 }),
    {
        Cgb { key1: 0, rp: 0, svbk: 0 }
    }

    pub open spec fn spec_read(self, addr: u16) -> u8 {
        if addr == 0xff4d {
            self.key1
        } else if addr == 0xff56 {
            self.rp
        } else {
            self.svbk
        }
    }

    pub fn on_read(&self, addr: u16) -> (r: u8)
        ensures
            r == self.spec_read(addr),
    {
        if addr == 0xff4d {
            self.key1
        } else if addr == 0xff56 {
            self.rp
        } else {
            self.svbk
        }
    }

    pub open spec fn spec_write(self, addr: u16, v: u8) -> Cgb {
        if addr == 0xff4d {
            Cgb { key1: v, ..self }
        } else if addr == 0xff56 {
            Cgb { rp: v, ..self }
        } else {
            Cgb { svbk: v, ..self }
        }
    }

    pub fn on_write(&mut self, addr: u16, v: u8)
        ensures
            *final(self) == old(self).spec_write(addr, v),
    {
        if addr == 0xff4d {
            self.key1 = v;
        } else if addr == 0xff56 {
            self.rp = v;
        } else {
            self.svbk = v;
        }
    }
}

} // verus!
