//! OAM DMA sequencer: a write to `FF46` starts a 160-byte copy from
//! `XX00-XX9F` into OAM, one byte per machine cycle. While it runs, the CPU
//! sees `FF` everywhere outside HRAM. The copy itself is driven by the bus.

use vstd::prelude::*;

verus! {

pub struct Dma {
    /// A transfer is in flight.
    pub active: bool,
    /// High byte of the source address, as written to `FF46`.
    pub src: u8,
    /// Bytes already copied, at most 160.
    pub ptr: u8,
}

impl Dma {
    pub fn new() -> (r: Dma)
        ensures
            r == (Dma { active: false, src: 0, ptr: 0 }),
    {
        Dma { active: false, src: 0, ptr: 0 }
    }

    pub open spec fn wf(self) -> bool {
        self.ptr <= 160
    }

    /// Reading `FF46` gives back the last source written.
    pub open spec fn spec_read(self) -> u8 {
        self.src
    }

    pub fn on_read(&self) -> (r: u8)
        ensures
            r == self.spec_read(),
    {
        self.src
    }

    /// A write restarts the sequencer from byte 0.
    pub open spec fn spec_write(self, v: u8) -> Dma {
        Dma { active: true, src: v, ptr: 0 }
    }

    pub fn on_write(&mut self, v: u8)
        ensures
            *final(self) == old(self).spec_write(v),
    {
        self.active = true;
        self.src = v;
        self.ptr = 0;
    }
}

} // verus!
