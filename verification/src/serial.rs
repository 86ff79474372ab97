//! Serial transfer stub: a transfer started through `FF02` completes after a
//! fixed number of clocks; with no link partner the data register reads `FF`
//! afterwards and the serial interrupt line is raised.

use vstd::prelude::*;

verus! {

/// Clocks a transfer takes to complete.
pub const SERIAL_CLOCKS: u64 = 512;

pub struct Serial {
    /// `FF01`.
    pub data: u8,
    /// `FF02`; bit 7 is the in-flight bit, bit 0 selects the internal clock.
    pub ctrl: u8,
    /// Clocks accumulated since the transfer started.
    pub count: u64,
}

/// A transfer is running: started, on the internal clock.
pub open spec fn transferring(s: Serial) -> bool {
    s.ctrl / 128 % 2 == 1 && s.ctrl % 2 == 1
}

/// The state after `cycles` more clocks, and whether the transfer completed
/// in that window.
pub open spec fn serial_step_s(s: Serial, cycles: u32) -> (Serial, bool) {
    if transferring(s) {
        if s.count + cycles >= SERIAL_CLOCKS {
            (Serial { data: 0xff, ctrl: (s.ctrl % 128) as u8, count: 0 }, true)
        } else {
            (Serial { count: (s.count + cycles) as u64, ..s }, false)
        }
    } else {
        (s, false)
    }
}

impl Serial {
    pub fn new() -> (r: Serial)
        ensures
            r == (Serial { data: 0, ctrl: 0, count: 0 }),
    {
        Serial { data: 0, ctrl: 0, count: 0 }
    }

    pub open spec fn wf(self) -> bool {
        self.count < SERIAL_CLOCKS
    }

    pub fn step(&mut self, cycles: u32) -> (irq: bool)
        requires
            old(self).wf(),
        ensures
            (*final(self), irq) == serial_step_s(*old(self), cycles),
            final(self).wf(),
    {
        if self.ctrl / 128 % 2 == 1 && self.ctrl % 2 == 1 {
            if SERIAL_CLOCKS - self.count <= cycles as u64 {
                self.data = 0xff;
                self.ctrl = self.ctrl % 128;
                self.count = 0;
                true
            } else {
                self.count = self.count + cycles as u64;
                false
            }
        } else {
            false
        }
    }

    pub open spec fn spec_read(self, addr: u16) -> u8 {
        if addr == 0xff01 {
            self.data
        } else {
            self.ctrl
        }
    }

    pub fn on_read(&self, addr: u16) -> (r: u8)
        ensures
            r == self.spec_read(addr),
    {
        if addr == 0xff01 {
            self.data
        } else {
            self.ctrl
        }
    }

    /// Writing `FF02` replaces the control byte; starting a transfer resets
    /// the clock count.
    pub open spec fn spec_write(self, addr: u16, v: u8) -> Serial {
        if addr == 0xff01 {
            Serial { data: v, ..self }
        } else {
            Serial { ctrl: v, count: 0, ..self }
        }
    }

    pub fn on_write(&mut self, addr: u16, v: u8)
        requires
            old(self).wf(),
        ensures
            *final(self) == old(self).spec_write(addr, v),
            final(self).wf(),
    {
        if addr == 0xff01 {
            self.data = v;
        } else {
            self.ctrl = v;
            self.count = 0;
        }
    }
}

} // verus!
