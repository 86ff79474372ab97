//! Interrupt controller: the IF (requested) and IE (enabled) masks and the
//! five named lines that peripherals raise.

use vstd::prelude::*;

verus! {

/// Bit masks of the five interrupt lines.
pub const INT_VBLANK: u8 = 1;

pub const INT_LCD: u8 = 2;

pub const INT_TIMER: u8 = 4;

pub const INT_SERIAL: u8 = 8;

pub const INT_JOYPAD: u8 = 16;

pub struct Ic {
    /// IF: the requested lines (register `FF0F`).
    pub intf: u8,
    /// IE: the enabled lines (register `FFFF`).
    pub inte: u8,
}

impl Ic {
    pub fn new() -> (r: Ic)
        ensures
            r.intf == 0,
            r.inte == 0,
    {
        Ic { intf: 0, inte: 0 }
    }

    /// Raise the lines in `mask`: sets the corresponding IF bits and touches
    /// nothing else.
    pub fn raise(&mut self, mask: u8)
        ensures
            final(self).intf == (old(self).intf | mask),
            final(self).inte == old(self).inte,
    {
        self.intf = self.intf | mask;
    }

    /// Some enabled line is requested.
    pub open spec fn pending(self) -> bool {
        self.intf & self.inte != 0
    }

    pub fn on_read(&self, addr: u16) -> (r: u8)
        ensures
            r == self.spec_read(addr),
    {
        if addr == 0xff0f {
            self.intf
        } else {
            self.inte
        }
    }

    pub open spec fn spec_read(self, addr: u16) -> u8 {
        if addr == 0xff0f {
            self.intf
        } else {
            self.inte
        }
    }

    pub open spec fn spec_write(self, addr: u16, v: u8) -> Ic {
        if addr == 0xff0f {
            Ic { intf: v, ..self }
        } else {
            Ic { inte: v, ..self }
        }
    }

    pub fn on_write(&mut self, addr: u16, v: u8)
        ensures
            *final(self) == old(self).spec_write(addr, v),
    {
        if addr == 0xff0f {
            self.intf = v;
        } else {
            self.inte = v;
        }
    }
}

} // verus!
