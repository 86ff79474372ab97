//! Joypad column matrix behind `FF00`: two four-bit columns (directions and
//! actions) selected, active low, by bits 4 and 5 of the written value. A key
//! that goes down while its column is selected raises the joypad interrupt.

use vstd::prelude::*;

verus! {

pub struct Joypad {
    /// Bits 4-5 of the last write to `FF00` (the column select, active low).
    pub select: u8,
    /// Pressed direction keys (Right, Left, Up, Down at bits 0-3), 1 = down.
    pub dir: u8,
    /// Pressed action keys (A, B, Select, Start at bits 0-3), 1 = down.
    pub act: u8,
}

pub open spec fn dir_selected(select: u8) -> bool {
    select / 16 % 2 == 0
}

pub open spec fn act_selected(select: u8) -> bool {
    select / 32 % 2 == 0
}

/// What `FF00` reads: the select bits back, and the selected columns pulled
/// low where keys are down.
pub open spec fn joypad_read_s(j: Joypad) -> u8 {
    (0xc0 + j.select + 15 - (
        (if dir_selected(j.select) { j.dir } else { 0 })
        | (if act_selected(j.select) { j.act } else { 0 })
    )) as u8
}

impl Joypad {
    pub fn new() -> (r: Joypad)
        ensures
            r == (Joypad { select: 0x30, dir: 0, act: 0 }),
    {
        Joypad { select: 0x30, dir: 0, act: 0 }
    }

    pub open spec fn wf(self) -> bool {
        self.select % 16 == 0 && self.select < 64 && self.dir < 16 && self.act < 16
    }

    pub fn on_read(&self) -> (r: u8)
        requires
            self.wf(),
        ensures
            r == joypad_read_s(*self),
    {
        let pressed: u8 = (if self.select / 16 % 2 == 0 { self.dir } else { 0 })
            | (if self.select / 32 % 2 == 0 { self.act } else { 0 });
        let ghost d: u8 = self.dir;
        let ghost a: u8 = self.act;
        proof {
            assert(d < 16 && a < 16 ==> (d | a) < 16 && (d | 0) < 16 && (0 | a) < 16
                && (0u8 | 0u8) < 16) by (bit_vector);
        }
        0xc0 + self.select + 15 - pressed
    }

    /// Only bits 4-5 of a write are kept.
    pub open spec fn spec_write(self, v: u8) -> Joypad {
        Joypad { select: (v / 16 % 4 * 16) as u8, ..self }
    }

    pub fn on_write(&mut self, v: u8)
        requires
            old(self).wf(),
        ensures
            *final(self) == old(self).spec_write(v),
            final(self).wf(),
    {
        self.select = v / 16 % 4 * 16;
    }

    /// A fresh press in a currently selected column raises the interrupt.
    pub open spec fn press_irq_s(j: Joypad, dir: u8, act: u8) -> bool {
        (dir_selected(j.select) && dir & !j.dir != 0)
        || (act_selected(j.select) && act & !j.act != 0)
    }

    /// Latch the polled key state; reports whether the interrupt line fires.
    pub fn set_keys(&mut self, dir: u8, act: u8) -> (irq: bool)
        requires
            dir < 16,
            act < 16,
        ensures
            *final(self) == (Joypad { dir, act, ..*old(self) }),
            irq == Joypad::press_irq_s(*old(self), dir, act),
    {
        let irq: bool = (self.select / 16 % 2 == 0 && dir & !self.dir != 0)
            || (self.select / 32 % 2 == 0 && act & !self.act != 0);
        self.dir = dir;
        self.act = act;
        irq
    }
}

} // verus!
