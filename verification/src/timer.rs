//! DIV/TIMA timer.
//!
//! A 16-bit counter advances once per clock; its high byte is the DIV
//! register. When TAC enables the timer, a falling edge of the selected
//! counter bit (9/3/5/7 for selector 0/1/2/3) increments TIMA; on overflow
//! TIMA is reloaded from TMA and the timer interrupt line is raised.

use vstd::prelude::*;

verus! {

pub struct Timer {
    /// Internal 16-bit divider; `FF04` reads its high byte.
    pub div: u16,
    /// `FF05`.
    pub tima: u8,
    /// `FF06`.
    pub tma: u8,
    /// `FF07`, low three bits only.
    pub tac: u8,
}

/// The weight of the divider bit that the TAC selector watches.
pub open spec fn sel_weight_s(tac: u8) -> u16 {
    if tac % 4 == 0 { 512 } else if tac % 4 == 1 { 8 } else if tac % 4 == 2 { 32 } else { 128 }
}

pub open spec fn tac_enabled(tac: u8) -> bool {
    tac / 4 % 2 == 1
}

/// One clock of the divider: the counter advances, and TIMA counts the
/// falling edges of the selected bit while enabled.
pub open spec fn tick_s(t: Timer) -> (Timer, bool) {
    let d2 = ((t.div + 1) % 0x10000) as u16;
    let w = sel_weight_s(t.tac);
    let falling = t.div / w % 2 == 1 && d2 / w % 2 == 0;
    if tac_enabled(t.tac) && falling {
        if t.tima == 255 {
            (Timer { div: d2, tima: t.tma, ..t }, true)
        } else {
            (Timer { div: d2, tima: (t.tima + 1) as u8, ..t }, false)
        }
    } else {
        (Timer { div: d2, ..t }, false)
    }
}

/// `n` clocks in sequence; the boolean says whether any of them raised the
/// timer interrupt.
pub open spec fn run_s(t: Timer, n: nat) -> (Timer, bool)
    decreases n,
{
    if n == 0 {
        (t, false)
    } else {
        let prev = run_s(t, (n - 1) as nat);
        let last = tick_s(prev.0);
        (last.0, prev.1 || last.1)
    }
}

/// Progress of the enabled timer at the 16-clock rate from a fresh counter:
/// after `n` clocks the divider reads `n`, TIMA has counted one falling edge
/// per full 16 clocks, and the overflow fires at exactly `(0x100 - TMA) * 16`
/// clocks, reloading TIMA from TMA.
proof fn lemma_timer_progress(tma: u8, n: nat)
    requires
        n <= (256 - tma) * 16,
    ensures
        ({
            let r = run_s(Timer { div: 0, tima: tma, tma, tac: 5 }, n);
            &&& r.0.div == n
            &&& r.0.tma == tma
            &&& r.0.tac == 5
            &&& (n < (256 - tma) * 16 ==> !r.1 && r.0.tima == tma + n / 16)
            &&& (n == (256 - tma) * 16 ==> r.1 && r.0.tima == tma)
        }),
    decreases n,
{
    if n > 0 {
        lemma_timer_progress(tma, (n - 1) as nat);
        let prev = run_s(Timer { div: 0, tima: tma, tma, tac: 5 }, (n - 1) as nat);
        assert(sel_weight_s(5) == 8);
        assert(tac_enabled(5));
        let d: int = n - 1;
        // A falling edge of bit 3 between d and d + 1 happens exactly when
        // d + 1 is a multiple of 16.
        assert((d / 8 % 2 == 1 && (d + 1) / 8 % 2 == 0) <==> (d + 1) % 16 == 0) by {
            vstd::arithmetic::div_mod::lemma_fundamental_div_mod(d, 16);
            vstd::arithmetic::div_mod::lemma_div_denominator(d, 8, 2);
            vstd::arithmetic::div_mod::lemma_div_denominator(d + 1, 8, 2);
        };
        if n % 16 == 0 {
            assert((n - 1) / 16 == n / 16 - 1) by {
                vstd::arithmetic::div_mod::lemma_fundamental_div_mod(n as int, 16);
            };
        } else {
            assert((n - 1) / 16 == n / 16) by {
                vstd::arithmetic::div_mod::lemma_fundamental_div_mod(n as int, 16);
            };
        }
    }
}

/// Timer overflow: with TAC `0x05` (enabled, the 16-clock rate) and TIMA
/// starting at TMA over a fresh divider, the overflow comes after exactly
/// `(0x100 - TMA) * 16` clocks; it raises the timer interrupt and TIMA
/// holds TMA again.
pub proof fn lemma_timer_overflow(tma: u8)
    ensures
        ({
            let r = run_s(Timer { div: 0, tima: tma, tma, tac: 5 }, ((256 - tma) * 16) as nat);
            r.1 && r.0.tima == tma
        }),
        forall|n: nat| n < (256 - tma) * 16
            ==> !#[trigger] run_s(Timer { div: 0, tima: tma, tma, tac: 5 }, n).1,
{
    lemma_timer_progress(tma, ((256 - tma) * 16) as nat);
    assert forall|n: nat| n < (256 - tma) * 16
        implies !#[trigger] run_s(Timer { div: 0, tima: tma, tma, tac: 5 }, n).1 by {
        lemma_timer_progress(tma, n);
    };
}

impl Timer {
    pub fn new() -> (r: Timer)
        ensures
            r.div == 0 && r.tima == 0 && r.tma == 0 && r.tac == 0,
    {
        Timer { div: 0, tima: 0, tma: 0, tac: 0 }
    }

    fn tick(&mut self) -> (irq: bool)
        ensures
            (*final(self), irq) == tick_s(*old(self)),
    {
        let d2: u16 = if self.div == 0xffff { 0 } else { self.div + 1 };
        let w: u16 = if self.tac % 4 == 0 { 512 } else if self.tac % 4 == 1 { 8 }
            else if self.tac % 4 == 2 { 32 } else { 128 };
        let falling: bool = self.div / w % 2 == 1 && d2 / w % 2 == 0;
        self.div = d2;
        if self.tac / 4 % 2 == 1 && falling {
            if self.tima == 255 {
                self.tima = self.tma;
                true
            } else {
                self.tima = self.tima + 1;
                false
            }
        } else {
            false
        }
    }

    /// Advance the timer by `cycles` clocks.
    pub fn step(&mut self, cycles: u32) -> (irq: bool)
        ensures
            (*final(self), irq) == run_s(*old(self), cycles as nat),
    {
        let mut i: u32 = 0;
        let mut irq: bool = false;
        while i < cycles
            invariant
                i <= cycles,
                (*self, irq) == run_s(*old(self), i as nat),
            decreases cycles - i,
        {
            let one: bool = self.tick();
            irq = irq || one;
            i = i + 1;
        }
        irq
    }

    pub open spec fn spec_read(self, addr: u16) -> u8 {
        if addr == 0xff04 {
            (self.div / 256) as u8
        } else if addr == 0xff05 {
            self.tima
        } else if addr == 0xff06 {
            self.tma
        } else {
            self.tac
        }
    }

    pub fn on_read(&self, addr: u16) -> (r: u8)
        ensures
            r == self.spec_read(addr),
    {
        if addr == 0xff04 {
            (self.div / 256) as u8
        } else if addr == 0xff05 {
            self.tima
        } else if addr == 0xff06 {
            self.tma
        } else {
            self.tac
        }
    }

    /// A write to `FF04` clears the whole internal counter, whatever the
    /// value written.
    pub open spec fn spec_write(self, addr: u16, v: u8) -> Timer {
        if addr == 0xff04 {
            Timer { div: 0, ..self }
        } else if addr == 0xff05 {
            Timer { tima: v, ..self }
        } else if addr == 0xff06 {
            Timer { tma: v, ..self }
        } else {
            Timer { tac: v % 8, ..self }
        }
    }

    pub fn on_write(&mut self, addr: u16, v: u8)
        ensures
            *final(self) == old(self).spec_write(addr, v),
    {
        if addr == 0xff04 {
            self.div = 0;
        } else if addr == 0xff05 {
            self.tima = v;
        } else if addr == 0xff06 {
            self.tma = v;
        } else {
            self.tac = v % 8;
        }
    }
}

} // verus!
