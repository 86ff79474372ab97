//! Frequency governor: accumulates executed cycles and, once per sample
//! window, spins on the host clock until real time has caught up with the
//! emulated time the window represents. What the host clock returns is not
//! assumed monotonic; a step backwards just ends the wait.

use vstd::prelude::*;
use crate::hardware::Hardware;

verus! {

pub struct FreqControl {
    /// Target frequency in cycles per second.
    pub target_freq: u64,
    /// Cycles per pacing window.
    pub sample: u64,
    /// Pacing granularity hint, in microseconds.
    pub delay_unit: u64,
    /// Cycles accumulated in the current window.
    pub cycles: u64,
    /// Host clock at the start of the window.
    pub last: u64,
}

impl FreqControl {
    pub fn new(target_freq: u64, sample: u64, delay_unit: u64) -> (r: FreqControl)
        ensures
            r.target_freq == target_freq,
            r.sample == sample,
            r.delay_unit == delay_unit,
            r.cycles == 0,
    {
        FreqControl { target_freq, sample, delay_unit, cycles: 0, last: 0 }
    }

    /// Restart the window at the present host time.
    pub fn reset<T: Hardware>(&mut self, hw: &mut T)
        ensures
            final(self).cycles == 0,
            final(self).target_freq == old(self).target_freq,
            final(self).sample == old(self).sample,
            final(self).delay_unit == old(self).delay_unit,
    {
        self.cycles = 0;
        self.last = hw.clock();
    }

    /// Account `time` executed cycles; at each full window, wait until the
    /// wall clock reaches the window's real duration at the target
    /// frequency.
    pub fn adjust<T: Hardware>(&mut self, time: u64, hw: &mut T)
        ensures
            final(self).target_freq == old(self).target_freq,
            final(self).sample == old(self).sample,
            final(self).delay_unit == old(self).delay_unit,
            // Inside a window only the cycle count moves, by exactly `time`.
            old(self).cycles + time < old(self).sample ==> *final(self) == (FreqControl {
                cycles: (old(self).cycles + time) as u64,
                ..*old(self)
            }),
            // When the window closes, the wait runs and the count restarts.
            old(self).cycles + time >= old(self).sample ==> final(self).cycles == 0,
    {
        self.cycles = if self.cycles <= u64::MAX - time { self.cycles + time } else {
            u64::MAX
        };
        if self.cycles < self.sample {
            return;
        }
        self.cycles = 0;
        if self.target_freq == 0 {
            return;
        }
        let expect128: u128 = self.sample as u128 * 1000000u128 / self.target_freq as u128;
        let expect: u64 = if expect128 > 0xffff_ffff_ffff_ffffu128 {
            0xffff_ffff_ffff_ffffu64
        } else {
            expect128 as u64
        };
        // Spin on the host clock; a stalled or backwards clock ends the
        // wait rather than hanging the loop.
        let mut spins: u64 = 0xffff_ffff;
        while spins > 0
            invariant
                self.target_freq == old(self).target_freq,
                self.sample == old(self).sample,
                self.delay_unit == old(self).delay_unit,
                self.cycles == 0,
            decreases spins,
        {
            let now: u64 = hw.clock();
            if now < self.last || now - self.last >= expect {
                self.last = now;
                break;
            }
            spins = spins - 1;
        }
    }
}

} // verus!
