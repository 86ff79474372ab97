//! The debugger hook interface: observation points around the step loop.
//! `NullDebugger` is the no-op implementation the plain runner uses.

use vstd::prelude::*;
use crate::cpu::Cpu;
use crate::mmu::Mmu;

verus! {

pub trait Debugger {
    /// Called once, with the freshly wired bus.
    fn init(&mut self, mmu: &Mmu);

    /// Called each step so the debugger can interrupt execution.
    fn check_signal(&mut self);

    /// Receives a copy of the register file before each instruction.
    fn take_cpu_snapshot(&mut self, cpu: Cpu);

    /// Called before each decode, with the bus readable.
    fn on_decode(&mut self, mmu: &Mmu);
}

/// The debugger that observes nothing.
pub struct NullDebugger;

impl Debugger for NullDebugger {
    fn init(&mut self, mmu: &Mmu) {
    }

    fn check_signal(&mut self) {
    }

    fn take_cpu_snapshot(&mut self, cpu: Cpu) {
    }

    fn on_decode(&mut self, mmu: &Mmu) {
    }
}

} // verus!
