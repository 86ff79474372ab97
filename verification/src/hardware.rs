//! The host hardware interface the embedder implements: event-loop
//! scheduling, video and audio output, input polling, a monotonic clock,
//! and battery-RAM persistence. Nothing is assumed of any of it.

use vstd::prelude::*;
use crate::sound::Tone;

verus! {

/// The eight physical keys of the pad.
#[derive(Clone, Copy, PartialEq, Eq, Structural)]
pub enum Button {
    Right,
    Left,
    Up,
    Down,
    A,
    B,
    Select,
    Start,
}

pub trait Hardware {
    /// Advance the host event loop; `false` ends emulation.
    fn sched(&mut self) -> bool;

    /// Deliver a composed scanline (160 packed RGB words).
    fn video_send(&mut self, line: u8, pixels: &Vec<u32>);

    /// Poll one key.
    fn joypad_pressed(&mut self, button: Button) -> bool;

    /// Start playing a triggered tone channel.
    fn sound_play(&mut self, tone: &Tone);

    /// Stop the channel.
    fn sound_stop(&mut self);

    /// Monotonic wall time in microseconds.
    fn clock(&mut self) -> u64;

    /// Battery RAM loaded from the host, expected at the given size.
    fn load_ram(&mut self, size: usize) -> Vec<u8>;

    /// Battery RAM handed back for persistence.
    fn save_ram(&mut self, ram: &Vec<u8>);
}

} // verus!
