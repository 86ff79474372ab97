//! Sound register bank: decodes writes to `FF10-FF14` into the tone-channel
//! descriptor and, on a trigger write, hands the finished descriptor out for
//! the host speaker to play. The per-sample synthesis is the host's business;
//! the core keeps to integers.

use vstd::prelude::*;

verus! {

/// Envelope/frequency descriptor of the tone channel, as the registers
/// describe it.
#[derive(Clone, Copy)]
pub struct Tone {
    /// `FF10` bits 6-4.
    pub sweep_time: u8,
    /// `FF10` bit 3.
    pub sweep_sub: bool,
    /// `FF10` bits 2-0.
    pub sweep_shift: u8,
    /// `FF11` bits 5-0.
    pub sound_len: u8,
    /// `FF11` bits 7-6: one of the four duty classes.
    pub wave_duty: u8,
    /// `FF12` bits 7-4.
    pub env_init: u8,
    /// `FF12` bit 3.
    pub env_inc: bool,
    /// `FF12` bits 2-0.
    pub env_count: u8,
    /// `FF14` bit 6.
    pub counter: bool,
    /// 11-bit frequency divider from `FF13` and `FF14`.
    pub freq: u16,
}

/// The speaker collaborator the host implements: consumes a finished tone
/// descriptor, or stops the channel.
pub trait Speaker {
    fn play(&mut self, tone: &Tone);

    fn stop(&mut self);
}

pub struct Sound {
    pub tone: Tone,
    /// A trigger write completed a descriptor that has not been handed to
    /// the speaker yet.
    pub pending: Option<Tone>,
    /// A write switched the channel off (envelope volume zero, no
    /// increase: the DAC is disabled) and the speaker has not been told
    /// to stop yet.
    pub stop_pending: bool,
}

impl Sound {
    pub fn new() -> (r: Sound)
        ensures
            r.tone.freq == 0,
            r.pending is None,
            !r.stop_pending,
            r.wf(),
    {
        Sound {
            tone: Tone {
                sweep_time: 0,
                sweep_sub: false,
                sweep_shift: 0,
                sound_len: 0,
                wave_duty: 0,
                env_init: 0,
                env_inc: false,
                env_count: 0,
                counter: false,
                freq: 0,
            },
            pending: None,
            stop_pending: false,
        }
    }

    pub open spec fn wf(self) -> bool {
        self.tone.freq < 2048
    }

    /// Register decode per the standard layout; a write to `FF14` with bit 7
    /// set completes the descriptor and leaves it pending for the speaker,
    /// and an envelope write that disables the channel leaves a stop
    /// pending for it.
    pub open spec fn spec_write(self, addr: u16, v: u8) -> Sound {
        if addr == 0xff10 {
            Sound {
                tone: Tone {
                    sweep_time: (v / 16 % 8) as u8,
                    sweep_sub: v / 8 % 2 == 1,
                    sweep_shift: (v % 8) as u8,
                    ..self.tone
                },
                ..self
            }
        } else if addr == 0xff11 {
            Sound {
                tone: Tone { wave_duty: (v / 64) as u8, sound_len: (v % 64) as u8, ..self.tone },
                ..self
            }
        } else if addr == 0xff12 {
            Sound {
                tone: Tone {
                    env_init: (v / 16) as u8,
                    env_inc: v / 8 % 2 == 1,
                    env_count: (v % 8) as u8,
                    ..self.tone
                },
                stop_pending: if v / 8 == 0 { true } else { self.stop_pending },
                ..self
            }
        } else if addr == 0xff13 {
            Sound { tone: Tone { freq: (self.tone.freq / 256 * 256 + v) as u16, ..self.tone }, ..self }
        } else if addr == 0xff14 {
            let t = Tone {
                counter: v / 64 % 2 == 1,
                freq: (v % 8 * 256 + self.tone.freq % 256) as u16,
                ..self.tone
            };
            Sound { tone: t, pending: if v / 128 == 1 { Some(t) } else { self.pending }, ..self }
        } else {
            self
        }
    }

    pub fn on_write(&mut self, addr: u16, v: u8)
        requires
            old(self).wf(),
        ensures
            *final(self) == old(self).spec_write(addr, v),
            final(self).wf(),
    {
        if addr == 0xff10 {
            self.tone.sweep_time = v / 16 % 8;
            self.tone.sweep_sub = v / 8 % 2 == 1;
            self.tone.sweep_shift = v % 8;
        } else if addr == 0xff11 {
            self.tone.wave_duty = v / 64;
            self.tone.sound_len = v % 64;
        } else if addr == 0xff12 {
            self.tone.env_init = v / 16;
            self.tone.env_inc = v / 8 % 2 == 1;
            self.tone.env_count = v % 8;
            if v / 8 == 0 {
                self.stop_pending = true;
            }
        } else if addr == 0xff13 {
            self.tone.freq = self.tone.freq / 256 * 256 + v as u16;
        } else if addr == 0xff14 {
            self.tone.counter = v / 64 % 2 == 1;
            self.tone.freq = (v % 8) as u16 * 256 + self.tone.freq % 256;
            if v / 128 == 1 {
                self.pending = Some(self.tone);
            }
        }
    }

    /// Hand out the descriptor a trigger write left behind, if any.
    pub fn take_trigger(&mut self) -> (r: Option<Tone>)
        ensures
            r == old(self).pending,
            *final(self) == (Sound { pending: None, ..*old(self) }),
    {
        let r: Option<Tone> = self.pending;
        self.pending = None;
        r
    }

    /// Hand out the stop event a channel-disable write left behind.
    pub fn take_stop(&mut self) -> (r: bool)
        ensures
            r == old(self).stop_pending,
            *final(self) == (Sound { stop_pending: false, ..*old(self) }),
    {
        let r: bool = self.stop_pending;
        self.stop_pending = false;
        r
    }
}

} // verus!
