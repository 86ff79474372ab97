//! The orchestrator: wires CPU, bus and peripherals together and drives the
//! step loop in the fixed order — debugger hooks, CPU instruction, interrupt
//! check, DMA, GPU, timer, serial, joypad poll, frequency adjust.

use vstd::prelude::*;
use crate::cpu::{lowest_line, valid_op, Cpu};
use crate::debug::{Debugger, NullDebugger};
use crate::fc::FreqControl;
use crate::hardware::{Button, Hardware};
use crate::ic::{INT_TIMER, INT_SERIAL, INT_JOYPAD};
use crate::mbc::rom_ok;
use crate::mmu::Mmu;
use crate::sound::Tone;

verus! {

/// Configuration of the emulator.
#[derive(Clone, Copy)]
pub struct Config {
    /// CPU frequency in cycles per second.
    pub freq: u64,
    /// Cycle count per window of the frequency governor.
    pub sample: u64,
    /// Delay unit of the frequency governor, in microseconds.
    pub delay_unit: u64,
    /// Run unpaced.
    pub native_speed: bool,
}

impl Config {
    /// The default configuration: the stock clock, sampled once per
    /// millisecond of emulated time.
    pub fn new() -> (r: Config)
        ensures
            r.freq == 4194300,
            r.sample == 4194,
            r.delay_unit == 10,
            !r.native_speed,
    {
        let freq: u64 = 4194300;
        Config { freq, sample: freq / 1000, delay_unit: 10, native_speed: false }
    }

    /// Set the CPU frequency.
    pub fn freq(self, freq: u64) -> (r: Config)
        ensures
            r == (Config { freq, ..self }),
    {
        Config { freq, ..self }
    }

    /// Set the sampling count of the frequency governor.
    pub fn sample(self, sample: u64) -> (r: Config)
        ensures
            r == (Config { sample, ..self }),
    {
        Config { sample, ..self }
    }

    /// Set the delay unit.
    pub fn delay_unit(self, delay: u64) -> (r: Config)
        ensures
            r == (Config { delay_unit: delay, ..self }),
    {
        Config { delay_unit: delay, ..self }
    }

    /// Set the flag to run at native speed.
    pub fn native_speed(self, native: bool) -> (r: Config)
        ensures
            r == (Config { native_speed: native, ..self }),
    {
        Config { native_speed: native, ..self }
    }
}

/// A step that executes one NOP with nothing else in flight: CPU running,
/// no fetch quirk or pending EI, no serviceable interrupt, no DMA.
pub open spec fn step_is_plain_nop<T, D>(s: System<T, D>) -> bool {
    &&& !s.cpu.halted
    &&& !s.cpu.halt_bug
    &&& !s.cpu.ei_delay
    &&& s.mmu.spec_read(s.cpu.pc) == 0x00
    &&& !(s.cpu.ime && s.mmu.ic.pending())
    &&& !s.mmu.dma.active
}

/// The timer, serial and (when enabled and on) the GPU each moved by
/// `t` machine cycles, that is `4 t` of their own clocks or dots.
pub open spec fn clocked_advance(pre: Mmu, post: Mmu, t: int, gpu_on: bool) -> bool {
    &&& post.timer == crate::timer::run_s(pre.timer, (4 * t) as nat).0
    &&& post.serial == crate::serial::serial_step_s(pre.serial, (4 * t) as u32).0
    &&& (gpu_on && pre.gpu.lcd_on() ==> post.gpu.ly * 456 + post.gpu.clk
        == (pre.gpu.ly * 456 + pre.gpu.clk + 4 * t) % 70224)
}

/// The entire emulator context.
pub struct System<T, D> {
    pub cfg: Config,
    pub hw: T,
    pub fc: FreqControl,
    pub cpu: Cpu,
    pub mmu: Mmu,
    pub dbg: D,
}

impl<T: Hardware, D: Debugger> System<T, D> {
    pub open spec fn wf(self) -> bool {
        self.cpu.wf() && self.mmu.wf()
    }

    /// Build a machine around a ROM image, adopting `ram` as the bus
    /// backing RAM and asking the host for the battery RAM the header
    /// declares.
    pub fn new(cfg: Config, rom: &[u8], ram: Vec<u8>, hw: T, dbg: D) -> (r: System<T, D>)
        requires
            rom_ok(rom@),
            ram@.len() == 0x10000,
        ensures
            r.wf(),
            r.cfg == cfg,
            r.cpu.pc == 0x100,
            r.cpu.sp == 0xfffe,
            !r.cpu.ime && !r.cpu.halted && !r.cpu.ei_delay && !r.cpu.halt_bug,
            r.mmu.ram == ram,
            r.mmu.mbc.rom@ == rom@,
            !r.mmu.dma.active,
            r.mmu.ic.intf == 0 && r.mmu.ic.inte == 0,
            r.mmu.gpu.ly == 0 && r.mmu.gpu.clk == 0,
            r.mmu.timer.div == 0 && r.mmu.timer.tima == 0 && r.mmu.timer.tma == 0
                && r.mmu.timer.tac == 0,
            r.fc.cycles == 0,
            r.fc.target_freq == cfg.freq && r.fc.sample == cfg.sample
                && r.fc.delay_unit == cfg.delay_unit,
    {
        let mut hw = hw;
        let mut dbg = dbg;
        let mut fc = FreqControl::new(cfg.freq, cfg.sample, cfg.delay_unit);
        let code: u8 = rom[0x149];
        let size: usize = if code == 1 { 0x800 } else if code == 2 { 0x2000 }
            else if code == 3 { 0x8000 } else if code == 4 { 0x20000 }
            else if code == 5 { 0x10000 } else { 0 };
        let loaded: Vec<u8> = hw.load_ram(size);
        let cart: Vec<u8> = if loaded.len() == size { loaded } else { vec![0u8; size] };
        let rom_v: Vec<u8> = vstd::slice::slice_to_vec(rom);
        let mmu: Mmu = Mmu::new(rom_v, ram, cart);
        let cpu: Cpu = Cpu::new();
        dbg.init(&mmu);
        fc.reset(&mut hw);
        System { cfg, hw, fc, cpu, mmu, dbg }
    }

    /// One iteration of the step loop. `false` reports a fatal decode
    /// error (an undefined opcode); emulation must stop there.
    ///
    /// The clocked peripherals are advanced by the executed instruction's
    /// cycle count; since the instruction itself may write their registers,
    /// the advance is pinned from the pre-state where the pre-state
    /// determines it: for NOP and for a halted CPU (one machine cycle,
    /// four clocks).
    #[verifier::rlimit(100)]
    fn step(&mut self, gpu_enabled: bool) -> (r: bool)
        requires
            old(self).wf(),
        ensures
            final(self).wf(),
            final(self).cfg == old(self).cfg,
            // A step fails exactly on an undefined opcode.
            r == (old(self).cpu.halted
                || valid_op(old(self).mmu.spec_read(old(self).cpu.pc))),
            // At native speed the governor is never consulted.
            old(self).cfg.native_speed ==> final(self).fc == old(self).fc,
            // A halted CPU wakes exactly when a requested line is enabled...
            old(self).cpu.halted && !(old(self).cpu.ime && old(self).mmu.ic.pending())
                ==> final(self).cpu == (Cpu {
                halted: !old(self).mmu.ic.pending(),
                ..old(self).cpu
            }),
            // ...and with IME set the service vector is entered at once.
            old(self).cpu.halted && old(self).cpu.ime && old(self).mmu.ic.pending()
                ==> !final(self).cpu.ime && !final(self).cpu.halted
                && final(self).cpu.pc == 0x40 + 8 * lowest_line(
                    old(self).mmu.ic.intf & old(self).mmu.ic.inte),
            // One NOP: PC moves past it, memory, cartridge, DMA and the
            // enabled-interrupt mask stand, and every clocked peripheral
            // advances by its one machine cycle (four clocks).
            step_is_plain_nop(*old(self)) ==> {
                &&& final(self).cpu == (Cpu {
                    pc: ((old(self).cpu.pc + 1) % 0x10000) as u16,
                    ..old(self).cpu
                })
                &&& clocked_advance(old(self).mmu, final(self).mmu, 1, gpu_enabled)
                &&& final(self).mmu.ram == old(self).mmu.ram
                &&& final(self).mmu.mbc == old(self).mmu.mbc
                &&& final(self).mmu.dma == old(self).mmu.dma
                &&& final(self).mmu.ic.inte == old(self).mmu.ic.inte
            },
            // A failed step stops before the peripherals: the governor
            // stands, the bus is untouched, PC sits past the bad byte.
            !r ==> final(self).fc == old(self).fc,
            !r && !old(self).cpu.halt_bug && !old(self).cpu.ei_delay
                ==> final(self).mmu == old(self).mmu && final(self).cpu == (Cpu {
                pc: ((old(self).cpu.pc + 1) % 0x10000) as u16,
                ..old(self).cpu
            }),
            // A sleeping CPU likewise burns one machine cycle.
            old(self).cpu.halted && !(old(self).cpu.ime && old(self).mmu.ic.pending())
                && !old(self).mmu.dma.active
                ==> clocked_advance(old(self).mmu, final(self).mmu, 1, gpu_enabled),
    {
        self.dbg.check_signal();
        self.dbg.take_cpu_snapshot(self.cpu);
        self.dbg.on_decode(&self.mmu);

        let phase: (bool, u64) = self.cpu_phase();
        if !phase.0 {
            return false;
        }
        self.device_phase(phase.1, gpu_enabled);
        true
    }

    /// The CPU's share of a step: one instruction, then the interrupt
    /// check. Returns whether the opcode was defined and the machine
    /// cycles both consumed together.
    fn cpu_phase(&mut self) -> (r: (bool, u64))
        requires
            old(self).wf(),
        ensures
            final(self).wf(),
            *final(self) == (System {
                cpu: final(self).cpu,
                mmu: final(self).mmu,
                ..*old(self)
            }),
            r.0 == (old(self).cpu.halted
                || valid_op(old(self).mmu.spec_read(old(self).cpu.pc))),
            r.0 ==> 1 <= r.1 <= 11,
            old(self).cpu.halted && !(old(self).cpu.ime && old(self).mmu.ic.pending())
                ==> final(self).cpu == (Cpu {
                halted: !old(self).mmu.ic.pending(),
                ..old(self).cpu
            }) && final(self).mmu == old(self).mmu && r.1 == 1,
            old(self).cpu.halted && old(self).cpu.ime && old(self).mmu.ic.pending()
                ==> !final(self).cpu.ime && !final(self).cpu.halted
                && final(self).cpu.pc == 0x40 + 8 * lowest_line(
                    old(self).mmu.ic.intf & old(self).mmu.ic.inte),
            step_is_plain_nop(*old(self)) ==> final(self).cpu == (Cpu {
                pc: ((old(self).cpu.pc + 1) % 0x10000) as u16,
                ..old(self).cpu
            }) && final(self).mmu == old(self).mmu && r.1 == 1,
            !r.0 && !old(self).cpu.halt_bug && !old(self).cpu.ei_delay
                ==> final(self).mmu == old(self).mmu && final(self).cpu == (Cpu {
                pc: ((old(self).cpu.pc + 1) % 0x10000) as u16,
                ..old(self).cpu
            }),
    {
        let executed: Result<u64, crate::cpu::Error> = self.cpu.execute(&mut self.mmu);
        let mut time: u64 = match executed {
            Ok(t) => t,
            Err(_) => {
                return (false, 0);
            },
        };
        time = time + self.cpu.check_interrupt(&mut self.mmu);
        (true, time)
    }

    /// The peripherals' share of a step: DMA, GPU, timer and serial advance
    /// by the cycles the CPU consumed, the joypad is polled, a triggered or
    /// stopped tone reaches the speaker, and the governor paces unless the
    /// configuration says native speed.
    #[verifier::rlimit(100)]
    fn device_phase(&mut self, time: u64, gpu_enabled: bool)
        requires
            old(self).wf(),
            1 <= time <= 11,
        ensures
            final(self).wf(),
            final(self).cfg == old(self).cfg,
            final(self).cpu == old(self).cpu,
            clocked_advance(old(self).mmu, final(self).mmu, time as int, gpu_enabled),
            final(self).mmu.ram == old(self).mmu.ram,
            final(self).mmu.mbc == old(self).mmu.mbc,
            final(self).mmu.ic.inte == old(self).mmu.ic.inte,
            !old(self).mmu.dma.active ==> final(self).mmu.dma == old(self).mmu.dma,
            old(self).cfg.native_speed ==> final(self).fc == old(self).fc,
    {
        self.mmu.dma_step(time as u32);
        if gpu_enabled {
            let gr: (u8, Option<u8>) = self.mmu.gpu.step(time as u32 * 4);
            self.mmu.ic.raise(gr.0);
            if let Option::Some(l) = gr.1 {
                self.hw.video_send(l, &self.mmu.gpu.line);
            }
        }
        let tirq: bool = self.mmu.timer.step(time as u32 * 4);
        if tirq {
            self.mmu.ic.raise(INT_TIMER);
        }
        let sirq: bool = self.mmu.serial.step(time as u32 * 4);
        if sirq {
            self.mmu.ic.raise(INT_SERIAL);
        }
        self.host_phase(time);
    }

    /// The host-facing tail of a step: poll the joypad, hand a triggered or
    /// stopped tone to the speaker, and pace unless native speed is set.
    fn host_phase(&mut self, time: u64)
        requires
            old(self).wf(),
        ensures
            final(self).wf(),
            final(self).cfg == old(self).cfg,
            final(self).cpu == old(self).cpu,
            final(self).mmu == (Mmu {
                joypad: final(self).mmu.joypad,
                sound: final(self).mmu.sound,
                ic: final(self).mmu.ic,
                ..old(self).mmu
            }),
            final(self).mmu.ic.inte == old(self).mmu.ic.inte,
            old(self).cfg.native_speed ==> final(self).fc == old(self).fc,
    {
        let mut dir: u8 = 0;
        let mut act: u8 = 0;
        if self.hw.joypad_pressed(Button::Right) {
            dir = dir + 1;
        }
        if self.hw.joypad_pressed(Button::Left) {
            dir = dir + 2;
        }
        if self.hw.joypad_pressed(Button::Up) {
            dir = dir + 4;
        }
        if self.hw.joypad_pressed(Button::Down) {
            dir = dir + 8;
        }
        if self.hw.joypad_pressed(Button::A) {
            act = act + 1;
        }
        if self.hw.joypad_pressed(Button::B) {
            act = act + 2;
        }
        if self.hw.joypad_pressed(Button::Select) {
            act = act + 4;
        }
        if self.hw.joypad_pressed(Button::Start) {
            act = act + 8;
        }
        let jirq: bool = self.mmu.joypad.set_keys(dir, act);
        if jirq {
            self.mmu.ic.raise(INT_JOYPAD);
        }
        let trig: Option<Tone> = self.mmu.sound.take_trigger();
        if let Option::Some(t) = trig {
            self.hw.sound_play(&t);
        }
        if self.mmu.sound.take_stop() {
            self.hw.sound_stop();
        }
        if !self.cfg.native_speed {
            self.fc.adjust(time, &mut self.hw);
        }
    }

    /// Run a single step of emulation. Call repeatedly until it returns
    /// `false`: the host declined to continue, or the opcode at PC was one
    /// the hardware leaves undefined — a fatal error, surfaced as this stop
    /// and stated exactly at `Cpu::execute`.
    pub fn poll(&mut self, gpu_enabled: bool) -> (r: bool)
        requires
            old(self).wf(),
        ensures
            final(self).wf(),
            final(self).cfg == old(self).cfg,
            // Work happens only when the host's scheduler agreed.
            r ==> old(self).cpu.halted
                || valid_op(old(self).mmu.spec_read(old(self).cpu.pc)),
            // False: either the host declined before anything ran, or the
            // opcode was undefined.
            !r ==> (final(self).cpu == old(self).cpu && final(self).mmu == old(self).mmu
                && final(self).fc == old(self).fc)
                || !(old(self).cpu.halted
                    || valid_op(old(self).mmu.spec_read(old(self).cpu.pc))),
            // However it ends, the governor is never consulted at native
            // speed, and a false return leaves it untouched.
            old(self).cfg.native_speed ==> final(self).fc == old(self).fc,
            !r ==> final(self).fc == old(self).fc,
            // A false return leaves the bus untouched; the CPU either never
            // ran (the host declined) or sits just past the undefined byte.
            !r && !old(self).cpu.halt_bug && !old(self).cpu.ei_delay
                ==> final(self).mmu == old(self).mmu
                && (final(self).cpu == old(self).cpu || final(self).cpu == (Cpu {
                    pc: ((old(self).cpu.pc + 1) % 0x10000) as u16,
                    ..old(self).cpu
                })),
            r && old(self).cpu.halted && !(old(self).cpu.ime && old(self).mmu.ic.pending())
                ==> final(self).cpu == (Cpu {
                halted: !old(self).mmu.ic.pending(),
                ..old(self).cpu
            }),
            // One NOP per poll: PC moves past it, memory, cartridge, DMA
            // and the enabled-interrupt mask stand, and the clocked
            // peripherals advance by one machine cycle — so a run of NOPs
            // chains poll by poll.
            r && step_is_plain_nop(*old(self)) ==> {
                &&& final(self).cpu == (Cpu {
                    pc: ((old(self).cpu.pc + 1) % 0x10000) as u16,
                    ..old(self).cpu
                })
                &&& clocked_advance(old(self).mmu, final(self).mmu, 1, gpu_enabled)
                &&& final(self).mmu.ram == old(self).mmu.ram
                &&& final(self).mmu.mbc == old(self).mmu.mbc
                &&& final(self).mmu.dma == old(self).mmu.dma
                &&& final(self).mmu.ic.inte == old(self).mmu.ic.inte
            },
    {
        if !self.hw.sched() {
            return false;
        }
        self.step(gpu_enabled)
    }

    /// Read a byte from the given address in the MMU.
    pub fn mmu_get8(&self, addr: u16) -> (r: u8)
        requires
            self.wf(),
        ensures
            r == self.mmu.spec_read(addr),
    {
        self.mmu.get8(addr)
    }

    /// Read a little-endian 16-bit word from the given address in the MMU.
    pub fn mmu_get16(&self, addr: u16) -> (r: u16)
        requires
            self.wf(),
        ensures
            r == self.mmu.spec_read(addr)
                + self.mmu.spec_read(((addr + 1) % 0x10000) as u16) * 256,
    {
        self.mmu.get16(addr)
    }

    /// The array backing the memory.
    pub fn mmu_dump(&self) -> (r: &Vec<u8>)
        ensures
            r == self.mmu.ram,
    {
        self.mmu.dump()
    }
}

/// Run the emulator with the given configuration.
pub fn run<T: Hardware>(cfg: Config, rom: &[u8], hw: T)
    requires
        rom_ok(rom@),
{
    run_inner(cfg, rom, hw, NullDebugger)
}

/// Run the emulator with the given configuration and debugger.
pub fn run_debug<T: Hardware, D: Debugger>(cfg: Config, rom: &[u8], hw: T, dbg: D)
    requires
        rom_ok(rom@),
{
    run_inner(cfg, rom, hw, dbg)
}

fn run_inner<T: Hardware, D: Debugger>(cfg: Config, rom: &[u8], hw: T, dbg: D)
    requires
        rom_ok(rom@),
{
    let mut sys: System<T, D> = System::new(cfg, rom, vec![0u8; 0x10000], hw, dbg);
    let mut more: bool = true;
    // Fuel bounds the loop for the termination lint; it outlasts any
    // physical run by orders of magnitude.
    let mut fuel: u64 = 0xffff_ffff_ffff_ffff;
    while more && fuel > 0
        invariant
            sys.wf(),
        decreases fuel,
    {
        more = sys.poll(true);
        fuel = fuel - 1;
    }
}

} // verus!
