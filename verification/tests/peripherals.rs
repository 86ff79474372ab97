//! Tests of the timer, GPU cadence, joypad, serial, sound decode and the
//! system orchestrator.

use rgy::gpu::Gpu;
use rgy::mmu::Mmu;
use rgy::sound::Tone;
use rgy::timer::Timer;
use rgy::{Button, Config, Hardware, NullDebugger, System};

fn plain_rom() -> Vec<u8> {
    let mut rom = vec![0u8; 0x8000];
    rom[0x147] = 0x01;
    rom
}

#[test]
fn timer_overflow_after_exact_cycles() {
    let mut t = Timer::new();
    t.on_write(0xff06, 0xf0);
    t.on_write(0xff05, 0xf0);
    t.on_write(0xff07, 0x05);
    // (0x100 - 0xF0) * 16 = 256 cycles to the overflow, not one earlier.
    assert!(!t.step(255));
    assert!(t.step(1));
    assert_eq!(t.tima, 0xf0);
}

#[test]
fn timer_div_resets_on_write() {
    let mut t = Timer::new();
    t.step(1024);
    assert_eq!(t.on_read(0xff04), 4);
    t.on_write(0xff04, 0x55);
    assert_eq!(t.on_read(0xff04), 0);
}

#[test]
fn ly_cadence_repeats() {
    let mut g = Gpu::new();
    for line in 0..154u32 {
        assert_eq!(g.ly as u32, line);
        g.step(456);
    }
    // The sequence starts over.
    assert_eq!(g.ly, 0);
    g.step(456);
    assert_eq!(g.ly, 1);
}

#[test]
fn gpu_mode_sequence_within_line() {
    let mut g = Gpu::new();
    assert_eq!(g.mode(), 2);
    g.step(80);
    assert_eq!(g.mode(), 3);
    g.step(172);
    assert_eq!(g.mode(), 0);
    g.step(204);
    assert_eq!(g.mode(), 2);
    assert_eq!(g.ly, 1);
}

#[test]
fn gpu_vblank_interrupt_on_line_144() {
    let mut g = Gpu::new();
    let mut vblank_raised = false;
    for _ in 0..144 {
        let (irq, _) = g.step(456);
        if irq & 1 != 0 {
            vblank_raised = true;
        }
    }
    assert!(vblank_raised);
    assert_eq!(g.ly, 144);
    assert_eq!(g.mode(), 1);
}

#[test]
fn joypad_selected_column_reads_low() {
    let mut mmu = Mmu::new(plain_rom(), vec![0u8; 0x10000], Vec::new());
    // Select the direction column (bit 4 low).
    mmu.write8(0xff00, 0x20);
    let irq = mmu.joypad.set_keys(0x01, 0x00);
    assert!(irq);
    // Right pressed: bit 0 reads low; the rest read high.
    assert_eq!(mmu.read8(0xff00), 0xee);
    // Releasing raises nothing.
    assert!(!mmu.joypad.set_keys(0x00, 0x00));
    assert_eq!(mmu.read8(0xff00), 0xef);
}

#[test]
fn serial_transfer_completes() {
    let mut mmu = Mmu::new(plain_rom(), vec![0u8; 0x10000], Vec::new());
    mmu.write8(0xff01, 0x42);
    mmu.write8(0xff02, 0x81);
    let irq = mmu.serial.step(512);
    assert!(irq);
    // No link partner: the data register reads FF, the start bit clears.
    assert_eq!(mmu.read8(0xff01), 0xff);
    assert_eq!(mmu.read8(0xff02), 0x01);
}

#[test]
fn sound_trigger_builds_descriptor() {
    let mut mmu = Mmu::new(plain_rom(), vec![0u8; 0x10000], Vec::new());
    mmu.write8(0xff10, 0x34);
    mmu.write8(0xff11, 0x9a);
    mmu.write8(0xff12, 0xf3);
    mmu.write8(0xff13, 0x21);
    mmu.write8(0xff14, 0x86);
    let tone: Tone = mmu.sound.take_trigger().expect("trigger pending");
    assert_eq!(tone.sweep_time, 3);
    assert!(!tone.sweep_sub);
    assert_eq!(tone.sweep_shift, 4);
    assert_eq!(tone.wave_duty, 2);
    assert_eq!(tone.sound_len, 0x1a);
    assert_eq!(tone.env_init, 0xf);
    assert!(!tone.env_inc);
    assert_eq!(tone.env_count, 3);
    assert!(!tone.counter);
    assert_eq!(tone.freq, 0x621);
    // The descriptor is handed out once.
    assert!(mmu.sound.take_trigger().is_none());
}

#[test]
fn sound_disable_leaves_stop_event() {
    let mut mmu = Mmu::new(plain_rom(), vec![0u8; 0x10000], Vec::new());
    assert!(!mmu.sound.take_stop());
    // Envelope write with volume and increase clear: the channel's DAC
    // goes off and the speaker is owed a stop.
    mmu.write8(0xff12, 0x00);
    assert!(mmu.sound.take_stop());
    // The event is handed out once.
    assert!(!mmu.sound.take_stop());
    // A live envelope leaves no stop behind.
    mmu.write8(0xff12, 0xf3);
    assert!(!mmu.sound.take_stop());
}

struct TestHw {
    polls: usize,
    lines: usize,
    tones: usize,
}

impl Hardware for TestHw {
    fn sched(&mut self) -> bool {
        self.polls += 1;
        true
    }

    fn video_send(&mut self, _line: u8, pixels: &Vec<u32>) {
        assert_eq!(pixels.len(), 160);
        self.lines += 1;
    }

    fn joypad_pressed(&mut self, _button: Button) -> bool {
        false
    }

    fn sound_play(&mut self, _tone: &Tone) {
        self.tones += 1;
    }

    fn sound_stop(&mut self) {}

    fn clock(&mut self) -> u64 {
        0
    }

    fn load_ram(&mut self, size: usize) -> Vec<u8> {
        vec![0u8; size]
    }

    fn save_ram(&mut self, _ram: &Vec<u8>) {}
}

#[test]
fn system_polls_and_renders() {
    let mut rom = plain_rom();
    // A tight loop of NOPs with a jump back.
    rom[0x102] = 0xc3;
    rom[0x103] = 0x00;
    rom[0x104] = 0x01;
    let cfg = Config::new().native_speed(true);
    let hw = TestHw { polls: 0, lines: 0, tones: 0 };
    let mut sys: System<TestHw, NullDebugger> =
        System::new(cfg, &rom, vec![0u8; 0x10000], hw, NullDebugger);
    assert!(sys.poll(true));
    assert_eq!(sys.cpu.pc, 0x101);
    assert_eq!(sys.mmu_get8(0x100), 0x00);
    // A frame's worth of steps crosses many H-blanks: lines get rendered.
    for _ in 0..20000 {
        assert!(sys.poll(true));
    }
    assert!(sys.hw.lines > 100);
    assert!(sys.hw.polls > 0);
}

struct QuitHw {
    remaining: usize,
}

impl Hardware for QuitHw {
    fn sched(&mut self) -> bool {
        if self.remaining == 0 {
            return false;
        }
        self.remaining -= 1;
        true
    }

    fn video_send(&mut self, _line: u8, _pixels: &Vec<u32>) {}

    fn joypad_pressed(&mut self, _button: Button) -> bool {
        false
    }

    fn sound_play(&mut self, _tone: &Tone) {}

    fn sound_stop(&mut self) {}

    fn clock(&mut self) -> u64 {
        0
    }

    fn load_ram(&mut self, size: usize) -> Vec<u8> {
        vec![0u8; size]
    }

    fn save_ram(&mut self, _ram: &Vec<u8>) {}
}

#[test]
fn run_stops_when_host_declines() {
    let rom = plain_rom();
    rgy::run(Config::new(), &rom, QuitHw { remaining: 3 });
}

#[test]
fn config_builders_keep_fields() {
    let cfg = Config::new()
        .freq(1000)
        .sample(100)
        .delay_unit(7)
        .native_speed(true);
    assert_eq!(cfg.freq, 1000);
    assert_eq!(cfg.sample, 100);
    assert_eq!(cfg.delay_unit, 7);
    assert_eq!(cfg.delay_unit, 7);
    assert!(cfg.native_speed);
}

#[test]
fn mmu_get16_is_little_endian() {
    let mut rom = plain_rom();
    rom[0x200] = 0x34;
    rom[0x201] = 0x12;
    let cfg = Config::new().native_speed(true);
    let hw = TestHw { polls: 0, lines: 0, tones: 0 };
    let sys: System<TestHw, NullDebugger> =
        System::new(cfg, &rom, vec![0u8; 0x10000], hw, NullDebugger);
    assert_eq!(sys.mmu_get16(0x200), 0x1234);
    assert_eq!(sys.mmu_dump().len(), 0x10000);
}
