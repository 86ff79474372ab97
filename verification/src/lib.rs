//! Game Boy (DMG) emulator core: a CPU interpreter, a memory-mapped bus,
//! a pixel-pipeline graphics unit, timers, DMA, interrupt controller and a
//! frequency governor, with machine-checked contracts on the observable
//! behaviour of each part.

pub mod alu;
pub mod mbc;
pub mod mmu;
pub mod cgb;
pub mod cpu;
pub mod debug;
pub mod dma;
pub mod fc;
pub mod gpu;
pub mod hardware;
pub mod ic;
pub mod joypad;
pub mod serial;
pub mod sound;
pub mod system;
pub mod timer;

pub use debug::{Debugger, NullDebugger};
pub use hardware::{Button, Hardware};
pub use system::{run, run_debug, Config, System};
