pub mod memory;
pub mod registers;
pub mod cartridge;
pub mod gfx;
pub mod interconnect;
pub mod irq;
pub mod joypad;
pub mod mbc;
pub mod memory_map;
pub mod mnemonics;
pub mod opcodes;
pub mod serial;
pub mod timer;
pub mod ui;
pub mod cpu;
pub mod gameboy;
pub mod disassembler;

pub use self::cartridge::{Cartridge, CartridgeDetails};
pub use self::cpu::{Cpu, CpuSpeed};
pub use self::disassembler::disassemble;
pub use self::gameboy::GameBoy;
pub use self::gfx::Frame;
pub use self::interconnect::Interconnect;
pub use self::irq::{Interrupt, Irq};
pub use self::joypad::{Joypad, JoypadButton};
pub use self::memory::Memory;
pub use self::timer::Timer;

use vstd::prelude::*;

verus! {

/// Clock rate of the CPU in cycles per second.
pub const CPU_FREQUENCY: usize = 0x400000;

/// Cycles run per frame at the 60 Hz refresh rate.
pub const MAX_CPU_CYCLES: usize = 69905;

/// Cycles per divider register period.
pub const MAX_DIV_REG_CYCLES: usize = 4369;

/// Width of the LCD in pixels.
pub const SCREEN_WIDTH: usize = 0xA0;

/// Height of the LCD in pixels.
pub const SCREEN_HEIGHT: usize = 0x90;

/// A frame's budget is a sixtieth of a second of CPU cycles, and the joypad
/// register is refreshed 64 times a second.
pub proof fn lemma_frame_budget()
    ensures
        MAX_CPU_CYCLES == CPU_FREQUENCY / 60,
        self::joypad::refresh_period() == CPU_FREQUENCY / 64,
{
}

} // verus!
