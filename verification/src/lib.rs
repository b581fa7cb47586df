//! A Game Boy emulator core: CPU, memory bus, cartridge controllers, timer,
//! joypad, interrupts and the picture processing unit, with their behaviour
//! stated in contracts.

pub mod gameboy;
