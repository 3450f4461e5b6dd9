//! Cycle-accurate core of an emulator for the DMG handheld: CPU, bus,
//! cartridge controllers, PPU, timer, interrupt controller and joypad.

pub mod cart;
pub mod cpu;
pub mod debug;
pub mod dma;
pub mod exec;
pub mod gameboy;
pub mod intr;
pub mod joypad;
pub mod mem;
pub mod ppu;
pub mod serial;
pub mod timer;
