//! Cycle-accurate emulation core for a classic 8-bit home console: a
//! 6502-family CPU, a pixel-clock picture processing unit, an MMC1/NROM
//! cartridge mapper, a sprite DMA engine, work RAM, and a controller latch.
pub mod console;
pub mod cpu;
pub mod dma;
pub mod joystick;
pub mod mapper;
pub mod memory;
pub mod ppu;
