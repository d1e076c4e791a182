//! Core of an NES emulator: a 6502 CPU interpreter, the address-mapped
//! memory bus, and a scanline-driven PPU, together with the 3:1 clock
//! coupling that ties them into frames.

pub mod flags;
pub mod alu;
pub mod memory;
pub mod cpu;
pub mod ppu;
pub mod nes;
