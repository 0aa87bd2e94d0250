//! Core of a Nintendo Entertainment System emulator: a cycle-level 6502 CPU
//! interpreter driven one microinstruction per tick, an address-decoded bus
//! fabric with pluggable devices, a PPU register facade with its own sub-bus,
//! and an iNES / NES 2.0 cartridge parser.

pub mod addressing;
pub mod bus;
pub mod cartridge;
pub mod cpu;
pub mod devices;
pub mod micro_instructions;
pub mod mirroring;
pub mod operations;
pub mod palette_ram;
pub mod ppu;
pub mod ppu_registers;
pub mod registers;
pub mod vram;
