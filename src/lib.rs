//! Core of a cycle-driven NES emulator: the 6502 CPU, the picture unit, the
//! two address buses, the cartridge mappers and the controller ports.

pub mod apu;
pub mod error;
pub mod rom;
pub mod mmc;
pub mod joypad;
pub mod bus;
pub mod frame;
pub mod palette;
pub mod ppu;
pub mod cpu;
pub mod nes;
pub mod cpu_laws;
