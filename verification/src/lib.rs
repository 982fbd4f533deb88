//! Core of a Game Boy (DMG) emulator: system bus, LR35902 CPU interpreter,
//! and the memory-mapped device fabric it drives.
//!
//! The crate models the address decoder with its boot-ROM overlay, the CPU
//! register file with its flag semantics, the primary and CB-prefixed
//! instruction sets, per-instruction T-cycle accounting, the PPU and audio
//! register files, and cartridge header parsing with checksum validation.
#![allow(non_snake_case)]

pub mod audio;
pub mod cart;
pub mod cpu;
pub mod io;
pub mod laws;
pub mod ppu;
pub mod system;
