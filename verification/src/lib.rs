//! Core of an emulator for an 8-bit handheld console built around the Sharp
//! LR35902 processor: flag and register files, the instruction decoder, the
//! region-routed memory bus and the executor that runs one instruction at a
//! time.
pub mod alu;
pub mod cpu;
pub mod flags;
pub mod gpu;
pub mod instructions;
pub mod memory_bus;
pub mod memory_map;
pub mod registers;
pub mod word;
