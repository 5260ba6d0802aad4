//! A cycle-stepped emulator core for a classic 8-bit handheld console:
//! register file, arithmetic/logic unit, banked cartridge, memory bus,
//! timer, video controller and the instruction-dispatch engine.

pub mod util;
pub mod instructions;
pub mod registers;
pub mod alu;
pub mod cartridge;
pub mod timer;
pub mod ppu;
pub mod mmu;
pub mod cpu;
