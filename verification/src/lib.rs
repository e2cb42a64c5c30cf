//! Core of a monochrome handheld-console emulator: CPU, memory bus,
//! scanline graphics unit, timer and bank-switched cartridges, with
//! machine-checked contracts on every component.
pub mod cartridge;
pub mod cpu;
pub mod device;
pub mod gpu;
pub mod instruction;
pub mod memory;
pub mod mmu;
pub mod timer;
