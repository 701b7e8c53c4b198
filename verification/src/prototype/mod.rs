//! The first design of the emulator: instruction decoding, a flat memory bus, register
//! files, interrupt vectors and a CPU that executes the 8-bit additions.

pub mod instruction;
pub mod registers;
pub mod cpu;
pub mod memory;
pub mod gpu;
pub mod mmu;
