pub mod addressable;
pub mod bits;
pub mod cpu;
pub mod gpu;
pub mod joypad;
pub mod mmu;
pub mod timer;
pub mod clock;
pub mod cartridge;
pub mod gameboy;
pub mod libgb;
pub mod prototype;

pub use crate::gpu::Theme;
