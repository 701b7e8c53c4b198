use vstd::prelude::*;
use crate::addressable::word_of;

pub mod interrupts;

verus! {

// Helpful constants for GB memory blocks
pub const VRAM_BEGIN: usize = 0x8000;
pub const VRAM_END: usize = 0x9FFF;
pub const VRAM_LEN: usize = VRAM_END - VRAM_BEGIN + 1;

pub const OAM_BEGIN: usize = 0xFE00;
pub const OAM_END: usize = 0xFE9F;

pub const INTERRUPT_FLAGS_ADDRESS: usize = 0xFF0F;
pub const INTERRUPT_ENABLE_ADDRESS: usize = 0xFFFF;

pub const UNDEFINED: u8 = 0xFF;

/// Byte-addressed memory that answers the addresses `mapped` names.
pub trait Memory: Sized {
    /// Whether the memory answers reads and accepts writes at `addr`.
    spec fn mapped(addr: u16) -> bool;

    /// The byte a read at `addr` returns.
    spec fn spec_read8(&self, addr: u16) -> u8;

    /// The memory after writing `value` at `addr`.
    spec fn spec_write8(&self, addr: u16, value: u8) -> Self;

    fn read8(&self, addr: u16) -> (r: u8)
        requires
            Self::mapped(addr),
        ensures
            r == self.spec_read8(addr),
    ;

    fn write8(&mut self, addr: u16, value: u8)
        requires
            Self::mapped(addr),
        ensures
            *final(self) == old(self).spec_write8(addr, value),
    ;

    /// Reads a little-endian word: the byte at `addr` is the low one.
    fn read16(&self, addr: u16) -> (r: u16)
        requires
            addr < 0xFFFF,
            Self::mapped(addr),
            Self::mapped((addr + 1) as u16),
        ensures
            r == word_of(self.spec_read8(addr), self.spec_read8((addr + 1) as u16)),
    {
        let lo = self.read8(addr);
        let hi = self.read8(addr + 1);
        lo as u16 | (hi as u16) << 8
    }

    /// Writes `value & 0xFF00` truncated to a byte (always zero) at `addr`, then the low byte
    /// of `value` at `addr + 1`.
    fn write16(&mut self, addr: u16, value: u16)
        requires
            addr < 0xFFFF,
            Self::mapped(addr),
            Self::mapped((addr + 1) as u16),
        ensures
            *final(self) == old(self).spec_write8(addr, (value & 0xFF00) as u8).spec_write8(
                (addr + 1) as u16,
                (value & 0x00FF) as u8,
            ),
            (value & 0xFF00) as u8 == 0,
    {
        proof {
            crate::bits::lemma_word_split(value);
        }
        self.write8(addr, (value & 0xFF00) as u8);
        self.write8(addr + 1, (value & 0x00FF) as u8);
    }
}

} // verus!
