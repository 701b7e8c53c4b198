use vstd::prelude::*;

verus! {

/// The little-endian word made of a low and a high byte.
pub open spec fn word_of(lo: u8, hi: u8) -> u16 {
    (lo as u16) | ((hi as u16) << 8u16)
}

/// The low byte of a word.
pub open spec fn low_byte(value: u16) -> u8 {
    (value & 0xFF) as u8
}

/// The high byte of a word.
pub open spec fn high_byte(value: u16) -> u8 {
    (value >> 8u16) as u8
}

/// Splitting a word into its bytes and joining them again gives the word back.
pub proof fn lemma_word_roundtrip(value: u16)
    ensures
        word_of(low_byte(value), high_byte(value)) == value,
{
    crate::bits::lemma_word_split(value);
}

/// Joining two bytes into a word and splitting it gives the bytes back.
pub proof fn lemma_bytes_roundtrip(lo: u8, hi: u8)
    ensures
        low_byte(word_of(lo, hi)) == lo,
        high_byte(word_of(lo, hi)) == hi,
{
    crate::bits::lemma_word_parts(lo, hi);
}

/// Byte-addressed memory: every read and write is described by the two spec functions.
pub trait Addressable: Sized {
    /// The byte that a read at `addr` returns.
    spec fn spec_read_byte(&self, addr: u16) -> u8;

    /// The state after writing `value` at `addr`.
    spec fn spec_write_byte(&self, addr: u16, value: u8) -> Self;

    /// Read a byte at the given address.
    fn read_byte(&self, addr: u16) -> (r: u8)
        ensures
            r == self.spec_read_byte(addr),
    ;

    /// Write a byte at the given address.
    fn write_byte(&mut self, addr: u16, value: u8)
        ensures
            *final(self) == old(self).spec_write_byte(addr, value),
    ;

    /// Read a little-endian word at the given address.
    fn read_word(&self, addr: u16) -> (r: u16)
        requires
            addr < 0xFFFF,
        ensures
            r == word_of(self.spec_read_byte(addr), self.spec_read_byte((addr + 1) as u16)),
    {
        let lo = self.read_byte(addr);
        let hi = self.read_byte(addr + 1);
        (lo as u16) | (hi as u16) << 8
    }

    /// Write a little-endian word at the given address: the low byte first.
    fn write_word(&mut self, addr: u16, value: u16)
        requires
            addr < 0xFFFF,
        ensures
            *final(self) == old(self).spec_write_byte(addr, low_byte(value)).spec_write_byte(
                (addr + 1) as u16,
                high_byte(value),
            ),
    {
        self.write_byte(addr, (value & 0xFF) as u8);
        self.write_byte(addr + 1, (value >> 8) as u8);
    }
}

} // verus!
