use vstd::prelude::*;
use crate::addressable::{word_of, low_byte, high_byte, lemma_word_roundtrip};
use crate::bits::{lemma_bits_pack, lemma_byte_fields, lemma_word_split};

verus! {

/// The flag register F: zero, subtract, half carry and carry.
#[derive(Debug, Clone, Copy, PartialEq, Eq, Structural)]
pub struct Flags {
    pub zero: bool,
    pub subtract: bool,
    pub half_carry: bool,
    pub carry: bool,
}

/// The F register byte of a set of flags: Z in bit 7, N in bit 6, H in bit 5, C in bit 4.
pub open spec fn flags_byte(f: Flags) -> u8 {
    ((f.zero as u8) << 7u8) | ((f.subtract as u8) << 6u8) | ((f.half_carry as u8) << 5u8) | ((
    f.carry as u8) << 4u8)
}

/// The flags that an F register byte holds; the low nibble is ignored.
pub open spec fn flags_of_byte(byte: u8) -> Flags {
    Flags {
        zero: (byte >> 7u8) & 1 != 0,
        subtract: (byte >> 6u8) & 1 != 0,
        half_carry: (byte >> 5u8) & 1 != 0,
        carry: (byte >> 4u8) & 1 != 0,
    }
}

impl Flags {
    pub fn zero() -> (f: Self)
        ensures
            !f.zero && !f.subtract && !f.half_carry && !f.carry,
    {
        Flags { zero: false, subtract: false, half_carry: false, carry: false }
    }

    pub fn set_z(&mut self, value: bool)
        ensures
            *final(self) == (Flags { zero: value, ..*old(self) }),
    {
        self.zero = value;
    }

    pub fn set_n(&mut self, value: bool)
        ensures
            *final(self) == (Flags { subtract: value, ..*old(self) }),
    {
        self.subtract = value;
    }

    pub fn set_h(&mut self, value: bool)
        ensures
            *final(self) == (Flags { half_carry: value, ..*old(self) }),
    {
        self.half_carry = value;
    }

    pub fn set_c(&mut self, value: bool)
        ensures
            *final(self) == (Flags { carry: value, ..*old(self) }),
    {
        self.carry = value;
    }

    /// The F register byte.
    pub fn to_byte(&self) -> (b: u8)
        ensures
            b == flags_byte(*self),
    {
        ((self.zero as u8) << 7) | ((self.subtract as u8) << 6) | ((self.half_carry as u8) << 5) | ((
        self.carry as u8) << 4)
    }

    /// The flags held in an F register byte.
    pub fn from_byte(byte: u8) -> (f: Self)
        ensures
            f == flags_of_byte(byte),
    {
        Flags {
            zero: (byte >> 7) & 1 != 0,
            subtract: (byte >> 6) & 1 != 0,
            half_carry: (byte >> 5) & 1 != 0,
            carry: (byte >> 4) & 1 != 0,
        }
    }
}

/// Reading the flags back from their F byte gives the same flags.
pub proof fn lemma_flags_roundtrip(f: Flags)
    ensures
        flags_of_byte(flags_byte(f)) == f,
{
    lemma_bits_pack(f.zero as u8, f.subtract as u8, f.half_carry as u8, f.carry as u8, 0, 0, 0, 0);
}

/// Rebuilding the F byte of the flags a byte holds keeps its high nibble and clears its low one.
pub proof fn lemma_flags_byte_of_byte(byte: u8)
    ensures
        flags_byte(flags_of_byte(byte)) == byte & 0xF0,
{
    let f = flags_of_byte(byte);
    lemma_byte_fields(byte);
    let (z, n, h, c) = (f.zero as u8, f.subtract as u8, f.half_carry as u8, f.carry as u8);
    assert(z == (byte >> 7u8) & 1);
    assert(n == (byte >> 6u8) & 1);
    assert(h == (byte >> 5u8) & 1);
    assert(c == (byte >> 4u8) & 1);

}

/// The CPU registers: the 8-bit registers, the flags, the stack pointer and the program counter.
#[derive(Debug, Clone, Copy, PartialEq, Eq, Structural)]
pub struct Registers {
    pub pc: u16,
    pub sp: u16,
    pub a: u8,
    pub b: u8,
    pub c: u8,
    pub d: u8,
    pub e: u8,
    pub h: u8,
    pub l: u8,
    pub f: Flags,
}

impl Registers {
    pub open spec fn spec_af(self) -> u16 {
        word_of(flags_byte(self.f), self.a)
    }

    pub open spec fn spec_bc(self) -> u16 {
        word_of(self.c, self.b)
    }

    pub open spec fn spec_de(self) -> u16 {
        word_of(self.e, self.d)
    }

    pub open spec fn spec_hl(self) -> u16 {
        word_of(self.l, self.h)
    }

    pub fn af(&self) -> (r: u16)
        ensures
            r == self.spec_af(),
    {
        let f = self.f.to_byte();
        (f as u16) | ((self.a as u16) << 8)
    }

    pub fn set_af(&mut self, value: u16)
        ensures
            *final(self) == (Registers {
                a: high_byte(value),
                f: flags_of_byte(low_byte(value)),
                ..*old(self)
            }),
    {
        self.a = (value >> 8) as u8;
        self.f = Flags::from_byte((value & 0xFF) as u8);
    }

    pub fn bc(&self) -> (r: u16)
        ensures
            r == self.spec_bc(),
    {
        (self.c as u16) | ((self.b as u16) << 8)
    }

    pub fn set_bc(&mut self, value: u16)
        ensures
            *final(self) == (Registers { b: high_byte(value), c: low_byte(value), ..*old(self) }),
    {
        self.b = (value >> 8) as u8;
        self.c = (value & 0xFF) as u8;
    }

    pub fn de(&self) -> (r: u16)
        ensures
            r == self.spec_de(),
    {
        (self.e as u16) | ((self.d as u16) << 8)
    }

    pub fn set_de(&mut self, value: u16)
        ensures
            *final(self) == (Registers { d: high_byte(value), e: low_byte(value), ..*old(self) }),
    {
        self.d = (value >> 8) as u8;
        self.e = (value & 0xFF) as u8;
    }

    pub fn hl(&self) -> (r: u16)
        ensures
            r == self.spec_hl(),
    {
        (self.l as u16) | ((self.h as u16) << 8)
    }

    pub fn set_hl(&mut self, value: u16)
        ensures
            *final(self) == (Registers { h: high_byte(value), l: low_byte(value), ..*old(self) }),
    {
        self.h = (value >> 8) as u8;
        self.l = (value & 0xFF) as u8;
    }
}

/// A register pair reads back the word written to it; AF keeps only the four flag bits of
/// its low byte.
pub proof fn lemma_register_pairs(r: Registers, value: u16)
    ensures
        (Registers { b: high_byte(value), c: low_byte(value), ..r }).spec_bc() == value,
        (Registers { d: high_byte(value), e: low_byte(value), ..r }).spec_de() == value,
        (Registers { h: high_byte(value), l: low_byte(value), ..r }).spec_hl() == value,
        (Registers { a: high_byte(value), f: flags_of_byte(low_byte(value)), ..r }).spec_af() == value
            & 0xFFF0,
{
    lemma_word_roundtrip(value);
    lemma_flags_byte_of_byte(low_byte(value));
    lemma_word_split(value);
}

} // verus!
