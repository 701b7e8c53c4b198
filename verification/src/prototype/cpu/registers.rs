use vstd::prelude::*;
use crate::addressable::{word_of, low_byte, high_byte, lemma_word_roundtrip};
use crate::bits::{lemma_byte_fields, lemma_word_parts, lemma_word_split};

verus! {

/// The flag register F: zero, subtract, half carry and carry in bits 7 to 4.
#[derive(Debug, Clone, Copy, PartialEq, Eq, Structural)]
pub struct FlagsReg {
    pub zero: bool,
    pub subtract: bool,
    pub half_carry: bool,
    pub carry: bool,
}

/// The byte of a flag register: the flags in bits 7 to 4, the low nibble clear.
pub open spec fn flags_byte(f: FlagsReg) -> u8 {
    ((f.zero as u8) << 7u8) | ((f.subtract as u8) << 6u8) | ((f.half_carry as u8) << 5u8) | ((
    f.carry as u8) << 4u8)
}

/// The flag register a byte holds: bits 7 to 4; the low nibble is ignored.
pub open spec fn flags_of_byte(byte: u8) -> FlagsReg {
    FlagsReg {
        zero: (byte >> 7u8) & 1 != 0,
        subtract: (byte >> 6u8) & 1 != 0,
        half_carry: (byte >> 5u8) & 1 != 0,
        carry: (byte >> 4u8) & 1 != 0,
    }
}

impl FlagsReg {
    /// Reset all the flags
    pub fn reset(&mut self)
        ensures
            *final(self) == (FlagsReg { zero: false, subtract: false, half_carry: false, carry: false }),
    {
        self.zero = false;
        self.subtract = false;
        self.half_carry = false;
        self.carry = false;
    }

    pub fn set_z(&mut self, zero: bool)
        ensures
            *final(self) == (FlagsReg { zero, ..*old(self) }),
    {
        self.zero = zero;
    }

    pub fn set_s(&mut self, subtract: bool)
        ensures
            *final(self) == (FlagsReg { subtract, ..*old(self) }),
    {
        self.subtract = subtract;
    }

    pub fn set_h(&mut self, half_carry: bool)
        ensures
            *final(self) == (FlagsReg { half_carry, ..*old(self) }),
    {
        self.half_carry = half_carry;
    }

    pub fn set_c(&mut self, carry: bool)
        ensures
            *final(self) == (FlagsReg { carry, ..*old(self) }),
    {
        self.carry = carry;
    }

    /// The byte of this flag register.
    pub fn to_byte(self) -> (r: u8)
        ensures
            r == flags_byte(self),
    {
        (self.zero as u8) << 7 | (self.subtract as u8) << 6 | (self.half_carry as u8) << 5 | (
        self.carry as u8) << 4
    }

    /// The flag register a byte holds.
    pub fn from_byte(byte: u8) -> (r: Self)
        ensures
            r == flags_of_byte(byte),
    {
        let zero = ((byte >> 7) & 1) != 0;
        let subtract = ((byte >> 6) & 1) != 0;
        let half_carry = ((byte >> 5) & 1) != 0;
        let carry = ((byte >> 4) & 1) != 0;
        FlagsReg { zero, subtract, half_carry, carry }
    }
}

/// The registers A, B, C, D, E, H, L and the flags.
#[derive(Debug, Clone, Copy, PartialEq, Eq, Structural)]
pub struct Registers {
    pub a: u8,
    pub b: u8,
    pub c: u8,
    pub d: u8,
    pub e: u8,
    pub h: u8,
    pub l: u8,
    pub f: FlagsReg,
}

impl Registers {
    /// All registers zero and all flags clear.
    pub open spec fn zeroed() -> Registers {
        Registers {
            a: 0,
            b: 0,
            c: 0,
            d: 0,
            e: 0,
            h: 0,
            l: 0,
            f: FlagsReg { zero: false, subtract: false, half_carry: false, carry: false },
        }
    }

    pub open spec fn spec_af(self) -> u16 {
        word_of(flags_byte(self.f), self.a)
    }

    pub open spec fn spec_bc(self) -> u16 {
        word_of(self.c, self.b)
    }

    pub open spec fn spec_de(self) -> u16 {
        word_of(self.e, self.d)
    }

    pub open spec fn spec_hl(self) -> u16 {
        word_of(self.l, self.h)
    }

    pub fn new() -> (r: Self)
        ensures
            r == Registers::zeroed(),
    {
        Self {
            a: 0,
            b: 0,
            c: 0,
            d: 0,
            e: 0,
            h: 0,
            l: 0,
            f: FlagsReg { zero: false, subtract: false, half_carry: false, carry: false },
        }
    }

    pub fn reset(&mut self)
        ensures
            *final(self) == Registers::zeroed(),
    {
        self.a = 0;
        self.b = 0;
        self.c = 0;
        self.d = 0;
        self.e = 0;
        self.h = 0;
        self.l = 0;
        self.f.reset();
    }

    pub fn af(&self) -> (r: u16)
        ensures
            r == self.spec_af(),
    {
        let f: u8 = self.f.to_byte();
        let a = self.a;
        proof {
            lemma_word_parts(f, a);
        }
        (self.a as u16) << 8 | f as u16
    }

    pub fn set_af(&mut self, value: u16)
        ensures
            *final(self) == (Registers { a: high_byte(value), f: flags_of_byte(low_byte(value)), ..*old(self) }),
    {
        self.a = ((value & 0xFF00) >> 8) as u8;
        self.f = FlagsReg::from_byte((value & 0xFF) as u8);
        proof {
            lemma_word_split(value);
        }
    }

    pub fn bc(&self) -> (r: u16)
        ensures
            r == self.spec_bc(),
    {
        let (hi, lo) = (self.b, self.c);
        proof {
            lemma_word_parts(lo, hi);
        }
        (self.b as u16) << 8 | self.c as u16
    }

    pub fn set_bc(&mut self, value: u16)
        ensures
            *final(self) == (Registers { b: high_byte(value), c: low_byte(value), ..*old(self) }),
    {
        self.b = ((value & 0xFF00) >> 8) as u8;
        self.c = (value & 0xFF) as u8;
        proof {
            lemma_word_split(value);
        }
    }

    pub fn de(&self) -> (r: u16)
        ensures
            r == self.spec_de(),
    {
        let (hi, lo) = (self.d, self.e);
        proof {
            lemma_word_parts(lo, hi);
        }
        (self.d as u16) << 8 | self.e as u16
    }

    pub fn set_de(&mut self, value: u16)
        ensures
            *final(self) == (Registers { d: high_byte(value), e: low_byte(value), ..*old(self) }),
    {
        self.d = ((value & 0xFF00) >> 8) as u8;
        self.e = (value & 0xFF) as u8;
        proof {
            lemma_word_split(value);
        }
    }

    pub fn hl(&self) -> (r: u16)
        ensures
            r == self.spec_hl(),
    {
        let (hi, lo) = (self.h, self.l);
        proof {
            lemma_word_parts(lo, hi);
        }
        ((self.h as u16) << 8) | (self.l as u16)
    }

    pub fn set_hl(&mut self, value: u16)
        ensures
            *final(self) == (Registers { h: high_byte(value), l: low_byte(value), ..*old(self) }),
    {
        self.h = ((value & 0xFF00) >> 8) as u8;
        self.l = (value & 0xFF) as u8;
        proof {
            lemma_word_split(value);
        }
    }
}

/// A register pair reads back the word written to it; AF keeps only the four flag bits of
/// its low byte.
pub proof fn lemma_pairs_roundtrip(r: Registers, value: u16)
    ensures
        (Registers { b: high_byte(value), c: low_byte(value), ..r }).spec_bc() == value,
        (Registers { d: high_byte(value), e: low_byte(value), ..r }).spec_de() == value,
        (Registers { h: high_byte(value), l: low_byte(value), ..r }).spec_hl() == value,
        (Registers { a: high_byte(value), f: flags_of_byte(low_byte(value)), ..r }).spec_af() == value
            & 0xFFF0,
{
    lemma_word_roundtrip(value);
    let b = low_byte(value);
    lemma_byte_fields(b);
    assert(flags_byte(flags_of_byte(b)) == b & 0xF0);
    lemma_word_split(value);
}

} // verus!
