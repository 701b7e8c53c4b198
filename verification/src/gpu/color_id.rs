use vstd::prelude::*;

verus! {

/// One of the two bit planes of a 2-bit colour ID.
#[derive(Debug, Clone, Copy, PartialEq, Eq, Structural)]
pub enum ColorBit {
    Hi,
    Lo,
}

/// A 2-bit colour number of a tile pixel.
#[derive(Debug, Clone, Copy, PartialEq, Eq, Structural)]
pub enum ColorId {
    Id00,
    Id01,
    Id10,
    Id11,
}

/// The colour number 0..3 of an ID.
pub open spec fn id_value(id: ColorId) -> u8 {
    match id {
        ColorId::Id00 => 0,
        ColorId::Id01 => 1,
        ColorId::Id10 => 2,
        ColorId::Id11 => 3,
    }
}

/// One bit of an ID: `Hi` is the high bit of the colour number, `Lo` the low bit.
pub open spec fn id_bit(id: ColorId, bit: ColorBit) -> bool {
    match bit {
        ColorBit::Hi => id_value(id) >= 2,
        ColorBit::Lo => id_value(id) % 2 == 1,
    }
}

/// The ID with the given high and low bits.
pub open spec fn id_from_bits(hi: bool, lo: bool) -> ColorId {
    if hi {
        if lo { ColorId::Id11 } else { ColorId::Id10 }
    } else {
        if lo { ColorId::Id01 } else { ColorId::Id00 }
    }
}

impl ColorId {
    pub fn from_bits(hi: bool, lo: bool) -> (r: Self)
        ensures
            r == id_from_bits(hi, lo),
            id_bit(r, ColorBit::Hi) == hi,
            id_bit(r, ColorBit::Lo) == lo,
            id_value(r) == (if hi { 2u8 } else { 0u8 }) + (if lo { 1u8 } else { 0u8 }),
    {
        match (hi, lo) {
            (false, false) => Self::Id00,
            (false, true) => Self::Id01,
            (true, false) => Self::Id10,
            (true, true) => Self::Id11,
        }
    }

    pub fn get_bit(&self, bit: ColorBit) -> (r: bool)
        ensures
            r == id_bit(*self, bit),
    {
        match self {
            ColorId::Id01 => match bit {
                ColorBit::Hi => false,
                ColorBit::Lo => true,
            },
            ColorId::Id10 => match bit {
                ColorBit::Hi => true,
                ColorBit::Lo => false,
            },
            ColorId::Id00 => false,
            ColorId::Id11 => true,
        }
    }

    /// Sets one bit of the colour number and keeps the other.
    pub fn set_bit(&mut self, bit: ColorBit, value: bool)
        ensures
            id_bit(*final(self), bit) == value,
            bit == ColorBit::Hi ==> id_bit(*final(self), ColorBit::Lo) == id_bit(*old(self), ColorBit::Lo),
            bit == ColorBit::Lo ==> id_bit(*final(self), ColorBit::Hi) == id_bit(*old(self), ColorBit::Hi),
    {
        match bit {
            ColorBit::Hi => {
                *self = ColorId::from_bits(value, self.get_bit(ColorBit::Lo));
            },
            ColorBit::Lo => {
                *self = ColorId::from_bits(self.get_bit(ColorBit::Hi), value);
            },
        }
    }
}

/// An ID is determined by its two bits.
pub proof fn lemma_id_bits_determine(x: ColorId, y: ColorId)
    requires
        id_bit(x, ColorBit::Hi) == id_bit(y, ColorBit::Hi),
        id_bit(x, ColorBit::Lo) == id_bit(y, ColorBit::Lo),
    ensures
        x == y,
{
}

} // verus!
