use vstd::prelude::*;
use crate::bits::lemma_byte_fields;
use super::color_id::{ColorId, id_value};

verus! {

#[derive(Debug, Clone, Copy, PartialEq, Eq, Structural)]
pub enum Theme {
    Grayscale,
    Green,
    PurpleYellow,
}

/// The RGBA colour of shade `shade` (0 = lightest .. 3 = darkest) in a theme.
pub open spec fn theme_rgba(theme: Theme, shade: u8) -> Seq<u8> {
    match theme {
        Theme::Grayscale => if shade == 0 {
            seq![255u8, 255, 255, 255]
        } else if shade == 1 {
            seq![192u8, 192, 192, 255]
        } else if shade == 2 {
            seq![96u8, 96, 96, 255]
        } else {
            seq![0u8, 0, 0, 255]
        },
        Theme::Green => if shade == 0 {
            seq![155u8, 188, 15, 255]
        } else if shade == 1 {
            seq![139u8, 172, 15, 255]
        } else if shade == 2 {
            seq![48u8, 98, 48, 255]
        } else {
            seq![15u8, 56, 15, 255]
        },
        Theme::PurpleYellow => if shade == 0 {
            seq![255u8, 255, 200, 255]
        } else if shade == 1 {
            seq![200u8, 150, 100, 255]
        } else if shade == 2 {
            seq![120u8, 80, 150, 255]
        } else {
            seq![60u8, 30, 80, 255]
        },
    }
}

impl Theme {
    /// RGBA colours for the four shades, lightest first.
    fn colors(&self) -> (r: [[u8; 4]; 4])
        ensures
            forall|i: int| 0 <= i < 4 ==> (#[trigger] r@[i])@ == theme_rgba(*self, i as u8),
    {
        let r = match self {
            Theme::Grayscale => [
                [255, 255, 255, 255],
                [192, 192, 192, 255],
                [96, 96, 96, 255],
                [0, 0, 0, 255],
            ],
            Theme::Green => [
                [155, 188, 15, 255],
                [139, 172, 15, 255],
                [48, 98, 48, 255],
                [15, 56, 15, 255],
            ],
            Theme::PurpleYellow => [
                [255, 255, 200, 255],
                [200, 150, 100, 255],
                [120, 80, 150, 255],
                [60, 30, 80, 255],
            ],
        };
        assert(r@[0]@ =~= theme_rgba(*self, 0));
        assert(r@[1]@ =~= theme_rgba(*self, 1));
        assert(r@[2]@ =~= theme_rgba(*self, 2));
        assert(r@[3]@ =~= theme_rgba(*self, 3));
        r
    }
}

/// The four shades of the monochrome display.
#[derive(Debug, Clone, Copy, PartialEq, Eq, Structural)]
pub enum Color {
    White,
    LightGray,
    DarkGray,
    Black,
}

/// The shade number of a colour (0 = white .. 3 = black).
pub open spec fn color_bits(c: Color) -> u8 {
    match c {
        Color::White => 0,
        Color::LightGray => 1,
        Color::DarkGray => 2,
        Color::Black => 3,
    }
}

/// The colour with shade number `bits`.
pub open spec fn color_of_bits(bits: u8) -> Color {
    if bits == 0 {
        Color::White
    } else if bits == 1 {
        Color::LightGray
    } else if bits == 2 {
        Color::DarkGray
    } else {
        Color::Black
    }
}

impl Color {
    /// The shade number of this colour.
    pub fn bits(&self) -> (r: u8)
        ensures
            r == color_bits(*self),
    {
        match self {
            Color::White => 0,
            Color::LightGray => 1,
            Color::DarkGray => 2,
            Color::Black => 3,
        }
    }

    /// Returns RGBA using the default grayscale theme.
    /// For theme-aware rendering, use ThemeManager::get_color_rgba instead.
    pub fn rgba(&self) -> (r: [u8; 4])
        ensures
            r@ == theme_rgba(Theme::Grayscale, color_bits(*self)),
    {
        let colors = Theme::Grayscale.colors();
        colors[self.bits() as usize]
    }

    pub fn from_bits(bits: u8) -> (r: Self)
        requires
            bits < 4,
        ensures
            r == color_of_bits(bits),
            color_bits(r) == bits,
    {
        if bits == 0b00 {
            Color::White
        } else if bits == 0b01 {
            Color::LightGray
        } else if bits == 0b10 {
            Color::DarkGray
        } else {
            Color::Black
        }
    }
}

#[derive(Debug)]
pub struct ThemeManager {
    current_theme: Theme,
}

impl ThemeManager {
    pub closed spec fn theme(&self) -> Theme {
        self.current_theme
    }

    pub fn new() -> (r: Self)
        ensures
            r.theme() == Theme::Grayscale,
    {
        Self { current_theme: Theme::Grayscale }
    }

    pub fn set_theme(&mut self, theme: Theme)
        ensures
            final(self).theme() == theme,
    {
        self.current_theme = theme;
    }

    pub fn get_theme(&self) -> (r: Theme)
        ensures
            r == self.theme(),
    {
        self.current_theme
    }

    pub fn get_color_rgba(&self, color: Color) -> (r: [u8; 4])
        ensures
            r@ == theme_rgba(self.theme(), color_bits(color)),
    {
        let colors = self.current_theme.colors();
        match color {
            Color::White => colors[0],
            Color::LightGray => colors[1],
            Color::DarkGray => colors[2],
            Color::Black => colors[3],
        }
    }
}

impl Default for ThemeManager {
    fn default() -> (r: Self)
        ensures
            r.theme() == Theme::Grayscale,
    {
        Self::new()
    }
}

/// A background palette (BGP): the shade of each colour number.
#[derive(Debug, Clone, Copy, PartialEq, Eq, Structural)]
pub struct Palette {
    id00: Color,
    id01: Color,
    id10: Color,
    id11: Color,
}

/// The BGP register byte of a palette: the shade of colour number k in bits 2k+1..2k.
pub closed spec fn palette_byte(p: Palette) -> u8 {
    color_bits(p.id00) | (color_bits(p.id01) << 2u8) | (color_bits(p.id10) << 4u8) | (color_bits(
        p.id11,
    ) << 6u8)
}

/// The shade a palette register byte gives to colour number `n`.
pub open spec fn shade_of(byte: u8, n: u8) -> u8 {
    (byte >> (2 * n) as u8) & 0b11
}

impl Palette {
    /// The colour a palette gives to a colour ID.
    pub closed spec fn color(self, id: ColorId) -> Color {
        match id {
            ColorId::Id00 => self.id00,
            ColorId::Id01 => self.id01,
            ColorId::Id10 => self.id10,
            ColorId::Id11 => self.id11,
        }
    }

    /// The palette that a BGP register byte describes.
    pub closed spec fn spec_from_byte(value: u8) -> Palette {
        Palette {
            id00: color_of_bits(value & 0b11),
            id01: color_of_bits((value >> 2u8) & 0b11),
            id10: color_of_bits((value >> 4u8) & 0b11),
            id11: color_of_bits((value >> 6u8) & 0b11),
        }
    }

    pub fn new() -> (r: Self)
        ensures
            palette_byte(r) == 0b11100100,
            forall|id: ColorId| color_bits(#[trigger] r.color(id)) == id_value(id),
    {
        let r = Self {
            id00: Color::White,
            id01: Color::LightGray,
            id10: Color::DarkGray,
            id11: Color::Black,
        };
        assert(palette_byte(r) == 0b11100100) by {
            assert((0u8 | (1u8 << 2u8) | (2u8 << 4u8) | (3u8 << 6u8)) == 0b11100100u8)
                by (bit_vector);
        }
        r
    }

    pub fn get_color(&self, id: ColorId) -> (r: Color)
        ensures
            r == self.color(id),
    {
        match id {
            ColorId::Id00 => self.id00,
            ColorId::Id01 => self.id01,
            ColorId::Id10 => self.id10,
            ColorId::Id11 => self.id11,
        }
    }

    /// Reads the BGP register; the palette answers at 0xFF47 only.
    pub fn read_byte(&self, addr: u16) -> (r: u8)
        requires
            addr == 0xFF47,
        ensures
            r == palette_byte(*self),
    {
        let mut value = self.id00.bits();
        value = value | (self.id01.bits() << 2);
        value = value | (self.id10.bits() << 4);
        value = value | (self.id11.bits() << 6);
        value
    }

    /// Writes the BGP register; the palette answers at 0xFF47 only.
    pub fn write_byte(&mut self, addr: u16, value: u8)
        requires
            addr == 0xFF47,
        ensures
            *final(self) == Palette::spec_from_byte(value),
    {
        proof {
            lemma_byte_fields(value);
        }
        self.id00 = Color::from_bits(value & 0b11);
        self.id01 = Color::from_bits((value >> 2) & 0b11);
        self.id10 = Color::from_bits((value >> 4) & 0b11);
        self.id11 = Color::from_bits((value >> 6) & 0b11);
    }
}

/// Reading the BGP register after writing it gives the written byte back.
pub proof fn lemma_palette_write_read(value: u8)
    ensures
        palette_byte(Palette::spec_from_byte(value)) == value,
{
    let (a, b, c, d) = (value & 0b11, (value >> 2u8) & 0b11, (value >> 4u8) & 0b11, (value >> 6u8)
        & 0b11);
    lemma_byte_fields(value);
}

/// Each colour ID gets the shade that its two bits of the register byte name.
pub proof fn lemma_palette_from_byte_color(value: u8, id: ColorId)
    ensures
        color_bits(Palette::spec_from_byte(value).color(id)) == shade_of(value, id_value(id)),
{
    lemma_byte_fields(value);
}

/// A palette register byte holds the shade of colour number `n` in bits `2n` and `2n + 1`:
/// the shade it gives an ID is the palette's colour for that ID.
pub proof fn lemma_palette_byte_shade(p: Palette, id: ColorId)
    ensures
        color_of_bits(shade_of(palette_byte(p), id_value(id))) == p.color(id),
{
    let (c0, c1, c2, c3) = (color_bits(p.id00), color_bits(p.id01), color_bits(p.id10), color_bits(p.id11));
    let b = palette_byte(p);
    assert(c0 <= 3 && c1 <= 3 && c2 <= 3 && c3 <= 3 && b == c0 | (c1 << 2u8) | (c2 << 4u8) | (c3 << 6u8) ==> (b >> 0u8)
        & 0b11 == c0 && (b >> 2u8) & 0b11 == c1 && (b >> 4u8) & 0b11 == c2 && (b >> 6u8) & 0b11 == c3) by (bit_vector);
}

} // verus!
