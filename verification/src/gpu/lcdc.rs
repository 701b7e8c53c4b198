use vstd::prelude::*;
use crate::bits::{lemma_bits_pack, lemma_byte_fields};

verus! {

/// LCD Control Register
#[derive(Debug, Clone, Copy, PartialEq, Eq, Structural)]
pub struct Lcdc {
    /// Bit 7 - LCD Display Enable             (0=Off, 1=On)
    pub lcd_enable: bool,
    /// Bit 6 - Window Tile Map Display Select (0=9800-9BFF, 1=9C00-9FFF)
    pub window_tile_map_display_select: bool,
    /// Bit 5 - Window Display Enable          (0=Off, 1=On)
    pub window_display_enable: bool,
    /// Bit 4 - BG & Window Tile Data Select   (0=8800-97FF, 1=8000-8FFF)
    pub bg_window_tile_data_select: bool,
    /// Bit 3 - BG Tile Map Display Select     (0=9800-9BFF, 1=9C00-9FFF)
    pub bg_tile_map_display_select: bool,
    /// Bit 2 - OBJ (Sprite) Size              (0=8x8, 1=8x16)
    pub obj_size: bool,
    /// Bit 1 - OBJ (Sprite) Display Enable    (0=Off, 1=On)
    pub obj_display_enable: bool,
    /// Bit 0 - BG Display (for CGB see below) (0=Off, 1=On)
    pub bg_display: bool,
}

/// The LCDC register byte.
pub open spec fn lcdc_byte(l: Lcdc) -> u8 {
    ((l.lcd_enable as u8) << 7u8) | ((l.window_tile_map_display_select as u8) << 6u8) | ((
    l.window_display_enable as u8) << 5u8) | ((l.bg_window_tile_data_select as u8) << 4u8) | ((
    l.bg_tile_map_display_select as u8) << 3u8) | ((l.obj_size as u8) << 2u8) | ((
    l.obj_display_enable as u8) << 1u8) | (l.bg_display as u8)
}

/// The control settings an LCDC register byte describes.
pub open spec fn lcdc_of_byte(byte: u8) -> Lcdc {
    Lcdc {
        lcd_enable: (byte >> 7u8) & 1 != 0,
        window_tile_map_display_select: (byte >> 6u8) & 1 != 0,
        window_display_enable: (byte >> 5u8) & 1 != 0,
        bg_window_tile_data_select: (byte >> 4u8) & 1 != 0,
        bg_tile_map_display_select: (byte >> 3u8) & 1 != 0,
        obj_size: (byte >> 2u8) & 1 != 0,
        obj_display_enable: (byte >> 1u8) & 1 != 0,
        bg_display: byte & 1 != 0,
    }
}

impl Lcdc {
    pub fn new() -> (r: Self)
        ensures
            r == (Lcdc {
                lcd_enable: false,
                window_tile_map_display_select: true,
                window_display_enable: false,
                bg_window_tile_data_select: false,
                bg_tile_map_display_select: true,
                obj_size: false,
                obj_display_enable: false,
                bg_display: false,
            }),
            lcdc_byte(r) == 0b0100_1000,
    {
        assert(((0u8 << 7u8) | (1u8 << 6u8) | (0u8 << 5u8) | (0u8 << 4u8) | (1u8 << 3u8) | (0u8
            << 2u8) | (0u8 << 1u8) | 0u8) == 0b0100_1000u8) by (bit_vector);
        Self {
            lcd_enable: false,
            window_tile_map_display_select: true,
            window_display_enable: false,
            bg_window_tile_data_select: false,
            bg_tile_map_display_select: true,
            obj_size: false,
            obj_display_enable: false,
            bg_display: false,
        }
    }

    pub fn lcd_enabled(&self) -> (r: bool)
        ensures
            r == self.lcd_enable,
    {
        self.lcd_enable
    }

    /// The LCDC register byte.
    pub fn to_byte(&self) -> (r: u8)
        ensures
            r == lcdc_byte(*self),
    {
        ((self.lcd_enable as u8) << 7) | ((self.window_tile_map_display_select as u8) << 6) | ((
        self.window_display_enable as u8) << 5) | ((self.bg_window_tile_data_select as u8) << 4)
            | ((self.bg_tile_map_display_select as u8) << 3) | ((self.obj_size as u8) << 2) | ((
        self.obj_display_enable as u8) << 1) | (self.bg_display as u8)
    }

    /// The control settings an LCDC register byte describes.
    pub fn from_byte(byte: u8) -> (r: Self)
        ensures
            r == lcdc_of_byte(byte),
    {
        Lcdc {
            lcd_enable: ((byte >> 7) & 1) != 0,
            window_tile_map_display_select: ((byte >> 6) & 1) != 0,
            window_display_enable: ((byte >> 5) & 1) != 0,
            bg_window_tile_data_select: ((byte >> 4) & 1) != 0,
            bg_tile_map_display_select: ((byte >> 3) & 1) != 0,
            obj_size: ((byte >> 2) & 1) != 0,
            obj_display_enable: ((byte >> 1) & 1) != 0,
            bg_display: (byte & 1) != 0,
        }
    }
}

/// Encoding the settings a byte describes gives the byte back.
pub proof fn lemma_lcdc_byte_roundtrip(byte: u8)
    ensures
        lcdc_byte(lcdc_of_byte(byte)) == byte,
{
    lemma_byte_fields(byte);
}

/// Decoding the byte of the settings gives the settings back.
pub proof fn lemma_lcdc_roundtrip(l: Lcdc)
    ensures
        lcdc_of_byte(lcdc_byte(l)) == l,
{
    lemma_bits_pack(
        l.lcd_enable as u8,
        l.window_tile_map_display_select as u8,
        l.window_display_enable as u8,
        l.bg_window_tile_data_select as u8,
        l.bg_tile_map_display_select as u8,
        l.obj_size as u8,
        l.obj_display_enable as u8,
        l.bg_display as u8,
    );
}

} // verus!
