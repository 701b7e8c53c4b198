use vstd::prelude::*;
use crate::bits::lemma_byte_fields;

verus! {

/// LCD Control Register
// Bit 7 - LCD Display Enable             (0=Off, 1=On)
// Bit 6 - Window Tile Map Display Select (0=9800-9BFF, 1=9C00-9FFF)
// Bit 5 - Window Display Enable          (0=Off, 1=On)
// Bit 4 - BG & Window Tile Data Select   (0=8800-97FF, 1=8000-8FFF)
// Bit 3 - BG Tile Map Display Select     (0=9800-9BFF, 1=9C00-9FFF)
// Bit 2 - OBJ (Sprite) Size              (0=8x8, 1=8x16)
// Bit 1 - OBJ (Sprite) Display Enable    (0=Off, 1=On)
// Bit 0 - BG Display (for CGB see below) (0=Off, 1=On)
#[derive(Debug, Clone, Copy, PartialEq, Eq, Structural)]
pub struct LCDC {
    // CAUTION: Stopping LCD operation (Bit 7 from 1 to 0) may be performed during V-Blank ONLY,
    // disabeling the display outside of the V-Blank period may damage the hardware. This appears
    // to be a serious issue, Nintendo is reported to reject any games that do not follow this rule.
    // V-blank can be confirmed when the value of LY is greater than or equal to 144. When the display
    // is disabled the screen is blank (white), and VRAM and OAM can be accessed freely.
    pub lcd_enable: bool,
    pub window_tile_map_display_select: bool,
    pub window_display_enable: bool,
    pub bg_window_tile_data_select: bool,
    pub bg_tile_map_display_select: bool,
    pub sprite_size: bool,
    pub sprite_display_enable: bool,
    pub bg_display: bool,
}

/// The register byte: LCD enable in bit 7 down to BG display in bit 0.
pub open spec fn lcdc_reg_byte(l: LCDC) -> u8 {
    ((l.lcd_enable as u8) << 7u8) | ((l.window_tile_map_display_select as u8) << 6u8) | ((
    l.window_display_enable as u8) << 5u8) | ((l.bg_window_tile_data_select as u8) << 4u8) | ((
    l.bg_tile_map_display_select as u8) << 3u8) | ((l.sprite_size as u8) << 2u8) | ((
    l.sprite_display_enable as u8) << 1u8) | (l.bg_display as u8)
}

/// The control value a register byte holds, one bit per flag.
pub open spec fn lcdc_reg_of_byte(byte: u8) -> LCDC {
    LCDC {
        lcd_enable: (byte >> 7u8) & 1 != 0,
        window_tile_map_display_select: (byte >> 6u8) & 1 != 0,
        window_display_enable: (byte >> 5u8) & 1 != 0,
        bg_window_tile_data_select: (byte >> 4u8) & 1 != 0,
        bg_tile_map_display_select: (byte >> 3u8) & 1 != 0,
        sprite_size: (byte >> 2u8) & 1 != 0,
        sprite_display_enable: (byte >> 1u8) & 1 != 0,
        bg_display: byte & 1 != 0,
    }
}

impl LCDC {
    /// Every flag off.
    pub fn new() -> (r: Self)
        ensures
            r == (LCDC {
                lcd_enable: false,
                window_tile_map_display_select: false,
                window_display_enable: false,
                bg_window_tile_data_select: false,
                bg_tile_map_display_select: false,
                sprite_size: false,
                sprite_display_enable: false,
                bg_display: false,
            }),
    {
        Self {
            lcd_enable: false,
            window_tile_map_display_select: false,
            window_display_enable: false,
            bg_window_tile_data_select: false,
            bg_tile_map_display_select: false,
            sprite_size: false,
            sprite_display_enable: false,
            bg_display: false,
        }
    }

    /// The register byte of this value.
    pub fn to_byte(self) -> (r: u8)
        ensures
            r == lcdc_reg_byte(self),
    {
        (self.lcd_enable as u8) << 7 | (self.window_tile_map_display_select as u8) << 6 | (
        self.window_display_enable as u8) << 5 | (self.bg_window_tile_data_select as u8) << 4 | (
        self.bg_tile_map_display_select as u8) << 3 | (self.sprite_size as u8) << 2 | (
        self.sprite_display_enable as u8) << 1 | (self.bg_display as u8)
    }

    /// The control value a register byte holds.
    pub fn from_byte(byte: u8) -> (r: Self)
        ensures
            r == lcdc_reg_of_byte(byte),
    {
        let lcd_enable = ((byte >> 7) & 1) != 0;
        let window_tile_map_display_select = ((byte >> 6) & 1) != 0;
        let window_display_enable = ((byte >> 5) & 1) != 0;
        let bg_window_tile_data_select = ((byte >> 4) & 1) != 0;
        let bg_tile_map_display_select = ((byte >> 3) & 1) != 0;
        let sprite_size = ((byte >> 2) & 1) != 0;
        let sprite_display_enable = ((byte >> 1) & 1) != 0;
        let bg_display = (byte & 1) != 0;
        LCDC {
            lcd_enable,
            window_tile_map_display_select,
            window_display_enable,
            bg_window_tile_data_select,
            bg_tile_map_display_select,
            sprite_size,
            sprite_display_enable,
            bg_display,
        }
    }
}

/// A control byte reads back unchanged.
pub proof fn lemma_lcdc_reg_roundtrip(byte: u8)
    ensures
        lcdc_reg_byte(lcdc_reg_of_byte(byte)) == byte,
{
    lemma_byte_fields(byte);
    assert((((byte >> 7u8) & 1 != 0) as u8) == (byte >> 7u8) & 1);
    assert((((byte >> 6u8) & 1 != 0) as u8) == (byte >> 6u8) & 1);
    assert((((byte >> 5u8) & 1 != 0) as u8) == (byte >> 5u8) & 1);
    assert((((byte >> 4u8) & 1 != 0) as u8) == (byte >> 4u8) & 1);
    assert((((byte >> 3u8) & 1 != 0) as u8) == (byte >> 3u8) & 1);
    assert((((byte >> 2u8) & 1 != 0) as u8) == (byte >> 2u8) & 1);
    assert((((byte >> 1u8) & 1 != 0) as u8) == (byte >> 1u8) & 1);
    assert(((byte & 1 != 0) as u8) == byte & 1);
}

} // verus!
