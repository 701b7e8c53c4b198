use vstd::prelude::*;
use crate::mmu::{OAM_BEGIN, OAM_END};

verus! {

/// One of the 40 sprites of the object attribute memory.
#[derive(Debug, Clone, Copy, PartialEq, Eq, Structural)]
pub struct Sprite {
    /// byte 0
    pub y_pos: u8,
    /// byte 1
    pub x_pos: u8,
    /// byte 2
    pub tile_index: u8,
    // Byte 3: bit 7 priority, 6 y flip, 5 x flip, 4 DMG palette, 3 VRAM bank, 2-0 CGB palette.
    /// 0 = No, 1 = BG and Window colors 1-3 are drawn over this OBJ
    pub priority: bool,
    /// 1 = Entire OBJ is vertically mirrored
    pub y_flip: bool,
    /// 1 = Entire OBJ is horizontally mirrored
    pub x_flip: bool,
    /// DMG palette: 0 = OBP0, 1 = OBP1
    pub palette: bool,
    /// CGB: 0 = Fetch tile from VRAM bank 0, 1 = Fetch tile from VRAM bank 1
    pub bank: bool,
    /// CGB: Which of OBP0-7 to use
    pub cgb_palette: u8,
}

/// The attribute byte (byte 3) of a sprite.
pub open spec fn flags_byte(s: Sprite) -> u8 {
    ((s.priority as u8) << 7u8) | ((s.y_flip as u8) << 6u8) | ((s.x_flip as u8) << 5u8) | ((
    s.palette as u8) << 4u8) | ((s.bank as u8) << 3u8) | (s.cgb_palette & 0b111)
}

/// The sprite with its attributes taken from an attribute byte.
pub open spec fn with_flags(s: Sprite, value: u8) -> Sprite {
    Sprite {
        priority: (value >> 7u8) & 1 != 0,
        y_flip: (value >> 6u8) & 1 != 0,
        x_flip: (value >> 5u8) & 1 != 0,
        palette: (value >> 4u8) & 1 != 0,
        bank: (value >> 3u8) & 1 != 0,
        cgb_palette: value & 0b111,
        ..s
    }
}

impl Sprite {
    pub fn new() -> (r: Self)
        ensures
            r == (Sprite {
                y_pos: 0,
                x_pos: 0,
                tile_index: 0,
                priority: false,
                y_flip: false,
                x_flip: false,
                palette: false,
                bank: false,
                cgb_palette: 0,
            }),
    {
        Sprite {
            y_pos: 0,
            x_pos: 0,
            tile_index: 0,
            priority: false,
            y_flip: false,
            x_flip: false,
            palette: false,
            bank: false,
            cgb_palette: 0,
        }
    }

    pub fn set_flags_from_byte(&mut self, value: u8)
        ensures
            *final(self) == with_flags(*old(self), value),
    {
        self.priority = ((value >> 7) & 1) != 0;
        self.y_flip = ((value >> 6) & 1) != 0;
        self.x_flip = ((value >> 5) & 1) != 0;
        self.palette = ((value >> 4) & 1) != 0;
        self.bank = ((value >> 3) & 1) != 0;
        self.cgb_palette = value & 0b111;
    }

    pub fn get_flags_byte(&self) -> (r: u8)
        ensures
            r == flags_byte(*self),
    {
        let mut value = 0u8;
        value = value | ((self.priority as u8) << 7);
        value = value | ((self.y_flip as u8) << 6);
        value = value | ((self.x_flip as u8) << 5);
        value = value | ((self.palette as u8) << 4);
        value = value | ((self.bank as u8) << 3);
        value = value | (self.cgb_palette & 0b111);
        proof {
            let (p, y, x, l, b, c) = (self.priority as u8, self.y_flip as u8, self.x_flip as u8,
                self.palette as u8, self.bank as u8, self.cgb_palette);
            assert(((((((0u8 | (p << 7u8)) | (y << 6u8)) | (x << 5u8)) | (l << 4u8)) | (b << 3u8)) | (c
                & 0b111)) == (p << 7u8) | (y << 6u8) | (x << 5u8) | (l << 4u8) | (b << 3u8) | (c
                & 0b111)) by (bit_vector);
        }
        value
    }
}

/// Reading the attribute byte after setting it from a byte gives the byte back.
pub proof fn lemma_sprite_flags_roundtrip(s: Sprite, value: u8)
    ensures
        flags_byte(with_flags(s, value)) == value,
{
    assert((value >> 7u8) & 1 <= 1 && (value >> 6u8) & 1 <= 1 && (value >> 5u8) & 1 <= 1 && (value
        >> 4u8) & 1 <= 1 && (value >> 3u8) & 1 <= 1) by (bit_vector);
    assert(((((value >> 7u8) & 1) << 7u8) | (((value >> 6u8) & 1) << 6u8) | (((value >> 5u8) & 1)
        << 5u8) | (((value >> 4u8) & 1) << 4u8) | (((value >> 3u8) & 1) << 3u8) | ((value & 0b111)
        & 0b111)) == value) by (bit_vector);
}

pub open spec fn is_oam_addr(addr: u16) -> bool {
    OAM_BEGIN <= addr <= OAM_END
}

/// Object attribute memory: 40 sprites of four bytes each.
#[derive(Debug, Clone, Copy)]
pub struct Oam(pub [Sprite; 40]);

impl Oam {
    /// The byte at an OAM address. Positions are stored relative to the screen: the Y byte
    /// reads back 16 more, the X byte 8 more.
    pub open spec fn spec_read_byte(self, addr: u16) -> u8 {
        let offset = addr - OAM_BEGIN;
        let sprite = self.0[offset / 4];
        if offset % 4 == 0 {
            sprite.y_pos.wrapping_add(16)
        } else if offset % 4 == 1 {
            sprite.x_pos.wrapping_add(8)
        } else if offset % 4 == 2 {
            sprite.tile_index
        } else {
            flags_byte(sprite)
        }
    }

    /// The state after a write at an OAM address.
    pub open spec fn spec_write_byte(self, addr: u16, value: u8) -> Oam {
        let offset = addr - OAM_BEGIN;
        let i = offset / 4;
        let sprite = self.0[i];
        let new_sprite = if offset % 4 == 0 {
            Sprite { y_pos: value.wrapping_sub(16), ..sprite }
        } else if offset % 4 == 1 {
            Sprite { x_pos: value.wrapping_sub(8), ..sprite }
        } else if offset % 4 == 2 {
            Sprite { tile_index: value, ..sprite }
        } else {
            with_flags(sprite, value)
        };
        Oam(spec_sprites_update(self.0, i, new_sprite))
    }

    pub fn new() -> (r: Self)
        ensures
            forall|i: int| 0 <= i < 40 ==> r.0[i] == Sprite::new_spec(),
    {
        Self([Sprite::new(); 40])
    }

    pub fn get_sprites(&self) -> (r: [Sprite; 40])
        ensures
            r == self.0,
    {
        self.0
    }

    pub fn read_byte(&self, addr: u16) -> (r: u8)
        requires
            is_oam_addr(addr),
        ensures
            r == self.spec_read_byte(addr),
    {
        let offset = (addr - OAM_BEGIN) as usize;
        let sprite = self.0[offset / 4];
        if offset % 4 == 0 {
            sprite.y_pos.wrapping_add(16)
        } else if offset % 4 == 1 {
            sprite.x_pos.wrapping_add(8)
        } else if offset % 4 == 2 {
            sprite.tile_index
        } else {
            sprite.get_flags_byte()
        }
    }

    pub fn write_byte(&mut self, addr: u16, value: u8)
        requires
            is_oam_addr(addr),
        ensures
            *final(self) == old(self).spec_write_byte(addr, value),
    {
        let offset = (addr - OAM_BEGIN) as usize;
        let mut sprite = self.0[offset / 4];
        if offset % 4 == 0 {
            sprite.y_pos = value.wrapping_sub(16);
        } else if offset % 4 == 1 {
            sprite.x_pos = value.wrapping_sub(8);
        } else if offset % 4 == 2 {
            sprite.tile_index = value;
        } else {
            sprite.set_flags_from_byte(value);
        }
        self.0[offset / 4] = sprite;
        assert(self.0@ =~= spec_sprites_update(old(self).0, (offset / 4) as int, sprite)@);
    }
}

impl Sprite {
    pub open spec fn new_spec() -> Sprite {
        Sprite {
            y_pos: 0,
            x_pos: 0,
            tile_index: 0,
            priority: false,
            y_flip: false,
            x_flip: false,
            palette: false,
            bank: false,
            cgb_palette: 0,
        }
    }
}

/// The sprite array with entry `i` replaced.
pub open spec fn spec_sprites_update(sprites: [Sprite; 40], i: int, s: Sprite) -> [Sprite; 40] {
    vstd::array::spec_array_update(sprites, i, s)
}

/// Reading an OAM byte after writing it gives the byte back.
pub proof fn lemma_oam_write_read(o: Oam, addr: u16, value: u8)
    requires
        is_oam_addr(addr),
    ensures
        o.spec_write_byte(addr, value).spec_read_byte(addr) == value,
{
    let offset = addr - OAM_BEGIN;
    lemma_sprite_flags_roundtrip(o.0[offset / 4], value);
}

/// A write to one OAM byte leaves every other OAM byte as it reads.
pub proof fn lemma_oam_write_other(o: Oam, addr: u16, value: u8, other: u16)
    requires
        is_oam_addr(addr),
        is_oam_addr(other),
        addr != other,
    ensures
        o.spec_write_byte(addr, value).spec_read_byte(other) == o.spec_read_byte(other),
{
}

} // verus!
