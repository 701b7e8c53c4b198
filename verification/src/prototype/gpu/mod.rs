use vstd::prelude::*;
use vstd::array::spec_array_update;
use crate::gpu::stat::{Stat, stat_byte, stat_after_write};
use crate::prototype::memory::Memory;
use self::lcdc::{LCDC, lcdc_reg_byte, lcdc_reg_of_byte};

pub mod lcdc;

verus! {

pub const SCREEN_WIDTH: usize = 160;

pub const SCREEN_HEIGHT: usize = 144;

/// The video unit: VRAM and OAM as plain bytes, the LCD registers and a line counter.
#[derive(Debug, Clone, Copy)]
pub struct GPU {
    // Digital image with RGB. Size = 144 * 160 * 3.
    pub screen: [u8; 69120],
    pub vram: [u8; 0x2000],
    pub lcdc: LCDC,
    pub stat: Stat,
    pub vblank: bool,
    pub hblank: bool,
    // Specifies the position in the 256x256 pixels BG map (32x32 tiles) which is to be displayed at the upper/left LCD
    // display position. Values in range from 0-255 may be used for X/Y each, the video controller automatically wraps
    // back to the upper (left) position in BG map when drawing exceeds the lower (right) border of the BG map area.
    pub sx: u8,
    pub sy: u8,
    // The LY indicates the vertical line to which the present data is transferred to the LCD Driver. The LY can
    // take on any value between 0 through 153. The values between 144 and 153 indicate the V-Blank period. Writing
    // will reset the counter.
    pub ly: u8,
    // The gameboy permanently compares the value of the LYC and LY registers. When both values are identical, the
    // coincident bit in the STAT register becomes set, and (if enabled) a STAT interrupt is requested.
    pub lyc: u8,
    //  This register assigns gray shades to the color numbers of the BG and Window tiles.
    pub bgp: u8,
    // This register assigns gray shades for sprite palette 0.
    pub op0: u8,
    // This register assigns gray shades for sprite palette 1.
    pub op1: u8,
    // Window x and y
    pub wx: u8,
    pub wy: u8,
    // Sprite attributes of up to 40 sprites.
    pub oam: [u8; 0xA0],
    /// Clock cycles into the current line.
    pub dots: u32,
}

impl GPU {
    /// Whether a step of `cycles` keeps the dot clock inside `u32`.
    pub open spec fn step_ok(self, cycles: u32) -> bool {
        self.dots + cycles <= u32::MAX
    }

    /// A step of `cycles`: the dot clock advances, and each time it reaches 456 a line ends;
    /// reaching line 144 starts V-Blank, and after line 153 the count starts again at 0.
    pub open spec fn spec_step(self, cycles: u32) -> GPU {
        let dots = (self.dots + cycles) as u32;
        if dots >= 456 {
            let ly = self.ly.wrapping_add(1);
            let g = GPU { dots: (dots - 456) as u32, ly, ..self };
            if ly == 144 {
                GPU { vblank: true, stat: Stat { vblank_interrupt: true, ..self.stat }, ..g }
            } else if ly > 153 {
                GPU { ly: 0, vblank: false, stat: Stat { vblank_interrupt: false, ..self.stat }, ..g }
            } else {
                g
            }
        } else {
            GPU { dots, ..self }
        }
    }

    pub fn new() -> (r: Self)
        ensures
            r.ly == 0 && r.lyc == 0 && r.sx == 0 && r.sy == 0 && r.wx == 0 && r.wy == 0,
            r.bgp == 0 && r.op0 == 0 && r.op1 == 1,
            !r.vblank && !r.hblank,
            r.lcdc == (LCDC {
                lcd_enable: false,
                window_tile_map_display_select: false,
                window_display_enable: false,
                bg_window_tile_data_select: false,
                bg_tile_map_display_select: false,
                sprite_size: false,
                sprite_display_enable: false,
                bg_display: false,
            }),
            r.dots == 0,
            forall|i: int| 0 <= i < 0x2000 ==> #[trigger] r.vram[i] == 0,
            forall|i: int| 0 <= i < 0xA0 ==> #[trigger] r.oam[i] == 0,
            forall|i: int| 0 <= i < 69120 ==> #[trigger] r.screen[i] == 0,
    {
        Self {
            vram: [0; 0x2000],
            screen: [0; 69120],
            vblank: false,
            hblank: false,
            lcdc: LCDC::new(),
            stat: Stat::new(),
            sx: 0,
            sy: 0,
            ly: 0,
            lyc: 0,
            bgp: 0,
            op0: 0,
            op1: 1,
            wx: 0,
            wy: 0,
            oam: [0; 0xA0],
            dots: 0,
        }
    }

    /// Whether `step_ok` holds, computed.
    pub fn can_step(&self, cycles: u32) -> (r: bool)
        ensures
            r == self.step_ok(cycles),
    {
        self.dots <= u32::MAX - cycles
    }

    /// Advances the dot clock by `cycles` clock cycles.
    pub fn step(&mut self, cycles: u32)
        requires
            old(self).step_ok(cycles),
        ensures
            *final(self) == old(self).spec_step(cycles),
    {
        self.dots = self.dots + cycles;
        if self.dots >= 456 {
            self.dots = self.dots - 456;
            self.ly = self.ly.wrapping_add(1);
            if self.ly == 144 {
                self.vblank = true;
                self.stat.vblank_interrupt = true;
            } else if self.ly > 153 {
                self.ly = 0;
                self.vblank = false;
                self.stat.vblank_interrupt = false;
            }
        }
    }

    /// Background drawing, not written yet: the state stays as it was.
    fn render_bg(&mut self)
        ensures
            *final(self) == *old(self),
    {
    }
}

/// Whether the video unit answers `addr`: VRAM, OAM and the LCD registers but DMA.
pub open spec fn is_video_addr(addr: u16) -> bool {
    (0x8000 <= addr <= 0x9FFF) || (0xFE00 <= addr <= 0xFE9F) || (0xFF40 <= addr <= 0xFF4B && addr != 0xFF46)
}

impl Memory for GPU {
    open spec fn mapped(addr: u16) -> bool {
        is_video_addr(addr)
    }

    open spec fn spec_read8(&self, addr: u16) -> u8 {
        if 0x8000 <= addr <= 0x9FFF {
            self.vram[addr - 0x8000]
        } else if 0xFE00 <= addr <= 0xFE9F {
            self.oam[addr - 0xFE00]
        } else if addr == 0xFF40 {
            lcdc_reg_byte(self.lcdc)
        } else if addr == 0xFF41 {
            stat_byte(self.stat)
        } else if addr == 0xFF42 {
            self.sy
        } else if addr == 0xFF43 {
            self.sx
        } else if addr == 0xFF44 {
            self.ly
        } else if addr == 0xFF45 {
            self.lyc
        } else if addr == 0xFF47 {
            self.bgp
        } else if addr == 0xFF48 {
            self.op0
        } else if addr == 0xFF49 {
            self.op1
        } else if addr == 0xFF4A {
            self.wy
        } else {
            self.wx
        }
    }

    open spec fn spec_write8(&self, addr: u16, value: u8) -> GPU {
        if 0x8000 <= addr <= 0x9FFF {
            GPU { vram: spec_array_update(self.vram, addr - 0x8000, value), ..*self }
        } else if 0xFE00 <= addr <= 0xFE9F {
            GPU { oam: spec_array_update(self.oam, addr - 0xFE00, value), ..*self }
        } else if addr == 0xFF40 {
            GPU { lcdc: lcdc_reg_of_byte(value), ..*self }
        } else if addr == 0xFF41 {
            GPU { stat: stat_after_write(self.stat, value), ..*self }
        } else if addr == 0xFF42 {
            GPU { sy: value, ..*self }
        } else if addr == 0xFF43 {
            GPU { sx: value, ..*self }
        } else if addr == 0xFF44 {
            GPU { ly: value, ..*self }
        } else if addr == 0xFF45 {
            GPU { lyc: value, ..*self }
        } else if addr == 0xFF47 {
            GPU { bgp: value, ..*self }
        } else if addr == 0xFF48 {
            GPU { op0: value, ..*self }
        } else if addr == 0xFF49 {
            GPU { op1: value, ..*self }
        } else if addr == 0xFF4A {
            GPU { wy: value, ..*self }
        } else {
            GPU { wx: value, ..*self }
        }
    }

    fn read8(&self, addr: u16) -> (r: u8) {
        if 0x8000 <= addr && addr <= 0x9FFF {
            self.vram[(addr - 0x8000) as usize]
        } else if 0xFE00 <= addr && addr <= 0xFE9F {
            self.oam[(addr - 0xFE00) as usize]
        } else if addr == 0xFF40 {
            self.lcdc.to_byte()
        } else if addr == 0xFF41 {
            self.stat.to_byte()
        } else if addr == 0xFF42 {
            self.sy
        } else if addr == 0xFF43 {
            self.sx
        } else if addr == 0xFF44 {
            self.ly
        } else if addr == 0xFF45 {
            self.lyc
        } else if addr == 0xFF47 {
            self.bgp
        } else if addr == 0xFF48 {
            self.op0
        } else if addr == 0xFF49 {
            self.op1
        } else if addr == 0xFF4A {
            self.wy
        } else {
            self.wx
        }
    }

    fn write8(&mut self, addr: u16, value: u8) {
        if 0x8000 <= addr && addr <= 0x9FFF {
            self.vram[(addr - 0x8000) as usize] = value;
            assert(self.vram =~= old(self).spec_write8(addr, value).vram);
        } else if 0xFE00 <= addr && addr <= 0xFE9F {
            self.oam[(addr - 0xFE00) as usize] = value;
            assert(self.oam =~= old(self).spec_write8(addr, value).oam);
        } else if addr == 0xFF40 {
            self.lcdc = LCDC::from_byte(value);
        } else if addr == 0xFF41 {
            self.stat.write_byte(value);
        } else if addr == 0xFF42 {
            self.sy = value;
        } else if addr == 0xFF43 {
            self.sx = value;
        } else if addr == 0xFF44 {
            self.ly = value;
        } else if addr == 0xFF45 {
            self.lyc = value;
        } else if addr == 0xFF47 {
            self.bgp = value;
        } else if addr == 0xFF48 {
            self.op0 = value;
        } else if addr == 0xFF49 {
            self.op1 = value;
        } else if addr == 0xFF4A {
            self.wy = value;
        } else {
            self.wx = value;
        }
    }
}

/// Each step moves the line counter on by at most one line, keeps it within 0-153, and V-Blank
/// is flagged exactly when the step reaches line 144.
pub proof fn lemma_gpu_step_lines(g: GPU, cycles: u32)
    requires
        g.ly <= 153,
    ensures
        g.spec_step(cycles).ly <= 153,
        g.spec_step(cycles).ly == g.ly || g.spec_step(cycles).ly == (g.ly + 1) % 154,
        (g.spec_step(cycles).ly == 144 && g.ly == 143) ==> g.spec_step(cycles).vblank,
{
}

} // verus!
