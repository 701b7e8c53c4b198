use vstd::prelude::*;
use vstd::array::spec_array_update;
use crate::gpu::lcdc::{Lcdc, lcdc_byte, lcdc_of_byte};
use crate::gpu::stat::{Mode, Stat, stat_byte, stat_after_write};
use crate::mmu::interrupts::{InterruptFlag, Interrupts, with_flag};
use crate::mmu::UNDEFINED;



verus! {

pub const SCREEN_WIDTH: usize = 160;

pub const SCREEN_HEIGHT: usize = 144;

const TILESET_FIRST_BEGIN_ADDRESS: u16 = 0x8000;

const TILESET_SECOND_BEGIN_ADDRESS: u16 = 0x9000;

const BGMAP_FIRST_BEGIN_ADDRESS: u16 = 0x9800;

const BGMAP_SECOND_BEGIN_ADDRESS: u16 = 0x9C00;

const CYCLES_OAM: u32 = 80;

const CYCLES_VRAM: u32 = 172;

const CYCLES_HBLANK: u32 = 204;

const CYCLES_VBLANK: u32 = 456;

const SCANLINES_DISPLAY: u8 = 143;

const MAX_SCANLINES: u8 = 153;

/// The four shades of the display.
#[derive(Debug, Clone, Copy, PartialEq, Eq, Structural)]
pub enum Color {
    White,
    LightGray,
    DarkGray,
    Black,
}

/// The RGBA value of a shade.
pub open spec fn color_rgba(c: Color) -> Seq<u8> {
    match c {
        Color::White => seq![255u8, 255, 255, 255],
        Color::LightGray => seq![192u8, 192, 192, 255],
        Color::DarkGray => seq![96u8, 96, 96, 255],
        Color::Black => seq![0u8, 0, 0, 255],
    }
}

impl Color {
    pub fn rgba(&self) -> (r: [u8; 4])
        ensures
            r@ == color_rgba(*self),
    {
        let r = match self {
            Color::White => [255, 255, 255, 255],
            Color::LightGray => [192, 192, 192, 255],
            Color::DarkGray => [96, 96, 96, 255],
            Color::Black => [0, 0, 0, 255],
        };
        assert(r@ =~= color_rgba(*self));
        r
    }
}

/// The screen, indexed by column then line.
pub type Screen = [[Color; SCREEN_HEIGHT]; SCREEN_WIDTH];

/// Whether the video unit answers a read at `addr`.
pub open spec fn is_read_addr(addr: u16) -> bool {
    (0x8000 <= addr <= 0x9FFF) || (0xFE00 <= addr <= 0xFE9F) || (0xFF40 <= addr <= 0xFF4B)
}

/// Whether the video unit accepts writing `value` at `addr`: the window X position must be
/// at least 7, and DMA is not its register.
pub open spec fn is_write_ok(addr: u16, value: u8) -> bool {
    is_read_addr(addr) && addr != 0xFF46 && (addr == 0xFF4B ==> value >= 7)
}

/// The request register with LCD STAT requested when `cond` holds.
pub open spec fn stat_if(i: Interrupts, cond: bool) -> Interrupts {
    if cond { with_flag(i, InterruptFlag::LCDStat) } else { i }
}

/// The video unit: VRAM and OAM as plain bytes, the LCD registers and the mode timing.
#[derive(Debug)]
pub struct Gpu {
    frame_buffer: Screen,
    vram: [u8; 0x2000],
    lcdc: Lcdc,
    stat: Stat,
    v_blank: bool,
    h_blank: bool,
    sx: u8,
    sy: u8,
    ly: u8,
    lyc: u8,
    bgp: u8,
    op0: u8,
    op1: u8,
    wx: u8,
    wy: u8,
    oam: [u8; 0xA0],
    clock: u32,
}

impl Gpu {
    pub closed spec fn frame(self) -> Screen {
        self.frame_buffer
    }

    pub closed spec fn mode(self) -> Mode {
        self.stat.mode
    }

    pub closed spec fn line(self) -> u8 {
        self.ly
    }

    pub closed spec fn spec_lcdc(self) -> Lcdc {
        self.lcdc
    }

    /// The byte a read at `addr` returns; LY always reads 0x90 and the DMA register 0xFF.
    pub closed spec fn spec_read_byte(self, addr: u16) -> u8 {
        if 0x8000 <= addr <= 0x9FFF {
            self.vram[addr - 0x8000]
        } else if 0xFE00 <= addr <= 0xFE9F {
            self.oam[addr - 0xFE00]
        } else if addr == 0xFF40 {
            lcdc_byte(self.lcdc)
        } else if addr == 0xFF41 {
            stat_byte(self.stat)
        } else if addr == 0xFF42 {
            self.sy
        } else if addr == 0xFF43 {
            self.sx
        } else if addr == 0xFF44 {
            0x90
        } else if addr == 0xFF45 {
            self.lyc
        } else if addr == 0xFF46 {
            UNDEFINED
        } else if addr == 0xFF47 {
            self.bgp
        } else if addr == 0xFF48 {
            self.op0
        } else if addr == 0xFF49 {
            self.op1
        } else if addr == 0xFF4A {
            self.wy
        } else {
            self.wx
        }
    }

    /// The state after writing `value` at `addr`; a write to LY resets the line to 0, and a
    /// write to STAT keeps its read-only mode and coincidence bits.
    pub closed spec fn spec_write_byte(self, addr: u16, value: u8) -> Gpu {
        if 0x8000 <= addr <= 0x9FFF {
            Gpu { vram: spec_array_update(self.vram, addr - 0x8000, value), ..self }
        } else if 0xFE00 <= addr <= 0xFE9F {
            Gpu { oam: spec_array_update(self.oam, addr - 0xFE00, value), ..self }
        } else if addr == 0xFF40 {
            Gpu { lcdc: lcdc_of_byte(value), ..self }
        } else if addr == 0xFF41 {
            Gpu { stat: stat_after_write(self.stat, value), ..self }
        } else if addr == 0xFF42 {
            Gpu { sy: value, ..self }
        } else if addr == 0xFF43 {
            Gpu { sx: value, ..self }
        } else if addr == 0xFF44 {
            Gpu { ly: 0, ..self }
        } else if addr == 0xFF45 {
            Gpu { lyc: value, ..self }
        } else if addr == 0xFF47 {
            Gpu { bgp: value, ..self }
        } else if addr == 0xFF48 {
            Gpu { op0: value, ..self }
        } else if addr == 0xFF49 {
            Gpu { op1: value, ..self }
        } else if addr == 0xFF4A {
            Gpu { wy: value, ..self }
        } else {
            Gpu { wx: value, ..self }
        }
    }

    /// Entering `mode`, with a STAT interrupt when that mode's interrupt is enabled.
    pub closed spec fn spec_set_mode(self, mode: Mode, i: Interrupts) -> (Gpu, Interrupts) {
        let raise = (mode == Mode::OAM && self.stat.oam_interrupt) || (mode == Mode::HBlank
            && self.stat.hblank_interrupt) || (mode == Mode::VBlank && self.stat.vblank_interrupt);
        (Gpu { stat: Stat { mode, ..self.stat }, ..self }, stat_if(i, raise))
    }

    /// Moving to line `value`: the coincidence flag follows LY == LYC, with a STAT interrupt on
    /// coincidence when enabled.
    pub closed spec fn spec_set_scanline(self, value: u8, i: Interrupts) -> (Gpu, Interrupts) {
        let g = Gpu { ly: value, stat: Stat { coincidence_flag: self.lyc == value, ..self.stat }, ..self };
        (g, stat_if(i, self.lyc == value && self.stat.coincidence_interrupt))
    }

    /// Whether a step of `cycles` keeps the dot clock and the line counter in range.
    pub closed spec fn step_ok(self, cycles: u32) -> bool {
        self.lcdc.lcd_enable ==> {
            &&& self.clock + cycles <= u32::MAX
            &&& (self.stat.mode == Mode::VBlank && self.clock + cycles >= CYCLES_VBLANK) ==> self.ly < 255
        }
    }

    /// A step of `cycles` clocks. With the LCD off nothing happens. Otherwise the mode cycle
    /// OAM -> VRAM -> H-Blank runs line by line; after H-Blank on line 143 comes V-Blank with
    /// the V-Blank interrupt, and V-Blank counts lines up to 153 before OAM on line 0.
    pub closed spec fn spec_step(self, cycles: u32, i: Interrupts) -> (Gpu, Interrupts) {
        if !self.lcdc.lcd_enable {
            (self, i)
        } else {
            let clock = (self.clock + cycles) as u32;
            let g = Gpu { clock, ..self };
            match self.stat.mode {
                Mode::OAM => if clock >= CYCLES_OAM {
                    let (g1, i1) = g.spec_set_mode(Mode::VRAM, i);
                    (Gpu { clock: clock % CYCLES_OAM, ..g1 }, i1)
                } else {
                    (g, i)
                },
                Mode::VRAM => if clock >= CYCLES_VRAM {
                    Gpu { clock: clock % CYCLES_VRAM, ..g }.spec_set_mode(Mode::HBlank, i)
                } else {
                    (g, i)
                },
                Mode::HBlank => if clock >= CYCLES_HBLANK {
                    let g1 = Gpu { clock: clock % CYCLES_HBLANK, ..g };
                    if self.ly >= SCANLINES_DISPLAY {
                        let (g2, i2) = g1.spec_set_mode(Mode::VBlank, i);
                        (g2, with_flag(i2, InterruptFlag::VBlank))
                    } else {
                        let (g2, i2) = g1.spec_set_scanline((self.ly + 1) as u8, i);
                        g2.spec_set_mode(Mode::OAM, i2)
                    }
                } else {
                    (g, i)
                },
                Mode::VBlank => if clock >= CYCLES_VBLANK {
                    let (g1, i1) = g.spec_set_scanline((self.ly + 1) as u8, i);
                    let g2 = Gpu { clock: clock % CYCLES_VBLANK, ..g1 };
                    if g2.ly >= MAX_SCANLINES {
                        let (g3, i3) = g2.spec_set_mode(Mode::OAM, i1);
                        g3.spec_set_scanline(0, i3)
                    } else {
                        (g2, i1)
                    }
                } else {
                    (g, i)
                },
            }
        }
    }

    /// The state at power-on: LCD on (LCDC 0x91), OAM mode, line 0, a white frame.
    pub fn new() -> (r: Self)
        ensures
            r.spec_lcdc() == lcdc_of_byte(0x91),
            r.line() == 0,
            forall|x: int, y: int| 0 <= x < 160 && 0 <= y < 144 ==> #[trigger] r.frame()[x][y] == Color::White,
    {
        Self {
            vram: [0; 0x2000],
            frame_buffer: [[Color::White; SCREEN_HEIGHT]; SCREEN_WIDTH],
            v_blank: false,
            h_blank: false,
            lcdc: Lcdc::from_byte(0x91),
            stat: Stat::new(),
            sx: 0,
            sy: 0,
            ly: 0,
            lyc: 0,
            bgp: 0xFC,
            op0: 0xFF,
            op1: 0xFF,
            wx: 0,
            wy: 0,
            oam: [0; 0xA0],
            clock: 0,
        }
    }

    /// Whether `step_ok` holds, computed.
    pub fn can_step(&self, cycles: u32) -> (r: bool)
        ensures
            r == self.step_ok(cycles),
    {
        if !self.lcdc.lcd_enable {
            return true;
        }
        if self.clock > u32::MAX - cycles {
            return false;
        }
        !(self.stat.mode == Mode::VBlank && self.clock + cycles >= CYCLES_VBLANK) || self.ly < 255
    }

    fn raise_stat(intf: &mut Interrupts, cond: bool)
        ensures
            *final(intf) == stat_if(*old(intf), cond),
    {
        if cond {
            intf.set_flag(InterruptFlag::LCDStat);
        }
    }

    fn compare_lyc(&mut self, intf: &mut Interrupts)
        ensures
            (*final(self), *final(intf)) == old(self).spec_set_scanline(old(self).ly, *old(intf)),
    {
        self.stat.coincidence_flag = false;
        if self.lyc == self.ly {
            self.stat.coincidence_flag = true;
            Self::raise_stat(intf, self.stat.coincidence_interrupt);
        }
    }

    fn set_scanline(&mut self, value: u8, intf: &mut Interrupts)
        ensures
            (*final(self), *final(intf)) == old(self).spec_set_scanline(value, *old(intf)),
    {
        self.ly = value;
        self.compare_lyc(intf);
    }

    fn set_mode(&mut self, mode: Mode, intf: &mut Interrupts)
        ensures
            (*final(self), *final(intf)) == old(self).spec_set_mode(mode, *old(intf)),
    {
        self.stat.mode = mode;
        match self.stat.mode {
            Mode::OAM => Self::raise_stat(intf, self.stat.oam_interrupt),
            Mode::HBlank => Self::raise_stat(intf, self.stat.hblank_interrupt),
            Mode::VBlank => Self::raise_stat(intf, self.stat.vblank_interrupt),
            _ => {},
        }
    }

    /// Advances the video unit by `cycles` clock cycles; interrupt requests go to `intf`.
    pub fn step(&mut self, cycles: u32, intf: &mut Interrupts)
        requires
            old(self).step_ok(cycles),
        ensures
            (*final(self), *final(intf)) == old(self).spec_step(cycles, *old(intf)),
    {
        if !self.lcdc.lcd_enable {
            return;
        }
        self.clock = self.clock + cycles;
        match self.stat.mode {
            Mode::OAM => {
                if self.clock >= CYCLES_OAM {
                    self.set_mode(Mode::VRAM, intf);
                    self.clock = self.clock % CYCLES_OAM;
                }
            },
            Mode::VRAM => {
                if self.clock >= CYCLES_VRAM {
                    self.clock = self.clock % CYCLES_VRAM;
                    self.render_scanline();
                    self.set_mode(Mode::HBlank, intf);
                }
            },
            Mode::HBlank => {
                if self.clock >= CYCLES_HBLANK {
                    self.clock = self.clock % CYCLES_HBLANK;
                    if self.ly >= SCANLINES_DISPLAY {
                        self.set_mode(Mode::VBlank, intf);
                        // render screen
                        intf.set_flag(InterruptFlag::VBlank);
                    } else {
                        let next = self.ly + 1;
                        self.set_scanline(next, intf);
                        self.set_mode(Mode::OAM, intf);
                    }
                }
            },
            Mode::VBlank => {
                if self.clock >= CYCLES_VBLANK {
                    let next = self.ly + 1;
                    self.set_scanline(next, intf);
                    self.clock = self.clock % CYCLES_VBLANK;
                    if self.ly >= MAX_SCANLINES {
                        self.set_mode(Mode::OAM, intf);
                        self.set_scanline(0, intf);
                    }
                }
            },
        }
    }

    pub fn get_frame_buffer(&self) -> (r: Screen)
        ensures
            r == self.frame(),
    {
        self.frame_buffer
    }

    /// Draws the current line. Neither the background pass nor the sprite pass writes the
    /// frame yet, so the state stays as it was.
    fn render_scanline(&mut self)
        ensures
            *final(self) == *old(self),
    {
        if self.lcdc.bg_display {
            self.render_bg_line();
        }
        if self.lcdc.obj_display_enable {
            self.render_obj_line();
        }
    }

    /// Works out, for every pixel of the current line, the background or window tile, its
    /// row of pixel data and the colour number of the pixel; the result is not drawn.
    fn render_bg_line(&mut self)
        ensures
            *final(self) == *old(self),
    {
        let y_bg = self.ly.wrapping_add(self.sy);
        let line_is_window = self.lcdc.window_display_enable && self.ly >= self.wy;
        let mut x: u8 = 0;
        while x < 160
            invariant
                *self == *old(self),
                y_bg == self.ly.wrapping_add(self.sy),
                line_is_window == (self.lcdc.window_display_enable && self.ly >= self.wy),
            decreases 160 - x,
        {
            let x_bg = x.wrapping_add(self.sx);
            let column_is_window = self.lcdc.window_display_enable && x >= self.wx.wrapping_sub(7);
            let is_window = line_is_window && column_is_window;
            let tile_address = if is_window {
                self.get_window_address(self.ly, x)
            } else {
                self.get_bgmap_address(y_bg, x_bg)
            };
            let tile = self.read_byte(tile_address);
            let tile_begin = if self.lcdc.bg_window_tile_data_select {
                // Use first tileset, tile_number interpreted as unsigned
                TILESET_FIRST_BEGIN_ADDRESS + tile as u16 * 16
            } else {
                // Use second tileset, tile_number interpreted as signed
                Self::signed_tile_begin(tile)
            };
            let y_tile_addr_offset = if is_window {
                ((self.ly - self.wy) % 8 * 2) as u16
            } else {
                (y_bg % 8 * 2) as u16
            };
            let tile_data_address = tile_begin + y_tile_addr_offset;
            let tile_data = self.read_byte(tile_data_address);
            // The color data is placed one byte after the pixel data
            let tile_color = self.read_byte(tile_data_address + 1);
            let pixel_index = if is_window {
                self.wx.wrapping_sub(x) % 8
            } else {
                7 - (x_bg % 8)
            };
            // Draw bg pixel to screen
            let _color_index = Self::get_color_index(tile_data, tile_color, pixel_index);
            x = x + 1;
        }
    }

    fn render_obj_line(&mut self)
        ensures
            *final(self) == *old(self),
    {
    }

    /// The first byte of tile `tile` in the second tile set, numbered from -128 to 127.
    fn signed_tile_begin(tile: u8) -> (r: u16)
        ensures
            0x8800 <= r <= 0x97F0,
            r == (0x9000 + 16 * (tile as i8)) as u16,
    {
        let offset: u16 = ((tile as i8) as u16).wrapping_mul(16);
        let r = TILESET_SECOND_BEGIN_ADDRESS.wrapping_add(offset);
        proof {
            assert(0x8800 <= (0x9000u16).wrapping_add(((tile as i8) as u16).wrapping_mul(16)) <= 0x97F0)
                by (bit_vector);
            assert((0x9000u16).wrapping_add(((tile as i8) as u16).wrapping_mul(16)) == (0x9000 + 16
                * (tile as i8)) as u16) by (bit_vector);
        }
        r
    }

    /// The tile map address of the window tile that covers screen pixel (`x`, `y`).
    fn get_window_address(&self, y: u8, x: u8) -> (r: u16)
        ensures
            0x9800 <= r <= 0x9FFF,
    {
        let addr = if self.lcdc.window_tile_map_display_select {
            BGMAP_SECOND_BEGIN_ADDRESS
        } else {
            BGMAP_FIRST_BEGIN_ADDRESS
        };
        let y_offset = y.wrapping_sub(self.wy);
        let x_offset = x.wrapping_sub(self.wx.wrapping_sub(7));
        addr + (y_offset as u16 / 8 * 32) + (x_offset as u16 / 8)
    }

    /// The tile map address of the background tile at map pixel (`x`, `y`).
    fn get_bgmap_address(&self, y: u8, x: u8) -> (r: u16)
        ensures
            0x9800 <= r <= 0x9FFF,
    {
        let addr = if self.lcdc.bg_tile_map_display_select {
            BGMAP_SECOND_BEGIN_ADDRESS
        } else {
            BGMAP_FIRST_BEGIN_ADDRESS
        };
        addr + (y as u16 / 8 * 32) + (x as u16 / 8)
    }

    /// The colour number of pixel `pixel_index` (bit number) of a tile row: the low bit from
    /// the first byte, the high bit from the second.
    fn get_color_index(tile_data: u8, tile_color: u8, pixel_index: u8) -> (r: u8)
        requires
            pixel_index < 8,
        ensures
            r == ((tile_data >> pixel_index) & 1) | (((tile_color >> pixel_index) & 1) << 1u8),
    {
        let lo: u8 = if tile_data & (1u8 << pixel_index) > 0 { 1 } else { 0 };
        let hi: u8 = if tile_color & (1u8 << pixel_index) > 0 { 1 } else { 0 };
        proof {
            assert((tile_data & (1u8 << pixel_index) > 0) == ((tile_data >> pixel_index) & 1 == 1)
                && (tile_data >> pixel_index) & 1 <= 1) by (bit_vector)
                requires
                    pixel_index < 8,
            ;
            assert((tile_color & (1u8 << pixel_index) > 0) == ((tile_color >> pixel_index) & 1 == 1)
                && (tile_color >> pixel_index) & 1 <= 1) by (bit_vector)
                requires
                    pixel_index < 8,
            ;
        }
        lo | (hi << 1)
    }

    /// Reads VRAM, OAM or an LCD register.
    pub fn read_byte(&self, addr: u16) -> (r: u8)
        requires
            is_read_addr(addr),
        ensures
            r == self.spec_read_byte(addr),
    {
        if 0x8000 <= addr && addr <= 0x9FFF {
            self.vram[(addr - 0x8000) as usize]
        } else if 0xFE00 <= addr && addr <= 0xFE9F {
            self.oam[(addr - 0xFE00) as usize]
        } else if addr == 0xFF40 {
            self.lcdc.to_byte()
        } else if addr == 0xFF41 {
            self.stat.to_byte()
        } else if addr == 0xFF42 {
            self.sy
        } else if addr == 0xFF43 {
            self.sx
        } else if addr == 0xFF44 {
            0x90
        } else if addr == 0xFF45 {
            self.lyc
        } else if addr == 0xFF46 {
            UNDEFINED
        } else if addr == 0xFF47 {
            self.bgp
        } else if addr == 0xFF48 {
            self.op0
        } else if addr == 0xFF49 {
            self.op1
        } else if addr == 0xFF4A {
            self.wy
        } else {
            self.wx
        }
    }

    /// Writes VRAM, OAM or an LCD register.
    pub fn write_byte(&mut self, addr: u16, value: u8)
        requires
            is_write_ok(addr, value),
        ensures
            *final(self) == old(self).spec_write_byte(addr, value),
    {
        if 0x8000 <= addr && addr <= 0x9FFF {
            self.vram[(addr - 0x8000) as usize] = value;
            assert(self.vram =~= old(self).spec_write_byte(addr, value).vram);
        } else if 0xFE00 <= addr && addr <= 0xFE9F {
            self.oam[(addr - 0xFE00) as usize] = value;
            assert(self.oam =~= old(self).spec_write_byte(addr, value).oam);
        } else if addr == 0xFF40 {
            self.lcdc = Lcdc::from_byte(value);
        } else if addr == 0xFF41 {
            self.stat.write_byte(value);
        } else if addr == 0xFF42 {
            self.sy = value;
        } else if addr == 0xFF43 {
            self.sx = value;
        } else if addr == 0xFF44 {
            // Writing to this register resets the scanline
            self.ly = 0;
        } else if addr == 0xFF45 {
            self.lyc = value;
        } else if addr == 0xFF47 {
            self.bgp = value;
        } else if addr == 0xFF48 {
            self.op0 = value;
        } else if addr == 0xFF49 {
            self.op1 = value;
        } else if addr == 0xFF4A {
            self.wy = value;
        } else {
            self.wx = value;
        }
    }
}

/// The line counter stays within 0-153 through every step.
pub proof fn lemma_step_keeps_line(g: Gpu, cycles: u32, i: Interrupts)
    requires
        g.line() <= 153,
    ensures
        g.spec_step(cycles, i).0.line() <= 153,
{
}

/// A write to LY resets the line to 0, and LY always reads 0x90.
pub proof fn lemma_ly_register(g: Gpu, value: u8)
    ensures
        g.spec_write_byte(0xFF44, value).line() == 0,
        g.spec_read_byte(0xFF44) == 0x90,
{
}

/// The LY=LYC interrupt: when STAT bit 6 (coincidence interrupt enable) is set and a step
/// moves LY to the value of LYC (0xFF45), the step requests the LCD STAT interrupt (IF bit 1).
pub proof fn lemma_coincidence_interrupt(g: Gpu, cycles: u32, i: Interrupts)
    requires
        (g.spec_read_byte(0xFF41) >> 6u8) & 1 == 1,
    ensures
        ({
            let (g2, i2) = g.spec_step(cycles, i);
            g2.line() != g.line() && g2.line() == g.spec_read_byte(0xFF45) ==> i2.data & 2 == 2
        }),
{
    crate::gpu::stat::lemma_stat_roundtrip(g.stat);
    crate::gpu::lemma_requests_accumulate();
}

} // verus!
