use vstd::prelude::*;
use crate::mmu::interrupts::{InterruptFlag, Interrupts, with_flag};
use crate::mmu::{OAM_BEGIN, OAM_END, UNDEFINED};
use self::color_id::{ColorId, id_value};
use self::lcdc::{Lcdc, lcdc_byte, lcdc_of_byte};
use self::oam::{Oam, Sprite, is_oam_addr};
use self::palette::{Palette, palette_byte, color_bits, color_of_bits, shade_of};
use self::stat::{Mode, Stat, stat_byte, stat_after_write};
use self::tile_data::{TileData, VRAM_TILE_DATA_BEGIN, VRAM_TILE_DATA_END, is_tile_data_addr, tile_slot};
use self::tile_map::{TileMap, is_tile_map_addr};

pub mod color_id;
pub mod lcdc;
pub mod oam;
pub mod palette;
pub mod stat;
pub mod tile_data;
pub mod tile_map;

pub use self::palette::{Color, Theme, ThemeManager};

verus! {

pub const SCREEN_WIDTH: usize = 160;

pub const SCREEN_HEIGHT: usize = 144;

const CYCLES_OAM: u32 = 80;

const CYCLES_VRAM: u32 = 172;

const CYCLES_HBLANK: u32 = 204;

const CYCLES_VBLANK: u32 = 456;

const SCANLINES_DISPLAY: u8 = 143;

const MAX_SCANLINES: u8 = 153;

/// The screen, indexed by column then line.
pub type Screen = [[Color; SCREEN_HEIGHT]; SCREEN_WIDTH];

/// Whether the GPU answers reads at `addr`: VRAM, OAM and the LCD registers.
pub open spec fn is_gpu_read_addr(addr: u16) -> bool {
    (0x8000 <= addr <= 0x9FFF) || (OAM_BEGIN <= addr <= OAM_END) || (0xFF40 <= addr <= 0xFF4B)
}

/// Whether the GPU accepts writes at `addr`: as for reads, except the DMA register, which
/// the memory unit handles.
pub open spec fn is_gpu_write_addr(addr: u16) -> bool {
    is_gpu_read_addr(addr) && addr != 0xFF46
}

/// The request register with LCD STAT requested when `cond` holds.
pub open spec fn stat_if(i: Interrupts, cond: bool) -> Interrupts {
    if cond { with_flag(i, InterruptFlag::LCDStat) } else { i }
}

#[derive(Debug)]
pub struct Gpu {
    frame_buffer: Screen,
    tile_data: TileData,
    tile_map: TileMap,
    lcdc: Lcdc,
    stat: Stat,
    // Position in the 256x256 background map shown at the upper left of the screen.
    sx: u8,
    sy: u8,
    // The line being transferred to the LCD driver.
    ly: u8,
    // Compared with LY: when equal the coincidence flag is set and a STAT interrupt may be requested.
    lyc: u8,
    // Shades of the colour numbers of background and window tiles.
    bgp: Palette,
    // Sprite palettes 0 and 1 (register bytes).
    op0: u8,
    op1: u8,
    // Upper left position of the window.
    wx: u8,
    wy: u8,
    // Object attribute memory: 40 sprites.
    oam: Oam,
    clock: u32,
    theme_manager: ThemeManager,
}

impl Gpu {
    // ----- spec accessors -----

    pub closed spec fn frame(self) -> Screen {
        self.frame_buffer
    }

    /// This state with its frame replaced by `f`.
    pub closed spec fn with_frame(self, f: Screen) -> Gpu {
        Gpu { frame_buffer: f, ..self }
    }

    pub closed spec fn mode(self) -> Mode {
        self.stat.mode
    }

    pub closed spec fn spec_stat(self) -> Stat {
        self.stat
    }

    pub closed spec fn spec_lcdc(self) -> Lcdc {
        self.lcdc
    }

    pub closed spec fn line(self) -> u8 {
        self.ly
    }

    pub closed spec fn dot_clock(self) -> u32 {
        self.clock
    }

    pub closed spec fn theme(self) -> Theme {
        self.theme_manager.theme()
    }

    pub closed spec fn tiles(self) -> TileData {
        self.tile_data
    }

    pub closed spec fn map(self) -> TileMap {
        self.tile_map
    }

    pub closed spec fn objects(self) -> Oam {
        self.oam
    }

    /// The byte a read at a GPU address returns. VRAM is unreadable while the controller
    /// transfers pixels (mode 3); OAM also while it searches OAM (mode 2).
    pub closed spec fn spec_read_byte(self, addr: u16) -> u8 {
        if VRAM_TILE_DATA_BEGIN <= addr <= VRAM_TILE_DATA_END {
            if self.stat.mode == Mode::VRAM { UNDEFINED } else { self.tile_data.spec_read_byte(addr) }
        } else if 0x9800 <= addr <= 0x9FFF {
            if self.stat.mode == Mode::VRAM { UNDEFINED } else { self.tile_map.spec_read_byte(addr) }
        } else if OAM_BEGIN <= addr <= OAM_END {
            if self.stat.mode == Mode::HBlank || self.stat.mode == Mode::VBlank {
                self.oam.spec_read_byte(addr)
            } else {
                UNDEFINED
            }
        } else if addr == 0xFF40 {
            lcdc_byte(self.lcdc)
        } else if addr == 0xFF41 {
            stat_byte(self.stat)
        } else if addr == 0xFF42 {
            self.sy
        } else if addr == 0xFF43 {
            self.sx
        } else if addr == 0xFF44 {
            self.ly
        } else if addr == 0xFF45 {
            self.lyc
        } else if addr == 0xFF46 {
            UNDEFINED
        } else if addr == 0xFF47 {
            palette_byte(self.bgp)
        } else if addr == 0xFF48 {
            self.op0
        } else if addr == 0xFF49 {
            self.op1
        } else if addr == 0xFF4A {
            self.wy
        } else {
            self.wx
        }
    }

    /// The state after a write at a GPU address. VRAM and OAM ignore writes while they are
    /// unreadable; LY is read-only, and so are the mode and coincidence bits of STAT; switching
    /// the LCD on restarts the frame in mode 2.
    pub closed spec fn spec_write_byte(self, addr: u16, value: u8) -> Gpu {
        if VRAM_TILE_DATA_BEGIN <= addr <= VRAM_TILE_DATA_END {
            if self.stat.mode == Mode::VRAM { self } else { Gpu { tile_data: self.tile_data.spec_write_byte(addr, value), ..self } }
        } else if 0x9800 <= addr <= 0x9FFF {
            if self.stat.mode == Mode::VRAM { self } else { Gpu { tile_map: self.tile_map.spec_write_byte(addr, value), ..self } }
        } else if OAM_BEGIN <= addr <= OAM_END {
            if self.stat.mode == Mode::HBlank || self.stat.mode == Mode::VBlank {
                Gpu { oam: self.oam.spec_write_byte(addr, value), ..self }
            } else {
                self
            }
        } else if addr == 0xFF40 {
            let lcdc = lcdc_of_byte(value);
            if !self.lcdc.lcd_enable && lcdc.lcd_enable {
                Gpu { lcdc, ly: 0, clock: 0, stat: Stat { mode: Mode::OAM, ..self.stat }, ..self }
            } else {
                Gpu { lcdc, ..self }
            }
        } else if addr == 0xFF41 {
            Gpu { stat: stat_after_write(self.stat, value), ..self }
        } else if addr == 0xFF42 {
            Gpu { sy: value, ..self }
        } else if addr == 0xFF43 {
            Gpu { sx: value, ..self }
        } else if addr == 0xFF44 {
            self
        } else if addr == 0xFF45 {
            Gpu { lyc: value, ..self }
        } else if addr == 0xFF47 {
            Gpu { bgp: Palette::spec_from_byte(value), ..self }
        } else if addr == 0xFF48 {
            Gpu { op0: value, ..self }
        } else if addr == 0xFF49 {
            Gpu { op1: value, ..self }
        } else if addr == 0xFF4A {
            Gpu { wy: value, ..self }
        } else {
            Gpu { wx: value, ..self }
        }
    }

    // ----- construction and simple accessors -----

    /// The state at power-on: LCD off, H-Blank on line 0, a white frame and the grayscale theme;
    /// blank tiles, tile maps and sprites; the registers zero but for the palettes (BGP 0xE4,
    /// OBP0 and OBP1 0xFF).
    pub open spec fn fresh(self) -> bool {
        &&& self.mode() == Mode::HBlank
        &&& self.line() == 0
        &&& self.dot_clock() == 0
        &&& self.theme() == Theme::Grayscale
        &&& !self.spec_lcdc().lcd_enable
        &&& forall|x: int, y: int| 0 <= x < 160 && 0 <= y < 144 ==> #[trigger] self.frame()[x][y] == Color::White
        &&& forall|t: int, row: int, col: int|
            0 <= t < 384 && 0 <= row < 8 && 0 <= col < 8 ==> #[trigger] self.tiles().tiles[t].data[row][col]
                == ColorId::Id00
        &&& forall|a: u16| 0x9800 <= a <= 0x9FFF ==> #[trigger] self.spec_read_byte(a) == 0
        &&& forall|i: int| 0 <= i < 40 ==> #[trigger] self.objects().0[i] == Sprite::new_spec()
        &&& self.spec_read_byte(0xFF40) == 0 && self.spec_read_byte(0xFF41) == 0
        &&& self.spec_read_byte(0xFF42) == 0 && self.spec_read_byte(0xFF43) == 0
        &&& self.spec_read_byte(0xFF44) == 0 && self.spec_read_byte(0xFF45) == 0
        &&& self.spec_read_byte(0xFF47) == 0xE4
        &&& self.spec_read_byte(0xFF48) == 0xFF && self.spec_read_byte(0xFF49) == 0xFF
        &&& self.spec_read_byte(0xFF4A) == 0 && self.spec_read_byte(0xFF4B) == 0
    }

    pub fn new() -> (r: Self)
        ensures
            r.fresh(),
    {
        let stat = Stat::new();
        proof {
            crate::gpu::lcdc::lemma_lcdc_byte_roundtrip(0);
            assert((0u8 >> 7u8) & 1 == 0) by (bit_vector);
        }
        let image = [[Color::White; SCREEN_HEIGHT]; SCREEN_WIDTH];
        Self {
            tile_data: TileData::new(),
            tile_map: TileMap::new(),
            frame_buffer: image,
            // LCD starts disabled - BIOS will enable it
            lcdc: Lcdc::from_byte(0x00),
            stat,
            sx: 0,
            sy: 0,
            ly: 0,
            lyc: 0,
            bgp: Palette::new(),
            op0: 0xFF,
            op1: 0xFF,
            wx: 0,
            wy: 0,
            oam: Oam::new(),
            clock: 0,
            theme_manager: ThemeManager::new(),
        }
    }

    pub fn get_frame_buffer(&self) -> (r: Screen)
        ensures
            r == self.frame(),
    {
        self.frame_buffer
    }

    /// This state with the colour theme of `other`.
    pub closed spec fn with_theme_of(self, other: Gpu) -> Gpu {
        Gpu { theme_manager: other.theme_manager, ..self }
    }

    /// Selects the colour theme; nothing else changes.
    pub fn set_theme(&mut self, theme: Theme)
        ensures
            final(self).theme() == theme,
            *final(self) == old(self).with_theme_of(*final(self)),
            final(self).frame() == old(self).frame(),
            forall|a: u16| #[trigger] final(self).spec_read_byte(a) == old(self).spec_read_byte(a),
    {
        self.theme_manager.set_theme(theme);
    }

    pub fn get_theme(&self) -> (r: Theme)
        ensures
            r == self.theme(),
    {
        self.theme_manager.get_theme()
    }

    pub fn get_color_rgba(&self, color: Color) -> (r: [u8; 4])
        ensures
            r@ == palette::theme_rgba(self.theme(), color_bits(color)),
    {
        self.theme_manager.get_color_rgba(color)
    }

    // ----- register access -----

    pub fn read_byte(&self, addr: u16) -> (r: u8)
        requires
            is_gpu_read_addr(addr),
        ensures
            r == self.spec_read_byte(addr),
    {
        if VRAM_TILE_DATA_BEGIN <= addr && addr <= VRAM_TILE_DATA_END {
            match self.stat.mode {
                Mode::OAM | Mode::HBlank | Mode::VBlank => self.tile_data.read_byte(addr),
                Mode::VRAM => UNDEFINED,
            }
        } else if 0x9800 <= addr && addr <= 0x9FFF {
            match self.stat.mode {
                Mode::OAM | Mode::HBlank | Mode::VBlank => self.tile_map.read_byte(addr),
                Mode::VRAM => UNDEFINED,
            }
        } else if OAM_BEGIN <= addr && addr <= OAM_END {
            match self.stat.mode {
                Mode::HBlank | Mode::VBlank => self.oam.read_byte(addr),
                Mode::VRAM | Mode::OAM => UNDEFINED,
            }
        } else if addr == 0xFF40 {
            self.lcdc.to_byte()
        } else if addr == 0xFF41 {
            self.stat.to_byte()
        } else if addr == 0xFF42 {
            self.sy
        } else if addr == 0xFF43 {
            self.sx
        } else if addr == 0xFF44 {
            self.ly
        } else if addr == 0xFF45 {
            self.lyc
        } else if addr == 0xFF46 {
            UNDEFINED
        } else if addr == 0xFF47 {
            self.bgp.read_byte(addr)
        } else if addr == 0xFF48 {
            self.op0
        } else if addr == 0xFF49 {
            self.op1
        } else if addr == 0xFF4A {
            self.wy
        } else {
            self.wx
        }
    }

    pub fn write_byte(&mut self, addr: u16, value: u8)
        requires
            is_gpu_write_addr(addr),
        ensures
            *final(self) == old(self).spec_write_byte(addr, value),
    {
        if VRAM_TILE_DATA_BEGIN <= addr && addr <= VRAM_TILE_DATA_END {
            match self.stat.mode {
                Mode::OAM | Mode::HBlank | Mode::VBlank => self.tile_data.write_byte(addr, value),
                Mode::VRAM => {},
            }
        } else if 0x9800 <= addr && addr <= 0x9FFF {
            match self.stat.mode {
                Mode::OAM | Mode::HBlank | Mode::VBlank => self.tile_map.write_byte(addr, value),
                Mode::VRAM => {},
            }
        } else if OAM_BEGIN <= addr && addr <= OAM_END {
            match self.stat.mode {
                Mode::HBlank | Mode::VBlank => self.oam.write_byte(addr, value),
                Mode::VRAM | Mode::OAM => {},
            }
        } else if addr == 0xFF40 {
            let was_enabled = self.lcdc.lcd_enable;
            self.lcdc = Lcdc::from_byte(value);
            // When LCD is turned on, reset GPU state
            if !was_enabled && self.lcdc.lcd_enable {
                self.ly = 0;
                self.clock = 0;
                self.stat.mode = Mode::OAM;
            }
        } else if addr == 0xFF41 {
            self.stat.write_byte(value);
        } else if addr == 0xFF42 {
            self.sy = value;
        } else if addr == 0xFF43 {
            self.sx = value;
        } else if addr == 0xFF44 {
            // LY is read-only
        } else if addr == 0xFF45 {
            self.lyc = value;
        } else if addr == 0xFF47 {
            self.bgp.write_byte(addr, value);
        } else if addr == 0xFF48 {
            self.op0 = value;
        } else if addr == 0xFF49 {
            self.op1 = value;
        } else if addr == 0xFF4A {
            self.wy = value;
        } else {
            self.wx = value;
        }
    }

    /// The state after a DMA transfer puts `value` into OAM byte `addr`. The transfer reaches
    /// OAM in every mode, unlike a write by the CPU.
    pub closed spec fn spec_dma_write(self, addr: u16, value: u8) -> Gpu {
        Gpu { oam: self.oam.spec_write_byte(addr, value), ..self }
    }

    /// Puts `value` into OAM byte `addr` for a DMA transfer, whatever the mode.
    pub fn dma_write(&mut self, addr: u16, value: u8)
        requires
            is_oam_addr(addr),
        ensures
            *final(self) == old(self).spec_dma_write(addr, value),
    {
        self.oam.write_byte(addr, value);
    }

    // ----- timing -----

    /// Entering a mode; a STAT interrupt is requested when that mode's interrupt is enabled.
    pub closed spec fn spec_set_mode(self, mode: Mode, i: Interrupts) -> (Gpu, Interrupts) {
        let g = Gpu { stat: Stat { mode, ..self.stat }, ..self };
        let raise = (mode == Mode::OAM && self.stat.oam_interrupt) || (mode == Mode::HBlank
            && self.stat.hblank_interrupt) || (mode == Mode::VBlank && self.stat.vblank_interrupt);
        (g, stat_if(i, raise))
    }

    /// Moving to line `value`: the coincidence flag follows LY == LYC, and on coincidence a STAT
    /// interrupt is requested when enabled.
    pub closed spec fn spec_set_scanline(self, value: u8, i: Interrupts) -> (Gpu, Interrupts) {
        let g = Gpu { ly: value, stat: Stat { coincidence_flag: self.lyc == value, ..self.stat }, ..self };
        (g, stat_if(i, self.lyc == value && self.stat.coincidence_interrupt))
    }

    /// Whether a step of `cycles` stays within the machine: the dot clock fits, a rendered line
    /// is on screen and the line counter does not pass 255.
    pub closed spec fn step_ok(self, cycles: u32) -> bool {
        let clock = self.clock + cycles;
        self.lcdc.lcd_enable ==> {
            &&& clock <= u32::MAX
            &&& (self.stat.mode == Mode::VRAM && clock >= CYCLES_VRAM) ==> self.ly < 144
            &&& ((self.stat.mode == Mode::HBlank && clock >= CYCLES_HBLANK) || (self.stat.mode
                == Mode::VBlank && clock >= CYCLES_VBLANK)) ==> self.ly < 255
        }
    }

    /// Whether a step of `cycles` finishes a pixel transfer and so renders the current line.
    pub closed spec fn step_renders(self, cycles: u32) -> bool {
        self.lcdc.lcd_enable && self.stat.mode == Mode::VRAM && self.clock + cycles >= CYCLES_VRAM
    }

    /// The frames that show line LY drawn over this frame: that line gets the rendered
    /// pixels, every other line stays.
    pub closed spec fn draws(self, f: Screen) -> bool {
        forall|x: int, y: int|
            0 <= x < 160 && 0 <= y < 144 ==> #[trigger] f[x][y] == if y == self.ly {
                self.line_pixel(x)
            } else {
                self.frame_buffer[x][y]
            }
    }

    /// The frame with line LY drawn (the one frame that `draws` describes).
    pub closed spec fn drawn_frame(self) -> Screen {
        choose|f: Screen| self.draws(f)
    }

    /// A step of `cycles` clocks: the timing below, and the current line drawn into the frame
    /// when the step finishes a pixel transfer.
    pub closed spec fn spec_step(self, cycles: u32, i: Interrupts) -> (Gpu, Interrupts) {
        let (g, i2) = self.spec_timing(cycles, i);
        (g.with_frame(if self.step_renders(cycles) { self.drawn_frame() } else { self.frame_buffer }), i2)
    }

    /// The state (all but the frame) and interrupt requests after a step of `cycles` clocks.
    /// With the LCD off the GPU rests in V-Blank on line 0. Otherwise the clock advances and,
    /// once the current mode's time is up, the mode cycle OAM -> VRAM -> H-Blank moves on; after
    /// line 143 comes V-Blank (with a V-Blank interrupt), and after line 153 line 0 again.
    pub closed spec fn spec_timing(self, cycles: u32, i: Interrupts) -> (Gpu, Interrupts) {
        if !self.lcdc.lcd_enable {
            if self.stat.mode != Mode::VBlank || self.ly != 0 {
                (Gpu { ly: 0, clock: 0, stat: Stat { mode: Mode::VBlank, ..self.stat }, ..self }, i)
            } else {
                (self, i)
            }
        } else {
            let clock = (self.clock + cycles) as u32;
            let g = Gpu { clock, ..self };
            match self.stat.mode {
                Mode::OAM => if clock >= CYCLES_OAM {
                    Gpu { clock: clock % CYCLES_OAM, ..g }.spec_set_mode(Mode::VRAM, i)
                } else {
                    (g, i)
                },
                Mode::VRAM => if clock >= CYCLES_VRAM {
                    let i1 = stat_if(i, self.stat.hblank_interrupt);
                    Gpu { clock: clock % CYCLES_VRAM, ..g }.spec_set_mode(Mode::HBlank, i1)
                } else {
                    (g, i)
                },
                Mode::HBlank => if clock >= CYCLES_HBLANK {
                    let (g1, i1) = Gpu { clock: clock % CYCLES_HBLANK, ..g }.spec_set_scanline((self.ly + 1) as u8, i);
                    if g1.ly > SCANLINES_DISPLAY {
                        let (g2, i2) = g1.spec_set_mode(Mode::VBlank, i1);
                        let i3 = stat_if(i2, g2.stat.vblank_interrupt);
                        (g2, with_flag(i3, InterruptFlag::VBlank))
                    } else {
                        let (g2, i2) = g1.spec_set_mode(Mode::OAM, i1);
                        (g2, stat_if(i2, g2.stat.oam_interrupt))
                    }
                } else {
                    (g, i)
                },
                Mode::VBlank => if clock >= CYCLES_VBLANK {
                    let (g1, i1) = Gpu { clock: clock % CYCLES_VBLANK, ..g }.spec_set_scanline((self.ly + 1) as u8, i);
                    if g1.ly > MAX_SCANLINES {
                        let (g2, i2) = g1.spec_set_scanline(0, i1);
                        let (g3, i3) = g2.spec_set_mode(Mode::OAM, i2);
                        (g3, stat_if(i3, g3.stat.oam_interrupt))
                    } else {
                        (g1, i1)
                    }
                } else {
                    (g, i)
                },
            }
        }
    }

    fn raise_stat(intf: &mut Interrupts, cond: bool)
        ensures
            *final(intf) == stat_if(*old(intf), cond),
    {
        if cond {
            intf.set_flag(InterruptFlag::LCDStat);
        }
    }

    fn compare_lyc(&mut self, intf: &mut Interrupts)
        ensures
            (*final(self), *final(intf)) == old(self).spec_set_scanline(old(self).ly, *old(intf)),
    {
        self.stat.coincidence_flag = false;
        if self.lyc == self.ly {
            self.stat.coincidence_flag = true;
            Self::raise_stat(intf, self.stat.coincidence_interrupt);
        }
    }

    fn set_scanline(&mut self, value: u8, intf: &mut Interrupts)
        ensures
            (*final(self), *final(intf)) == old(self).spec_set_scanline(value, *old(intf)),
    {
        self.ly = value;
        self.compare_lyc(intf);
    }

    fn set_mode(&mut self, mode: Mode, intf: &mut Interrupts)
        ensures
            (*final(self), *final(intf)) == old(self).spec_set_mode(mode, *old(intf)),
    {
        self.stat.mode = mode;
        match self.stat.mode {
            Mode::OAM => Self::raise_stat(intf, self.stat.oam_interrupt),
            Mode::HBlank => Self::raise_stat(intf, self.stat.hblank_interrupt),
            Mode::VBlank => Self::raise_stat(intf, self.stat.vblank_interrupt),
            _ => {},
        }
    }

    /// Advances the GPU by `cycles` clock cycles; interrupt requests go to `intf`.
    pub fn step(&mut self, cycles: u32, intf: &mut Interrupts)
        requires
            old(self).step_ok(cycles),
        ensures
            (*final(self), *final(intf)) == old(self).spec_step(cycles, *old(intf)),
            old(self).step_renders(cycles) ==> forall|x: int, y: int|
                0 <= x < 160 && 0 <= y < 144 ==> #[trigger] final(self).frame()[x][y] == if y
                    == old(self).line() {
                    old(self).line_pixel(x)
                } else {
                    old(self).frame()[x][y]
                },
            !old(self).step_renders(cycles) ==> final(self).frame() == old(self).frame(),
    {
        if !self.lcdc.lcd_enable {
            // When LCD is disabled, reset GPU state
            if !(self.stat.mode == Mode::VBlank) || self.ly != 0 {
                self.ly = 0;
                self.clock = 0;
                self.stat.mode = Mode::VBlank;
            }
            return;
        }
        self.clock = self.clock + cycles;
        match self.stat.mode {
            Mode::OAM => {
                if self.clock >= CYCLES_OAM {
                    self.clock = self.clock % CYCLES_OAM;
                    self.set_mode(Mode::VRAM, intf);
                }
            },
            Mode::VRAM => {
                if self.clock >= CYCLES_VRAM {
                    self.clock = self.clock % CYCLES_VRAM;
                    Self::raise_stat(intf, self.stat.hblank_interrupt);
                    let ghost before = *self;
                    self.render_line();
                    proof {
                        assert forall|x: int| 0 <= x < 160 implies before.line_pixel(x) == old(self).line_pixel(x) by {
                            lemma_line_pixel_same(before, *old(self), x);
                        }
                        lemma_drawn_frame(*old(self), self.frame_buffer);
                    }
                    self.set_mode(Mode::HBlank, intf);
                }
            },
            Mode::HBlank => {
                if self.clock >= CYCLES_HBLANK {
                    self.clock = self.clock % CYCLES_HBLANK;
                    let next = self.ly + 1;
                    self.set_scanline(next, intf);
                    if self.ly > SCANLINES_DISPLAY {
                        self.set_mode(Mode::VBlank, intf);
                        // render screen
                        Self::raise_stat(intf, self.stat.vblank_interrupt);
                        intf.set_flag(InterruptFlag::VBlank);
                    } else {
                        self.set_mode(Mode::OAM, intf);
                        Self::raise_stat(intf, self.stat.oam_interrupt);
                    }
                }
            },
            Mode::VBlank => {
                if self.clock >= CYCLES_VBLANK {
                    self.clock = self.clock % CYCLES_VBLANK;
                    let next = self.ly + 1;
                    self.set_scanline(next, intf);
                    if self.ly > MAX_SCANLINES {
                        self.set_scanline(0, intf);
                        self.set_mode(Mode::OAM, intf);
                        Self::raise_stat(intf, self.stat.oam_interrupt);
                    }
                }
            },
        }
    }

    /// Whether `step_ok` holds, computed.
    pub fn can_step(&self, cycles: u32) -> (r: bool)
        ensures
            r == self.step_ok(cycles),
    {
        if !self.lcdc.lcd_enable {
            return true;
        }
        if self.clock > u32::MAX - cycles {
            return false;
        }
        let clock = self.clock + cycles;
        let vram_ok = !(self.stat.mode == Mode::VRAM && clock >= CYCLES_VRAM) || self.ly < 144;
        let line_ok = !((self.stat.mode == Mode::HBlank && clock >= CYCLES_HBLANK) || (self.stat.mode
            == Mode::VBlank && clock >= CYCLES_VBLANK)) || self.ly < 255;
        vram_ok && line_ok
    }

    // ----- rendering -----

    pub closed spec fn bg_map_area(self) -> tile_map::Area {
        if self.lcdc.bg_tile_map_display_select { tile_map::Area::Area1 } else { tile_map::Area::Area0 }
    }

    pub closed spec fn window_map_area(self) -> tile_map::Area {
        if self.lcdc.window_tile_map_display_select { tile_map::Area::Area1 } else { tile_map::Area::Area0 }
    }

    pub closed spec fn data_area(self) -> tile_data::Area {
        if self.lcdc.bg_window_tile_data_select { tile_data::Area::Area1 } else { tile_data::Area::Area0 }
    }

    /// The colour ID of the background pixel shown at screen column `lx` of the current line:
    /// the background scrolls by (SX, SY) and wraps around at 256.
    pub closed spec fn bg_id(self, lx: int) -> ColorId {
        let y = self.ly.wrapping_add(self.sy);
        let x = (lx as u8).wrapping_add(self.sx);
        let index = self.tile_map.entry(self.bg_map_area(), (y / 8) as int, (x / 8) as int);
        self.tile_data.tiles[tile_slot(self.data_area(), index)].data[(y % 8) as int][(x % 8) as int]
    }

    /// The first screen column of the window (WX - 7, or 0 when WX < 7).
    pub closed spec fn window_start(self) -> int {
        if self.wx >= 7 { self.wx - 7 } else { 0 }
    }

    /// Whether the window shows on the current line.
    pub closed spec fn window_visible(self) -> bool {
        self.lcdc.window_display_enable && self.ly >= self.wy && self.window_start() < 160
    }

    /// The colour ID of the window pixel at screen column `lx` of the current line.
    pub closed spec fn window_id(self, lx: int) -> ColorId {
        let wy = self.ly - self.wy;
        let wx = lx - self.window_start();
        let index = self.tile_map.entry(self.window_map_area(), wy / 8, wx / 8);
        self.tile_data.tiles[tile_slot(self.data_area(), index)].data[wy % 8][wx % 8]
    }

    pub closed spec fn sprite_height(self) -> int {
        if self.lcdc.obj_size { 16 } else { 8 }
    }

    /// Whether a sprite is on screen and covers the current line.
    pub closed spec fn on_line(self, s: Sprite) -> bool {
        &&& !(s.y_pos >= 160 || s.x_pos >= 168)
        &&& self.ly >= s.y_pos
        &&& self.ly < s.y_pos + self.sprite_height()
    }

    /// The sprites covering the current line, in OAM order, from index `i` on, after `acc`;
    /// at most ten are taken.
    pub closed spec fn select_from(self, i: int, acc: Seq<Sprite>) -> Seq<Sprite>
        decreases 40 - i,
    {
        if i >= 40 || acc.len() >= 10 {
            acc
        } else if self.on_line(self.oam.0[i]) {
            self.select_from(i + 1, acc.push(self.oam.0[i]))
        } else {
            self.select_from(i + 1, acc)
        }
    }

    /// The (at most ten) sprites drawn on the current line, lowest OAM index first.
    pub closed spec fn visible_sprites(self) -> Seq<Sprite> {
        self.select_from(0, seq![])
    }

    /// The row of colour IDs of a sprite's tile that lies on the current line.
    pub closed spec fn sprite_row_ids(self, s: Sprite) -> [ColorId; 8] {
        let h = self.sprite_height();
        let sprite_row = self.ly - s.y_pos;
        let tile_row = if s.y_flip { h - 1 - sprite_row } else { sprite_row };
        let tile_index: u8 = if h == 16 {
            if tile_row < 8 { s.tile_index & 0xFE } else { ((s.tile_index & 0xFE) + 1) as u8 }
        } else {
            s.tile_index
        };
        let actual_row = if h == 16 && tile_row >= 8 { tile_row - 8 } else { tile_row };
        self.tile_data.tiles[tile_index as int].data[actual_row]
    }

    /// The colour a sprite paints at screen column `x` of the current line, if any: colour 0
    /// is transparent, and a sprite behind the background only shows over background colour 0.
    pub closed spec fn sprite_paint(self, s: Sprite, x: int) -> Option<Color> {
        if x < s.x_pos || x >= s.x_pos + 8 {
            None
        } else {
            let col = x - s.x_pos;
            let row = self.sprite_row_ids(s);
            let id = if s.x_flip { row[7 - col] } else { row[col] };
            if id == ColorId::Id00 {
                None
            } else if s.priority && self.bg_id(x) != ColorId::Id00 {
                None
            } else {
                let palette = if s.palette { self.op1 } else { self.op0 };
                Some(color_of_bits(shade_of(palette, id_value(id))))
            }
        }
    }

    /// The colour at column `x` after painting the sprites of `vis` from last to first over
    /// `base`: the first sprite that paints the pixel wins.
    pub closed spec fn painted(self, vis: Seq<Sprite>, x: int, base: Color) -> Color
        decreases vis.len(),
    {
        if vis.len() == 0 {
            base
        } else {
            match self.sprite_paint(vis[0], x) {
                Some(c) => c,
                None => self.painted(vis.drop_first(), x, base),
            }
        }
    }

    /// Background and window at column `x` of the current line (the old pixel when the
    /// background is off).
    pub closed spec fn base_pixel(self, x: int) -> Color {
        if self.lcdc.bg_display {
            if self.window_visible() && x >= self.window_start() {
                self.bgp.color(self.window_id(x))
            } else {
                self.bgp.color(self.bg_id(x))
            }
        } else {
            self.frame_buffer[x][self.ly as int]
        }
    }

    /// The pixel at column `x` of the current line after the line is rendered.
    pub closed spec fn line_pixel(self, x: int) -> Color {
        if self.lcdc.obj_display_enable {
            self.painted(self.visible_sprites(), x, self.base_pixel(x))
        } else {
            self.base_pixel(x)
        }
    }

    /// `new` is `old` with the current line rendered and nothing else changed.
    pub closed spec fn line_rendered(new: Gpu, old: Gpu) -> bool {
        &&& new == Gpu { frame_buffer: new.frame_buffer, ..old }
        &&& forall|x: int, y: int|
            0 <= x < 160 && 0 <= y < 144 ==> #[trigger] new.frame_buffer[x][y] == if y == old.ly {
                old.line_pixel(x)
            } else {
                old.frame_buffer[x][y]
            }
    }

    fn render_line(&mut self)
        requires
            old(self).ly < 144,
        ensures
            Gpu::line_rendered(*final(self), *old(self)),
    {
        let ghost g = *self;
        // Always render background first (even if bg_display is false, we still need to fill the screen)
        // When bg_display is false, the background should show as white/transparent
        if self.lcdc.bg_display {
            self.render_bg_line();
            self.render_window_line();
        }
        let ghost g2 = *self;
        if self.lcdc.obj_display_enable {
            self.render_obj_line();
        }
        proof {
            assert(g2.visible_sprites() == g.visible_sprites()) by {
                assert(g2.oam == g.oam && g2.ly == g.ly && g2.lcdc == g.lcdc);
                lemma_select_same(g2, g, 0, seq![]);
            }
            assert forall|x: int| 0 <= x < 160 implies g2.frame_buffer[x][g.ly as int] == g.base_pixel(x) by {}
            assert forall|x: int, s: Sprite| 0 <= x < 160 implies #[trigger] g2.sprite_paint(s, x) == g.sprite_paint(s, x) by {}
            assert forall|x: int| 0 <= x < 160 implies g2.painted(g.visible_sprites(), x, g.base_pixel(x)) == g.painted(g.visible_sprites(), x, g.base_pixel(x)) by {
                lemma_painted_same(g2, g, g.visible_sprites(), x, g.base_pixel(x));
            }
        }
    }

    fn render_bg_line(&mut self)
        requires
            old(self).ly < 144,
        ensures
            *final(self) == (Gpu { frame_buffer: final(self).frame_buffer, ..*old(self) }),
            forall|x: int, y: int|
                0 <= x < 160 && 0 <= y < 144 ==> #[trigger] final(self).frame_buffer[x][y] == if y
                    == old(self).ly {
                    old(self).bgp.color(old(self).bg_id(x))
                } else {
                    old(self).frame_buffer[x][y]
                },
    {
        let y = self.ly.wrapping_add(self.sy);
        let bg_tile_map_area = if self.lcdc.bg_tile_map_display_select {
            tile_map::Area::Area1
        } else {
            tile_map::Area::Area0
        };
        let tile_data_area = if self.lcdc.bg_window_tile_data_select {
            tile_data::Area::Area1
        } else {
            tile_data::Area::Area0
        };
        let row_in_tile = y % 8;
        let mut lx: usize = 0;
        while lx < SCREEN_WIDTH
            invariant
                lx <= 160,
                old(self).ly < 144,
                y == old(self).ly.wrapping_add(old(self).sy),
                bg_tile_map_area == old(self).bg_map_area(),
                tile_data_area == old(self).data_area(),
                row_in_tile == y % 8,
                0 < lx < 160 ==> ((lx as u8).wrapping_add(old(self).sx)) % 8 == 0,
                *self == (Gpu { frame_buffer: self.frame_buffer, ..*old(self) }),
                forall|x: int, yy: int|
                    0 <= x < 160 && 0 <= yy < 144 ==> #[trigger] self.frame_buffer[x][yy] == if yy
                        == old(self).ly && x < lx {
                        old(self).bgp.color(old(self).bg_id(x))
                    } else {
                        old(self).frame_buffer[x][yy]
                    },
            decreases 160 - lx,
        {
            let x = (lx as u8).wrapping_add(self.sx);
            let col_in_tile = x % 8;
            let tile_index = self.tile_map.get_tile_index(bg_tile_map_area, x as usize, y as usize);
            let tile_pixels = self.tile_data.get_row_pixels(tile_data_area, tile_index, row_in_tile as usize);
            let length = if col_in_tile > 0 {
                8 - (col_in_tile as usize)
            } else if SCREEN_WIDTH - lx < 8 {
                SCREEN_WIDTH - lx
            } else {
                8
            };
            assert(col_in_tile > 0 ==> lx == 0);
            let mut i: usize = 0;
            while i < length
                invariant
                    lx + length <= 160,
                    col_in_tile as int + length <= 8,
                    i <= length,
                    old(self).ly < 144,
                    x == (lx as u8).wrapping_add(old(self).sx),
                    col_in_tile == x % 8,
                    y == old(self).ly.wrapping_add(old(self).sy),
                    tile_pixels == old(self).tile_data.tiles[tile_slot(old(self).data_area(), tile_index)].data[(y % 8) as int],
                    tile_index == old(self).tile_map.entry(old(self).bg_map_area(), (y / 8) as int, (x / 8) as int),
                    *self == (Gpu { frame_buffer: self.frame_buffer, ..*old(self) }),
                    forall|xx: int, yy: int|
                        0 <= xx < 160 && 0 <= yy < 144 ==> #[trigger] self.frame_buffer[xx][yy] == if yy
                            == old(self).ly && xx < lx + i {
                            old(self).bgp.color(old(self).bg_id(xx))
                        } else {
                            old(self).frame_buffer[xx][yy]
                        },
                decreases length - i,
            {
                let color_id = tile_pixels[col_in_tile as usize + i];
                let color = self.bgp.get_color(color_id);
                proof {
                    let xi = ((lx + i) as u8).wrapping_add(old(self).sx);
                    assert(xi == x + i);
                    assert(xi / 8 == x / 8);
                    assert(xi % 8 == col_in_tile + i);
                }
                let ly = self.ly as usize;
                self.frame_buffer[lx + i][ly] = color;
                i += 1;
            }
            proof {
                if col_in_tile > 0 {
                    assert(x as int + length == x - x % 8 + 8);
                }
            }
            lx += length;
        }
    }

    fn render_window_line(&mut self)
        requires
            old(self).ly < 144,
        ensures
            *final(self) == (Gpu { frame_buffer: final(self).frame_buffer, ..*old(self) }),
            forall|x: int, y: int|
                0 <= x < 160 && 0 <= y < 144 ==> #[trigger] final(self).frame_buffer[x][y] == if y
                    == old(self).ly && old(self).window_visible() && x >= old(self).window_start() {
                    old(self).bgp.color(old(self).window_id(x))
                } else {
                    old(self).frame_buffer[x][y]
                },
    {
        if !self.lcdc.window_display_enable {
            return;
        }
        // Window Y position check - window is only visible when LY >= WY
        if self.ly < self.wy {
            return;
        }
        // Window X position - window starts at WX - 7 (WX=7 means window starts at x=0)
        let window_start_x = if self.wx >= 7 {
            (self.wx as usize) - 7
        } else {
            0
        };
        if window_start_x >= SCREEN_WIDTH {
            return;
        }
        let window_tile_map_area = if self.lcdc.window_tile_map_display_select {
            tile_map::Area::Area1
        } else {
            tile_map::Area::Area0
        };
        let tile_data_area = if self.lcdc.bg_window_tile_data_select {
            tile_data::Area::Area1
        } else {
            tile_data::Area::Area0
        };
        // Window-relative Y coordinate (line within window)
        let window_y = self.ly - self.wy;
        let row_in_tile = window_y % 8;
        let mut lx = window_start_x;
        while lx < SCREEN_WIDTH
            invariant
                window_start_x <= lx <= 160,
                window_start_x == old(self).window_start(),
                old(self).window_visible(),
                old(self).ly < 144,
                window_y == old(self).ly - old(self).wy,
                row_in_tile == window_y % 8,
                window_tile_map_area == old(self).window_map_area(),
                tile_data_area == old(self).data_area(),
                (lx - window_start_x) % 8 == 0 || lx == 160,
                *self == (Gpu { frame_buffer: self.frame_buffer, ..*old(self) }),
                forall|x: int, yy: int|
                    0 <= x < 160 && 0 <= yy < 144 ==> #[trigger] self.frame_buffer[x][yy] == if yy
                        == old(self).ly && window_start_x <= x < lx {
                        old(self).bgp.color(old(self).window_id(x))
                    } else {
                        old(self).frame_buffer[x][yy]
                    },
            decreases 160 - lx,
        {
            // Window-relative X coordinate
            let window_x = lx - window_start_x;
            let col_in_tile = window_x % 8;
            let tile_index = self.tile_map.get_tile_index(window_tile_map_area, window_x, window_y as usize);
            let tile_pixels = self.tile_data.get_row_pixels(tile_data_area, tile_index, row_in_tile as usize);
            let length = if col_in_tile > 0 {
                8 - (col_in_tile as usize)
            } else if SCREEN_WIDTH - lx < 8 {
                SCREEN_WIDTH - lx
            } else {
                8
            };
            let mut i: usize = 0;
            while i < length
                invariant
                    lx + length <= 160,
                    col_in_tile == 0,
                    length <= 8,
                    i <= length,
                    window_start_x <= lx,
                    window_x == lx - window_start_x,
                    window_x % 8 == 0,
                    window_start_x == old(self).window_start(),
                    old(self).ly < 144,
                    window_y == old(self).ly - old(self).wy,
                    tile_pixels == old(self).tile_data.tiles[tile_slot(old(self).data_area(), tile_index)].data[(window_y % 8) as int],
                    tile_index == old(self).tile_map.entry(old(self).window_map_area(), (window_y / 8) as int, (window_x / 8) as int),
                    *self == (Gpu { frame_buffer: self.frame_buffer, ..*old(self) }),
                    forall|xx: int, yy: int|
                        0 <= xx < 160 && 0 <= yy < 144 ==> #[trigger] self.frame_buffer[xx][yy] == if yy
                            == old(self).ly && window_start_x <= xx < lx + i {
                            old(self).bgp.color(old(self).window_id(xx))
                        } else {
                            old(self).frame_buffer[xx][yy]
                        },
                decreases length - i,
            {
                let color_id = tile_pixels[col_in_tile as usize + i];
                let color = self.bgp.get_color(color_id);
                proof {
                    let wx = (lx + i) - window_start_x;
                    assert(wx / 8 == window_x / 8);
                    assert(wx % 8 == i);
                }
                let ly = self.ly as usize;
                self.frame_buffer[lx + i][ly] = color;
                i += 1;
            }
            lx += length;
        }
    }

    /// The palette shade of a sprite colour ID.
    fn palette_bits(palette: u8, id: ColorId) -> (r: u8)
        ensures
            r == shade_of(palette, id_value(id)),
            r < 4,
    {
        proof {
            assert((palette >> 0u8) & 0b11 == palette & 0b11 && palette & 0b11 < 4 && (palette >> 2u8) & 0b11 < 4
                && (palette >> 4u8) & 0b11 < 4 && (palette >> 6u8) & 0b11 < 4) by (bit_vector);
        }
        match id {
            ColorId::Id00 => palette & 0b11,
            ColorId::Id01 => (palette >> 2) & 0b11,
            ColorId::Id10 => (palette >> 4) & 0b11,
            ColorId::Id11 => (palette >> 6) & 0b11,
        }
    }

    /// The colour ID of the background pixel at screen column `screen_x`.
    fn bg_pixel(&self, screen_x: usize) -> (r: ColorId)
        requires
            screen_x < 160,
        ensures
            r == self.bg_id(screen_x as int),
    {
        let bg_y = self.ly.wrapping_add(self.sy);
        let bg_x = (screen_x as u8).wrapping_add(self.sx);
        let bg_tile_map_area = if self.lcdc.bg_tile_map_display_select {
            tile_map::Area::Area1
        } else {
            tile_map::Area::Area0
        };
        let bg_tile_index = self.tile_map.get_tile_index(bg_tile_map_area, bg_x as usize, bg_y as usize);
        let bg_tile_data_area = if self.lcdc.bg_window_tile_data_select {
            tile_data::Area::Area1
        } else {
            tile_data::Area::Area0
        };
        let bg_row_in_tile = bg_y % 8;
        let bg_col_in_tile = bg_x % 8;
        let bg_tile_pixels = self.tile_data.get_row_pixels(bg_tile_data_area, bg_tile_index, bg_row_in_tile as usize);
        bg_tile_pixels[bg_col_in_tile as usize]
    }

    fn render_obj_line(&mut self)
        requires
            old(self).ly < 144,
        ensures
            *final(self) == (Gpu { frame_buffer: final(self).frame_buffer, ..*old(self) }),
            forall|x: int, y: int|
                0 <= x < 160 && 0 <= y < 144 ==> #[trigger] final(self).frame_buffer[x][y] == if y
                    == old(self).ly {
                    old(self).painted(old(self).visible_sprites(), x, old(self).frame_buffer[x][y])
                } else {
                    old(self).frame_buffer[x][y]
                },
    {
        let sprites = self.oam.get_sprites();
        let sprite_height: u8 = if self.lcdc.obj_size { 16 } else { 8 };
        // Collect sprites visible on this scanline (max 10)
        // Sprites with y_pos >= 160 or x_pos >= 168 are not visible
        let mut visible_sprites: Vec<Sprite> = Vec::new();
        let mut idx: usize = 0;
        while idx < 40 && visible_sprites.len() < 10
            invariant
                idx <= 40,
                sprites == old(self).oam.0,
                sprite_height == old(self).sprite_height(),
                *self == *old(self),
                visible_sprites@.len() <= 10,
                old(self).select_from(idx as int, visible_sprites@) == old(self).visible_sprites(),
                forall|j: int| 0 <= j < visible_sprites@.len() ==> old(self).on_line(#[trigger] visible_sprites@[j]),
            decreases 40 - idx,
        {
            let sprite = sprites[idx];
            idx += 1;
            // Skip sprites that are off-screen
            if sprite.y_pos >= 160 || sprite.x_pos >= 168 {
                continue;
            }
            let sprite_top = sprite.y_pos as i16;
            let sprite_bottom = sprite_top + sprite_height as i16;
            // Check if this scanline intersects with the sprite
            let ly_i16 = self.ly as i16;
            if ly_i16 >= sprite_top && ly_i16 < sprite_bottom {
                visible_sprites.push(sprite);
            }
        }
        proof {
            lemma_select_done(*old(self), idx as int, visible_sprites@);
        }
        let ghost vis = visible_sprites@;
        // Render sprites from right to left (lower OAM index = higher priority)
        let mut k = visible_sprites.len();
        while k > 0
            invariant
                k <= vis.len(),
                vis == visible_sprites@,
                vis == old(self).visible_sprites(),
                forall|j: int| 0 <= j < vis.len() ==> old(self).on_line(#[trigger] vis[j]),
                old(self).ly < 144,
                *self == (Gpu { frame_buffer: self.frame_buffer, ..*old(self) }),
                forall|x: int, y: int|
                    0 <= x < 160 && 0 <= y < 144 ==> #[trigger] self.frame_buffer[x][y] == if y
                        == old(self).ly {
                        old(self).painted(vis.subrange(k as int, vis.len() as int), x, old(self).frame_buffer[x][y])
                    } else {
                        old(self).frame_buffer[x][y]
                    },
            decreases k,
        {
            k -= 1;
            let sprite = visible_sprites[k];
            let ghost before = self.frame_buffer;
            self.paint_sprite(sprite);
            proof {
                assert(vis.subrange(k as int, vis.len() as int)[0] == sprite);
                assert forall|x: int, y: int| 0 <= x < 160 && 0 <= y < 144 && y == old(self).ly implies
                    #[trigger] self.frame_buffer[x][y] == old(self).painted(vis.subrange(k as int, vis.len() as int), x, old(self).frame_buffer[x][y]) by {
                    let sub = vis.subrange(k as int, vis.len() as int);
                    assert(sub[0] == sprite);
                    assert(sub.drop_first() =~= vis.subrange(k + 1, vis.len() as int));
                }
            }
        }
        assert(vis.subrange(0, vis.len() as int) =~= vis);
    }

    /// Paints one sprite over the current line.
    fn paint_sprite(&mut self, sprite: Sprite)
        requires
            old(self).on_line(sprite),
            old(self).ly < 144,
        ensures
            *final(self) == (Gpu { frame_buffer: final(self).frame_buffer, ..*old(self) }),
            forall|x: int, y: int|
                0 <= x < 160 && 0 <= y < 144 ==> #[trigger] final(self).frame_buffer[x][y] == if y
                    == old(self).ly {
                    match old(self).sprite_paint(sprite, x) {
                        Some(c) => c,
                        None => old(self).frame_buffer[x][y],
                    }
                } else {
                    old(self).frame_buffer[x][y]
                },
    {
        let sprite_height: u8 = if self.lcdc.obj_size { 16 } else { 8 };
        let sprite_row = self.ly - sprite.y_pos;
        let tile_row = if sprite.y_flip {
            (sprite_height - 1) - sprite_row
        } else {
            sprite_row
        };
        proof {
            let t = sprite.tile_index;
            assert(t & 0xFE <= 0xFE) by (bit_vector);
        }
        let tile_index = if sprite_height == 16 {
            if tile_row < 8 {
                sprite.tile_index & 0xFE
            } else {
                (sprite.tile_index & 0xFE) + 1
            }
        } else {
            sprite.tile_index
        };
        let actual_tile_row = if sprite_height == 16 && tile_row >= 8 {
            (tile_row - 8) as usize
        } else {
            tile_row as usize
        };
        let tile_pixels = self.tile_data.get_row(tile_index as u16, actual_tile_row);
        assert(tile_pixels == old(self).sprite_row_ids(sprite));
        let palette = if sprite.palette { self.op1 } else { self.op0 };
        let mut col: usize = 0;
        while col < 8
            invariant
                col <= 8,
                old(self).on_line(sprite),
                old(self).ly < 144,
                tile_pixels == old(self).sprite_row_ids(sprite),
                palette == (if sprite.palette { old(self).op1 } else { old(self).op0 }),
                *self == (Gpu { frame_buffer: self.frame_buffer, ..*old(self) }),
                forall|x: int, y: int|
                    0 <= x < 160 && 0 <= y < 144 ==> #[trigger] self.frame_buffer[x][y] == if y
                        == old(self).ly && x < sprite.x_pos + col {
                        match old(self).sprite_paint(sprite, x) {
                            Some(c) => c,
                            None => old(self).frame_buffer[x][y],
                        }
                    } else {
                        old(self).frame_buffer[x][y]
                    },
            decreases 8 - col,
        {
            let color_id = if sprite.x_flip { tile_pixels[7 - col] } else { tile_pixels[col] };
            let screen_x = sprite.x_pos as usize + col;
            col += 1;
            if color_id == ColorId::Id00 {
                continue;
            }
            if screen_x >= SCREEN_WIDTH {
                continue;
            }
            if sprite.priority {
                let bg_color_id = self.bg_pixel(screen_x);
                if bg_color_id != ColorId::Id00 {
                    continue;
                }
            }
            let palette_bits = Self::palette_bits(palette, color_id);
            let color = Color::from_bits(palette_bits);
            let ly = self.ly as usize;
            self.frame_buffer[screen_x][ly] = color;
        }
    }
}

/// While OAM is accessible (H-Blank or V-Blank), an OAM byte reads back what is written to it,
/// the write leaves every other GPU byte as it reads, and the mode stays.
pub proof fn lemma_oam_write(g: Gpu, addr: u16, value: u8, other: u16)
    requires
        is_oam_addr(addr),
        g.mode() == Mode::HBlank || g.mode() == Mode::VBlank,
        is_gpu_read_addr(other),
    ensures
        g.spec_write_byte(addr, value).spec_read_byte(other) == if other == addr {
            value
        } else {
            g.spec_read_byte(other)
        },
        g.spec_write_byte(addr, value).mode() == g.mode(),
{
    if other == addr {
        self::oam::lemma_oam_write_read(g.oam, addr, value);
    } else if is_oam_addr(other) {
        self::oam::lemma_oam_write_other(g.oam, addr, value, other);
    }
}

/// A DMA write changes OAM alone: the OAM it leaves is the old OAM with the byte written, the
/// mode stays, and every GPU byte outside OAM reads as before.
pub proof fn lemma_dma_write(g: Gpu, addr: u16, value: u8, other: u16)
    requires
        is_oam_addr(addr),
    ensures
        g.spec_dma_write(addr, value).objects() == g.objects().spec_write_byte(addr, value),
        g.spec_dma_write(addr, value).mode() == g.mode(),
        !is_oam_addr(other) ==> g.spec_dma_write(addr, value).spec_read_byte(other) == g.spec_read_byte(other),
{
}

/// While OAM is accessible (H-Blank or V-Blank) an OAM address reads the OAM byte there.
pub proof fn lemma_oam_visible(g: Gpu, addr: u16)
    requires
        is_oam_addr(addr),
        g.mode() == Mode::HBlank || g.mode() == Mode::VBlank,
    ensures
        g.spec_read_byte(addr) == g.objects().spec_read_byte(addr),
{
}

/// The line counter agrees with the mode: at most 153, at most 143 outside V-Blank, and, while
/// the LCD is on, at least 144 in V-Blank (with the LCD off the GPU rests in V-Blank on line 0).
pub open spec fn line_consistent(g: Gpu) -> bool {
    &&& g.line() <= 153
    &&& g.mode() != Mode::VBlank ==> g.line() <= 143
    &&& g.spec_lcdc().lcd_enable && g.mode() == Mode::VBlank ==> g.line() >= 144
}

/// A GPU at power-on has a consistent line counter.
pub proof fn lemma_fresh_line_consistent(g: Gpu)
    requires
        g.fresh(),
    ensures
        line_consistent(g),
{
}

/// Every step keeps the line counter consistent with the mode: lines 0-143 are drawn through
/// OAM, VRAM and H-Blank, lines 144-153 pass in V-Blank, and then line 0 comes again.
pub proof fn lemma_step_keeps_line_consistent(g: Gpu, cycles: u32, i: Interrupts)
    requires
        line_consistent(g),
    ensures
        line_consistent(g.spec_step(cycles, i).0),
{
}

/// A write by the CPU keeps the line counter consistent with the mode: only LCDC moves them,
/// and switching the LCD on restarts on line 0 in mode 2.
pub proof fn lemma_write_keeps_line_consistent(g: Gpu, addr: u16, value: u8)
    requires
        line_consistent(g),
    ensures
        line_consistent(g.spec_write_byte(addr, value)),
{
}

/// The line and mode law of a step with the LCD on: LY stays, moves on by one, or wraps from
/// 153 to 0; when it moves, the coincidence flag tells whether it now equals LYC; reaching
/// line 144 enters V-Blank and requests the V-Blank interrupt; and the line counter stays
/// consistent with the mode (V-Blank exactly on lines 144-153).
pub proof fn lemma_step_line_law(g: Gpu, cycles: u32, i: Interrupts)
    requires
        line_consistent(g),
        g.spec_lcdc().lcd_enable,
    ensures
        ({
            let (g2, i2) = g.spec_step(cycles, i);
            &&& g2.line() == g.line() || g2.line() == g.line() + 1 || (g.line() == 153 && g2.line() == 0)
            &&& g2.line() != g.line() ==> g2.spec_stat().coincidence_flag == (g2.line()
                == g.spec_read_byte(0xFF45))
            &&& g2.line() == 144 && g.line() != 144 ==> g2.mode() == Mode::VBlank && i2.data & 1 == 1
            &&& line_consistent(g2)
            &&& g2.spec_lcdc().lcd_enable
            &&& (g2.mode() == Mode::VBlank <==> g2.line() >= 144)
            &&& g2.spec_read_byte(0xFF45) == g.spec_read_byte(0xFF45)
        }),
{
    assert forall|j: Interrupts| (#[trigger] with_flag(j, InterruptFlag::VBlank)).data & 1 == 1 by {
        let d = j.data;
        assert((d | (1u8 << 0u8)) & 1 == 1) by (bit_vector);
    }
}

/// VRAM keeps what the CPU writes while it is accessible (any mode but pixel transfer): the
/// byte reads back, every other GPU byte reads as before, and the mode stays.
pub proof fn lemma_vram_write(g: Gpu, addr: u16, value: u8, other: u16)
    requires
        0x8000 <= addr <= 0x9FFF,
        g.mode() != Mode::VRAM,
        is_gpu_read_addr(other),
    ensures
        g.spec_write_byte(addr, value).spec_read_byte(other) == if other == addr {
            value
        } else {
            g.spec_read_byte(other)
        },
        g.spec_write_byte(addr, value).mode() == g.mode(),
{
    if is_tile_data_addr(addr) {
        if other == addr {
            self::tile_data::lemma_tile_data_write_read(g.tile_data, addr, value);
        } else if is_tile_data_addr(other) {
            self::tile_data::lemma_tile_data_write_other(g.tile_data, addr, value, other);
        }
    } else if is_tile_map_addr(other) {
        self::tile_map::lemma_tile_map_write_read(g.tile_map, addr, value, other);
    } else if other == addr {
        self::tile_map::lemma_tile_map_write_read(g.tile_map, addr, value, addr);
    }
}

/// The LCD registers keep what the CPU writes: SCY, SCX, LYC, the palettes, WY and WX read
/// back the byte written; LCDC reads it back too; STAT takes bits 3-6 of it and keeps its mode
/// and coincidence bits; LY ignores writes. Every other GPU byte reads as before, except that
/// switching the LCD on moves to line 0 in mode 2.
pub proof fn lemma_register_write(g: Gpu, addr: u16, value: u8, other: u16)
    requires
        0xFF40 <= addr <= 0xFF4B,
        addr != 0xFF46,
        is_gpu_read_addr(other),
    ensures
        ({
            let g2 = g.spec_write_byte(addr, value);
            &&& addr != 0xFF41 && addr != 0xFF44 ==> g2.spec_read_byte(addr) == value
            &&& addr == 0xFF41 ==> g2.spec_read_byte(addr) & 0x78 == value & 0x78
                && g2.spec_read_byte(addr) & 0x07 == g.spec_read_byte(addr) & 0x07
            &&& addr == 0xFF44 ==> g2 == g
            &&& other != addr && addr != 0xFF40 ==> g2.spec_read_byte(other) == g.spec_read_byte(other)
            &&& addr == 0xFF40 && !(!g.spec_lcdc().lcd_enable && g2.spec_lcdc().lcd_enable) && other
                != addr ==> g2.spec_read_byte(other) == g.spec_read_byte(other)
            &&& addr == 0xFF40 && !g.spec_lcdc().lcd_enable && g2.spec_lcdc().lcd_enable ==> g2.line()
                == 0 && g2.mode() == Mode::OAM && g2.dot_clock() == 0
            &&& addr != 0xFF40 ==> g2.mode() == g.mode() && g2.line() == g.line()
        }),
{
    self::lcdc::lemma_lcdc_byte_roundtrip(value);
    self::palette::lemma_palette_write_read(value);
    self::stat::lemma_stat_write_read(g.stat, value);
}

/// With the LCD off a step parks the GPU in V-Blank on line 0 and requests no interrupt.
pub proof fn lemma_lcd_off_parks(g: Gpu, cycles: u32, i: Interrupts)
    requires
        !g.spec_lcdc().lcd_enable,
    ensures
        g.spec_step(cycles, i).0.mode() == Mode::VBlank,
        g.spec_step(cycles, i).0.line() == 0,
        g.spec_step(cycles, i).1 == i,
{
}

/// A step that enters V-Blank requests the V-Blank interrupt, and one that stays out of
/// V-Blank does not request it.
pub proof fn lemma_vblank_interrupt(g: Gpu, cycles: u32, i: Interrupts)
    requires
        g.spec_lcdc().lcd_enable,
        i.data & 1 == 0,
    ensures
        (g.mode() != Mode::VBlank && g.spec_step(cycles, i).0.mode() == Mode::VBlank)
            <==> g.spec_step(cycles, i).1.data & 1 == 1,
{
    assert forall|j: Interrupts, c: bool| (#[trigger] stat_if(j, c)).data & 1 == j.data & 1 by {
        let d = j.data;
        assert((d | (1u8 << 1u8)) & 1 == d & 1) by (bit_vector);
    }
    assert forall|j: Interrupts| (#[trigger] with_flag(j, InterruptFlag::VBlank)).data & 1 == 1 by {
        let d = j.data;
        assert((d | (1u8 << 0u8)) & 1 == 1) by (bit_vector);
    }
}

/// The frame with the current line drawn is the one frame that `draws` describes.
proof fn lemma_drawn_frame(g: Gpu, f: Screen)
    requires
        g.draws(f),
    ensures
        g.drawn_frame() == f,
{
    let c = g.drawn_frame();
    assert(g.draws(c));
    assert forall|x: int| 0 <= x < 160 implies c[x] == f[x] by {
        assert forall|y: int| 0 <= y < 144 implies c[x][y] == f[x][y] by {
            assert(c[x][y] == f[x][y]);
        }
        assert(c[x] =~= f[x]);
    }
    assert(c =~= f);
}

/// The rendered pixel does not depend on the dot clock.
proof fn lemma_line_pixel_same(a: Gpu, b: Gpu, x: int)
    requires
        a == (Gpu { clock: a.clock, ..b }),
    ensures
        a.line_pixel(x) == b.line_pixel(x),
{
    lemma_select_same(a, b, 0, seq![]);
    lemma_painted_same(a, b, a.visible_sprites(), x, a.base_pixel(x));
}

/// Selection depends only on OAM, LY and the sprite size.
proof fn lemma_select_same(a: Gpu, b: Gpu, i: int, acc: Seq<Sprite>)
    requires
        a.oam == b.oam,
        a.ly == b.ly,
        a.lcdc == b.lcdc,
    ensures
        a.select_from(i, acc) == b.select_from(i, acc),
    decreases 40 - i,
{
    if i >= 40 || acc.len() >= 10 {
    } else if a.on_line(a.oam.0[i]) {
        lemma_select_same(a, b, i + 1, acc.push(a.oam.0[i]));
    } else {
        lemma_select_same(a, b, i + 1, acc);
    }
}

/// Painting depends only on the sprites, tiles, palettes and scroll, not on the frame or the clock.
proof fn lemma_painted_same(a: Gpu, b: Gpu, vis: Seq<Sprite>, x: int, base: Color)
    requires
        a == (Gpu { frame_buffer: a.frame_buffer, clock: a.clock, ..b }),
    ensures
        a.painted(vis, x, base) == b.painted(vis, x, base),
    decreases vis.len(),
{
    if vis.len() > 0 {
        lemma_painted_same(a, b, vis.drop_first(), x, base);
    }
}

/// Once ten sprites are taken or OAM is exhausted, selection stops.
proof fn lemma_select_done(g: Gpu, i: int, acc: Seq<Sprite>)
    requires
        i >= 40 || acc.len() >= 10,
    ensures
        g.select_from(i, acc) == acc,
{
}

/// How a sprite pixel is drawn (8x8 sprites, in front of the background): at screen column
/// `x_pos + c` the sprite shows column `c` of its tile row, that is bit `7 - c` of the two
/// tile-data bytes of that row (low byte for bit 0 of the colour number, high byte for bit 1);
/// with X-flip set it shows column `7 - c` (bit `c`). The row is line `LY - y_pos` of the tile,
/// counted from the bottom with Y-flip. Colour 0 is transparent; any other colour number is
/// shaded by the sprite's palette register.
pub proof fn lemma_sprite_pixel(g: Gpu, s: Sprite, x: int)
    requires
        !g.spec_lcdc().obj_size,
        s.y_pos <= g.line() < s.y_pos + 8,
        s.x_pos <= x < s.x_pos + 8,
        !s.priority,
    ensures
        ({
            let row = if s.y_flip { 7 - (g.line() - s.y_pos) } else { g.line() - s.y_pos };
            let addr = 0x8000 + 16 * s.tile_index + 2 * row;
            let lo = g.tiles().spec_read_byte(addr as u16);
            let hi = g.tiles().spec_read_byte((addr + 1) as u16);
            let c = x - s.x_pos;
            let shift = (if s.x_flip { c } else { 7 - c }) as u8;
            let id = 2 * ((hi >> shift) & 1) + ((lo >> shift) & 1);
            let palette = g.spec_read_byte(if s.palette { 0xFF49u16 } else { 0xFF48u16 });
            g.sprite_paint(s, x) == if id == 0 {
                None
            } else {
                Some(color_of_bits(shade_of(palette, id as u8)))
            }
        }),
{
    let row = if s.y_flip { 7 - (g.line() - s.y_pos) } else { g.line() - s.y_pos };
    let addr = 0x8000 + 16 * s.tile_index + 2 * row;
    let c = x - s.x_pos;
    let col = if s.x_flip { 7 - c } else { c };
    let ids = g.tile_data.tiles[s.tile_index as int].data[row];
    assert(g.sprite_row_ids(s) == ids);
    assert(self::tile_data::data_location(addr as u16) == (s.tile_index as int, row, self::color_id::ColorBit::Lo));
    assert(self::tile_data::data_location((addr + 1) as u16) == (s.tile_index as int, row, self::color_id::ColorBit::Hi));
    self::tile_data::lemma_row_byte_bit(ids, self::color_id::ColorBit::Lo, col);
    self::tile_data::lemma_row_byte_bit(ids, self::color_id::ColorBit::Hi, col);
    assert((7 - col) as u8 == (if s.x_flip { c } else { 7 - c }) as u8);
}

/// Interrupt requests only accumulate: a request already made stays, and requesting LCD STAT
/// sets bit 1.
pub proof fn lemma_requests_accumulate()
    ensures
        forall|j: Interrupts, f: InterruptFlag| #![trigger with_flag(j, f)] j.data & 2 == 2 ==> with_flag(j, f).data & 2 == 2,
        forall|j: Interrupts| #![trigger with_flag(j, InterruptFlag::LCDStat)] with_flag(j, InterruptFlag::LCDStat).data & 2 == 2,
{
    assert forall|j: Interrupts, f: InterruptFlag| #![trigger with_flag(j, f)] j.data & 2 == 2 implies with_flag(j, f).data & 2 == 2 by {
        let d = j.data;
        let b = f.spec_bit();
        assert(b < 8 && d & 2 == 2 ==> (d | (1u8 << b)) & 2 == 2) by (bit_vector);
    }
    assert forall|j: Interrupts| #![trigger with_flag(j, InterruptFlag::LCDStat)] with_flag(j, InterruptFlag::LCDStat).data & 2 == 2 by {
        let d = j.data;
        assert((d | (1u8 << 1u8)) & 2 == 2) by (bit_vector);
    }
}

/// The LY=LYC interrupt: when the coincidence interrupt is enabled (STAT bit 6) and a step
/// moves LY to the value of LYC, the step requests the LCD STAT interrupt (IF bit 1).
pub proof fn lemma_coincidence_interrupt(g: Gpu, cycles: u32, i: Interrupts)
    requires
        g.spec_lcdc().lcd_enable,
        g.spec_stat().coincidence_interrupt,
    ensures
        ({
            let (g2, i2) = g.spec_step(cycles, i);
            g2.line() != g.line() && g2.line() == g.spec_read_byte(0xFF45) ==> i2.data & 2 == 2
        }),
{
    lemma_requests_accumulate();
}

/// How a background pixel is drawn (window off): the background is a 256x256 picture
/// scrolled by SCX and SCY (0xFF43, 0xFF42) and wrapping around. Screen column `lx` of line LY
/// shows pixel (x, y) = ((lx + SCX) mod 256, (LY + SCY) mod 256) of it. Its tile number is the
/// tile map byte at 0x9800 (0x9C00 with LCDC bit 3) + 32 (y / 8) + x / 8; the tile's data starts
/// at 0x8000 + 16 n (LCDC bit 4 set) or at 0x9000 + 16 n with n read as signed; row y mod 8 of
/// the tile is the two bytes at +2 (y mod 8), column x mod 8 is their bit 7 - (x mod 8), and the
/// colour number they give is shaded by BGP (0xFF47). With sprites off, that is the pixel drawn.
pub proof fn lemma_bg_pixel(g: Gpu, lx: int)
    requires
        0 <= lx < 160,
        g.spec_lcdc().bg_display,
        !g.spec_lcdc().window_display_enable,
    ensures
        ({
            let y = (g.line() + g.spec_read_byte(0xFF42)) % 256;
            let x = (lx + g.spec_read_byte(0xFF43)) % 256;
            let map_base: int = if g.spec_lcdc().bg_tile_map_display_select { 0x9C00 } else { 0x9800 };
            let n = g.map().spec_read_byte((map_base + 32 * (y / 8) + x / 8) as u16) as int;
            let tile_base: int = if g.spec_lcdc().bg_window_tile_data_select {
                0x8000 + 16 * n
            } else {
                0x9000 + 16 * (if n < 128 { n } else { n - 256 })
            };
            let addr = tile_base + 2 * (y % 8);
            let lo = g.tiles().spec_read_byte(addr as u16);
            let hi = g.tiles().spec_read_byte((addr + 1) as u16);
            let shift = (7 - x % 8) as u8;
            let id = 2 * ((hi >> shift) & 1) + ((lo >> shift) & 1);
            let color = color_of_bits(shade_of(g.spec_read_byte(0xFF47), id as u8));
            &&& g.base_pixel(lx) == color
            &&& !g.spec_lcdc().obj_display_enable ==> g.line_pixel(lx) == color
        }),
{
    let y8 = g.ly.wrapping_add(g.sy);
    let x8 = (lx as u8).wrapping_add(g.sx);
    let y = (g.line() + g.spec_read_byte(0xFF42)) % 256;
    let x = (lx + g.spec_read_byte(0xFF43)) % 256;
    lemma_wrapping_add_u8(g.ly, g.sy);
    lemma_wrapping_add_u8(lx as u8, g.sx);
    assert(y8 as int == y);
    assert(x8 as int == x);
    let area = g.bg_map_area();
    let idx = g.tile_map.entry(area, (y8 / 8) as int, (x8 / 8) as int);
    self::tile_map::lemma_map_address(g.tile_map, area, (y8 / 8) as int, (x8 / 8) as int);
    lemma_signed_index(idx);
    let slot = tile_slot(g.data_area(), idx);
    let row = (y8 % 8) as int;
    let col = (x8 % 8) as int;
    self::tile_data::lemma_data_address(slot, row);
    let ids = g.tile_data.tiles[slot].data[row];
    self::tile_data::lemma_row_byte_bit(ids, self::color_id::ColorBit::Lo, col);
    self::tile_data::lemma_row_byte_bit(ids, self::color_id::ColorBit::Hi, col);
    assert(g.bg_id(lx) == ids[col]);
    self::palette::lemma_palette_byte_shade(g.bgp, ids[col]);
}

/// Adding bytes with wraparound is addition modulo 256.
proof fn lemma_wrapping_add_u8(a: u8, b: u8)
    ensures
        a.wrapping_add(b) as int == (a + b) % 256,
{
}

/// The LCD mode cycle with the LCD on: OAM search lasts 80 clocks, pixel transfer 172, H-Blank
/// 204 (456 a line), and each V-Blank line 456. A step moves to the next mode once the clock
/// reaches the mode's length, keeping the excess; H-Blank then moves to the next line, in OAM
/// search or, after line 143, in V-Blank; V-Blank moves on a line, and after line 153 goes back
/// to line 0 in OAM search. Entering H-Blank, V-Blank or OAM search requests the LCD STAT
/// interrupt (IF bit 1) when STAT enables it for that mode (bits 3, 4, 5).
pub proof fn lemma_mode_timing(g: Gpu, cycles: u32, i: Interrupts)
    requires
        g.spec_lcdc().lcd_enable,
        g.dot_clock() + cycles <= u32::MAX,
    ensures
        ({
            let (g2, i2) = g.spec_step(cycles, i);
            let t = g.dot_clock() + cycles;
            let ly = g.line();
            let s = g.spec_stat();
            &&& g.mode() == Mode::OAM ==> if t >= 80 {
                g2.mode() == Mode::VRAM && g2.dot_clock() == t % 80 && g2.line() == ly
            } else {
                g2.mode() == Mode::OAM && g2.dot_clock() == t && g2.line() == ly
            }
            &&& g.mode() == Mode::VRAM ==> if t >= 172 {
                g2.mode() == Mode::HBlank && g2.dot_clock() == t % 172 && g2.line() == ly && (s.hblank_interrupt
                    ==> i2.data & 2 == 2)
            } else {
                g2.mode() == Mode::VRAM && g2.dot_clock() == t && g2.line() == ly
            }
            &&& (g.mode() == Mode::HBlank && ly < 255) ==> if t >= 204 {
                g2.dot_clock() == t % 204 && g2.line() == ly + 1 && if ly + 1 >= 144 {
                    g2.mode() == Mode::VBlank && (s.vblank_interrupt ==> i2.data & 2 == 2)
                } else {
                    g2.mode() == Mode::OAM && (s.oam_interrupt ==> i2.data & 2 == 2)
                }
            } else {
                g2.mode() == Mode::HBlank && g2.dot_clock() == t && g2.line() == ly
            }
            &&& (g.mode() == Mode::VBlank && ly < 255) ==> if t >= 456 {
                g2.dot_clock() == t % 456 && if ly + 1 > 153 {
                    g2.line() == 0 && g2.mode() == Mode::OAM && (s.oam_interrupt ==> i2.data & 2 == 2)
                } else {
                    g2.line() == ly + 1 && g2.mode() == Mode::VBlank
                }
            } else {
                g2.mode() == Mode::VBlank && g2.dot_clock() == t && g2.line() == ly
            }
        }),
{
    lemma_requests_accumulate();
}

/// How a window pixel is drawn: on lines from WY (0xFF4A) on, the window covers the screen from
/// column WX - 7 (WX at 0xFF4B) rightwards. Screen column `lx` there shows pixel
/// (lx - (WX - 7), LY - WY) of the window, taken from the tile map at 0x9800 (0x9C00 with LCDC
/// bit 6) and the tile data as for the background, shaded by BGP. With sprites off, that is
/// the pixel drawn.
pub proof fn lemma_window_pixel(g: Gpu, lx: int)
    requires
        0 <= lx < 160,
        g.spec_lcdc().bg_display,
        g.spec_lcdc().window_display_enable,
        g.line() >= g.spec_read_byte(0xFF4A),
        g.spec_read_byte(0xFF4B) >= 7,
        lx >= g.spec_read_byte(0xFF4B) - 7,
    ensures
        ({
            let y = g.line() - g.spec_read_byte(0xFF4A);
            let x = lx - (g.spec_read_byte(0xFF4B) - 7);
            let map_base: int = if g.spec_lcdc().window_tile_map_display_select { 0x9C00 } else { 0x9800 };
            let n = g.map().spec_read_byte((map_base + 32 * (y / 8) + x / 8) as u16) as int;
            let tile_base: int = if g.spec_lcdc().bg_window_tile_data_select {
                0x8000 + 16 * n
            } else {
                0x9000 + 16 * (if n < 128 { n } else { n - 256 })
            };
            let addr = tile_base + 2 * (y % 8);
            let lo = g.tiles().spec_read_byte(addr as u16);
            let hi = g.tiles().spec_read_byte((addr + 1) as u16);
            let shift = (7 - x % 8) as u8;
            let id = 2 * ((hi >> shift) & 1) + ((lo >> shift) & 1);
            let color = color_of_bits(shade_of(g.spec_read_byte(0xFF47), id as u8));
            &&& g.base_pixel(lx) == color
            &&& !g.spec_lcdc().obj_display_enable ==> g.line_pixel(lx) == color
        }),
{
    let y = g.ly - g.wy;
    let x = lx - g.window_start();
    assert(g.window_visible() && lx >= g.window_start());
    let area = g.window_map_area();
    let idx = g.tile_map.entry(area, y / 8, x / 8);
    self::tile_map::lemma_map_address(g.tile_map, area, y / 8, x / 8);
    lemma_signed_index(idx);
    let slot = tile_slot(g.data_area(), idx);
    self::tile_data::lemma_data_address(slot, y % 8);
    let ids = g.tile_data.tiles[slot].data[y % 8];
    self::tile_data::lemma_row_byte_bit(ids, self::color_id::ColorBit::Lo, x % 8);
    self::tile_data::lemma_row_byte_bit(ids, self::color_id::ColorBit::Hi, x % 8);
    assert(g.window_id(lx) == ids[x % 8]);
    self::palette::lemma_palette_byte_shade(g.bgp, ids[x % 8]);
}

/// A tile number read as signed: 0-127 as they are, 128-255 as -128 to -1.
proof fn lemma_signed_index(idx: u8)
    ensures
        (idx as i8) as int == if idx < 128 { idx as int } else { idx - 256 },
{
    assert((idx as i8) as int == if idx < 128 { idx as int } else { idx - 256 }) by (bit_vector);
}

} // verus!
