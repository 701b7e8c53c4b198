use vstd::prelude::*;
use crate::bits::lemma_byte_fields;

verus! {

// The Mode Flag goes through the values 0, 2, and 3 at a cycle of about 109uS.
// 0 is present about 48.6uS, 2 about 19uS, and 3 about 41uS. This is interrupted
// every 16.6ms by the VBlank (1). The mode flag stays set at 1 for about 1.08 ms.
//
// Mode 0 is present between 201-207 clks, 2 about 77-83 clks, and 3 about 169-175 clks.
// A complete cycle through these states takes 456 clks. VBlank lasts 4560 clks.
// A complete screen refresh occurs every 70224 clks.
#[derive(Debug, Clone, Copy, PartialEq, Eq, Structural)]
pub enum Mode {
    /// Mode 0: H-Blank; the CPU can access VRAM and OAM.
    HBlank,
    /// Mode 1: V-Blank (or display disabled); the CPU can access VRAM and OAM.
    VBlank,
    /// Mode 2: the LCD controller reads OAM; the CPU cannot access it.
    OAM,
    /// Mode 3: the LCD controller reads OAM and VRAM; the CPU can access neither.
    VRAM,
}

/// The mode number (0..3) of a mode.
pub open spec fn mode_bits(m: Mode) -> u8 {
    match m {
        Mode::HBlank => 0,
        Mode::VBlank => 1,
        Mode::OAM => 2,
        Mode::VRAM => 3,
    }
}

/// The mode with number `bits`.
pub open spec fn mode_of_bits(bits: u8) -> Mode {
    if bits == 0 {
        Mode::HBlank
    } else if bits == 1 {
        Mode::VBlank
    } else if bits == 2 {
        Mode::OAM
    } else {
        Mode::VRAM
    }
}

impl Mode {
    pub open spec fn spec_cycles(self) -> u32 {
        match self {
            Mode::HBlank => 204,
            Mode::VBlank => 4560,
            Mode::OAM => 80,
            Mode::VRAM => 172,
        }
    }

    /// The length of the mode in clock cycles.
    pub fn cycles(&self) -> (r: u32)
        ensures
            r == self.spec_cycles(),
    {
        match self {
            Mode::HBlank => 204,
            Mode::VBlank => 4560,
            Mode::OAM => 80,
            Mode::VRAM => 172,
        }
    }

    /// The mode number 0..3.
    pub fn to_bits(self) -> (r: u8)
        ensures
            r == mode_bits(self),
    {
        match self {
            Mode::HBlank => 0,
            Mode::VBlank => 1,
            Mode::OAM => 2,
            Mode::VRAM => 3,
        }
    }

    /// The mode with the given number.
    pub fn from_bits(byte: u8) -> (r: Self)
        requires
            byte < 4,
        ensures
            r == mode_of_bits(byte),
    {
        if byte == 0 {
            Mode::HBlank
        } else if byte == 1 {
            Mode::VBlank
        } else if byte == 2 {
            Mode::OAM
        } else {
            Mode::VRAM
        }
    }
}

/// LCDC Status Register
// Bit 6 - LYC=LY Coincidence Interrupt (1=Enable) (Read/Write)
// Bit 5 - Mode 2 OAM Interrupt         (1=Enable) (Read/Write)
// Bit 4 - Mode 1 V-Blank Interrupt     (1=Enable) (Read/Write)
// Bit 3 - Mode 0 H-Blank Interrupt     (1=Enable) (Read/Write)
// Bit 2 - Coincidence Flag  (0:LYC<>LY, 1:LYC=LY) (Read Only)
// Bit 1-0 - Mode Flag       (Mode 0-3, see below) (Read Only)
#[derive(Debug, Clone, Copy, PartialEq, Eq, Structural)]
pub struct Stat {
    pub mode: Mode,
    pub coincidence_flag: bool,
    pub hblank_interrupt: bool,
    pub vblank_interrupt: bool,
    pub oam_interrupt: bool,
    pub coincidence_interrupt: bool,
}

/// The STAT register byte.
pub open spec fn stat_byte(s: Stat) -> u8 {
    mode_bits(s.mode) | ((s.coincidence_flag as u8) << 2u8) | ((s.hblank_interrupt as u8) << 3u8)
        | ((s.vblank_interrupt as u8) << 4u8) | ((s.oam_interrupt as u8) << 5u8) | ((
    s.coincidence_interrupt as u8) << 6u8)
}

/// The status a STAT register byte describes; bit 7 is ignored.
pub open spec fn stat_of_byte(byte: u8) -> Stat {
    Stat {
        mode: mode_of_bits(byte & 0b11),
        coincidence_flag: (byte >> 2u8) & 1 != 0,
        hblank_interrupt: (byte >> 3u8) & 1 != 0,
        vblank_interrupt: (byte >> 4u8) & 1 != 0,
        oam_interrupt: (byte >> 5u8) & 1 != 0,
        coincidence_interrupt: (byte >> 6u8) & 1 != 0,
    }
}

/// The status after the CPU writes `byte` to STAT: the four interrupt enables (bits 3-6) are
/// taken from the byte; the coincidence flag and the mode, which are read-only, stay.
pub open spec fn stat_after_write(s: Stat, byte: u8) -> Stat {
    Stat { mode: s.mode, coincidence_flag: s.coincidence_flag, ..stat_of_byte(byte) }
}

impl Stat {
    pub fn new() -> (r: Self)
        ensures
            r == (Stat {
                mode: Mode::HBlank,
                coincidence_flag: false,
                hblank_interrupt: false,
                vblank_interrupt: false,
                oam_interrupt: false,
                coincidence_interrupt: false,
            }),
            stat_byte(r) == 0,
    {
        assert((0u8 | (0u8 << 2u8) | (0u8 << 3u8) | (0u8 << 4u8) | (0u8 << 5u8) | (0u8 << 6u8))
            == 0u8) by (bit_vector);
        Self {
            mode: Mode::HBlank,
            coincidence_flag: false,
            hblank_interrupt: false,
            vblank_interrupt: false,
            oam_interrupt: false,
            coincidence_interrupt: false,
        }
    }

    /// The STAT register byte.
    pub fn to_byte(&self) -> (r: u8)
        ensures
            r == stat_byte(*self),
    {
        let mode = self.mode.to_bits();
        mode | ((self.coincidence_flag as u8) << 2) | ((self.hblank_interrupt as u8) << 3) | ((
        self.vblank_interrupt as u8) << 4) | ((self.oam_interrupt as u8) << 5) | ((
        self.coincidence_interrupt as u8) << 6)
    }

    /// The status that a STAT register byte describes.
    pub fn from_byte(byte: u8) -> (r: Self)
        ensures
            r == stat_of_byte(byte),
    {
        proof {
            lemma_byte_fields(byte);
        }
        Self {
            mode: Mode::from_bits(byte & 0b11),
            coincidence_flag: ((byte >> 2) & 1) != 0,
            hblank_interrupt: ((byte >> 3) & 1) != 0,
            vblank_interrupt: ((byte >> 4) & 1) != 0,
            oam_interrupt: ((byte >> 5) & 1) != 0,
            coincidence_interrupt: ((byte >> 6) & 1) != 0,
        }
    }
}

impl Stat {
    /// A write of `byte` by the CPU: only the interrupt enables change.
    pub fn write_byte(&mut self, byte: u8)
        ensures
            *final(self) == stat_after_write(*old(self), byte),
    {
        let written = Stat::from_byte(byte);
        self.hblank_interrupt = written.hblank_interrupt;
        self.vblank_interrupt = written.vblank_interrupt;
        self.oam_interrupt = written.oam_interrupt;
        self.coincidence_interrupt = written.coincidence_interrupt;
    }
}

/// A STAT write reads back with bits 3-6 from the written byte and bits 0-2 (mode and
/// coincidence flag) as they were.
pub proof fn lemma_stat_write_read(s: Stat, byte: u8)
    ensures
        stat_byte(stat_after_write(s, byte)) & 0x78 == byte & 0x78,
        stat_byte(stat_after_write(s, byte)) & 0x07 == stat_byte(s) & 0x07,
        stat_byte(stat_after_write(s, byte)) & 0x80 == 0,
{
    let w = stat_after_write(s, byte);
    lemma_byte_fields(byte);
    let m = mode_bits(s.mode);
    let (c, h, v, o, i) = (
        s.coincidence_flag as u8,
        w.hblank_interrupt as u8,
        w.vblank_interrupt as u8,
        w.oam_interrupt as u8,
        w.coincidence_interrupt as u8,
    );
    let (h0, v0, o0, i0) = (
        s.hblank_interrupt as u8,
        s.vblank_interrupt as u8,
        s.oam_interrupt as u8,
        s.coincidence_interrupt as u8,
    );
    assert(h == (byte >> 3u8) & 1 && v == (byte >> 4u8) & 1 && o == (byte >> 5u8) & 1 && i == (
    byte >> 6u8) & 1);
    assert(m < 4 && c <= 1 && h0 <= 1 && v0 <= 1 && o0 <= 1 && i0 <= 1 && h == (byte >> 3u8) & 1
        && v == (byte >> 4u8) & 1 && o == (byte >> 5u8) & 1 && i == (byte >> 6u8) & 1 ==> {
        let b = m | (c << 2u8) | (h << 3u8) | (v << 4u8) | (o << 5u8) | (i << 6u8);
        let b0 = m | (c << 2u8) | (h0 << 3u8) | (v0 << 4u8) | (o0 << 5u8) | (i0 << 6u8);
        &&& b & 0x78 == byte & 0x78
        &&& b & 0x07 == b0 & 0x07
        &&& b & 0x80 == 0
    }) by (bit_vector);
}

/// Decoding the byte of a status gives the status back.
pub proof fn lemma_stat_roundtrip(s: Stat)
    ensures
        stat_of_byte(stat_byte(s)) == s,
{
    let m = mode_bits(s.mode);
    let (c, h, v, o, i) = (
        s.coincidence_flag as u8,
        s.hblank_interrupt as u8,
        s.vblank_interrupt as u8,
        s.oam_interrupt as u8,
        s.coincidence_interrupt as u8,
    );
    assert(m < 4 && c <= 1 && h <= 1 && v <= 1 && o <= 1 && i <= 1 ==> {
        let b = m | (c << 2u8) | (h << 3u8) | (v << 4u8) | (o << 5u8) | (i << 6u8);
        &&& b & 0b11 == m
        &&& (b >> 2u8) & 1 == c
        &&& (b >> 3u8) & 1 == h
        &&& (b >> 4u8) & 1 == v
        &&& (b >> 5u8) & 1 == o
        &&& (b >> 6u8) & 1 == i
    }) by (bit_vector);
}

/// Encoding the status a byte describes gives the byte with bit 7 cleared.
pub proof fn lemma_stat_byte_of_byte(byte: u8)
    ensures
        stat_byte(stat_of_byte(byte)) == byte & 0x7F,
{
    let s = stat_of_byte(byte);
    lemma_byte_fields(byte);
    assert(mode_bits(s.mode) == byte & 0b11);
}

} // verus!
