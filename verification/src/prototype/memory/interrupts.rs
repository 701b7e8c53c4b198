use vstd::prelude::*;
use crate::bits::{lemma_bits_pack, lemma_byte_fields};

verus! {

/// The five interrupt sources.
#[derive(Debug, Clone, Copy, PartialEq, Eq, Structural)]
pub enum Interrupt {
    VBlank,
    LCDStat,
    Timer,
    Serial,
    Joypad,
}

/// One flag per interrupt source, as in the IF and IE registers.
#[derive(Debug, Clone, Copy, PartialEq, Eq, Structural)]
pub struct InterruptVector {
    pub vblank: bool,
    pub lcd_stat: bool,
    pub timer: bool,
    pub serial: bool,
    pub joypad: bool,
}

/// The register byte of a vector: V-Blank in bit 0 up to joypad in bit 4.
pub open spec fn vector_byte(v: InterruptVector) -> u8 {
    (v.vblank as u8) | ((v.lcd_stat as u8) << 1u8) | ((v.timer as u8) << 2u8) | ((v.serial as u8)
        << 3u8) | ((v.joypad as u8) << 4u8)
}

/// The vector a register byte holds; bits 5 to 7 are ignored.
pub open spec fn vector_of_byte(byte: u8) -> InterruptVector {
    InterruptVector {
        vblank: byte & 1 != 0,
        lcd_stat: (byte >> 1u8) & 1 != 0,
        timer: (byte >> 2u8) & 1 != 0,
        serial: (byte >> 3u8) & 1 != 0,
        joypad: (byte >> 4u8) & 1 != 0,
    }
}

/// The vector with no flag set.
pub open spec fn empty_vector() -> InterruptVector {
    InterruptVector { vblank: false, lcd_stat: false, timer: false, serial: false, joypad: false }
}

impl InterruptVector {
    pub fn new() -> (r: Self)
        ensures
            r == empty_vector(),
    {
        Self { vblank: false, lcd_stat: false, timer: false, serial: false, joypad: false }
    }

    pub fn set_vblank(&mut self, vblank: bool)
        ensures
            *final(self) == (InterruptVector { vblank, ..*old(self) }),
    {
        self.vblank = vblank;
    }

    pub fn set_lcd_stat(&mut self, lcd_stat: bool)
        ensures
            *final(self) == (InterruptVector { lcd_stat, ..*old(self) }),
    {
        self.lcd_stat = lcd_stat;
    }

    pub fn set_timer(&mut self, timer: bool)
        ensures
            *final(self) == (InterruptVector { timer, ..*old(self) }),
    {
        self.timer = timer;
    }

    pub fn set_serial(&mut self, serial: bool)
        ensures
            *final(self) == (InterruptVector { serial, ..*old(self) }),
    {
        self.serial = serial;
    }

    pub fn set_joypad(&mut self, joypad: bool)
        ensures
            *final(self) == (InterruptVector { joypad, ..*old(self) }),
    {
        self.joypad = joypad;
    }

    pub fn reset(&mut self)
        ensures
            *final(self) == empty_vector(),
    {
        self.vblank = false;
        self.lcd_stat = false;
        self.timer = false;
        self.serial = false;
        self.joypad = false;
    }

    /// Whether no flag is set.
    pub fn is_zero(&self) -> (r: bool)
        ensures
            r == (*self == empty_vector()),
    {
        !(self.vblank || self.lcd_stat || self.timer || self.serial || self.joypad)
    }

    /// The register byte of this vector.
    pub fn to_byte(self) -> (r: u8)
        ensures
            r == vector_byte(self),
    {
        (self.vblank as u8) | (self.lcd_stat as u8) << 1 | (self.timer as u8) << 2 | (
        self.serial as u8) << 3 | (self.joypad as u8) << 4
    }

    /// The vector a register byte holds.
    pub fn from_byte(byte: u8) -> (r: Self)
        ensures
            r == vector_of_byte(byte),
    {
        let vblank = ((byte >> 0) & 1) != 0;
        let lcd_stat = ((byte >> 1) & 1) != 0;
        let timer = ((byte >> 2) & 1) != 0;
        let serial = ((byte >> 3) & 1) != 0;
        let joypad = ((byte >> 4) & 1) != 0;
        proof {
            lemma_byte_fields(byte);
        }
        InterruptVector { vblank, lcd_stat, timer, serial, joypad }
    }

    /// Adds the flags of `rhs`: each flag is set when it is set in either vector.
    pub fn bitor_assign(&mut self, rhs: Self)
        ensures
            *final(self) == (InterruptVector {
                vblank: old(self).vblank || rhs.vblank,
                lcd_stat: old(self).lcd_stat || rhs.lcd_stat,
                timer: old(self).timer || rhs.timer,
                serial: old(self).serial || rhs.serial,
                joypad: old(self).joypad || rhs.joypad,
            }),
    {
        self.vblank = self.vblank || rhs.vblank;
        self.lcd_stat = self.lcd_stat || rhs.lcd_stat;
        self.timer = self.timer || rhs.timer;
        self.serial = self.serial || rhs.serial;
        self.joypad = self.joypad || rhs.joypad;
    }
}

/// A vector survives the round trip through its register byte, and a byte keeps its five
/// low bits.
pub proof fn lemma_vector_roundtrip(v: InterruptVector, byte: u8)
    ensures
        vector_of_byte(vector_byte(v)) == v,
        vector_byte(vector_of_byte(byte)) == byte & 0x1F,
{
    lemma_bits_pack(0, 0, 0, v.joypad as u8, v.serial as u8, v.timer as u8, v.lcd_stat as u8, v.vblank as u8);
    lemma_byte_fields(byte);
    assert(((byte & 1 != 0) as u8) == byte & 1);
    assert((((byte >> 1u8) & 1 != 0) as u8) == (byte >> 1u8) & 1);
    assert((((byte >> 2u8) & 1 != 0) as u8) == (byte >> 2u8) & 1);
    assert((((byte >> 3u8) & 1 != 0) as u8) == (byte >> 3u8) & 1);
    assert((((byte >> 4u8) & 1 != 0) as u8) == (byte >> 4u8) & 1);
}

/// The interrupt request (IF) and enable (IE) vectors.
#[derive(Debug, Clone, Copy, PartialEq, Eq, Structural)]
pub struct Interrupts {
    /// Interrupt flags
    pub int_r: InterruptVector,
    /// Interrupt enable
    pub int_e: InterruptVector,
}

impl Interrupts {
    pub fn new() -> (r: Self)
        ensures
            r.int_r == empty_vector() && r.int_e == empty_vector(),
    {
        Interrupts { int_r: InterruptVector::new(), int_e: InterruptVector::new() }
    }

    pub fn set_int_r(&mut self, int_r: InterruptVector)
        ensures
            *final(self) == (Interrupts { int_r, ..*old(self) }),
    {
        self.int_r = int_r;
    }

    pub fn set_int_e(&mut self, int_e: InterruptVector)
        ensures
            *final(self) == (Interrupts { int_e, ..*old(self) }),
    {
        self.int_e = int_e;
    }

    /// Requests `interrupt`: its flag in IF is set, nothing else changes.
    pub fn request(&mut self, interrupt: Interrupt)
        ensures
            final(self).int_e == old(self).int_e,
            final(self).int_r == match interrupt {
                Interrupt::VBlank => InterruptVector { vblank: true, ..old(self).int_r },
                Interrupt::LCDStat => InterruptVector { lcd_stat: true, ..old(self).int_r },
                Interrupt::Timer => InterruptVector { timer: true, ..old(self).int_r },
                Interrupt::Serial => InterruptVector { serial: true, ..old(self).int_r },
                Interrupt::Joypad => InterruptVector { joypad: true, ..old(self).int_r },
            },
    {
        match interrupt {
            Interrupt::VBlank => self.int_r.set_vblank(true),
            Interrupt::LCDStat => self.int_r.set_lcd_stat(true),
            Interrupt::Timer => self.int_r.set_timer(true),
            Interrupt::Serial => self.int_r.set_serial(true),
            Interrupt::Joypad => self.int_r.set_joypad(true),
        }
    }
}

} // verus!
