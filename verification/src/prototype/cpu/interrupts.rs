use vstd::prelude::*;

verus! {

/// One flag per interrupt source.
#[derive(Debug, Clone, Copy, PartialEq, Eq, Structural)]
pub struct Interrupt {
    pub vblank: bool,
    pub lcd_stat: bool,
    pub timer: bool,
    pub serial: bool,
    pub joypad: bool,
}

impl Interrupt {
    /// No interrupt flagged.
    pub fn new() -> (r: Self)
        ensures
            r == (Interrupt { vblank: false, lcd_stat: false, timer: false, serial: false, joypad: false }),
    {
        Self { vblank: false, lcd_stat: false, timer: false, serial: false, joypad: false }
    }

    pub fn set_vblank(&mut self, vblank: bool)
        ensures
            *final(self) == (Interrupt { vblank, ..*old(self) }),
    {
        self.vblank = vblank;
    }

    pub fn set_lcd_stat(&mut self, lcd_stat: bool)
        ensures
            *final(self) == (Interrupt { lcd_stat, ..*old(self) }),
    {
        self.lcd_stat = lcd_stat;
    }

    pub fn set_timer(&mut self, timer: bool)
        ensures
            *final(self) == (Interrupt { timer, ..*old(self) }),
    {
        self.timer = timer;
    }

    pub fn set_serial(&mut self, serial: bool)
        ensures
            *final(self) == (Interrupt { serial, ..*old(self) }),
    {
        self.serial = serial;
    }

    pub fn set_joypad(&mut self, joypad: bool)
        ensures
            *final(self) == (Interrupt { joypad, ..*old(self) }),
    {
        self.joypad = joypad;
    }
}

} // verus!
