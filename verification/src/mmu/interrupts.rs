use vstd::prelude::*;

verus! {

/// The five interrupt sources, in the order of their bits in the IF and IE registers.
#[derive(Debug, Clone, Copy, PartialEq, Eq, Structural)]
pub enum InterruptFlag {
    VBlank,
    LCDStat,
    Timer,
    Serial,
    Joypad,
}

impl InterruptFlag {
    /// Bit position of the interrupt in the IF / IE registers.
    pub open spec fn spec_bit(self) -> u8 {
        match self {
            InterruptFlag::VBlank => 0,
            InterruptFlag::LCDStat => 1,
            InterruptFlag::Timer => 2,
            InterruptFlag::Serial => 3,
            InterruptFlag::Joypad => 4,
        }
    }

    pub fn bit(self) -> (b: u8)
        ensures b == self.spec_bit(),
    {
        match self {
            InterruptFlag::VBlank => 0,
            InterruptFlag::LCDStat => 1,
            InterruptFlag::Timer => 2,
            InterruptFlag::Serial => 3,
            InterruptFlag::Joypad => 4,
        }
    }
}

/// The interrupt request register (IF).
#[derive(Debug, Clone, Copy, PartialEq, Eq, Structural)]
pub struct Interrupts {
    pub data: u8,
}

/// The request register with `flag` requested as well.
pub open spec fn with_flag(i: Interrupts, flag: InterruptFlag) -> Interrupts {
    Interrupts { data: i.data | (1u8 << flag.spec_bit()) }
}

impl Interrupts {
    pub fn new() -> (r: Self)
        ensures r.data == 0,
    {
        Self { data: 0x0 }
    }

    pub fn reset(&mut self)
        ensures final(self).data == 0,
    {
        self.data = 0x0;
    }

    /// Requests `flag` by setting its bit; the other bits are kept.
    pub fn set_flag(&mut self, flag: InterruptFlag)
        ensures
            *final(self) == with_flag(*old(self), flag),
    {
        let b = flag.bit();
        self.data = self.data | (1u8 << b);
    }
}

} // verus!
