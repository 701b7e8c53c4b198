use vstd::prelude::*;
use vstd::array::spec_array_update;
use crate::libgb::gpu::{Gpu, is_read_addr, is_write_ok};
use crate::mmu::{BIOS, ERAM_BEGIN, ERAM_END, WRAM_BEGIN, ECHO_END, ROM_END, VRAM_END, OAM_END, ZRAM_BEGIN, ZRAM_END, INTERRUPT_FLAGS, INTERRUPT_ENABLE};
use crate::mmu::interrupts::Interrupts;
use crate::timer::Timer;

verus! {

/// Whether the bus maps `addr` for reading: everything but the unusable area, the unmapped
/// I/O registers and 0xFF50-0xFF7F.
pub open spec fn is_bus_read_addr(addr: u16) -> bool {
    addr <= OAM_END || addr == 0xFF00 || addr == 0xFF01 || addr == 0xFF02 || (0xFF04 <= addr <= 0xFF07)
        || (0xFF10 <= addr <= 0xFF26) || (0xFF30 <= addr <= 0xFF3F) || (0xFF40 <= addr <= 0xFF4B)
        || (ZRAM_BEGIN <= addr <= ZRAM_END) || addr == INTERRUPT_FLAGS || addr == INTERRUPT_ENABLE
}

/// Whether the bus accepts writing `value` at `addr`: the mapped addresses, with the video
/// unit's condition on the window X register.
pub open spec fn is_bus_write_ok(addr: u16, value: u8) -> bool {
    is_bus_read_addr(addr) && (addr == 0xFF4B ==> value >= 7)
}

/// The memory bus: boot ROM, cartridge ROM and RAM, work RAM, high RAM, and the devices.
#[derive(Debug)]
pub struct Bus {
    pub in_bios: bool,
    pub bios: [u8; 256],
    pub rom: [u8; 0x8000],
    pub wram: [u8; 0x3E00],
    pub eram: [u8; 0x2000],
    pub zram: [u8; 0x7F],
    /// Serial data
    pub sb: u8,
    /// Serial control
    pub sc: u8,
    pub joypad: u8,
    pub gpu: Gpu,
    pub intf: Interrupts,
    pub inte: u8,
    pub timer: Timer,
}

impl Bus {
    /// The byte a read at a mapped address returns. Work RAM runs on through the echo area
    /// as storage of its own; sound registers read 0.
    pub open spec fn spec_read(self, addr: u16) -> u8 {
        if addr <= ROM_END {
            if self.in_bios && addr < 0x0100 {
                self.bios[addr as int]
            } else {
                self.rom[addr as int]
            }
        } else if addr <= VRAM_END {
            self.gpu.spec_read_byte(addr)
        } else if addr <= ERAM_END {
            self.eram[addr - ERAM_BEGIN]
        } else if addr <= ECHO_END {
            self.wram[addr - WRAM_BEGIN]
        } else if addr <= OAM_END {
            self.gpu.spec_read_byte(addr)
        } else if addr == 0xFF00 {
            self.joypad
        } else if addr == 0xFF01 {
            self.sb
        } else if addr == 0xFF02 {
            self.sc
        } else if 0xFF04 <= addr <= 0xFF07 {
            self.timer.spec_read_byte(addr)
        } else if (0xFF10 <= addr <= 0xFF26) || (0xFF30 <= addr <= 0xFF3F) {
            0
        } else if 0xFF40 <= addr <= 0xFF4B {
            self.gpu.spec_read_byte(addr)
        } else if ZRAM_BEGIN <= addr <= ZRAM_END {
            self.zram[addr - ZRAM_BEGIN]
        } else if addr == INTERRUPT_FLAGS {
            self.intf.data
        } else {
            self.inte
        }
    }

    /// The bus after writing `value` at a mapped address; DMA and sound writes are ignored.
    pub open spec fn spec_write(self, addr: u16, value: u8) -> Bus {
        if addr <= ROM_END {
            if self.in_bios && addr < 0x0100 {
                Bus { bios: spec_array_update(self.bios, addr as int, value), ..self }
            } else {
                Bus { rom: spec_array_update(self.rom, addr as int, value), ..self }
            }
        } else if addr <= VRAM_END {
            Bus { gpu: self.gpu.spec_write_byte(addr, value), ..self }
        } else if addr <= ERAM_END {
            Bus { eram: spec_array_update(self.eram, addr - ERAM_BEGIN, value), ..self }
        } else if addr <= ECHO_END {
            Bus { wram: spec_array_update(self.wram, addr - WRAM_BEGIN, value), ..self }
        } else if addr <= OAM_END {
            Bus { gpu: self.gpu.spec_write_byte(addr, value), ..self }
        } else if addr == 0xFF00 {
            Bus { joypad: value, ..self }
        } else if addr == 0xFF01 {
            Bus { sb: value, ..self }
        } else if addr == 0xFF02 {
            Bus { sc: value, ..self }
        } else if 0xFF04 <= addr <= 0xFF07 {
            Bus { timer: self.timer.spec_write_byte(addr, value), ..self }
        } else if 0xFF40 <= addr <= 0xFF4B && addr != 0xFF46 {
            Bus { gpu: self.gpu.spec_write_byte(addr, value), ..self }
        } else if ZRAM_BEGIN <= addr <= ZRAM_END {
            Bus { zram: spec_array_update(self.zram, addr - ZRAM_BEGIN, value), ..self }
        } else if addr == INTERRUPT_FLAGS {
            Bus { intf: Interrupts { data: value }, ..self }
        } else if addr == INTERRUPT_ENABLE {
            Bus { inte: value, ..self }
        } else {
            self
        }
    }

    /// Whether the video unit and the timer can both take a step of `cycles`.
    pub open spec fn step_ok(self, cycles: u32) -> bool {
        self.gpu.step_ok(cycles) && self.timer.step_ok(cycles)
    }

    /// A step of `cycles`: the video unit, then the timer.
    pub open spec fn spec_step(self, cycles: u32) -> Bus {
        let (gpu, i1) = self.gpu.spec_step(cycles, self.intf);
        let (timer, i2) = self.timer.spec_step(cycles, i1);
        Bus { gpu, timer, intf: i2, ..self }
    }

    /// The bus at power-on: boot ROM loaded but not mapped, all memory zero.
    pub fn new() -> (r: Self)
        ensures
            !r.in_bios,
            r.bios == BIOS,
            forall|i: int| 0 <= i < 0x8000 ==> #[trigger] r.rom[i] == 0,
            forall|i: int| 0 <= i < 0x3E00 ==> #[trigger] r.wram[i] == 0,
            forall|i: int| 0 <= i < 0x2000 ==> #[trigger] r.eram[i] == 0,
            forall|i: int| 0 <= i < 0x7F ==> #[trigger] r.zram[i] == 0,
            r.sb == 0 && r.sc == 0 && r.joypad == 0 && r.inte == 0 && r.intf.data == 0,
            r.timer == Timer::new_spec(),
            r.gpu.line() == 0,
    {
        Self {
            gpu: Gpu::new(),
            timer: Timer::new(),
            intf: Interrupts::new(),
            inte: 0,
            bios: BIOS,
            in_bios: false,
            rom: [0; 0x8000],
            wram: [0; 0x3E00],
            eram: [0; 0x2000],
            zram: [0; 0x7F],
            sb: 0,
            sc: 0,
            joypad: 0,
        }
    }

    /// Whether `step_ok` holds, computed.
    pub fn can_step(&self, cycles: u32) -> (r: bool)
        ensures
            r == self.step_ok(cycles),
    {
        self.gpu.can_step(cycles) && self.timer.can_step(cycles)
    }

    /// Advances the video unit and the timer by `cycles` clock cycles.
    pub fn step(&mut self, cycles: u32)
        requires
            old(self).step_ok(cycles),
        ensures
            *final(self) == old(self).spec_step(cycles),
    {
        self.gpu.step(cycles, &mut self.intf);
        self.timer.step(cycles, &mut self.intf);
    }

    /// Reads a byte at a mapped address.
    pub fn read_byte(&self, addr: u16) -> (r: u8)
        requires
            is_bus_read_addr(addr),
        ensures
            r == self.spec_read(addr),
    {
        if addr <= ROM_END {
            if self.in_bios && addr < 0x0100 {
                self.bios[addr as usize]
            } else {
                self.rom[addr as usize]
            }
        } else if addr <= VRAM_END {
            self.gpu.read_byte(addr)
        } else if addr <= ERAM_END {
            self.eram[(addr - ERAM_BEGIN) as usize]
        } else if addr <= ECHO_END {
            self.wram[(addr - WRAM_BEGIN) as usize]
        } else if addr <= OAM_END {
            self.gpu.read_byte(addr)
        } else if addr == 0xFF00 {
            self.joypad
        } else if addr == 0xFF01 {
            self.sb
        } else if addr == 0xFF02 {
            self.sc
        } else if 0xFF04 <= addr && addr <= 0xFF07 {
            self.timer.read_byte(addr)
        } else if (0xFF10 <= addr && addr <= 0xFF26) || (0xFF30 <= addr && addr <= 0xFF3F) {
            // sound registers are not emulated and read as zero
            0
        } else if 0xFF40 <= addr && addr <= 0xFF4B {
            self.gpu.read_byte(addr)
        } else if ZRAM_BEGIN <= addr && addr <= ZRAM_END {
            self.zram[(addr - ZRAM_BEGIN) as usize]
        } else if addr == INTERRUPT_FLAGS {
            self.intf.data
        } else {
            self.inte
        }
    }

    /// Writes a byte at a mapped address.
    pub fn write_byte(&mut self, addr: u16, value: u8)
        requires
            is_bus_write_ok(addr, value),
        ensures
            *final(self) == old(self).spec_write(addr, value),
    {
        if addr <= ROM_END {
            if self.in_bios && addr < 0x0100 {
                self.bios[addr as usize] = value;
                assert(self.bios =~= old(self).spec_write(addr, value).bios);
            } else {
                self.rom[addr as usize] = value;
                assert(self.rom =~= old(self).spec_write(addr, value).rom);
            }
        } else if addr <= VRAM_END {
            self.gpu.write_byte(addr, value);
        } else if addr <= ERAM_END {
            self.eram[(addr - ERAM_BEGIN) as usize] = value;
            assert(self.eram =~= old(self).spec_write(addr, value).eram);
        } else if addr <= ECHO_END {
            self.wram[(addr - WRAM_BEGIN) as usize] = value;
            assert(self.wram =~= old(self).spec_write(addr, value).wram);
        } else if addr <= OAM_END {
            self.gpu.write_byte(addr, value);
        } else if addr == 0xFF00 {
            self.joypad = value;
        } else if addr == 0xFF01 {
            self.sb = value;
        } else if addr == 0xFF02 {
            self.sc = value;
        } else if 0xFF04 <= addr && addr <= 0xFF07 {
            self.timer.write_byte(addr, value);
        } else if 0xFF40 <= addr && addr <= 0xFF4B && addr != 0xFF46 {
            self.gpu.write_byte(addr, value);
        } else if ZRAM_BEGIN <= addr && addr <= ZRAM_END {
            self.zram[(addr - ZRAM_BEGIN) as usize] = value;
            assert(self.zram =~= old(self).spec_write(addr, value).zram);
        } else if addr == INTERRUPT_FLAGS {
            self.intf.data = value;
        } else if addr == INTERRUPT_ENABLE {
            self.inte = value;
        }
    }
}

/// Work RAM keeps what is written to it, through the echo area as well.
pub proof fn lemma_wram_write_read(b: Bus, addr: u16, value: u8)
    requires
        WRAM_BEGIN <= addr <= ECHO_END,
    ensures
        b.spec_write(addr, value).spec_read(addr) == value,
{
}

} // verus!
