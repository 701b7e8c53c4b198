use vstd::prelude::*;
use vstd::array::spec_array_update;
use crate::addressable::{Addressable, word_of, low_byte, high_byte, lemma_word_roundtrip};
use crate::gpu::{Gpu, is_gpu_read_addr, lemma_dma_write, lemma_oam_visible};
use crate::gpu::oam::{is_oam_addr, lemma_oam_write_read, lemma_oam_write_other};
use crate::gpu::stat::Mode;
use crate::joypad::{Joypad, joypad_byte, mode_of_byte};
use crate::timer::Timer;
use self::interrupts::Interrupts;

pub mod interrupts;

verus! {

pub const UNDEFINED: u8 = 0xFF;

// The Gameboy memory map
pub const BIOS_LEN: u16 = 256;

pub const ROM_BEGIN: u16 = 0x0000;
pub const ROM_END: u16 = 0x7FFF;
pub const ROM_LEN: u16 = ROM_END - ROM_BEGIN + 1;

pub const VRAM_BEGIN: u16 = 0x8000;
pub const VRAM_END: u16 = 0x9FFF;
pub const VRAM_LEN: u16 = VRAM_END - VRAM_BEGIN + 1;

pub const ERAM_BEGIN: u16 = 0xA000;
pub const ERAM_END: u16 = 0xBFFF;
pub const ERAM_LEN: u16 = ERAM_END - ERAM_BEGIN + 1;

pub const WRAM_BEGIN: u16 = 0xC000;
pub const WRAM_END: u16 = 0xDFFF;
pub const WRAM_LEN: u16 = WRAM_END - WRAM_BEGIN + 1;

pub const ECHO_BEGIN: u16 = 0xE000;
pub const ECHO_END: u16 = 0xFDFF;
pub const ECHO_LEN: u16 = ECHO_END - ECHO_BEGIN + 1;

pub const OAM_BEGIN: u16 = 0xFE00;
pub const OAM_END: u16 = 0xFE9F;
pub const OAM_LEN: u16 = OAM_END - OAM_BEGIN + 1;

pub const ZRAM_BEGIN: u16 = 0xFF80;
pub const ZRAM_END: u16 = 0xFFFE;
pub const ZRAM_LEN: u16 = ZRAM_END - ZRAM_BEGIN + 1;

pub const INTERRUPT_FLAGS: u16 = 0xFF0F;
pub const INTERRUPT_ENABLE: u16 = 0xFFFF;

/// DMG Gameboy boot ROM
pub const BIOS: [u8; 256] = [
    0x31, 0xFE, 0xFF, 0xAF, 0x21, 0xFF, 0x9F, 0x32, 0xCB, 0x7C, 0x20, 0xFB, 0x21, 0x26, 0xFF, 0x0E,
    0x11, 0x3E, 0x80, 0x32, 0xE2, 0x0C, 0x3E, 0xF3, 0xE2, 0x32, 0x3E, 0x77, 0x77, 0x3E, 0xFC, 0xE0,
    0x47, 0x11, 0x04, 0x01, 0x21, 0x10, 0x80, 0x1A, 0xCD, 0x95, 0x00, 0xCD, 0x96, 0x00, 0x13, 0x7B,
    0xFE, 0x34, 0x20, 0xF3, 0x11, 0xD8, 0x00, 0x06, 0x08, 0x1A, 0x13, 0x22, 0x23, 0x05, 0x20, 0xF9,
    0x3E, 0x19, 0xEA, 0x10, 0x99, 0x21, 0x2F, 0x99, 0x0E, 0x0C, 0x3D, 0x28, 0x08, 0x32, 0x0D, 0x20,
    0xF9, 0x2E, 0x0F, 0x18, 0xF3, 0x67, 0x3E, 0x64, 0x57, 0xE0, 0x42, 0x3E, 0x91, 0xE0, 0x40, 0x04,
    0x1E, 0x02, 0x0E, 0x0C, 0xF0, 0x44, 0xFE, 0x90, 0x20, 0xFA, 0x0D, 0x20, 0xF7, 0x1D, 0x20, 0xF2,
    0x0E, 0x13, 0x24, 0x7C, 0x1E, 0x83, 0xFE, 0x62, 0x28, 0x06, 0x1E, 0xC1, 0xFE, 0x64, 0x20, 0x06,
    0x7B, 0xE2, 0x0C, 0x3E, 0x87, 0xE2, 0xF0, 0x42, 0x90, 0xE0, 0x42, 0x15, 0x20, 0xD2, 0x05, 0x20,
    0x4F, 0x16, 0x20, 0x18, 0xCB, 0x4F, 0x06, 0x04, 0xC5, 0xCB, 0x11, 0x17, 0xC1, 0xCB, 0x11, 0x17,
    0x05, 0x20, 0xF5, 0x22, 0x23, 0x22, 0x23, 0xC9, 0xCE, 0xED, 0x66, 0x66, 0xCC, 0x0D, 0x00, 0x0B,
    0x03, 0x73, 0x00, 0x83, 0x00, 0x0C, 0x00, 0x0D, 0x00, 0x08, 0x11, 0x1F, 0x88, 0x89, 0x00, 0x0E,
    0xDC, 0xCC, 0x6E, 0xE6, 0xDD, 0xDD, 0xD9, 0x99, 0xBB, 0xBB, 0x67, 0x63, 0x6E, 0x0E, 0xEC, 0xCC,
    0xDD, 0xDC, 0x99, 0x9F, 0xBB, 0xB9, 0x33, 0x3E, 0x3C, 0x42, 0xB9, 0xA5, 0xB9, 0xA5, 0x42, 0x3C,
    0x21, 0x04, 0x01, 0x11, 0xA8, 0x00, 0x1A, 0x13, 0xBE, 0x20, 0xFE, 0x23, 0x7D, 0xFE, 0x34, 0x20,
    0xF5, 0x06, 0x19, 0x78, 0x86, 0x23, 0x05, 0x20, 0xFB, 0x86, 0x20, 0xFE, 0x3E, 0x01, 0xE0, 0x50,
];

/// The address of the first byte a DMA transfer copies: the DMA register is its high byte.
pub open spec fn dma_source(dma: u8) -> u16 {
    ((dma as u16) << 8u16) as u16
}

/// Gameboy memory
#[derive(Debug)]
pub struct Mmu {
    pub in_bios: bool,
    pub bios: [u8; 256],
    pub rom: [u8; 0x8000],
    pub wram: [u8; 0x3E00],
    pub eram: [u8; 0x2000],
    pub zram: [u8; 0x7F],
    /// Serial data
    pub sb: u8,
    /// Serial control
    pub sc: u8,
    pub joypad: Joypad,
    pub gpu: Gpu,
    /// Interrupt requests (IF), shared by the GPU, the timer and the joypad.
    pub intf: Interrupts,
    pub inte: u8,
    pub timer: Timer,
    /// DMA transfer register
    pub dma: u8,
}

impl Mmu {
    /// The byte a read at `addr` returns. The boot ROM overlays the first 256 bytes of the
    /// cartridge ROM until it is switched off; echo RAM mirrors work RAM; sound registers read
    /// as 0 and unmapped addresses as 0xFF.
    pub open spec fn spec_read(self, addr: u16) -> u8 {
        if addr <= ROM_END {
            if self.in_bios && addr < 0x0100 {
                self.bios[addr as int]
            } else {
                self.rom[addr as int]
            }
        } else if addr <= VRAM_END {
            self.gpu.spec_read_byte(addr)
        } else if addr <= ERAM_END {
            self.eram[addr - ERAM_BEGIN]
        } else if addr <= WRAM_END {
            self.wram[addr - WRAM_BEGIN]
        } else if addr <= ECHO_END {
            self.wram[addr - ECHO_BEGIN]
        } else if addr <= OAM_END {
            self.gpu.spec_read_byte(addr)
        } else if addr == 0xFF00 {
            joypad_byte(self.joypad)
        } else if addr == 0xFF01 {
            self.sb
        } else if addr == 0xFF02 {
            self.sc
        } else if 0xFF04 <= addr <= 0xFF07 {
            self.timer.spec_read_byte(addr)
        } else if (0xFF10 <= addr <= 0xFF26) || (0xFF30 <= addr <= 0xFF3F) {
            0
        } else if 0xFF40 <= addr <= 0xFF4B && addr != 0xFF46 {
            self.gpu.spec_read_byte(addr)
        } else if addr == 0xFF46 {
            self.dma
        } else if ZRAM_BEGIN <= addr <= ZRAM_END {
            self.zram[addr - ZRAM_BEGIN]
        } else if addr == INTERRUPT_FLAGS {
            self.intf.data
        } else if addr == INTERRUPT_ENABLE {
            self.inte
        } else {
            UNDEFINED
        }
    }

    /// The OAM copy of a DMA transfer from byte `i` on: each byte is read from the source
    /// page, as memory stands after the bytes before it were copied, and put into OAM, in
    /// whatever mode the GPU is.
    pub open spec fn dma_from(self, i: int) -> Mmu
        decreases 160 - i,
    {
        if i < 0 || i >= 160 {
            self
        } else {
            let b = self.spec_read((dma_source(self.dma) + i) as u16);
            Mmu { gpu: self.gpu.spec_dma_write((OAM_BEGIN + i) as u16, b), ..self }.dma_from(i + 1)
        }
    }

    /// The memory after writing `value` at `addr`. Writes to the boot ROM region go to the
    /// boot ROM while it is mapped; a write to 0xFF46 starts a DMA transfer to OAM; a write to
    /// 0xFF50 unmaps the boot ROM; writes to unusable, sound and unmapped addresses are ignored.
    pub open spec fn spec_write(self, addr: u16, value: u8) -> Mmu {
        if addr <= ROM_END {
            if self.in_bios && addr < 0x0100 {
                Mmu { bios: spec_array_update(self.bios, addr as int, value), ..self }
            } else {
                Mmu { rom: spec_array_update(self.rom, addr as int, value), ..self }
            }
        } else if addr <= VRAM_END {
            Mmu { gpu: self.gpu.spec_write_byte(addr, value), ..self }
        } else if addr <= ERAM_END {
            Mmu { eram: spec_array_update(self.eram, addr - ERAM_BEGIN, value), ..self }
        } else if addr <= WRAM_END {
            Mmu { wram: spec_array_update(self.wram, addr - WRAM_BEGIN, value), ..self }
        } else if addr <= ECHO_END {
            Mmu { wram: spec_array_update(self.wram, addr - ECHO_BEGIN, value), ..self }
        } else if addr <= OAM_END {
            Mmu { gpu: self.gpu.spec_write_byte(addr, value), ..self }
        } else if addr == 0xFF00 {
            Mmu { joypad: Joypad { mode: mode_of_byte(value), ..self.joypad }, ..self }
        } else if addr == 0xFF01 {
            Mmu { sb: value, ..self }
        } else if addr == 0xFF02 {
            Mmu { sc: value, ..self }
        } else if 0xFF04 <= addr <= 0xFF07 {
            Mmu { timer: self.timer.spec_write_byte(addr, value), ..self }
        } else if 0xFF40 <= addr <= 0xFF4B && addr != 0xFF46 {
            Mmu { gpu: self.gpu.spec_write_byte(addr, value), ..self }
        } else if addr == 0xFF46 {
            Mmu { dma: value, ..self }.dma_from(0)
        } else if addr == 0xFF50 {
            Mmu { in_bios: false, ..self }
        } else if ZRAM_BEGIN <= addr <= ZRAM_END {
            Mmu { zram: spec_array_update(self.zram, addr - ZRAM_BEGIN, value), ..self }
        } else if addr == INTERRUPT_FLAGS {
            Mmu { intf: Interrupts { data: value }, ..self }
        } else if addr == INTERRUPT_ENABLE {
            Mmu { inte: value, ..self }
        } else {
            self
        }
    }

    /// Whether the GPU and the timer can both take a step of `cycles`.
    pub open spec fn step_ok(self, cycles: u32) -> bool {
        self.gpu.step_ok(cycles) && self.timer.step_ok(cycles)
    }

    /// A step of `cycles` clock cycles: the GPU first, then the timer, both raising their
    /// interrupt requests in IF.
    pub open spec fn spec_step(self, cycles: u32) -> Mmu {
        let (gpu, i1) = self.gpu.spec_step(cycles, self.intf);
        let (timer, i2) = self.timer.spec_step(cycles, i1);
        Mmu { gpu, timer, intf: i2, ..self }
    }

    /// Memory at power-on: the boot ROM mapped, everything else zero and the devices reset.
    pub open spec fn fresh(self) -> bool {
        &&& self.in_bios
        &&& self.bios == BIOS
        &&& forall|i: int| 0 <= i < 0x8000 ==> #[trigger] self.rom[i] == 0
        &&& forall|i: int| 0 <= i < 0x3E00 ==> #[trigger] self.wram[i] == 0
        &&& forall|i: int| 0 <= i < 0x2000 ==> #[trigger] self.eram[i] == 0
        &&& forall|i: int| 0 <= i < 0x7F ==> #[trigger] self.zram[i] == 0
        &&& self.sb == 0 && self.sc == 0 && self.inte == 0 && self.dma == 0 && self.intf.data == 0
        &&& self.joypad == Joypad::new_spec()
        &&& self.timer == Timer::new_spec()
        &&& self.gpu.fresh()
    }

    pub fn new() -> (r: Self)
        ensures
            r.fresh(),
    {
        Self {
            gpu: Gpu::new(),
            timer: Timer::new(),
            joypad: Joypad::new(),
            intf: Interrupts::new(),
            inte: 0,
            bios: BIOS,
            in_bios: true,
            rom: [0; 0x8000],
            wram: [0; 0x3E00],
            eram: [0; 0x2000],
            zram: [0; 0x7F],
            sb: 0,
            sc: 0,
            dma: 0,
        }
    }

    /// Whether `step_ok` holds, computed.
    pub fn can_step(&self, cycles: u32) -> (r: bool)
        ensures
            r == self.step_ok(cycles),
    {
        self.gpu.can_step(cycles) && self.timer.can_step(cycles)
    }

    /// Advances the GPU and the timer by `cycles` clock cycles.
    pub fn step(&mut self, cycles: u32)
        requires
            old(self).step_ok(cycles),
        ensures
            *final(self) == old(self).spec_step(cycles),
    {
        self.gpu.step(cycles, &mut self.intf);
        self.timer.step(cycles, &mut self.intf);
    }

    /// Copies the cartridge image into the ROM area, from address 0 on; the rest of the ROM
    /// area keeps its bytes.
    pub fn load_rom(&mut self, bin: Vec<u8>)
        requires
            bin.len() <= 0x8000,
        ensures
            forall|i: int| 0 <= i < bin.len() ==> final(self).rom[i] == bin[i],
            forall|i: int| bin.len() <= i < 0x8000 ==> final(self).rom[i] == old(self).rom[i],
            *final(self) == (Mmu { rom: final(self).rom, ..*old(self) }),
    {
        let mut i: usize = 0;
        while i < bin.len()
            invariant
                i <= bin.len() <= 0x8000,
                forall|k: int| 0 <= k < i ==> self.rom[k] == bin[k],
                forall|k: int| i <= k < 0x8000 ==> self.rom[k] == old(self).rom[k],
                *self == (Mmu { rom: self.rom, ..*old(self) }),
            decreases bin.len() - i,
        {
            self.rom[i] = bin[i];
            i = i + 1;
        }
    }

    /// Perform DMA transfer from source memory to OAM
    /// Copies 160 bytes from XX00-XX9F to FE00-FE9F, where XX is the value in the DMA register
    fn dma_transfer(&mut self)
        ensures
            *final(self) == old(self).dma_from(0),
    {
        let source: u16 = (self.dma as u16) << 8;
        proof {
            let d = self.dma;
            assert(((d as u16) << 8u16) <= 0xFF00) by (bit_vector);
        }
        let mut i: u16 = 0;
        while i < OAM_LEN
            invariant
                i <= 160,
                source == dma_source(self.dma),
                source <= 0xFF00,
                self.dma_from(i as int) == old(self).dma_from(0),
            decreases 160 - i,
        {
            let byte = self.read_byte(source + i);
            self.gpu.dma_write(OAM_BEGIN + i, byte);
            i = i + 1;
        }
    }
}

/// Reading memory through the memory map.
impl Addressable for Mmu {
    open spec fn spec_read_byte(&self, addr: u16) -> u8 {
        self.spec_read(addr)
    }

    open spec fn spec_write_byte(&self, addr: u16, value: u8) -> Mmu {
        self.spec_write(addr, value)
    }

    fn read_byte(&self, addr: u16) -> (r: u8) {
        if addr <= ROM_END {
            if self.in_bios && addr < 0x0100 {
                self.bios[addr as usize]
            } else {
                self.rom[addr as usize]
            }
        } else if addr <= VRAM_END {
            self.gpu.read_byte(addr)
        } else if addr <= ERAM_END {
            self.eram[(addr - ERAM_BEGIN) as usize]
        } else if addr <= WRAM_END {
            self.wram[(addr - WRAM_BEGIN) as usize]
        } else if addr <= ECHO_END {
            self.wram[(addr - ECHO_BEGIN) as usize]
        } else if addr <= OAM_END {
            self.gpu.read_byte(addr)
        } else if addr == 0xFF00 {
            self.joypad.read_byte(addr)
        } else if addr == 0xFF01 {
            self.sb
        } else if addr == 0xFF02 {
            self.sc
        } else if 0xFF04 <= addr && addr <= 0xFF07 {
            self.timer.read_byte(addr)
        } else if (0xFF10 <= addr && addr <= 0xFF26) || (0xFF30 <= addr && addr <= 0xFF3F) {
            // sound registers are not emulated and read as zero
            0
        } else if 0xFF40 <= addr && addr <= 0xFF4B && addr != 0xFF46 {
            self.gpu.read_byte(addr)
        } else if addr == 0xFF46 {
            self.dma
        } else if ZRAM_BEGIN <= addr && addr <= ZRAM_END {
            self.zram[(addr - ZRAM_BEGIN) as usize]
        } else if addr == INTERRUPT_FLAGS {
            self.intf.data
        } else if addr == INTERRUPT_ENABLE {
            self.inte
        } else {
            UNDEFINED
        }
    }

    fn write_byte(&mut self, addr: u16, value: u8) {
        if addr <= ROM_END {
            if self.in_bios && addr < 0x0100 {
                self.bios[addr as usize] = value;
                assert(self.bios =~= old(self).spec_write(addr, value).bios);
            } else {
                self.rom[addr as usize] = value;
                assert(self.rom =~= old(self).spec_write(addr, value).rom);
            }
        } else if addr <= VRAM_END {
            self.gpu.write_byte(addr, value);
        } else if addr <= ERAM_END {
            self.eram[(addr - ERAM_BEGIN) as usize] = value;
            assert(self.eram =~= old(self).spec_write(addr, value).eram);
        } else if addr <= WRAM_END {
            self.wram[(addr - WRAM_BEGIN) as usize] = value;
            assert(self.wram =~= old(self).spec_write(addr, value).wram);
        } else if addr <= ECHO_END {
            self.wram[(addr - ECHO_BEGIN) as usize] = value;
            assert(self.wram =~= old(self).spec_write(addr, value).wram);
        } else if addr <= OAM_END {
            self.gpu.write_byte(addr, value);
        } else if addr == 0xFF00 {
            self.joypad.write_byte(addr, value);
        } else if addr == 0xFF01 {
            self.sb = value;
        } else if addr == 0xFF02 {
            self.sc = value;
        } else if 0xFF04 <= addr && addr <= 0xFF07 {
            self.timer.write_byte(addr, value);
        } else if 0xFF40 <= addr && addr <= 0xFF4B && addr != 0xFF46 {
            self.gpu.write_byte(addr, value);
        } else if addr == 0xFF46 {
            self.dma = value;
            self.dma_transfer();
        } else if addr == 0xFF50 {
            self.in_bios = false;
        } else if ZRAM_BEGIN <= addr && addr <= ZRAM_END {
            self.zram[(addr - ZRAM_BEGIN) as usize] = value;
            assert(self.zram =~= old(self).spec_write(addr, value).zram);
        } else if addr == INTERRUPT_FLAGS {
            self.intf.data = value;
        } else if addr == INTERRUPT_ENABLE {
            self.inte = value;
        }
    }
}

/// Addresses that behave as plain memory: a write stores the byte and a read gives it back.
/// These are the ROM area, cartridge RAM, work RAM and its echo, high RAM, and the serial
/// data, serial control and interrupt registers.
pub open spec fn is_plain_addr(addr: u16) -> bool {
    addr <= ROM_END || (ERAM_BEGIN <= addr <= ECHO_END) || (ZRAM_BEGIN <= addr <= ZRAM_END)
        || addr == 0xFF01 || addr == 0xFF02 || addr == INTERRUPT_FLAGS || addr == INTERRUPT_ENABLE
}

/// Whether two plain addresses name the same byte: equal, or a work RAM address and its echo.
pub open spec fn same_cell(a: u16, b: u16) -> bool {
    a == b || (WRAM_BEGIN <= a <= ECHO_END && WRAM_BEGIN <= b <= ECHO_END && (if a >= ECHO_BEGIN {
        a - ECHO_BEGIN
    } else {
        a - WRAM_BEGIN
    }) == (if b >= ECHO_BEGIN {
        b - ECHO_BEGIN
    } else {
        b - WRAM_BEGIN
    }))
}

/// Reading a plain address after writing it gives the written byte.
pub proof fn lemma_write_read(m: Mmu, addr: u16, value: u8)
    requires
        is_plain_addr(addr),
    ensures
        m.spec_write(addr, value).spec_read(addr) == value,
{
}

/// A write to a plain address leaves every other plain byte as it was (the boot ROM and the
/// ROM behind it are told apart by whether the boot ROM is mapped).
pub proof fn lemma_write_other(m: Mmu, addr: u16, value: u8, other: u16)
    requires
        is_plain_addr(addr),
        is_plain_addr(other),
        !same_cell(addr, other),
    ensures
        m.spec_write(addr, value).spec_read(other) == m.spec_read(other),
{
}

/// Echo RAM mirrors work RAM: a read at 0xE000-0xFDFF gives the byte 0x2000 below.
pub proof fn lemma_echo_mirror(m: Mmu, addr: u16)
    requires
        ECHO_BEGIN <= addr <= ECHO_END,
    ensures
        m.spec_read(addr) == m.spec_read((addr - 0x2000) as u16),
{
}

/// A write to work RAM shows through its echo.
pub proof fn lemma_write_echo(m: Mmu, addr: u16, value: u8)
    requires
        WRAM_BEGIN <= addr <= 0xDDFF,
    ensures
        m.spec_write(addr, value).spec_read((addr + 0x2000) as u16) == value,
{
}

/// Unmapped addresses read 0xFF, and writing them changes nothing.
pub proof fn lemma_unmapped(m: Mmu, addr: u16, value: u8)
    requires
        0xFEA0 <= addr <= 0xFEFF || addr == 0xFF03 || (0xFF08 <= addr <= 0xFF0E) || addr == 0xFF27
            || (0xFF4C <= addr <= 0xFF4F) || (0xFF51 <= addr <= 0xFF7F),
    ensures
        m.spec_read(addr) == UNDEFINED,
        m.spec_write(addr, value) == m,
{
}

/// Writing 0xFF50 unmaps the boot ROM: the first 256 bytes then read from the cartridge ROM.
pub proof fn lemma_boot_rom_off(m: Mmu, value: u8, addr: u16)
    requires
        addr < 0x0100,
    ensures
        m.spec_write(0xFF50, value).spec_read(addr) == m.rom[addr as int],
        m.in_bios ==> m.spec_read(addr) == m.bios[addr as int],
{
}

/// A little-endian word written at a plain address reads back whole when its two bytes are
/// distinct plain cells.
pub proof fn lemma_word_write_read(m: Mmu, addr: u16, value: u16)
    requires
        addr < 0xFFFF,
        is_plain_addr(addr),
        is_plain_addr((addr + 1) as u16),
        !same_cell(addr, (addr + 1) as u16),
    ensures
        ({
            let m2 = m.spec_write(addr, low_byte(value)).spec_write((addr + 1) as u16, high_byte(value));
            word_of(m2.spec_read(addr), m2.spec_read((addr + 1) as u16)) == value
        }),
{
    let m1 = m.spec_write(addr, low_byte(value));
    lemma_write_read(m, addr, low_byte(value));
    lemma_write_other(m1, (addr + 1) as u16, high_byte(value), addr);
    lemma_write_read(m1, (addr + 1) as u16, high_byte(value));
    lemma_word_roundtrip(value);
}

/// A DMA transfer leaves the DMA register holding the page it copied from.
pub proof fn lemma_dma_register(m: Mmu, value: u8)
    ensures
        m.spec_write(0xFF46, value).spec_read(0xFF46) == value,
{
    lemma_dma_keeps(Mmu { dma: value, ..m }, 0);
}

/// The copy of a DMA transfer changes only the GPU.
proof fn lemma_dma_keeps(m: Mmu, i: int)
    ensures
        m.dma_from(i) == (Mmu { gpu: m.dma_from(i).gpu, ..m }),
    decreases 160 - i,
{
    if 0 <= i < 160 {
        let b = m.spec_read((dma_source(m.dma) + i) as u16);
        lemma_dma_keeps(Mmu { gpu: m.gpu.spec_dma_write((OAM_BEGIN + i) as u16, b), ..m }, i + 1);
    }
}

/// The pages a DMA transfer copies from: 0x00-0xDF (cartridge ROM, VRAM, cartridge RAM and
/// work RAM), none of which lies in OAM.
pub open spec fn is_dma_page(page: u8) -> bool {
    page <= 0xDF
}

/// The copy from byte `k` on: OAM bytes `k` to 159 get the source bytes `k` to 159, the OAM
/// bytes before `k` stay, the mode and the DMA register stay, and every address outside OAM
/// reads as before.
proof fn lemma_dma_from_copies(m: Mmu, k: int)
    requires
        0 <= k <= 160,
        is_dma_page(m.dma),
    ensures
        forall|j: int| k <= j < 160 ==> #[trigger] m.dma_from(k).gpu.objects().spec_read_byte(
            (OAM_BEGIN + j) as u16,
        ) == m.spec_read((dma_source(m.dma) + j) as u16),
        forall|j: int| 0 <= j < k ==> #[trigger] m.dma_from(k).gpu.objects().spec_read_byte(
            (OAM_BEGIN + j) as u16,
        ) == m.gpu.objects().spec_read_byte((OAM_BEGIN + j) as u16),
        forall|a: u16| !is_oam_addr(a) ==> #[trigger] m.dma_from(k).spec_read(a) == m.spec_read(a),
        m.dma_from(k).gpu.mode() == m.gpu.mode(),
        m.dma_from(k).dma == m.dma,
    decreases 160 - k,
{
    let d = m.dma;
    assert(d <= 0xDF ==> (d as u16) << 8u16 <= 0xDF00 && ((d as u16) << 8u16) & 0xFF == 0) by (bit_vector);
    if k < 160 {
        let src = (dma_source(d) + k) as u16;
        let b = m.spec_read(src);
        let addr = (OAM_BEGIN + k) as u16;
        let m1 = Mmu { gpu: m.gpu.spec_dma_write(addr, b), ..m };
        assert forall|a: u16| !is_oam_addr(a) implies #[trigger] m1.spec_read(a) == m.spec_read(a) by {
            lemma_dma_write(m.gpu, addr, b, a);
        }
        lemma_dma_write(m.gpu, addr, b, addr);
        lemma_oam_write_read(m.gpu.objects(), addr, b);
        assert forall|j: int| 0 <= j < 160 && j != k implies #[trigger] m1.gpu.objects().spec_read_byte(
            (OAM_BEGIN + j) as u16,
        ) == m.gpu.objects().spec_read_byte((OAM_BEGIN + j) as u16) by {
            lemma_oam_write_other(m.gpu.objects(), addr, b, (OAM_BEGIN + j) as u16);
        }
        lemma_dma_from_copies(m1, k + 1);
        assert forall|j: int| k + 1 <= j < 160 implies #[trigger] m1.spec_read((dma_source(d) + j) as u16)
            == m.spec_read((dma_source(d) + j) as u16) by {}
    }
}

/// A DMA transfer copies the 160 bytes at XX00-XX9F to FE00-FE9F, XX being the byte written
/// to 0xFF46, whatever mode the GPU is in; nothing outside OAM and the DMA register changes.
/// Where the CPU can see OAM (H-Blank or V-Blank) it reads the copied bytes there.
pub proof fn lemma_dma_copies(m: Mmu, page: u8, i: int, other: u16)
    requires
        is_dma_page(page),
        0 <= i < 160,
    ensures
        m.spec_write(0xFF46, page).gpu.objects().spec_read_byte((OAM_BEGIN + i) as u16) == m.spec_read(
            (dma_source(page) + i) as u16,
        ),
        (m.gpu.mode() == Mode::HBlank || m.gpu.mode() == Mode::VBlank) ==> m.spec_write(
            0xFF46,
            page,
        ).spec_read((OAM_BEGIN + i) as u16) == m.spec_read((dma_source(page) + i) as u16),
        !is_oam_addr(other) && other != 0xFF46 ==> m.spec_write(0xFF46, page).spec_read(other)
            == m.spec_read(other),
        m.spec_write(0xFF46, page).gpu.mode() == m.gpu.mode(),
{
    let m0 = Mmu { dma: page, ..m };
    lemma_dma_from_copies(m0, 0);
    let d = page;
    assert(d <= 0xDF ==> (d as u16) << 8u16 <= 0xDF00 && ((d as u16) << 8u16) & 0xFF == 0) by (bit_vector);
    assert(m0.spec_read((dma_source(page) + i) as u16) == m.spec_read((dma_source(page) + i) as u16));
    let m2 = m.spec_write(0xFF46, page);
    assert(m2.spec_read((OAM_BEGIN + i) as u16) == m2.gpu.spec_read_byte((OAM_BEGIN + i) as u16));
    if m.gpu.mode() == Mode::HBlank || m.gpu.mode() == Mode::VBlank {
        lemma_oam_visible(m2.gpu, (OAM_BEGIN + i) as u16);
    }
    if !is_oam_addr(other) && other != 0xFF46 {
        assert(m0.spec_read(other) == m.spec_read(other));
    }
}

} // verus!
