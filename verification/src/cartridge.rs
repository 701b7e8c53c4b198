use vstd::prelude::*;
use crate::bits::lemma_byte_fields;
use crate::mmu::{ERAM_BEGIN, ERAM_END, ROM_END, UNDEFINED};

verus! {

const ROM_BANK_LEN: usize = 0x4000;

const RAM_BANK_LEN: usize = 0x2000;

const MBC2_RAM_LEN: usize = 0x200;

const CARTRIDGE_TYPE_ADDR: usize = 0x0147;

const RAM_SIZE_ADDR: usize = 0x0149;

/// The memory bank controller of a cartridge.
#[derive(Debug, Clone, Copy, PartialEq, Eq, Structural)]
pub enum Mapper {
    RomOnly,
    Mbc1,
    Mbc2,
    Mbc3,
    Mbc5,
}

/// What the MBC1 bank-high register selects.
#[derive(Debug, Clone, Copy, PartialEq, Eq, Structural)]
pub enum BankingMode {
    Rom,
    Ram,
}

/// The mapper of a cartridge type byte (header byte 0x147), if it is supported.
pub open spec fn mapper_of(cartridge_type: u8) -> Option<Mapper> {
    let t = cartridge_type;
    if t == 0x00 || t == 0x08 || t == 0x09 {
        Some(Mapper::RomOnly)
    } else if 0x01 <= t <= 0x03 {
        Some(Mapper::Mbc1)
    } else if t == 0x05 || t == 0x06 {
        Some(Mapper::Mbc2)
    } else if 0x0F <= t <= 0x13 {
        Some(Mapper::Mbc3)
    } else if 0x19 <= t <= 0x1E {
        Some(Mapper::Mbc5)
    } else {
        None
    }
}

/// The size of cartridge RAM: 512 half-bytes on MBC2, otherwise given by the RAM size byte
/// (header byte 0x149).
pub open spec fn ram_len_of(cartridge_type: u8, ram_size: u8) -> nat {
    if cartridge_type == 0x05 || cartridge_type == 0x06 {
        0x200
    } else if ram_size == 0x01 {
        0x800
    } else if ram_size == 0x02 {
        0x2000
    } else if ram_size == 0x03 {
        0x8000
    } else if ram_size == 0x04 {
        0x20000
    } else if ram_size == 0x05 {
        0x10000
    } else {
        0
    }
}

/// Whether a ROM image can be made into a cartridge: two 16KiB banks at least and a
/// supported cartridge type.
pub open spec fn rom_supported(rom: Seq<u8>) -> bool {
    rom.len() >= 0x8000 && mapper_of(rom[0x147]) is Some
}

/// The number of banks of `bank_len` bytes needed to hold `len` bytes.
pub open spec fn bank_count(len: int, bank_len: int) -> int {
    (len + bank_len - 1) / bank_len
}

/// Bank 0 is never selected in the switchable ROM area: it stands for bank 1.
pub open spec fn non_zero(bank: int) -> int {
    if bank == 0 {
        1
    } else {
        bank
    }
}

/// The "RAM enable" value: 0x0A in the low nibble.
pub open spec fn enables_ram(value: u8) -> bool {
    value & 0x0F == 0x0A
}

fn mapper(cartridge_type: u8) -> (r: Option<Mapper>)
    ensures
        r == mapper_of(cartridge_type),
{
    let t = cartridge_type;
    if t == 0x00 || t == 0x08 || t == 0x09 {
        Some(Mapper::RomOnly)
    } else if 0x01 <= t && t <= 0x03 {
        Some(Mapper::Mbc1)
    } else if t == 0x05 || t == 0x06 {
        Some(Mapper::Mbc2)
    } else if 0x0F <= t && t <= 0x13 {
        Some(Mapper::Mbc3)
    } else if 0x19 <= t && t <= 0x1E {
        Some(Mapper::Mbc5)
    } else {
        None
    }
}

fn ram_len(cartridge_type: u8, ram_size: u8) -> (r: usize)
    ensures
        r == ram_len_of(cartridge_type, ram_size),
{
    if cartridge_type == 0x05 || cartridge_type == 0x06 {
        return MBC2_RAM_LEN;
    }
    if ram_size == 0x01 {
        0x800
    } else if ram_size == 0x02 {
        RAM_BANK_LEN
    } else if ram_size == 0x03 {
        RAM_BANK_LEN * 4
    } else if ram_size == 0x04 {
        RAM_BANK_LEN * 16
    } else if ram_size == 0x05 {
        RAM_BANK_LEN * 8
    } else {
        0
    }
}

fn non_zero_bank(bank: usize) -> (r: usize)
    ensures
        r == non_zero(bank as int),
{
    if bank == 0 {
        1
    } else {
        bank
    }
}

/// The number of banks of `bank_len` bytes needed to hold `len` bytes.
fn div_ceil(len: usize, bank_len: usize) -> (r: usize)
    requires
        bank_len > 1,
    ensures
        r == bank_count(len as int, bank_len as int),
{
    let q = len / bank_len;
    assert(q <= len / 2) by (nonlinear_arith)
        requires
            bank_len > 1,
            q == len / bank_len,
    ;
    let r = if len % bank_len != 0 {
        q + 1
    } else {
        q
    };
    proof {
        let l = len as int;
        let b = bank_len as int;
        let qi = q as int;
        let ri = r as int;
        assert(ri == (l + b - 1) / b) by (nonlinear_arith)
            requires
                b > 0,
                l >= 0,
                qi == l / b,
                ri == if l % b != 0 { qi + 1 } else { qi },
        ;
    }
    r
}

/// Bounds of the bank numbers the controllers compute, and the register bits the bank laws
/// read.
proof fn lemma_bank_bits(h: usize, l: usize, v: u8)
    by (bit_vector)
    ensures
        h <= 0x0F && l <= 0x1FF ==> (h << 5usize) | l <= 0x1FF,
        h <= 0x0F ==> h << 5usize <= 0x1E0,
        (l & 0x100) | (v as usize) <= 0x1FF,
        (l & 0x0FF) | (((v & 0x01) as usize) << 8usize) <= 0x1FF,
        0x2100u16 & 0x0100u16 != 0,
        0u8 & 0x1F == 0 && 0u8 & 0x0F == 0 && 0u8 & 0x7F == 0,
{
}

/// A game cartridge: its ROM, its RAM and the registers of its memory bank controller.
#[derive(Debug)]
pub struct Cartridge {
    rom: Vec<u8>,
    ram: Vec<u8>,
    mapper: Mapper,
    ram_enabled: bool,
    rom_bank_low: usize,
    bank_high: usize,
    banking_mode: BankingMode,
}

impl Cartridge {
    #[verifier::type_invariant]
    closed spec fn well_formed(self) -> bool {
        &&& 0x8000 <= self.rom.len() <= isize::MAX
        &&& self.ram.len() <= 0x20000
        &&& self.mapper == Mapper::Mbc2 ==> self.ram.len() == MBC2_RAM_LEN
        &&& self.rom_bank_low <= 0x1FF
        &&& self.bank_high <= 0x0F
    }

    // ----- the model -----

    pub closed spec fn rom_view(self) -> Seq<u8> {
        self.rom@
    }

    pub closed spec fn ram_view(self) -> Seq<u8> {
        self.ram@
    }

    pub closed spec fn mapper_kind(self) -> Mapper {
        self.mapper
    }

    /// The bank controller registers: RAM enable, low and high bank numbers, banking mode.
    pub closed spec fn registers(self) -> (bool, usize, usize, BankingMode) {
        (self.ram_enabled, self.rom_bank_low, self.bank_high, self.banking_mode)
    }

    /// The ROM bank shown at 0x4000-0x7FFF.
    pub open spec fn spec_selected_rom_bank(self) -> int {
        let (_, low, high, _) = self.registers();
        match self.mapper_kind() {
            Mapper::RomOnly => 1,
            Mapper::Mbc1 => ((high << 5usize) | low) as int,
            _ => low as int,
        }
    }

    /// The RAM bank shown at 0xA000-0xBFFF.
    pub open spec fn spec_selected_ram_bank(self) -> int {
        let (_, _, high, mode) = self.registers();
        match self.mapper_kind() {
            Mapper::Mbc1 => if mode == BankingMode::Ram { high as int } else { 0 },
            Mapper::Mbc3 => if high <= 0x03 { high as int } else { 0 },
            Mapper::Mbc5 => high as int,
            _ => 0,
        }
    }

    /// The index in ROM of `offset` in bank `bank`; banks past the end wrap around.
    pub open spec fn rom_index(self, bank: int, offset: int) -> int {
        (bank % bank_count(self.rom_view().len() as int, 0x4000)) * 0x4000 + offset
    }

    /// The byte a read of the ROM area returns: bank 0 (or, on MBC1 in RAM banking mode, the
    /// bank the high register selects) at 0x0000-0x3FFF, the selected bank at 0x4000-0x7FFF,
    /// 0xFF past the end of the image.
    pub open spec fn spec_read_rom(self, addr: u16) -> u8 {
        let (_, _, high, mode) = self.registers();
        let index = if addr <= 0x3FFF {
            let bank = if self.mapper_kind() == Mapper::Mbc1 && mode == BankingMode::Ram {
                (high << 5usize) as int
            } else {
                0
            };
            self.rom_index(bank, addr as int)
        } else {
            self.rom_index(self.spec_selected_rom_bank(), addr - 0x4000)
        };
        if index < self.rom_view().len() {
            self.rom_view()[index]
        } else {
            UNDEFINED
        }
    }

    /// The index in RAM of address `addr` in bank `bank`; banks past the end wrap around.
    pub open spec fn ram_index(self, bank: int, addr: u16) -> int {
        (bank % bank_count(self.ram_view().len() as int, 0x2000)) * 0x2000 + (addr - 0xA000)
    }

    /// The byte at `addr` in RAM bank `bank`, 0xFF when there is none.
    pub open spec fn spec_read_ram_bank(self, bank: int, addr: u16) -> u8 {
        let i = self.ram_index(bank, addr);
        if self.ram_view().len() == 0 || i >= self.ram_view().len() {
            UNDEFINED
        } else {
            self.ram_view()[i]
        }
    }

    /// The byte a read of the RAM area returns. Disabled RAM reads 0xFF; MBC2 RAM holds
    /// half-bytes mirrored over the area, read with the high nibble set; on MBC3 a bank number
    /// above 3 selects a clock register, which reads 0xFF.
    pub open spec fn spec_read_ram(self, addr: u16) -> u8 {
        let (enabled, _, high, _) = self.registers();
        match self.mapper_kind() {
            Mapper::Mbc2 => if !enabled || self.ram_view().len() == 0 {
                UNDEFINED
            } else {
                0xF0u8 | self.ram_view()[(addr - 0xA000) % 0x200]
            },
            Mapper::RomOnly => self.spec_read_ram_bank(0, addr),
            Mapper::Mbc1 | Mapper::Mbc5 => if !enabled {
                UNDEFINED
            } else {
                self.spec_read_ram_bank(self.spec_selected_ram_bank(), addr)
            },
            Mapper::Mbc3 => if !enabled || high > 0x03 {
                UNDEFINED
            } else {
                self.spec_read_ram_bank(high as int, addr)
            },
        }
    }

    /// The byte a read at `addr` returns; addresses outside ROM and RAM read 0xFF.
    pub open spec fn spec_read(self, addr: u16) -> u8 {
        if addr <= ROM_END {
            self.spec_read_rom(addr)
        } else if ERAM_BEGIN <= addr <= ERAM_END {
            self.spec_read_ram(addr)
        } else {
            UNDEFINED
        }
    }

    /// RAM after writing `value` at `addr` of bank `bank` (unchanged when that byte is missing).
    pub open spec fn spec_ram_bank_after(self, bank: int, addr: u16, value: u8) -> Seq<u8> {
        let i = self.ram_index(bank, addr);
        if self.ram_view().len() == 0 || i >= self.ram_view().len() {
            self.ram_view()
        } else {
            self.ram_view().update(i, value)
        }
    }

    /// RAM after a write of `value` at `addr`: only writes to the RAM area of enabled RAM
    /// change it (on MBC2 the low nibble is kept).
    pub open spec fn spec_ram_after(self, addr: u16, value: u8) -> Seq<u8> {
        let (enabled, _, high, _) = self.registers();
        if !(ERAM_BEGIN <= addr <= ERAM_END) {
            self.ram_view()
        } else {
            match self.mapper_kind() {
                Mapper::Mbc2 => if enabled && self.ram_view().len() != 0 {
                    self.ram_view().update((addr - 0xA000) % 0x200, value & 0x0F)
                } else {
                    self.ram_view()
                },
                Mapper::RomOnly => self.spec_ram_bank_after(0, addr, value),
                Mapper::Mbc1 | Mapper::Mbc5 => if enabled {
                    self.spec_ram_bank_after(self.spec_selected_ram_bank(), addr, value)
                } else {
                    self.ram_view()
                },
                Mapper::Mbc3 => if enabled && high <= 0x03 {
                    self.spec_ram_bank_after(high as int, addr, value)
                } else {
                    self.ram_view()
                },
            }
        }
    }

    /// The bank controller registers after a write of `value` at `addr`. Writes to the ROM
    /// area set them: 0x0000-0x1FFF RAM enable; 0x2000-0x3FFF the low ROM bank (5 bits on MBC1,
    /// 7 on MBC3, the low 8 of 9 at 0x2000-0x2FFF and the ninth at 0x3000-0x3FFF on MBC5);
    /// 0x4000-0x5FFF the high bank (2 bits on MBC1, 4 on MBC3 and MBC5); 0x6000-0x7FFF the MBC1
    /// banking mode. MBC2 decodes address bit 8: clear for RAM enable, set for a 4-bit ROM bank.
    pub open spec fn spec_registers_after(self, addr: u16, value: u8) -> (bool, usize, usize, BankingMode) {
        let (enabled, low, high, mode) = self.registers();
        if addr > ROM_END {
            (enabled, low, high, mode)
        } else {
            match self.mapper_kind() {
                Mapper::RomOnly => (enabled, low, high, mode),
                Mapper::Mbc1 => if addr <= 0x1FFF {
                    (enables_ram(value), low, high, mode)
                } else if addr <= 0x3FFF {
                    (enabled, non_zero((value & 0x1F) as int) as usize, high, mode)
                } else if addr <= 0x5FFF {
                    (enabled, low, (value & 0x03) as usize, mode)
                } else {
                    (enabled, low, high, if value & 0x01 == 0 { BankingMode::Rom } else { BankingMode::Ram })
                },
                Mapper::Mbc2 => if addr & 0x0100 == 0 {
                    (enables_ram(value), low, high, mode)
                } else {
                    (enabled, non_zero((value & 0x0F) as int) as usize, high, mode)
                },
                Mapper::Mbc3 => if addr <= 0x1FFF {
                    (enables_ram(value), low, high, mode)
                } else if addr <= 0x3FFF {
                    (enabled, non_zero((value & 0x7F) as int) as usize, high, mode)
                } else if addr <= 0x5FFF {
                    (enabled, low, (value & 0x0F) as usize, mode)
                } else {
                    (enabled, low, high, mode)
                },
                Mapper::Mbc5 => if addr <= 0x1FFF {
                    (enables_ram(value), low, high, mode)
                } else if addr <= 0x2FFF {
                    (enabled, (low & 0x100) | (value as usize), high, mode)
                } else if addr <= 0x3FFF {
                    (enabled, (low & 0x0FF) | (((value & 0x01) as usize) << 8usize), high, mode)
                } else if addr <= 0x5FFF {
                    (enabled, low, (value & 0x0F) as usize, mode)
                } else {
                    (enabled, low, high, mode)
                },
            }
        }
    }

    // ----- construction -----

    /// A cartridge for a ROM image: the mapper from the cartridge type, zeroed RAM of the size
    /// the header gives, RAM disabled and ROM bank 1 selected.
    pub fn from_rom(rom: Vec<u8>) -> (r: Self)
        requires
            rom_supported(rom@),
            rom.len() <= isize::MAX,
        ensures
            r.rom_view() == rom@,
            r.mapper_kind() == mapper_of(rom@[0x147]).unwrap(),
            r.ram_view().len() == ram_len_of(rom@[0x147], rom@[0x149]),
            forall|i: int| 0 <= i < r.ram_view().len() ==> #[trigger] r.ram_view()[i] == 0,
            r.registers() == (false, 1usize, 0usize, BankingMode::Rom),
    {
        let cartridge_type = rom[CARTRIDGE_TYPE_ADDR];
        let mapper = match mapper(cartridge_type) {
            Some(m) => m,
            None => Mapper::RomOnly,
        };
        let ram = vec![0u8; ram_len(cartridge_type, rom[RAM_SIZE_ADDR])];
        assert forall|i: int| 0 <= i < ram@.len() implies ram@[i] == 0 by {
            assert(vstd::pervasive::cloned(0u8, ram@[i]));
        }
        Self {
            rom,
            ram,
            mapper,
            ram_enabled: false,
            rom_bank_low: 1,
            bank_high: 0,
            banking_mode: BankingMode::Rom,
        }
    }

    /// A cartridge with an all-zero ROM of two banks and no RAM.
    pub fn empty() -> (r: Self)
        ensures
            r.rom_view() == Seq::new(0x8000, |i: int| 0u8),
            r.mapper_kind() == Mapper::RomOnly,
            r.ram_view().len() == 0,
            r.registers() == (false, 1usize, 0usize, BankingMode::Rom),
    {
        let rom = vec![0u8; 0x8000];
        assert forall|i: int| 0 <= i < rom@.len() implies rom@[i] == 0 by {
            assert(vstd::pervasive::cloned(0u8, rom@[i]));
        }
        assert(rom@ =~= Seq::new(0x8000, |i: int| 0u8));
        Self::from_rom(rom)
    }

    // ----- reads -----

    fn selected_rom_bank(&self) -> (r: usize)
        ensures
            r == self.spec_selected_rom_bank(),
            r <= 0x1FF,
    {
        proof {
            use_type_invariant(self);
            lemma_bank_bits(self.bank_high, self.rom_bank_low, 0);
        }
        match self.mapper {
            Mapper::RomOnly => 1,
            Mapper::Mbc1 => (self.bank_high << 5) | self.rom_bank_low,
            _ => self.rom_bank_low,
        }
    }

    fn selected_ram_bank(&self) -> (r: usize)
        ensures
            r == self.spec_selected_ram_bank(),
            r <= 0x0F,
    {
        proof {
            use_type_invariant(self);
        }
        match self.mapper {
            Mapper::Mbc1 => if self.banking_mode == BankingMode::Ram {
                self.bank_high
            } else {
                0
            },
            Mapper::Mbc3 => if self.bank_high <= 0x03 {
                self.bank_high
            } else {
                0
            },
            Mapper::Mbc5 => self.bank_high,
            _ => 0,
        }
    }

    fn rom_offset(&self, bank: usize, offset: usize) -> (r: usize)
        requires
            offset < 0x4000,
        ensures
            r == self.rom_index(bank as int, offset as int),
    {
        proof {
            use_type_invariant(self);
        }
        let bank_count = div_ceil(self.rom.len(), ROM_BANK_LEN);
        let bank = if bank_count == 0 {
            0
        } else {
            bank % bank_count
        };
        proof {
            let n = self.rom.len() as int;
            let c = bank_count as int;
            let b = bank as int;
            assert(b * 0x4000 + 0x4000 <= n + 0x4000) by (nonlinear_arith)
                requires
                    c == (n + 0x3FFF) / 0x4000,
                    0 <= b < c,
                    n >= 0x8000,
            ;
        }
        bank * ROM_BANK_LEN + offset
    }

    fn read_rom(&self, addr: u16) -> (r: u8)
        requires
            addr <= ROM_END,
        ensures
            r == self.spec_read_rom(addr),
    {
        proof {
            use_type_invariant(self);
            lemma_bank_bits(self.bank_high, self.rom_bank_low, 0);
        }
        let offset = if addr <= 0x3FFF {
            let bank = if self.mapper == Mapper::Mbc1 && self.banking_mode == BankingMode::Ram {
                self.bank_high << 5
            } else {
                0
            };
            self.rom_offset(bank, addr as usize)
        } else {
            let bank = self.selected_rom_bank();
            self.rom_offset(bank, (addr as usize) - ROM_BANK_LEN)
        };
        if offset < self.rom.len() {
            self.rom[offset]
        } else {
            UNDEFINED
        }
    }

    fn ram_offset(&self, bank: usize, addr: u16) -> (r: usize)
        requires
            ERAM_BEGIN <= addr <= ERAM_END,
            self.ram_view().len() > 0,
        ensures
            r == self.ram_index(bank as int, addr),
    {
        proof {
            use_type_invariant(self);
        }
        let bank_count = div_ceil(self.ram.len(), RAM_BANK_LEN);
        let bank = if bank_count == 0 {
            0
        } else {
            bank % bank_count
        };
        proof {
            let n = self.ram.len() as int;
            let c = bank_count as int;
            let b = bank as int;
            assert(b * 0x2000 <= n) by (nonlinear_arith)
                requires
                    c == (n + 0x1FFF) / 0x2000,
                    0 <= b < c,
                    n > 0,
            ;
        }
        bank * RAM_BANK_LEN + (addr as usize - ERAM_BEGIN as usize)
    }

    fn read_ram_bank(&self, bank: usize, addr: u16) -> (r: u8)
        requires
            ERAM_BEGIN <= addr <= ERAM_END,
        ensures
            r == self.spec_read_ram_bank(bank as int, addr),
    {
        if self.ram.len() == 0 {
            return UNDEFINED;
        }
        let offset = self.ram_offset(bank, addr);
        if offset < self.ram.len() {
            self.ram[offset]
        } else {
            UNDEFINED
        }
    }

    fn read_ram(&self, addr: u16) -> (r: u8)
        requires
            ERAM_BEGIN <= addr <= ERAM_END,
        ensures
            r == self.spec_read_ram(addr),
    {
        proof {
            use_type_invariant(self);
        }
        match self.mapper {
            Mapper::Mbc2 => {
                if !self.ram_enabled || self.ram.len() == 0 {
                    return UNDEFINED;
                }
                0xF0 | self.ram[(addr as usize - ERAM_BEGIN as usize) % MBC2_RAM_LEN]
            },
            Mapper::RomOnly => self.read_ram_bank(0, addr),
            Mapper::Mbc1 | Mapper::Mbc5 => {
                if !self.ram_enabled {
                    return UNDEFINED;
                }
                self.read_ram_bank(self.selected_ram_bank(), addr)
            },
            Mapper::Mbc3 => {
                if !self.ram_enabled || self.bank_high > 0x03 {
                    return UNDEFINED;
                }
                self.read_ram_bank(self.bank_high, addr)
            },
        }
    }

    /// Reads a byte: the ROM area through the ROM banks, the RAM area through the RAM banks.
    pub fn read_byte(&self, addr: u16) -> (r: u8)
        ensures
            r == self.spec_read(addr),
    {
        if addr <= ROM_END {
            self.read_rom(addr)
        } else if ERAM_BEGIN <= addr && addr <= ERAM_END {
            self.read_ram(addr)
        } else {
            UNDEFINED
        }
    }

    // ----- writes -----

    fn write_mbc1_register(&mut self, addr: u16, value: u8)
        requires
            old(self).mapper_kind() == Mapper::Mbc1,
            addr <= ROM_END,
        ensures
            final(self).registers() == old(self).spec_registers_after(addr, value),
            final(self).mapper_kind() == old(self).mapper_kind(),
            final(self).rom_view() == old(self).rom_view(),
            final(self).ram_view() == old(self).ram_view(),
    {
        proof {
            use_type_invariant(&*self);
        }
        proof {
            lemma_byte_fields(value);
        }
        if addr <= 0x1FFF {
            self.ram_enabled = value & 0x0F == 0x0A;
        } else if addr <= 0x3FFF {
            self.rom_bank_low = non_zero_bank((value & 0x1F) as usize);
        } else if addr <= 0x5FFF {
            self.bank_high = (value & 0x03) as usize;
        } else {
            self.banking_mode = if value & 0x01 == 0 {
                BankingMode::Rom
            } else {
                BankingMode::Ram
            };
        }
    }

    fn write_mbc2_register(&mut self, addr: u16, value: u8)
        requires
            old(self).mapper_kind() == Mapper::Mbc2,
            addr <= ROM_END,
        ensures
            final(self).registers() == old(self).spec_registers_after(addr, value),
            final(self).mapper_kind() == old(self).mapper_kind(),
            final(self).rom_view() == old(self).rom_view(),
            final(self).ram_view() == old(self).ram_view(),
    {
        proof {
            use_type_invariant(&*self);
        }
        proof {
            lemma_byte_fields(value);
        }
        if addr & 0x0100 == 0 {
            self.ram_enabled = value & 0x0F == 0x0A;
        } else {
            self.rom_bank_low = non_zero_bank((value & 0x0F) as usize);
        }
    }

    fn write_mbc3_register(&mut self, addr: u16, value: u8)
        requires
            old(self).mapper_kind() == Mapper::Mbc3,
            addr <= ROM_END,
        ensures
            final(self).registers() == old(self).spec_registers_after(addr, value),
            final(self).mapper_kind() == old(self).mapper_kind(),
            final(self).rom_view() == old(self).rom_view(),
            final(self).ram_view() == old(self).ram_view(),
    {
        proof {
            use_type_invariant(&*self);
        }
        proof {
            lemma_byte_fields(value);
        }
        if addr <= 0x1FFF {
            self.ram_enabled = value & 0x0F == 0x0A;
        } else if addr <= 0x3FFF {
            self.rom_bank_low = non_zero_bank((value & 0x7F) as usize);
        } else if addr <= 0x5FFF {
            self.bank_high = (value & 0x0F) as usize;
        }
    }

    fn write_mbc5_register(&mut self, addr: u16, value: u8)
        requires
            old(self).mapper_kind() == Mapper::Mbc5,
            addr <= ROM_END,
        ensures
            final(self).registers() == old(self).spec_registers_after(addr, value),
            final(self).mapper_kind() == old(self).mapper_kind(),
            final(self).rom_view() == old(self).rom_view(),
            final(self).ram_view() == old(self).ram_view(),
    {
        proof {
            use_type_invariant(&*self);
        }
        proof {
            lemma_bank_bits(self.bank_high, self.rom_bank_low, value);
            lemma_byte_fields(value);
        }
        if addr <= 0x1FFF {
            self.ram_enabled = value & 0x0F == 0x0A;
        } else if addr <= 0x2FFF {
            self.rom_bank_low = (self.rom_bank_low & 0x100) | value as usize;
        } else if addr <= 0x3FFF {
            self.rom_bank_low = (self.rom_bank_low & 0x0FF) | (((value & 0x01) as usize) << 8);
        } else if addr <= 0x5FFF {
            self.bank_high = (value & 0x0F) as usize;
        }
    }

    fn write_rom(&mut self, addr: u16, value: u8)
        requires
            addr <= ROM_END,
        ensures
            final(self).registers() == old(self).spec_registers_after(addr, value),
            final(self).mapper_kind() == old(self).mapper_kind(),
            final(self).rom_view() == old(self).rom_view(),
            final(self).ram_view() == old(self).ram_view(),
    {
        proof {
            use_type_invariant(&*self);
        }
        match self.mapper {
            Mapper::RomOnly => {},
            Mapper::Mbc1 => self.write_mbc1_register(addr, value),
            Mapper::Mbc2 => self.write_mbc2_register(addr, value),
            Mapper::Mbc3 => self.write_mbc3_register(addr, value),
            Mapper::Mbc5 => self.write_mbc5_register(addr, value),
        }
    }

    fn write_ram_bank(&mut self, bank: usize, addr: u16, value: u8)
        requires
            ERAM_BEGIN <= addr <= ERAM_END,
        ensures
            final(self).ram_view() == old(self).spec_ram_bank_after(bank as int, addr, value),
            final(self).registers() == old(self).registers(),
            final(self).mapper_kind() == old(self).mapper_kind(),
            final(self).rom_view() == old(self).rom_view(),
    {
        proof {
            use_type_invariant(&*self);
        }
        if self.ram.len() == 0 {
            return;
        }
        let offset = self.ram_offset(bank, addr);
        if offset < self.ram.len() {
            self.ram[offset] = value;
        }
    }

    fn write_ram(&mut self, addr: u16, value: u8)
        requires
            ERAM_BEGIN <= addr <= ERAM_END,
        ensures
            final(self).ram_view() == old(self).spec_ram_after(addr, value),
            final(self).registers() == old(self).registers(),
            final(self).mapper_kind() == old(self).mapper_kind(),
            final(self).rom_view() == old(self).rom_view(),
    {
        proof {
            use_type_invariant(&*self);
        }
        match self.mapper {
            Mapper::Mbc2 => {
                if self.ram_enabled && self.ram.len() != 0 {
                    let offset = (addr as usize - ERAM_BEGIN as usize) % MBC2_RAM_LEN;
                    self.ram[offset] = value & 0x0F;
                }
            },
            Mapper::RomOnly => self.write_ram_bank(0, addr, value),
            Mapper::Mbc1 | Mapper::Mbc5 => {
                if self.ram_enabled {
                    let bank = self.selected_ram_bank();
                    self.write_ram_bank(bank, addr, value);
                }
            },
            Mapper::Mbc3 => {
                if self.ram_enabled && self.bank_high <= 0x03 {
                    let bank = self.bank_high;
                    self.write_ram_bank(bank, addr, value);
                }
            },
        }
    }

    /// Writes a byte: in the ROM area it sets the bank controller's registers, in the RAM area
    /// it stores into the selected RAM bank; elsewhere it does nothing.
    pub fn write_byte(&mut self, addr: u16, value: u8)
        ensures
            final(self).rom_view() == old(self).rom_view(),
            final(self).mapper_kind() == old(self).mapper_kind(),
            final(self).ram_view() == old(self).spec_ram_after(addr, value),
            final(self).registers() == old(self).spec_registers_after(addr, value),
    {
        if addr <= ROM_END {
            self.write_rom(addr, value);
        } else if ERAM_BEGIN <= addr && addr <= ERAM_END {
            self.write_ram(addr, value);
        }
    }
}

impl Default for Cartridge {
    fn default() -> (r: Self)
        ensures
            r.rom_view() == Seq::new(0x8000, |i: int| 0u8),
            r.mapper_kind() == Mapper::RomOnly,
            r.ram_view().len() == 0,
            r.registers() == (false, 1usize, 0usize, BankingMode::Rom),
    {
        Self::empty()
    }
}

/// Whether `b` is the cartridge that writing `value` at `addr` leaves of `a`.
pub open spec fn written(a: Cartridge, addr: u16, value: u8, b: Cartridge) -> bool {
    &&& b.rom_view() == a.rom_view()
    &&& b.mapper_kind() == a.mapper_kind()
    &&& b.ram_view() == a.spec_ram_after(addr, value)
    &&& b.registers() == a.spec_registers_after(addr, value)
}

/// Whether the RAM byte that `addr` selects exists and is enabled.
pub open spec fn ram_accessible(c: Cartridge, addr: u16) -> bool {
    let (enabled, _, high, _) = c.registers();
    let len = c.ram_view().len();
    match c.mapper_kind() {
        Mapper::Mbc2 => enabled && (addr - 0xA000) % 0x200 < len,
        Mapper::RomOnly => len != 0 && c.ram_index(0, addr) < len,
        Mapper::Mbc1 | Mapper::Mbc5 => enabled && len != 0 && c.ram_index(c.spec_selected_ram_bank(), addr) < len,
        Mapper::Mbc3 => enabled && high <= 0x03 && len != 0 && c.ram_index(high as int, addr) < len,
    }
}

/// Cartridge RAM keeps what is written to it: reading an accessible RAM address after
/// writing it gives the byte back (on MBC2 its low nibble, read with the high nibble set).
pub proof fn lemma_ram_write_read(a: Cartridge, addr: u16, value: u8, b: Cartridge)
    requires
        ERAM_BEGIN <= addr <= ERAM_END,
        ram_accessible(a, addr),
        written(a, addr, value, b),
    ensures
        b.spec_read(addr) == if a.mapper_kind() == Mapper::Mbc2 {
            0xF0u8 | (value & 0x0F)
        } else {
            value
        },
{
    assert(b.ram_view().len() == a.ram_view().len());
    assert(b.registers() == a.registers());
    assert(b.spec_selected_ram_bank() == a.spec_selected_ram_bank());
    let (enabled, _, high, _) = a.registers();
    match a.mapper_kind() {
        Mapper::Mbc2 => {
            assert(b.ram_view()[(addr - 0xA000) % 0x200] == value & 0x0F);
        },
        Mapper::RomOnly => {
            assert(b.ram_index(0, addr) == a.ram_index(0, addr));
        },
        Mapper::Mbc1 | Mapper::Mbc5 => {
            assert(b.ram_index(a.spec_selected_ram_bank(), addr) == a.ram_index(a.spec_selected_ram_bank(), addr));
        },
        Mapper::Mbc3 => {
            assert(b.ram_index(high as int, addr) == a.ram_index(high as int, addr));
        },
    }
}

/// Writing the ROM area never changes RAM, and writing the RAM area never changes the bank
/// registers; the ROM image itself never changes.
pub proof fn lemma_areas_independent(a: Cartridge, addr: u16, value: u8, b: Cartridge)
    requires
        written(a, addr, value, b),
    ensures
        addr <= ROM_END ==> b.ram_view() == a.ram_view(),
        addr > ROM_END ==> b.registers() == a.registers(),
        b.rom_view() == a.rom_view(),
{
}

/// With RAM disabled, a bank controller reads 0xFF throughout the RAM area.
pub proof fn lemma_disabled_ram_reads_ff(c: Cartridge, addr: u16)
    requires
        ERAM_BEGIN <= addr <= ERAM_END,
        c.mapper_kind() != Mapper::RomOnly,
        !c.registers().0,
    ensures
        c.spec_read(addr) == UNDEFINED,
{
}

/// Writing 0x0A (low nibble) to 0x0000-0x1FFF enables RAM on MBC1, MBC3 and MBC5, and any
/// other value disables it.
pub proof fn lemma_ram_enable(a: Cartridge, addr: u16, value: u8, b: Cartridge)
    requires
        addr <= 0x1FFF,
        a.mapper_kind() == Mapper::Mbc1 || a.mapper_kind() == Mapper::Mbc3 || a.mapper_kind() == Mapper::Mbc5,
        written(a, addr, value, b),
    ensures
        b.registers().0 == (value & 0x0F == 0x0A),
{
}

/// On MBC1, MBC2 and MBC3 the switchable ROM area never shows bank 0: writing 0 as the bank
/// number sets the low bank register to 1.
pub proof fn lemma_bank_zero_selects_one(a: Cartridge, b: Cartridge)
    requires
        a.mapper_kind() == Mapper::Mbc1 || a.mapper_kind() == Mapper::Mbc2 || a.mapper_kind() == Mapper::Mbc3,
        written(a, 0x2100, 0, b),
    ensures
        b.registers().1 == 1,
{
    lemma_bank_bits(0, 0, 0);
}

/// The bank-number arithmetic of the controllers: masks as remainders, and the MBC1 and MBC5
/// bank numbers as sums of their parts.
proof fn lemma_bank_arith(v: u8, h: usize, l: usize)
    ensures
        v & 0x7F == v % 128,
        v & 0x1F == v % 32,
        v & 0x0F == v % 16,
        v & 0x03 == v % 4,
        v & 0x01 == v % 2,
        h <= 0x0F && l < 32 ==> (h << 5usize) | l == h * 32 + l,
        l <= 0x1FF ==> (l & 0x100) | (v as usize) == (l / 256) * 256 + (v as usize),
        l <= 0x1FF ==> (l & 0x0FF) | (((v & 0x01) as usize) << 8usize) == l % 256 + ((v % 2) as usize) * 256,
{
    assert(v & 0x7F == v % 128 && v & 0x1F == v % 32 && v & 0x0F == v % 16 && v & 0x03 == v % 4 && v & 0x01 == v % 2) by (bit_vector);
    assert((h <= 0x0F && l < 32 ==> (h << 5usize) | l == h * 32 + l) && (l <= 0x1FF ==> (l & 0x100) | (v as usize)
        == (l / 256) * 256 + (v as usize)) && (l <= 0x1FF ==> (l & 0x0FF) | (((v & 0x01) as usize) << 8usize) == l
        % 256 + ((v % 2) as usize) * 256)) by (bit_vector);
}

/// The byte at offset `o` of ROM bank `bank`: banks past the end of the image wrap around
/// (modulo the number of 16 KiB banks), and bytes past its end read 0xFF.
pub open spec fn rom_bank_byte(rom: Seq<u8>, bank: int, o: int) -> u8 {
    let banks: int = (rom.len() as int + 0x3FFF) / 0x4000;
    let i: int = (bank % banks) * 0x4000 + o;
    if i < rom.len() { rom[i] } else { 0xFF }
}

/// MBC3 ROM banking: after `value` is written to 0x2000-0x3FFF, the switchable area
/// 0x4000-0x7FFF shows ROM bank `value % 128` (all seven low bits; bank 1 for 0).
pub proof fn lemma_mbc3_rom_bank(a: Cartridge, addr: u16, value: u8, b: Cartridge, o: u16)
    requires
        a.mapper_kind() == Mapper::Mbc3,
        0x2000 <= addr <= 0x3FFF,
        written(a, addr, value, b),
        o < 0x4000,
    ensures
        b.spec_read((0x4000 + o) as u16) == rom_bank_byte(
            a.rom_view(),
            if value % 128 == 0 { 1int } else { (value % 128) as int },
            o as int,
        ),
{
    lemma_bank_arith(value, 0, 0);
}

/// MBC1 ROM banking: after `value` is written to 0x2000-0x3FFF, the switchable area shows
/// bank `32 * high + (value % 32)` (five low bits, 1 for 0), `high` being the two-bit
/// register set through 0x4000-0x5FFF.
pub proof fn lemma_mbc1_rom_bank(a: Cartridge, addr: u16, value: u8, b: Cartridge, o: u16)
    requires
        a.mapper_kind() == Mapper::Mbc1,
        a.registers().2 <= 0x0F,
        0x2000 <= addr <= 0x3FFF,
        written(a, addr, value, b),
        o < 0x4000,
    ensures
        b.spec_read((0x4000 + o) as u16) == rom_bank_byte(
            a.rom_view(),
            32 * a.registers().2 + if value % 32 == 0 { 1int } else { (value % 32) as int },
            o as int,
        ),
{
    let low: usize = if value % 32 == 0 { 1 } else { (value % 32) as usize };
    lemma_bank_arith(value, a.registers().2, low);
}

/// MBC2 ROM banking: a write to the register area with address bit 8 set selects bank
/// `value % 16` (bank 1 for 0) for the switchable area.
pub proof fn lemma_mbc2_rom_bank(a: Cartridge, addr: u16, value: u8, b: Cartridge, o: u16)
    requires
        a.mapper_kind() == Mapper::Mbc2,
        addr <= 0x3FFF,
        (addr / 256) % 2 == 1,
        written(a, addr, value, b),
        o < 0x4000,
    ensures
        b.spec_read((0x4000 + o) as u16) == rom_bank_byte(
            a.rom_view(),
            if value % 16 == 0 { 1int } else { (value % 16) as int },
            o as int,
        ),
{
    lemma_bank_arith(value, 0, 0);
    assert((addr / 256u16) % 2u16 == 1u16 ==> addr & 0x0100u16 != 0u16) by (bit_vector);
}

/// MBC5 ROM banking: the bank number has nine bits; a write to 0x2000-0x2FFF sets the low
/// eight to `value`, one to 0x3000-0x3FFF sets the ninth to `value % 2`, and bank 0 can be
/// selected.
pub proof fn lemma_mbc5_rom_bank(a: Cartridge, addr: u16, value: u8, b: Cartridge, o: u16)
    requires
        a.mapper_kind() == Mapper::Mbc5,
        a.registers().1 <= 0x1FF,
        0x2000 <= addr <= 0x3FFF,
        written(a, addr, value, b),
        o < 0x4000,
    ensures
        addr <= 0x2FFF ==> b.spec_read((0x4000 + o) as u16) == rom_bank_byte(
            a.rom_view(),
            256 * (a.registers().1 / 256) + value,
            o as int,
        ),
        addr >= 0x3000 ==> b.spec_read((0x4000 + o) as u16) == rom_bank_byte(
            a.rom_view(),
            256 * (value % 2) + a.registers().1 % 256,
            o as int,
        ),
{
    lemma_bank_arith(value, 0, a.registers().1);
}

/// The byte at `addr` (0xA000-0xBFFF) of RAM bank `bank`: banks past the end of the RAM wrap
/// around (modulo the number of 8 KiB banks), and a missing byte reads 0xFF.
pub open spec fn ram_bank_byte(ram: Seq<u8>, bank: int, addr: u16) -> u8 {
    let banks: int = (ram.len() as int + 0x1FFF) / 0x2000;
    let i: int = (bank % banks) * 0x2000 + (addr - 0xA000);
    if ram.len() == 0 || i >= ram.len() { 0xFF } else { ram[i] }
}

/// RAM banking on MBC3 and MBC5: after `value` is written to 0x4000-0x5FFF, enabled RAM shows
/// bank `value % 16` at 0xA000-0xBFFF; on MBC3 a bank number above 3 selects a clock register,
/// and the area reads 0xFF.
pub proof fn lemma_ram_bank(a: Cartridge, addr: u16, value: u8, b: Cartridge, at: u16)
    requires
        a.mapper_kind() == Mapper::Mbc3 || a.mapper_kind() == Mapper::Mbc5,
        0x4000 <= addr <= 0x5FFF,
        written(a, addr, value, b),
        a.registers().0,
        0xA000 <= at <= 0xBFFF,
    ensures
        b.spec_read(at) == if a.mapper_kind() == Mapper::Mbc3 && value % 16 > 3 {
            0xFFu8
        } else {
            ram_bank_byte(a.ram_view(), (value % 16) as int, at)
        },
{
    lemma_bank_arith(value, 0, 0);
}

/// RAM banking on MBC1: in RAM banking mode (0x01 written to 0x6000-0x7FFF), a write of
/// `value` to 0x4000-0x5FFF makes enabled RAM show bank `value % 4`; in ROM banking mode RAM
/// stays at bank 0.
pub proof fn lemma_mbc1_ram_bank(a: Cartridge, addr: u16, value: u8, b: Cartridge, at: u16)
    requires
        a.mapper_kind() == Mapper::Mbc1,
        0x4000 <= addr <= 0x5FFF,
        written(a, addr, value, b),
        a.registers().0,
        0xA000 <= at <= 0xBFFF,
    ensures
        a.registers().3 == BankingMode::Ram ==> b.spec_read(at) == ram_bank_byte(a.ram_view(), (value % 4) as int, at),
        a.registers().3 == BankingMode::Rom ==> b.spec_read(at) == ram_bank_byte(a.ram_view(), 0, at),
{
    lemma_bank_arith(value, 0, 0);
}

/// The fixed ROM area: 0x0000-0x3FFF always shows the start of the ROM image (bank 0), but on
/// MBC1 in RAM banking mode, where it shows bank 32 * high. On a cartridge without a bank
/// controller 0x4000-0x7FFF shows bank 1, the rest of a 32 KiB image.
pub proof fn lemma_fixed_banks(c: Cartridge, addr: u16)
    requires
        addr <= 0x7FFF,
        c.rom_view().len() >= 0x8000,
    ensures
        addr <= 0x3FFF && !(c.mapper_kind() == Mapper::Mbc1 && c.registers().3 == BankingMode::Ram) ==> c.spec_read(addr)
            == c.rom_view()[addr as int],
        0x4000 <= addr && c.mapper_kind() == Mapper::RomOnly ==> c.spec_read(addr) == c.rom_view()[addr as int],
{
    let n = bank_count(c.rom_view().len() as int, 0x4000);
    assert(n >= 2);
    assert(0int % n == 0) by (nonlinear_arith) requires n >= 2;
    assert(1int % n == 1) by (nonlinear_arith) requires n >= 2;
}

} // verus!
