use gameboy::cartridge::Cartridge;

const ROM_BANK_LEN: usize = 0x4000;
const CARTRIDGE_TYPE_ADDR: usize = 0x0147;
const RAM_SIZE_ADDR: usize = 0x0149;

fn rom(cartridge_type: u8, rom_banks: usize, ram_size: u8) -> Vec<u8> {
    let mut rom = vec![0; ROM_BANK_LEN * rom_banks];
    rom[CARTRIDGE_TYPE_ADDR] = cartridge_type;
    rom[RAM_SIZE_ADDR] = ram_size;

    for bank in 0..rom_banks {
        rom[bank * ROM_BANK_LEN] = bank as u8;
        rom[bank * ROM_BANK_LEN + 1] = (bank >> 8) as u8;
    }

    rom
}

#[test]
fn rom_only_reads_fixed_banks() {
    let cartridge = Cartridge::from_rom(rom(0x00, 2, 0x00));

    assert_eq!(cartridge.read_byte(0x0000), 0);
    assert_eq!(cartridge.read_byte(0x4000), 1);
}

#[test]
fn mbc1_switches_rom_banks() {
    let mut cartridge = Cartridge::from_rom(rom(0x01, 4, 0x00));

    cartridge.write_byte(0x2000, 0x02);

    assert_eq!(cartridge.read_byte(0x4000), 2);
}

#[test]
fn mbc1_switches_ram_banks_in_ram_mode() {
    let mut cartridge = Cartridge::from_rom(rom(0x03, 4, 0x03));

    cartridge.write_byte(0x0000, 0x0A);
    cartridge.write_byte(0x6000, 0x01);
    cartridge.write_byte(0x4000, 0x01);
    cartridge.write_byte(0xA000, 0x42);
    cartridge.write_byte(0x4000, 0x00);
    cartridge.write_byte(0xA000, 0x99);
    cartridge.write_byte(0x4000, 0x01);

    assert_eq!(cartridge.read_byte(0xA000), 0x42);
}

#[test]
fn mbc5_uses_nine_bit_rom_bank() {
    let mut cartridge = Cartridge::from_rom(rom(0x19, 0x102, 0x00));

    cartridge.write_byte(0x2000, 0x01);
    cartridge.write_byte(0x3000, 0x01);

    assert_eq!(cartridge.read_byte(0x4000), 0x01);
    assert_eq!(cartridge.read_byte(0x4001), 0x01);
}

#[test]
fn mbc3_rtc_registers_do_not_alias_ram() {
    let mut cartridge = Cartridge::from_rom(rom(0x13, 4, 0x03));

    cartridge.write_byte(0x0000, 0x0A);
    cartridge.write_byte(0x4000, 0x08);
    cartridge.write_byte(0xA000, 0x42);
    cartridge.write_byte(0x4000, 0x00);

    assert_eq!(cartridge.read_byte(0xA000), 0);
}
