use gameboy::cartridge::Cartridge;

fn image(cartridge_type: u8, banks: usize, ram_size: u8) -> Vec<u8> {
    let mut rom = vec![0; 0x4000 * banks];
    rom[0x147] = cartridge_type;
    rom[0x149] = ram_size;
    for bank in 0..banks {
        rom[bank * 0x4000] = bank as u8;
    }
    rom
}

#[test]
fn disabled_ram_reads_ff() {
    let mut cartridge = Cartridge::from_rom(image(0x03, 2, 0x02));
    cartridge.write_byte(0xA000, 0x12);
    assert_eq!(cartridge.read_byte(0xA000), 0xFF);
    cartridge.write_byte(0x0000, 0x0A);
    cartridge.write_byte(0xA000, 0x12);
    assert_eq!(cartridge.read_byte(0xA000), 0x12);
    cartridge.write_byte(0x0000, 0x00);
    assert_eq!(cartridge.read_byte(0xA000), 0xFF);
}

#[test]
fn mbc2_ram_holds_nibbles() {
    let mut cartridge = Cartridge::from_rom(image(0x06, 2, 0x00));
    cartridge.write_byte(0x0000, 0x0A);
    cartridge.write_byte(0xA003, 0x5C);
    assert_eq!(cartridge.read_byte(0xA003), 0xFC);
    // the 512 half-bytes repeat over the RAM area
    assert_eq!(cartridge.read_byte(0xA203), 0xFC);
}

#[test]
fn bank_zero_selects_bank_one() {
    let mut cartridge = Cartridge::from_rom(image(0x01, 4, 0x00));
    cartridge.write_byte(0x2000, 0x00);
    assert_eq!(cartridge.read_byte(0x4000), 1);
}

#[test]
fn rom_banks_wrap_around() {
    let mut cartridge = Cartridge::from_rom(image(0x19, 4, 0x00));
    cartridge.write_byte(0x2000, 0x05);
    assert_eq!(cartridge.read_byte(0x4000), 1);
}

#[test]
fn empty_cartridge_reads_zero_rom_and_no_ram() {
    let cartridge = Cartridge::empty();
    assert_eq!(cartridge.read_byte(0x0000), 0);
    assert_eq!(cartridge.read_byte(0x7FFF), 0);
    assert_eq!(cartridge.read_byte(0xA000), 0xFF);
    assert_eq!(cartridge.read_byte(0xC000), 0xFF);
}
