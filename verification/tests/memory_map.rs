use gameboy::addressable::Addressable;
use gameboy::mmu::{Mmu, UNDEFINED};

#[test]
fn work_ram_keeps_written_bytes() {
    let mut mmu = Mmu::new();
    mmu.write_byte(0xC123, 0x5A);
    assert_eq!(mmu.read_byte(0xC123), 0x5A);
    assert_eq!(mmu.read_byte(0xC124), 0x00);
}

#[test]
fn echo_ram_mirrors_work_ram() {
    let mut mmu = Mmu::new();
    mmu.write_byte(0xC010, 0x77);
    assert_eq!(mmu.read_byte(0xE010), 0x77);
    mmu.write_byte(0xE020, 0x33);
    assert_eq!(mmu.read_byte(0xC020), 0x33);
}

#[test]
fn unmapped_addresses_read_ff_and_ignore_writes() {
    let mut mmu = Mmu::new();
    mmu.write_byte(0xFEA5, 0x12);
    assert_eq!(mmu.read_byte(0xFEA5), UNDEFINED);
    assert_eq!(mmu.read_byte(0xFF03), 0xFF);
}

#[test]
fn boot_rom_is_unmapped_by_ff50() {
    let mut mmu = Mmu::new();
    mmu.load_rom(vec![0xAB; 0x200]);
    // the boot ROM starts with LD SP, 0xFFFE
    assert_eq!(mmu.read_byte(0x0000), 0x31);
    assert_eq!(mmu.read_byte(0x0150), 0xAB);
    mmu.write_byte(0xFF50, 0x01);
    assert_eq!(mmu.read_byte(0x0000), 0xAB);
}

#[test]
fn words_are_little_endian() {
    let mut mmu = Mmu::new();
    mmu.write_word(0xC000, 0x1234);
    assert_eq!(mmu.read_byte(0xC000), 0x34);
    assert_eq!(mmu.read_byte(0xC001), 0x12);
    assert_eq!(mmu.read_word(0xC000), 0x1234);
}

#[test]
fn dma_copies_a_page_to_oam() {
    let mut mmu = Mmu::new();
    mmu.write_byte(0xC000, 0x10);
    mmu.write_byte(0xC001, 0x20);
    mmu.write_byte(0xC002, 0x30);
    mmu.write_byte(0xFF46, 0xC0);
    assert_eq!(mmu.read_byte(0xFF46), 0xC0);
    assert_eq!(mmu.read_byte(0xFE00), 0x10);
    assert_eq!(mmu.read_byte(0xFE01), 0x20);
    assert_eq!(mmu.read_byte(0xFE02), 0x30);
}

#[test]
fn sound_registers_read_zero() {
    let mmu = Mmu::new();
    assert_eq!(mmu.read_byte(0xFF10), 0);
    assert_eq!(mmu.read_byte(0xFF3F), 0);
}

#[test]
fn interrupt_registers_are_plain_bytes() {
    let mut mmu = Mmu::new();
    mmu.write_byte(0xFF0F, 0x05);
    mmu.write_byte(0xFFFF, 0x1F);
    assert_eq!(mmu.read_byte(0xFF0F), 0x05);
    assert_eq!(mmu.read_byte(0xFFFF), 0x1F);
    assert_eq!(mmu.intf.data, 0x05);
}

#[test]
fn load_rom_copies_the_image() {
    let mut mmu = Mmu::new();
    mmu.write_byte(0xFF50, 0x01);
    let rom: Vec<u8> = (0..0x8000u32).map(|i| (i % 251) as u8).collect();
    mmu.load_rom(rom);
    assert_eq!(mmu.read_byte(0x0000), 0);
    assert_eq!(mmu.read_byte(0x7FFF), (0x7FFF % 251) as u8);
}

#[test]
fn dma_copies_during_oam_search() {
    let mut mmu = Mmu::new();
    // LCD on: the GPU starts line 0 in mode 2, when the CPU cannot see OAM
    mmu.write_byte(0xFF40, 0x80);
    mmu.write_byte(0xC000, 0x10);
    mmu.write_byte(0xC09F, 0x9F);
    mmu.write_byte(0xFF46, 0xC0);
    assert_eq!(mmu.read_byte(0xFE00), UNDEFINED);
    // on to H-Blank: 80 cycles of OAM search and 172 of pixel transfer
    for _ in 0..63 {
        mmu.step(4);
    }
    assert_eq!(mmu.read_byte(0xFE00), 0x10);
    assert_eq!(mmu.read_byte(0xFE9F), 0x9F);
}
