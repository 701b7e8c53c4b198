use gameboy::libgb::bus::Bus;
use gameboy::libgb::gpu::{Color, Gpu};
use gameboy::mmu::interrupts::Interrupts;

#[test]
fn bus_echo_area_is_separate_storage() {
    let mut bus = Bus::new();
    bus.write_byte(0xC010, 0x11);
    bus.write_byte(0xE010, 0x22);
    assert_eq!(bus.read_byte(0xC010), 0x11);
    assert_eq!(bus.read_byte(0xE010), 0x22);
}

#[test]
fn bus_maps_the_video_registers() {
    let mut bus = Bus::new();
    bus.write_byte(0xFF47, 0xE4);
    assert_eq!(bus.read_byte(0xFF47), 0xE4);
    // LY always reads 0x90 on this video unit
    assert_eq!(bus.read_byte(0xFF44), 0x90);
    assert_eq!(bus.read_byte(0xFF46), 0xFF);
    bus.write_byte(0xFF46, 0x12);
    assert_eq!(bus.read_byte(0xFF46), 0xFF);
}

#[test]
fn bus_boot_rom_not_mapped_at_start() {
    let mut bus = Bus::new();
    bus.write_byte(0x0000, 0x42);
    assert_eq!(bus.read_byte(0x0000), 0x42);
}

#[test]
fn libgb_colors() {
    assert_eq!(Color::White.rgba(), [255, 255, 255, 255]);
    assert_eq!(Color::LightGray.rgba(), [192, 192, 192, 255]);
    assert_eq!(Color::DarkGray.rgba(), [96, 96, 96, 255]);
    assert_eq!(Color::Black.rgba(), [0, 0, 0, 255]);
}

#[test]
fn libgb_gpu_reaches_vblank() {
    let mut gpu = Gpu::new();
    let mut intf = Interrupts::new();
    // LCD on, OAM mode at line 0: 144 lines of 456 cycles each
    for _ in 0..(456 * 144 / 4) {
        gpu.step(4, &mut intf);
    }
    assert_eq!(intf.data & 0x01, 0x01);
    assert_eq!(gpu.read_byte(0xFF41) & 0x03, 1);
    assert_eq!(gpu.get_frame_buffer()[0][0], Color::White);
}

#[test]
fn libgb_bus_steps_devices() {
    let mut bus = Bus::new();
    assert!(bus.can_step(4));
    bus.step(4);
    assert_eq!(bus.read_byte(0xFF0F), 0);
}

#[test]
fn libgb_stat_write_keeps_mode() {
    let mut gpu = Gpu::new();
    let mut intf = Interrupts::new();
    // from H-Blank at power-on into mode 2 of line 1 after 204 cycles
    for _ in 0..(204 / 4) {
        gpu.step(4, &mut intf);
    }
    assert_eq!(gpu.read_byte(0xFF41) & 0x03, 2);
    gpu.write_byte(0xFF41, 0x03);
    assert_eq!(gpu.read_byte(0xFF41) & 0x03, 2);
    gpu.write_byte(0xFF41, 0x40);
    assert_eq!(gpu.read_byte(0xFF41) & 0x78, 0x40);
}
