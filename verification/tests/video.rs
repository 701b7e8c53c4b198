use gameboy::gpu::stat::Mode;
use gameboy::gpu::{Color, Gpu, Theme};
use gameboy::mmu::interrupts::Interrupts;

#[test]
fn palette_register_reads_back() {
    let mut gpu = Gpu::new();
    gpu.write_byte(0xFF47, 0xE4);
    assert_eq!(gpu.read_byte(0xFF47), 0xE4);
}

#[test]
fn ly_is_read_only() {
    let mut gpu = Gpu::new();
    gpu.write_byte(0xFF44, 0x42);
    assert_eq!(gpu.read_byte(0xFF44), 0);
}

#[test]
fn frame_timing_reaches_vblank_after_144_lines() {
    let mut gpu = Gpu::new();
    let mut intf = Interrupts::new();
    gpu.write_byte(0xFF40, 0x80);
    // 80 + 172 + 204 cycles per line
    for _ in 0..(456 * 144 / 4) {
        gpu.step(4, &mut intf);
    }
    assert_eq!(gpu.read_byte(0xFF44), 144);
    assert_eq!(intf.data & 0x01, 0x01);
    assert_eq!(gpu.read_byte(0xFF41) & 0x03, 1);
}

#[test]
fn lcd_off_parks_in_vblank() {
    let mut gpu = Gpu::new();
    let mut intf = Interrupts::new();
    gpu.step(100, &mut intf);
    assert_eq!(gpu.read_byte(0xFF44), 0);
    assert_eq!(gpu.read_byte(0xFF41) & 0x03, 1);
    assert_eq!(intf.data, 0);
}

#[test]
fn fresh_screen_is_white() {
    let gpu = Gpu::new();
    let frame = gpu.get_frame_buffer();
    assert_eq!(frame[0][0], Color::White);
    assert_eq!(frame[159][143], Color::White);
}

#[test]
fn theme_changes_colors() {
    let mut gpu = Gpu::new();
    assert_eq!(gpu.get_theme(), Theme::Grayscale);
    let gray = gpu.get_color_rgba(Color::Black);
    gpu.set_theme(Theme::Green);
    assert_eq!(gpu.get_theme(), Theme::Green);
    assert_ne!(gpu.get_color_rgba(Color::Black), gray);
}

#[test]
fn mode_lengths() {
    assert_eq!(Mode::OAM.cycles() + Mode::VRAM.cycles() + Mode::HBlank.cycles(), 456);
    assert_eq!(Mode::VBlank.cycles(), 4560);
}

#[test]
fn stat_write_keeps_mode_and_coincidence() {
    let mut gpu = Gpu::new();
    // H-Blank, no coincidence: the mode bits written are ignored
    gpu.write_byte(0xFF41, 0x03);
    assert_eq!(gpu.read_byte(0xFF41), 0x00);
    gpu.write_byte(0xFF41, 0xFF);
    assert_eq!(gpu.read_byte(0xFF41), 0x78);
    let mut intf = Interrupts::new();
    gpu.step(4, &mut intf);
    // the LCD is off: parked in V-Blank, which a STAT write does not change
    gpu.write_byte(0xFF41, 0x00);
    assert_eq!(gpu.read_byte(0xFF41), 0x01);
}

#[test]
fn vram_and_registers_read_back() {
    let mut gpu = Gpu::new();
    gpu.write_byte(0x8010, 0x3C);
    gpu.write_byte(0x9C00, 0x07);
    assert_eq!(gpu.read_byte(0x8010), 0x3C);
    assert_eq!(gpu.read_byte(0x9C00), 0x07);
    for addr in [0xFF42u16, 0xFF43, 0xFF45, 0xFF48, 0xFF49, 0xFF4A, 0xFF4B] {
        gpu.write_byte(addr, 0x5A);
        assert_eq!(gpu.read_byte(addr), 0x5A);
    }
    gpu.write_byte(0xFF40, 0x91);
    assert_eq!(gpu.read_byte(0xFF40), 0x91);
}

#[test]
fn line_counter_moves_one_line_at_a_time() {
    let mut gpu = Gpu::new();
    let mut intf = Interrupts::new();
    gpu.write_byte(0xFF45, 0x02);
    gpu.write_byte(0xFF40, 0x80);
    let mut last = gpu.read_byte(0xFF44);
    for _ in 0..(456 * 154 / 4 + 10) {
        gpu.step(4, &mut intf);
        let ly = gpu.read_byte(0xFF44);
        assert!(ly == last || ly == last + 1 || (last == 153 && ly == 0));
        if ly != last {
            assert_eq!(gpu.read_byte(0xFF41) & 0x04 != 0, ly == 2);
        }
        let vblank = gpu.read_byte(0xFF41) & 0x03 == 1;
        assert_eq!(vblank, ly >= 144);
        last = ly;
    }
    assert_eq!(last, 0);
}
