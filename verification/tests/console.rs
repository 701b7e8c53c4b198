use gameboy::gameboy::Gameboy;
use gameboy::gpu::{Color, Theme};
use gameboy::joypad::Key;
use gameboy::mmu::BIOS;

/// A cartridge image that passes the boot ROM's checks and then prints `A` on the serial port.
fn serial_rom() -> Vec<u8> {
    let mut rom = vec![0u8; 0x8000];
    // the logo the boot ROM compares against
    rom[0x104..0x134].copy_from_slice(&BIOS[0xA8..0xD8]);
    let mut x: u8 = 0;
    for i in 0x134..=0x14C {
        x = x.wrapping_sub(rom[i]).wrapping_sub(1);
    }
    rom[0x14D] = x;
    // entry point: NOP; JP 0x0150, past the header
    rom[0x100..0x104].copy_from_slice(&[0x00, 0xC3, 0x50, 0x01]);
    let program = [
        0x3E, 0x41, // LD A, 'A'
        0xE0, 0x01, // LDH (SB), A
        0x3E, 0x81, // LD A, 0x81
        0xE0, 0x02, // LDH (SC), A
        0x18, 0xFE, // JR -2
    ];
    rom[0x150..0x150 + program.len()].copy_from_slice(&program);
    rom
}

#[test]
fn serial_output_after_boot() {
    let mut gb = Gameboy::new(false);
    gb.load_rom(serial_rom());
    for _ in 0..400 {
        gb.update().unwrap();
        if !gb.read_serial_output().is_empty() {
            break;
        }
    }
    assert_eq!(gb.read_serial_output(), "A");
}

#[test]
fn paused_console_does_not_run() {
    let mut gb = Gameboy::new(false);
    gb.pause();
    gb.update().unwrap();
    gb.resume();
    gb.update().unwrap();
    assert_eq!(gb.read_serial_output(), "");
}

#[test]
fn console_screen_and_theme() {
    let mut gb = Gameboy::new(false);
    assert_eq!(gb.screen()[10][10], Color::White);
    gb.set_theme(Theme::PurpleYellow);
    assert_eq!(gb.get_theme(), Theme::PurpleYellow);
    assert_eq!(gb.get_color_rgba(Color::White).len(), 4);
    gb.press_key(Key::A);
    gb.release_key(Key::A);
}

#[test]
fn serial_output_accumulates_over_frames() {
    let mut gb = Gameboy::new(false);
    gb.load_rom(serial_rom());
    let mut before = String::new();
    for _ in 0..400 {
        gb.update().unwrap();
        let now = gb.read_serial_output().to_string();
        assert!(now.starts_with(&before));
        before = now;
    }
    assert_eq!(before, "A");
}

#[test]
fn paused_updates_change_nothing() {
    let mut gb = Gameboy::new(false);
    gb.load_rom(serial_rom());
    for _ in 0..3 {
        gb.update().unwrap();
    }
    let before = gb.read_serial_output().to_string();
    let screen = gb.screen();
    gb.pause();
    for _ in 0..50 {
        gb.update().unwrap();
    }
    assert_eq!(gb.read_serial_output(), before);
    assert!(gb.screen() == screen);
}
