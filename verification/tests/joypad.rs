use gameboy::joypad::{Joypad, Key};
use gameboy::mmu::interrupts::Interrupts;

fn joypad() -> (Joypad, Interrupts) {
    (Joypad::new(), Interrupts::new())
}

#[test]
fn action_row_is_selected_by_clearing_bit_5() {
    let (mut joypad, mut interrupts) = joypad();
    joypad.press(Key::Start, &mut interrupts);

    joypad.write_byte(0xFF00, 0b0001_0000);

    assert_eq!(joypad.read_byte(0xFF00), 0b1101_0111);
}

#[test]
fn direction_row_is_selected_by_clearing_bit_4() {
    let (mut joypad, mut interrupts) = joypad();
    joypad.press(Key::Right, &mut interrupts);

    joypad.write_byte(0xFF00, 0b0010_0000);

    assert_eq!(joypad.read_byte(0xFF00), 0b1110_1110);
}

#[test]
fn release_clears_the_key() {
    let (mut joypad, mut interrupts) = joypad();
    joypad.press(Key::A, &mut interrupts);
    assert_eq!(interrupts.data, 0b0001_0000);
    joypad.write_byte(0xFF00, 0b0001_0000);
    assert_eq!(joypad.read_byte(0xFF00), 0b1101_1110);
    joypad.release(Key::A);
    assert_eq!(joypad.read_byte(0xFF00), 0b1101_1111);
}

#[test]
fn no_row_selected_reads_low_nibble_set() {
    let (mut joypad, _) = joypad();
    joypad.write_byte(0xFF00, 0b0011_0000);
    assert_eq!(joypad.read_byte(0xFF00), 0x0F);
    joypad.write_byte(0xFF00, 0b0000_0000);
    assert_eq!(joypad.read_byte(0xFF00), 0x0F);
}
