use vstd::prelude::*;
use crate::mmu::interrupts::{InterruptFlag, Interrupts, with_flag};

verus! {

/// The eight buttons of the console.
#[derive(Debug, Clone, Copy, PartialEq, Eq, Structural)]
pub enum Key {
    Up,
    Down,
    Left,
    Right,
    A,
    B,
    Start,
    Select,
}

/// Which row of buttons a read of the joypad register shows.
#[derive(Debug, Clone, Copy, PartialEq, Eq, Structural)]
pub enum Mode {
    Unselected,
    Direction,
    Action,
}

/// The state of one button; in the register a pressed button reads as 0.
#[derive(Debug, Clone, Copy, PartialEq, Eq, Structural)]
pub enum KeyState {
    Pressed,
    Released,
}

/// The register bit of a button state: 0 when pressed, 1 when released.
pub open spec fn state_bit(s: KeyState) -> u8 {
    match s {
        KeyState::Pressed => 0,
        KeyState::Released => 1,
    }
}

fn bit_of(s: KeyState) -> (b: u8)
    ensures
        b == state_bit(s),
{
    match s {
        KeyState::Pressed => 0,
        KeyState::Released => 1,
    }
}

/// The joypad register (P1, at 0xFF00).
#[derive(Debug, Clone, Copy, PartialEq, Eq, Structural)]
pub struct Joypad {
    pub mode: Mode,
    pub up: KeyState,
    pub down: KeyState,
    pub left: KeyState,
    pub right: KeyState,
    pub a: KeyState,
    pub b: KeyState,
    pub start: KeyState,
    pub select: KeyState,
}

/// The register byte that a read shows: the selected row in the low nibble, the unused
/// high bits set and the bit of the selected row cleared.
pub open spec fn joypad_byte(j: Joypad) -> u8 {
    match j.mode {
        Mode::Direction => 0b1110_0000u8 | (state_bit(j.down) << 3u8) | (state_bit(j.up) << 2u8)
            | (state_bit(j.left) << 1u8) | state_bit(j.right),
        Mode::Action => 0b1101_0000u8 | (state_bit(j.start) << 3u8) | (state_bit(j.select) << 2u8)
            | (state_bit(j.b) << 1u8) | state_bit(j.a),
        Mode::Unselected => 0xF,
    }
}

/// The row that a write of `byte` selects: bit 5 clear (bit 4 set) selects the action
/// buttons, bit 4 clear (bit 5 set) the directions, and both or neither clear select nothing.
pub open spec fn mode_of_byte(byte: u8) -> Mode {
    let sel = byte & 0b0011_0000u8;
    if sel == 0b0001_0000u8 {
        Mode::Action
    } else if sel == 0b0010_0000u8 {
        Mode::Direction
    } else {
        Mode::Unselected
    }
}

impl Joypad {
    /// The state of `key`.
    pub open spec fn key_state(self, key: Key) -> KeyState {
        match key {
            Key::Up => self.up,
            Key::Down => self.down,
            Key::Left => self.left,
            Key::Right => self.right,
            Key::A => self.a,
            Key::B => self.b,
            Key::Start => self.start,
            Key::Select => self.select,
        }
    }

    /// This joypad with `key` put in state `s`.
    pub open spec fn with_key(self, key: Key, s: KeyState) -> Joypad {
        match key {
            Key::Up => Joypad { up: s, ..self },
            Key::Down => Joypad { down: s, ..self },
            Key::Left => Joypad { left: s, ..self },
            Key::Right => Joypad { right: s, ..self },
            Key::A => Joypad { a: s, ..self },
            Key::B => Joypad { b: s, ..self },
            Key::Start => Joypad { start: s, ..self },
            Key::Select => Joypad { select: s, ..self },
        }
    }

    /// The joypad at power-on: the direction row selected and every button released.
    pub open spec fn new_spec() -> Joypad {
        Joypad {
            mode: Mode::Direction,
            up: KeyState::Released,
            down: KeyState::Released,
            left: KeyState::Released,
            right: KeyState::Released,
            a: KeyState::Released,
            b: KeyState::Released,
            start: KeyState::Released,
            select: KeyState::Released,
        }
    }

    /// A joypad with the direction row selected and every button released.
    pub fn new() -> (r: Self)
        ensures
            r == Joypad::new_spec(),
            r.mode == Mode::Direction,
            forall|k: Key| #[trigger] r.key_state(k) == KeyState::Released,
    {
        Self {
            mode: Mode::Direction,
            up: KeyState::Released,
            down: KeyState::Released,
            left: KeyState::Released,
            right: KeyState::Released,
            a: KeyState::Released,
            b: KeyState::Released,
            start: KeyState::Released,
            select: KeyState::Released,
        }
    }

    fn set_key(&mut self, key: Key, s: KeyState)
        ensures
            *final(self) == old(self).with_key(key, s),
    {
        match key {
            Key::Up => self.up = s,
            Key::Down => self.down = s,
            Key::Left => self.left = s,
            Key::Right => self.right = s,
            Key::A => self.a = s,
            Key::B => self.b = s,
            Key::Start => self.start = s,
            Key::Select => self.select = s,
        }
    }

    /// Presses `key` and requests the joypad interrupt.
    pub fn press(&mut self, key: Key, intf: &mut Interrupts)
        ensures
            *final(self) == old(self).with_key(key, KeyState::Pressed),
            *final(intf) == with_flag(*old(intf), InterruptFlag::Joypad),
    {
        intf.set_flag(InterruptFlag::Joypad);
        self.set_key(key, KeyState::Pressed);
    }

    /// Releases `key`.
    pub fn release(&mut self, key: Key)
        ensures
            *final(self) == old(self).with_key(key, KeyState::Released),
    {
        self.set_key(key, KeyState::Released);
    }

    /// Reads the joypad register.
    pub fn read_byte(&self, addr: u16) -> (r: u8)
        requires
            addr == 0xFF00,
        ensures
            r == joypad_byte(*self),
    {
        match self.mode {
            Mode::Direction => {
                let mut byte: u8 = 0b1110_0000;
                byte = byte | (bit_of(self.down) << 3);
                byte = byte | (bit_of(self.up) << 2);
                byte = byte | (bit_of(self.left) << 1);
                byte = byte | bit_of(self.right);
                byte
            },
            Mode::Action => {
                let mut byte: u8 = 0b1101_0000;
                byte = byte | (bit_of(self.start) << 3);
                byte = byte | (bit_of(self.select) << 2);
                byte = byte | (bit_of(self.b) << 1);
                byte = byte | bit_of(self.a);
                byte
            },
            Mode::Unselected => 0xF,
        }
    }

    /// Writes the joypad register: only the row selection bits take effect.
    pub fn write_byte(&mut self, addr: u16, byte: u8)
        requires
            addr == 0xFF00,
        ensures
            *final(self) == (Joypad { mode: mode_of_byte(byte), ..*old(self) }),
    {
        let sel = byte & 0b0011_0000;
        self.mode = if sel == 0b0001_0000 {
            Mode::Action
        } else if sel == 0b0010_0000 {
            Mode::Direction
        } else {
            Mode::Unselected
        };
    }
}

/// Pressing a key shows it as 0 in its row; releasing it again restores the joypad.
pub proof fn lemma_press_release(j: Joypad, key: Key)
    ensures
        j.with_key(key, KeyState::Pressed).key_state(key) == KeyState::Pressed,
        j.with_key(key, KeyState::Pressed).with_key(key, KeyState::Released).key_state(key)
            == KeyState::Released,
        forall|k: Key| k != key ==> #[trigger] j.with_key(key, KeyState::Pressed).key_state(k)
            == j.key_state(k),
        j.key_state(key) == KeyState::Released ==> j.with_key(key, KeyState::Pressed).with_key(
            key,
            KeyState::Released,
        ) == j,
{
}

/// A read shows the selected row: each button's bit is 0 exactly when it is pressed, with
/// Down, Up, Left, Right (or Start, Select, B, A) in bits 3 to 0.
pub proof fn lemma_row_reads_keys(j: Joypad)
    ensures
        j.mode == Mode::Direction ==> (joypad_byte(j) >> 3u8) & 1 == state_bit(j.down) && (joypad_byte(j)
            >> 2u8) & 1 == state_bit(j.up) && (joypad_byte(j) >> 1u8) & 1 == state_bit(j.left)
            && joypad_byte(j) & 1 == state_bit(j.right),
        j.mode == Mode::Action ==> (joypad_byte(j) >> 3u8) & 1 == state_bit(j.start) && (joypad_byte(j)
            >> 2u8) & 1 == state_bit(j.select) && (joypad_byte(j) >> 1u8) & 1 == state_bit(j.b)
            && joypad_byte(j) & 1 == state_bit(j.a),
{
    let (d, u, l, r) = if j.mode == Mode::Direction {
        (state_bit(j.down), state_bit(j.up), state_bit(j.left), state_bit(j.right))
    } else {
        (state_bit(j.start), state_bit(j.select), state_bit(j.b), state_bit(j.a))
    };
    let hi: u8 = if j.mode == Mode::Direction { 0b1110_0000u8 } else { 0b1101_0000u8 };
    assert(d <= 1 && u <= 1 && l <= 1 && r <= 1);
    assert({
        let x = hi | (d << 3u8) | (u << 2u8) | (l << 1u8) | r;
        (x >> 3u8) & 1 == d && (x >> 2u8) & 1 == u && (x >> 1u8) & 1 == l && x & 1 == r
    }) by (bit_vector)
        requires
            d <= 1 && u <= 1 && l <= 1 && r <= 1,
            hi == 0b1110_0000u8 || hi == 0b1101_0000u8,
    ;
}

} // verus!
