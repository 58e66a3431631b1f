use vstd::prelude::*;

verus! {
/// A key of the USB HID keyboard usage page (page 0x07).
#[allow(non_camel_case_types)]
#[derive(Clone, Copy, Debug, PartialEq, Eq, Structural)]
pub enum KeyCode {
    A,
    B,
    C,
    D,
    E,
    F,
    G,
    H,
    I,
    J,
    K,
    L,
    M,
    N,
    O,
    P,
    Q,
    R,
    S,
    T,
    U,
    V,
    W,
    X,
    Y,
    Z,
    N1,
    N2,
    N3,
    N4,
    N5,
    N6,
    N7,
    N8,
    N9,
    N0,
    ENTER,
    ESCAPE,
    BACKSPACE,
    TAB,
    SPACE,
    RIGHT,
    LEFT,
    DOWN,
    UP,
    LEFTCTRL,
    LEFTSHIFT,
    LEFTALT,
    LEFTGUI,
    RIGHTCTRL,
    RIGHTSHIFT,
    RIGHTALT,
    RIGHTGUI,
}

impl KeyCode {
    /// The HID usage ID that stands for this key in a report.
    pub open spec fn usage(self) -> u8 {
        match self {
            KeyCode::A => 0x04,
            KeyCode::B => 0x05,
            KeyCode::C => 0x06,
            KeyCode::D => 0x07,
            KeyCode::E => 0x08,
            KeyCode::F => 0x09,
            KeyCode::G => 0x0A,
            KeyCode::H => 0x0B,
            KeyCode::I => 0x0C,
            KeyCode::J => 0x0D,
            KeyCode::K => 0x0E,
            KeyCode::L => 0x0F,
            KeyCode::M => 0x10,
            KeyCode::N => 0x11,
            KeyCode::O => 0x12,
            KeyCode::P => 0x13,
            KeyCode::Q => 0x14,
            KeyCode::R => 0x15,
            KeyCode::S => 0x16,
            KeyCode::T => 0x17,
            KeyCode::U => 0x18,
            KeyCode::V => 0x19,
            KeyCode::W => 0x1A,
            KeyCode::X => 0x1B,
            KeyCode::Y => 0x1C,
            KeyCode::Z => 0x1D,
            KeyCode::N1 => 0x1E,
            KeyCode::N2 => 0x1F,
            KeyCode::N3 => 0x20,
            KeyCode::N4 => 0x21,
            KeyCode::N5 => 0x22,
            KeyCode::N6 => 0x23,
            KeyCode::N7 => 0x24,
            KeyCode::N8 => 0x25,
            KeyCode::N9 => 0x26,
            KeyCode::N0 => 0x27,
            KeyCode::ENTER => 0x28,
            KeyCode::ESCAPE => 0x29,
            KeyCode::BACKSPACE => 0x2A,
            KeyCode::TAB => 0x2B,
            KeyCode::SPACE => 0x2C,
            KeyCode::RIGHT => 0x4F,
            KeyCode::LEFT => 0x50,
            KeyCode::DOWN => 0x51,
            KeyCode::UP => 0x52,
            KeyCode::LEFTCTRL => 0xE0,
            KeyCode::LEFTSHIFT => 0xE1,
            KeyCode::LEFTALT => 0xE2,
            KeyCode::LEFTGUI => 0xE3,
            KeyCode::RIGHTCTRL => 0xE4,
            KeyCode::RIGHTSHIFT => 0xE5,
            KeyCode::RIGHTALT => 0xE6,
            KeyCode::RIGHTGUI => 0xE7,
        }
    }

    /// Every key has a non-zero usage ID: 0 marks an empty report slot.
    pub proof fn lemma_usage_nonzero(self)
        ensures
            self.usage() != 0,
    {
    }

    /// The HID usage ID of this key.
    pub fn usage_id(&self) -> (r: u8)
        ensures
            r == self.usage(),
            r != 0,
    {
        match self {
            KeyCode::A => 0x04,
            KeyCode::B => 0x05,
            KeyCode::C => 0x06,
            KeyCode::D => 0x07,
            KeyCode::E => 0x08,
            KeyCode::F => 0x09,
            KeyCode::G => 0x0A,
            KeyCode::H => 0x0B,
            KeyCode::I => 0x0C,
            KeyCode::J => 0x0D,
            KeyCode::K => 0x0E,
            KeyCode::L => 0x0F,
            KeyCode::M => 0x10,
            KeyCode::N => 0x11,
            KeyCode::O => 0x12,
            KeyCode::P => 0x13,
            KeyCode::Q => 0x14,
            KeyCode::R => 0x15,
            KeyCode::S => 0x16,
            KeyCode::T => 0x17,
            KeyCode::U => 0x18,
            KeyCode::V => 0x19,
            KeyCode::W => 0x1A,
            KeyCode::X => 0x1B,
            KeyCode::Y => 0x1C,
            KeyCode::Z => 0x1D,
            KeyCode::N1 => 0x1E,
            KeyCode::N2 => 0x1F,
            KeyCode::N3 => 0x20,
            KeyCode::N4 => 0x21,
            KeyCode::N5 => 0x22,
            KeyCode::N6 => 0x23,
            KeyCode::N7 => 0x24,
            KeyCode::N8 => 0x25,
            KeyCode::N9 => 0x26,
            KeyCode::N0 => 0x27,
            KeyCode::ENTER => 0x28,
            KeyCode::ESCAPE => 0x29,
            KeyCode::BACKSPACE => 0x2A,
            KeyCode::TAB => 0x2B,
            KeyCode::SPACE => 0x2C,
            KeyCode::RIGHT => 0x4F,
            KeyCode::LEFT => 0x50,
            KeyCode::DOWN => 0x51,
            KeyCode::UP => 0x52,
            KeyCode::LEFTCTRL => 0xE0,
            KeyCode::LEFTSHIFT => 0xE1,
            KeyCode::LEFTALT => 0xE2,
            KeyCode::LEFTGUI => 0xE3,
            KeyCode::RIGHTCTRL => 0xE4,
            KeyCode::RIGHTSHIFT => 0xE5,
            KeyCode::RIGHTALT => 0xE6,
            KeyCode::RIGHTGUI => 0xE7,
        }
    }
}

} // verus!
