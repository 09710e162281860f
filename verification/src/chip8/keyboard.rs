use vstd::prelude::*;

verus! {

/// One of the sixteen physical host keys that the front end maps onto the
/// CHIP-8 hex pad: the `1234 / qwer / asdf / zxcv` block of a standard
/// keyboard.
#[derive(Clone, Copy, Debug, PartialEq, Eq, Structural)]
pub enum HostKey {
    Digit1,
    Digit2,
    Digit3,
    Digit4,
    Q,
    W,
    E,
    R,
    A,
    S,
    D,
    F,
    Z,
    X,
    C,
    V,
}

/// The hex-pad code (0x0..=0xF) a host key stands for.
pub open spec fn key_code_of(key: HostKey) -> u8 {
    match key {
        HostKey::Digit1 => 0x1u8,
        HostKey::Digit2 => 0x2u8,
        HostKey::Digit3 => 0x3u8,
        HostKey::Digit4 => 0xCu8,
        HostKey::Q => 0x4u8,
        HostKey::W => 0x5u8,
        HostKey::E => 0x6u8,
        HostKey::R => 0xDu8,
        HostKey::A => 0x7u8,
        HostKey::S => 0x8u8,
        HostKey::D => 0x9u8,
        HostKey::F => 0xEu8,
        HostKey::Z => 0xAu8,
        HostKey::X => 0x0u8,
        HostKey::C => 0xBu8,
        HostKey::V => 0xFu8,
    }
}

/// The 16-key hex pad as the engine sees it: at most one key is reported
/// pressed at a time, as a hex code 0x0..=0xF.
pub struct Keyboard {
    pub pressed_key: Option<u8>,
}

impl Keyboard {
    /// No key pressed.
    pub fn new() -> (k: Keyboard)
        ensures
            k.pressed_key is None,
    {
        Keyboard { pressed_key: None }
    }

    /// Whether the key with the given hex code is currently down.
    pub fn is_key_pressed(&self, key_code: u8) -> (r: bool)
        ensures
            r == (self.pressed_key == Some(key_code)),
    {
        if let Some(key) = self.pressed_key {
            key == key_code
        } else {
            false
        }
    }

    /// Map a host key (if any) to its hex-pad code.
    pub fn get_key_code(&self, key: Option<HostKey>) -> (r: Option<u8>)
        ensures
            r == match key {
                Some(k) => Some(key_code_of(k)),
                None => None::<u8>,
            },
    {
        match key {
            Some(HostKey::Digit1) => Some(0x1),
            Some(HostKey::Digit2) => Some(0x2),
            Some(HostKey::Digit3) => Some(0x3),
            Some(HostKey::Digit4) => Some(0xC),
            Some(HostKey::Q) => Some(0x4),
            Some(HostKey::W) => Some(0x5),
            Some(HostKey::E) => Some(0x6),
            Some(HostKey::R) => Some(0xD),
            Some(HostKey::A) => Some(0x7),
            Some(HostKey::S) => Some(0x8),
            Some(HostKey::D) => Some(0x9),
            Some(HostKey::F) => Some(0xE),
            Some(HostKey::Z) => Some(0xA),
            Some(HostKey::X) => Some(0x0),
            Some(HostKey::C) => Some(0xB),
            Some(HostKey::V) => Some(0xF),
            None => None,
        }
    }
}

} // verus!
