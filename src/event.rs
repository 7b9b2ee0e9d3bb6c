use vstd::prelude::*;

verus! {

/// The keys that input events name.
#[derive(Clone, Copy, Debug, PartialEq, Eq, Structural, Hash)]
pub enum Keycode {
    Unknown,
    Space,
    W,
    A,
    S,
    D,
    Escape,
    PageUp,
    PageDown,
    End,
    LeftShift,
}

/// The mouse buttons that input events name.
#[derive(Clone, Copy, Debug, PartialEq, Eq, Structural, Hash)]
pub enum MouseButton {
    Left,
    Right,
    Middle,
}

/// The numeric code of a key, as the windowing system numbers keys.
pub open spec fn key_code(k: Keycode) -> u32 {
    match k {
        Keycode::Unknown => 0,
        Keycode::Space => 32,
        Keycode::W => 87,
        Keycode::A => 65,
        Keycode::S => 83,
        Keycode::D => 68,
        Keycode::Escape => 256,
        Keycode::PageUp => 266,
        Keycode::PageDown => 267,
        Keycode::End => 269,
        Keycode::LeftShift => 340,
    }
}

/// The key that input events report for a windowing-system key code: the
/// movement keys, space, left shift and escape are reported, all other keys
/// are not.
pub open spec fn key_of_code(code: i32) -> Option<Keycode> {
    if code == 87 {
        Some(Keycode::W)
    } else if code == 65 {
        Some(Keycode::A)
    } else if code == 83 {
        Some(Keycode::S)
    } else if code == 68 {
        Some(Keycode::D)
    } else if code == 32 {
        Some(Keycode::Space)
    } else if code == 340 {
        Some(Keycode::LeftShift)
    } else if code == 256 {
        Some(Keycode::Escape)
    } else {
        None
    }
}

/// The mouse button that input events report for a zero-based
/// windowing-system button number: the first three buttons.
pub open spec fn button_of_index(index: i32) -> Option<MouseButton> {
    if index == 0 {
        Some(MouseButton::Left)
    } else if index == 1 {
        Some(MouseButton::Right)
    } else if index == 2 {
        Some(MouseButton::Middle)
    } else {
        None
    }
}

impl Keycode {
    /// The numeric code of this key.
    pub fn code(self) -> (r: u32)
        ensures
            r == key_code(self),
    {
        match self {
            Keycode::Unknown => 0,
            Keycode::Space => 32,
            Keycode::W => 87,
            Keycode::A => 65,
            Keycode::S => 83,
            Keycode::D => 68,
            Keycode::Escape => 256,
            Keycode::PageUp => 266,
            Keycode::PageDown => 267,
            Keycode::End => 269,
            Keycode::LeftShift => 340,
        }
    }

    /// The key that input events report for a windowing-system key code.
    pub fn from_key_code(code: i32) -> (r: Option<Keycode>)
        ensures
            r == key_of_code(code),
            r matches Some(k) ==> key_code(k) == code,
    {
        match code {
            87 => Some(Keycode::W),
            65 => Some(Keycode::A),
            83 => Some(Keycode::S),
            68 => Some(Keycode::D),
            32 => Some(Keycode::Space),
            340 => Some(Keycode::LeftShift),
            256 => Some(Keycode::Escape),
            _ => None,
        }
    }
}

impl MouseButton {
    /// The mouse button that input events report for a zero-based
    /// windowing-system button number.
    pub fn from_button_index(index: i32) -> (r: Option<MouseButton>)
        ensures
            r == button_of_index(index),
    {
        match index {
            0 => Some(MouseButton::Left),
            1 => Some(MouseButton::Right),
            2 => Some(MouseButton::Middle),
            _ => None,
        }
    }
}

} // verus!
