//! The closed set of symbolic key identifiers.
//!
//! Each keycode maps to a single byte: either a standard USB HID keyboard
//! usage identifier (letters, digits, function keys, modifiers), or a
//! firmware-private extension code (no-op, transparent, momentary layer
//! switches, bootloader reset, dual-function escape).  Extension codes occupy
//! byte values disjoint from the standard HID usage range `0x04..=0xE7`, so a
//! single byte comparison tells "send to host" apart from "interpret
//! locally".

use vstd::prelude::*;

verus! {

/// A symbolic key identifier, one per physical key meaning.
#[derive(Clone, Copy, PartialEq, Eq, Structural, Debug)]
pub enum Keycode {
    // Firmware-private extension codes
    No,
    Trans,
    MomentaryLayer1,
    MomentaryLayer2,
    GraveEsc,
    Reset,
    // Letters
    A,
    B,
    C,
    D,
    E,
    F,
    G,
    H,
    I,
    J,
    K,
    L,
    M,
    N,
    O,
    P,
    Q,
    R,
    S,
    T,
    U,
    V,
    W,
    X,
    Y,
    Z,
    // Digits
    Num1,
    Num2,
    Num3,
    Num4,
    Num5,
    Num6,
    Num7,
    Num8,
    Num9,
    Num0,
    // Control and punctuation
    Enter,
    Escape,
    BSpace,
    Tab,
    Space,
    Minus,
    Equal,
    LBracket,
    RBracket,
    BSlash,
    Semicolon,
    Quote,
    Grave,
    Comma,
    Dot,
    Slash,
    Caps,
    // Function keys
    F1,
    F2,
    F3,
    F4,
    F5,
    F6,
    F7,
    F8,
    F9,
    F10,
    F11,
    F12,
    // Navigation and editing
    PScreen,
    ScrollLock,
    Pause,
    Insert,
    Home,
    PgUp,
    Delete,
    End,
    PgDown,
    Right,
    Left,
    Down,
    Up,
    // Modifiers
    LCtrl,
    LShift,
    LAlt,
    LGui,
    RCtrl,
    RShift,
    RAlt,
    RGui,
}

impl Keycode {
    /// The byte value of this keycode: the USB HID keyboard usage identifier
    /// for standard keys, and an otherwise-unused byte for extension codes.
    pub open spec fn spec_code(self) -> u8 {
        match self {
            Keycode::No => 0x00,
            Keycode::Trans => 0x01,
            Keycode::A => 0x04,
            Keycode::B => 0x05,
            Keycode::C => 0x06,
            Keycode::D => 0x07,
            Keycode::E => 0x08,
            Keycode::F => 0x09,
            Keycode::G => 0x0A,
            Keycode::H => 0x0B,
            Keycode::I => 0x0C,
            Keycode::J => 0x0D,
            Keycode::K => 0x0E,
            Keycode::L => 0x0F,
            Keycode::M => 0x10,
            Keycode::N => 0x11,
            Keycode::O => 0x12,
            Keycode::P => 0x13,
            Keycode::Q => 0x14,
            Keycode::R => 0x15,
            Keycode::S => 0x16,
            Keycode::T => 0x17,
            Keycode::U => 0x18,
            Keycode::V => 0x19,
            Keycode::W => 0x1A,
            Keycode::X => 0x1B,
            Keycode::Y => 0x1C,
            Keycode::Z => 0x1D,
            Keycode::Num1 => 0x1E,
            Keycode::Num2 => 0x1F,
            Keycode::Num3 => 0x20,
            Keycode::Num4 => 0x21,
            Keycode::Num5 => 0x22,
            Keycode::Num6 => 0x23,
            Keycode::Num7 => 0x24,
            Keycode::Num8 => 0x25,
            Keycode::Num9 => 0x26,
            Keycode::Num0 => 0x27,
            Keycode::Enter => 0x28,
            Keycode::Escape => 0x29,
            Keycode::BSpace => 0x2A,
            Keycode::Tab => 0x2B,
            Keycode::Space => 0x2C,
            Keycode::Minus => 0x2D,
            Keycode::Equal => 0x2E,
            Keycode::LBracket => 0x2F,
            Keycode::RBracket => 0x30,
            Keycode::BSlash => 0x31,
            Keycode::Semicolon => 0x33,
            Keycode::Quote => 0x34,
            Keycode::Grave => 0x35,
            Keycode::Comma => 0x36,
            Keycode::Dot => 0x37,
            Keycode::Slash => 0x38,
            Keycode::Caps => 0x39,
            Keycode::F1 => 0x3A,
            Keycode::F2 => 0x3B,
            Keycode::F3 => 0x3C,
            Keycode::F4 => 0x3D,
            Keycode::F5 => 0x3E,
            Keycode::F6 => 0x3F,
            Keycode::F7 => 0x40,
            Keycode::F8 => 0x41,
            Keycode::F9 => 0x42,
            Keycode::F10 => 0x43,
            Keycode::F11 => 0x44,
            Keycode::F12 => 0x45,
            Keycode::PScreen => 0x46,
            Keycode::ScrollLock => 0x47,
            Keycode::Pause => 0x48,
            Keycode::Insert => 0x49,
            Keycode::Home => 0x4A,
            Keycode::PgUp => 0x4B,
            Keycode::Delete => 0x4C,
            Keycode::End => 0x4D,
            Keycode::PgDown => 0x4E,
            Keycode::Right => 0x4F,
            Keycode::Left => 0x50,
            Keycode::Down => 0x51,
            Keycode::Up => 0x52,
            Keycode::LCtrl => 0xE0,
            Keycode::LShift => 0xE1,
            Keycode::LAlt => 0xE2,
            Keycode::LGui => 0xE3,
            Keycode::RCtrl => 0xE4,
            Keycode::RShift => 0xE5,
            Keycode::RAlt => 0xE6,
            Keycode::RGui => 0xE7,
            Keycode::GraveEsc => 0xF0,
            Keycode::MomentaryLayer1 => 0xF1,
            Keycode::MomentaryLayer2 => 0xF2,
            Keycode::Reset => 0xF3,
        }
    }

    /// Executable twin of [`Keycode::spec_code`].
    #[verifier::when_used_as_spec(spec_code)]
    pub fn code(self) -> (b: u8)
        ensures
            b == self.spec_code(),
    {
        match self {
            Keycode::No => 0x00,
            Keycode::Trans => 0x01,
            Keycode::A => 0x04,
            Keycode::B => 0x05,
            Keycode::C => 0x06,
            Keycode::D => 0x07,
            Keycode::E => 0x08,
            Keycode::F => 0x09,
            Keycode::G => 0x0A,
            Keycode::H => 0x0B,
            Keycode::I => 0x0C,
            Keycode::J => 0x0D,
            Keycode::K => 0x0E,
            Keycode::L => 0x0F,
            Keycode::M => 0x10,
            Keycode::N => 0x11,
            Keycode::O => 0x12,
            Keycode::P => 0x13,
            Keycode::Q => 0x14,
            Keycode::R => 0x15,
            Keycode::S => 0x16,
            Keycode::T => 0x17,
            Keycode::U => 0x18,
            Keycode::V => 0x19,
            Keycode::W => 0x1A,
            Keycode::X => 0x1B,
            Keycode::Y => 0x1C,
            Keycode::Z => 0x1D,
            Keycode::Num1 => 0x1E,
            Keycode::Num2 => 0x1F,
            Keycode::Num3 => 0x20,
            Keycode::Num4 => 0x21,
            Keycode::Num5 => 0x22,
            Keycode::Num6 => 0x23,
            Keycode::Num7 => 0x24,
            Keycode::Num8 => 0x25,
            Keycode::Num9 => 0x26,
            Keycode::Num0 => 0x27,
            Keycode::Enter => 0x28,
            Keycode::Escape => 0x29,
            Keycode::BSpace => 0x2A,
            Keycode::Tab => 0x2B,
            Keycode::Space => 0x2C,
            Keycode::Minus => 0x2D,
            Keycode::Equal => 0x2E,
            Keycode::LBracket => 0x2F,
            Keycode::RBracket => 0x30,
            Keycode::BSlash => 0x31,
            Keycode::Semicolon => 0x33,
            Keycode::Quote => 0x34,
            Keycode::Grave => 0x35,
            Keycode::Comma => 0x36,
            Keycode::Dot => 0x37,
            Keycode::Slash => 0x38,
            Keycode::Caps => 0x39,
            Keycode::F1 => 0x3A,
            Keycode::F2 => 0x3B,
            Keycode::F3 => 0x3C,
            Keycode::F4 => 0x3D,
            Keycode::F5 => 0x3E,
            Keycode::F6 => 0x3F,
            Keycode::F7 => 0x40,
            Keycode::F8 => 0x41,
            Keycode::F9 => 0x42,
            Keycode::F10 => 0x43,
            Keycode::F11 => 0x44,
            Keycode::F12 => 0x45,
            Keycode::PScreen => 0x46,
            Keycode::ScrollLock => 0x47,
            Keycode::Pause => 0x48,
            Keycode::Insert => 0x49,
            Keycode::Home => 0x4A,
            Keycode::PgUp => 0x4B,
            Keycode::Delete => 0x4C,
            Keycode::End => 0x4D,
            Keycode::PgDown => 0x4E,
            Keycode::Right => 0x4F,
            Keycode::Left => 0x50,
            Keycode::Down => 0x51,
            Keycode::Up => 0x52,
            Keycode::LCtrl => 0xE0,
            Keycode::LShift => 0xE1,
            Keycode::LAlt => 0xE2,
            Keycode::LGui => 0xE3,
            Keycode::RCtrl => 0xE4,
            Keycode::RShift => 0xE5,
            Keycode::RAlt => 0xE6,
            Keycode::RGui => 0xE7,
            Keycode::GraveEsc => 0xF0,
            Keycode::MomentaryLayer1 => 0xF1,
            Keycode::MomentaryLayer2 => 0xF2,
            Keycode::Reset => 0xF3,
        }
    }

    /// True exactly for the keycodes whose byte value lies in the standard
    /// HID usage range `0x04..=0xE7`; those are forwarded to the host, all
    /// others are interpreted by the firmware itself.
    pub open spec fn spec_is_hid_usage(self) -> bool {
        0x04 <= self.spec_code() <= 0xE7
    }

    /// Executable twin of [`Keycode::spec_is_hid_usage`].
    #[verifier::when_used_as_spec(spec_is_hid_usage)]
    pub fn is_hid_usage(self) -> (r: bool)
        ensures
            r == self.spec_is_hid_usage(),
    {
        let b = self.code();
        0x04 <= b && b <= 0xE7
    }
}

} // verus!
