//! Input and render-flag vocabularies shared with the native view: the
//! `Noesis::MouseButton` and `Noesis::Key` ordinals that the input pump sends,
//! and the `Noesis::RenderFlags` bits that a view's flags are built from.

use vstd::prelude::*;

verus! {

/// Mirror of `Noesis::MouseButton` from `NsGui/InputEnums.h`.
#[derive(Copy, Clone, Debug, PartialEq, Eq, Structural)]
pub enum MouseButton {
    Left,
    Right,
    Middle,
    XButton1,
    XButton2,
}

impl MouseButton {
    /// The `Noesis::MouseButton` ordinal of this button.
    pub open spec fn code(self) -> int {
        match self {
            MouseButton::Left => 0,
            MouseButton::Right => 1,
            MouseButton::Middle => 2,
            MouseButton::XButton1 => 3,
            MouseButton::XButton2 => 4,
        }
    }

    /// The ordinal handed to the native input pump for this button.
    pub fn to_i32(self) -> (code: i32)
        ensures
            code == self.code(),
    {
        match self {
            MouseButton::Left => 0,
            MouseButton::Right => 1,
            MouseButton::Middle => 2,
            MouseButton::XButton1 => 3,
            MouseButton::XButton2 => 4,
        }
    }
}

/// Subset of `Noesis::Key` from `NsGui/InputEnums.h`: the keys a desktop
/// keyboard layer can produce. [`Key::to_i32`] gives the native enum ordinal.
/// Anything outside this subset can still be sent to a view as a raw ordinal.
#[derive(Copy, Clone, Debug, PartialEq, Eq, Structural)]
pub enum Key {
    /// No key (`Key_None`).
    NoKey,
    Back,
    Tab,
    Return,
    Pause,
    CapsLock,
    Escape,
    Space,
    PageUp,
    PageDown,
    End,
    Home,
    Left,
    Up,
    Right,
    Down,
    PrintScreen,
    Insert,
    Delete,
    Help,
    D0,
    D1,
    D2,
    D3,
    D4,
    D5,
    D6,
    D7,
    D8,
    D9,
    A,
    B,
    C,
    D,
    E,
    F,
    G,
    H,
    I,
    J,
    K,
    L,
    M,
    N,
    O,
    P,
    Q,
    R,
    S,
    T,
    U,
    V,
    W,
    X,
    Y,
    Z,
    LWin,
    RWin,
    Apps,
    NumPad0,
    NumPad1,
    NumPad2,
    NumPad3,
    NumPad4,
    NumPad5,
    NumPad6,
    NumPad7,
    NumPad8,
    NumPad9,
    Multiply,
    Add,
    Subtract,
    Decimal,
    Divide,
    F1,
    F2,
    F3,
    F4,
    F5,
    F6,
    F7,
    F8,
    F9,
    F10,
    F11,
    F12,
    F13,
    F14,
    F15,
    F16,
    F17,
    F18,
    F19,
    F20,
    F21,
    F22,
    F23,
    F24,
    NumLock,
    ScrollLock,
    LeftShift,
    RightShift,
    LeftCtrl,
    RightCtrl,
    LeftAlt,
    RightAlt,
    /// Semicolon / colon on US layouts (`Key_Oem1` / `Key_OemSemicolon`).
    OemSemicolon,
    /// `=` / `+` (`Key_OemPlus`).
    OemPlus,
    OemComma,
    OemMinus,
    OemPeriod,
    /// `/` / `?` (`Key_Oem2` / `Key_OemQuestion`).
    OemSlash,
    /// Backtick / tilde (`Key_Oem3` / `Key_OemTilde`).
    OemTilde,
    /// `[` / `{` (`Key_Oem4` / `Key_OemOpenBrackets`).
    OemOpenBrackets,
    /// `\` / `|` (`Key_Oem5` / `Key_OemPipe`).
    OemPipe,
    /// `]` / `}` (`Key_Oem6` / `Key_OemCloseBrackets`).
    OemCloseBrackets,
    /// `'` / `"` (`Key_Oem7` / `Key_OemQuotes`).
    OemQuotes,
}

impl Key {
    /// The `Noesis::Key` ordinal of this key.
    pub open spec fn code(self) -> int {
        match self {
            Key::NoKey => 0,
            Key::Back => 2,
            Key::Tab => 3,
            Key::Return => 6,
            Key::Pause => 7,
            Key::CapsLock => 8,
            Key::Escape => 13,
            Key::Space => 18,
            Key::PageUp => 19,
            Key::PageDown => 20,
            Key::End => 21,
            Key::Home => 22,
            Key::Left => 23,
            Key::Up => 24,
            Key::Right => 25,
            Key::Down => 26,
            Key::PrintScreen => 30,
            Key::Insert => 31,
            Key::Delete => 32,
            Key::Help => 33,
            Key::D0 => 34,
            Key::D1 => 35,
            Key::D2 => 36,
            Key::D3 => 37,
            Key::D4 => 38,
            Key::D5 => 39,
            Key::D6 => 40,
            Key::D7 => 41,
            Key::D8 => 42,
            Key::D9 => 43,
            Key::A => 44,
            Key::B => 45,
            Key::C => 46,
            Key::D => 47,
            Key::E => 48,
            Key::F => 49,
            Key::G => 50,
            Key::H => 51,
            Key::I => 52,
            Key::J => 53,
            Key::K => 54,
            Key::L => 55,
            Key::M => 56,
            Key::N => 57,
            Key::O => 58,
            Key::P => 59,
            Key::Q => 60,
            Key::R => 61,
            Key::S => 62,
            Key::T => 63,
            Key::U => 64,
            Key::V => 65,
            Key::W => 66,
            Key::X => 67,
            Key::Y => 68,
            Key::Z => 69,
            Key::LWin => 70,
            Key::RWin => 71,
            Key::Apps => 72,
            Key::NumPad0 => 74,
            Key::NumPad1 => 75,
            Key::NumPad2 => 76,
            Key::NumPad3 => 77,
            Key::NumPad4 => 78,
            Key::NumPad5 => 79,
            Key::NumPad6 => 80,
            Key::NumPad7 => 81,
            Key::NumPad8 => 82,
            Key::NumPad9 => 83,
            Key::Multiply => 84,
            Key::Add => 85,
            Key::Subtract => 87,
            Key::Decimal => 88,
            Key::Divide => 89,
            Key::F1 => 90,
            Key::F2 => 91,
            Key::F3 => 92,
            Key::F4 => 93,
            Key::F5 => 94,
            Key::F6 => 95,
            Key::F7 => 96,
            Key::F8 => 97,
            Key::F9 => 98,
            Key::F10 => 99,
            Key::F11 => 100,
            Key::F12 => 101,
            Key::F13 => 102,
            Key::F14 => 103,
            Key::F15 => 104,
            Key::F16 => 105,
            Key::F17 => 106,
            Key::F18 => 107,
            Key::F19 => 108,
            Key::F20 => 109,
            Key::F21 => 110,
            Key::F22 => 111,
            Key::F23 => 112,
            Key::F24 => 113,
            Key::NumLock => 114,
            Key::ScrollLock => 115,
            Key::LeftShift => 116,
            Key::RightShift => 117,
            Key::LeftCtrl => 118,
            Key::RightCtrl => 119,
            Key::LeftAlt => 120,
            Key::RightAlt => 121,
            Key::OemSemicolon => 140,
            Key::OemPlus => 141,
            Key::OemComma => 142,
            Key::OemMinus => 143,
            Key::OemPeriod => 144,
            Key::OemSlash => 145,
            Key::OemTilde => 146,
            Key::OemOpenBrackets => 149,
            Key::OemPipe => 150,
            Key::OemCloseBrackets => 151,
            Key::OemQuotes => 152,
        }
    }

    /// The ordinal handed to the native input pump for this key.
    pub fn to_i32(self) -> (code: i32)
        ensures
            code == self.code(),
    {
        match self {
            Key::NoKey => 0,
            Key::Back => 2,
            Key::Tab => 3,
            Key::Return => 6,
            Key::Pause => 7,
            Key::CapsLock => 8,
            Key::Escape => 13,
            Key::Space => 18,
            Key::PageUp => 19,
            Key::PageDown => 20,
            Key::End => 21,
            Key::Home => 22,
            Key::Left => 23,
            Key::Up => 24,
            Key::Right => 25,
            Key::Down => 26,
            Key::PrintScreen => 30,
            Key::Insert => 31,
            Key::Delete => 32,
            Key::Help => 33,
            Key::D0 => 34,
            Key::D1 => 35,
            Key::D2 => 36,
            Key::D3 => 37,
            Key::D4 => 38,
            Key::D5 => 39,
            Key::D6 => 40,
            Key::D7 => 41,
            Key::D8 => 42,
            Key::D9 => 43,
            Key::A => 44,
            Key::B => 45,
            Key::C => 46,
            Key::D => 47,
            Key::E => 48,
            Key::F => 49,
            Key::G => 50,
            Key::H => 51,
            Key::I => 52,
            Key::J => 53,
            Key::K => 54,
            Key::L => 55,
            Key::M => 56,
            Key::N => 57,
            Key::O => 58,
            Key::P => 59,
            Key::Q => 60,
            Key::R => 61,
            Key::S => 62,
            Key::T => 63,
            Key::U => 64,
            Key::V => 65,
            Key::W => 66,
            Key::X => 67,
            Key::Y => 68,
            Key::Z => 69,
            Key::LWin => 70,
            Key::RWin => 71,
            Key::Apps => 72,
            Key::NumPad0 => 74,
            Key::NumPad1 => 75,
            Key::NumPad2 => 76,
            Key::NumPad3 => 77,
            Key::NumPad4 => 78,
            Key::NumPad5 => 79,
            Key::NumPad6 => 80,
            Key::NumPad7 => 81,
            Key::NumPad8 => 82,
            Key::NumPad9 => 83,
            Key::Multiply => 84,
            Key::Add => 85,
            Key::Subtract => 87,
            Key::Decimal => 88,
            Key::Divide => 89,
            Key::F1 => 90,
            Key::F2 => 91,
            Key::F3 => 92,
            Key::F4 => 93,
            Key::F5 => 94,
            Key::F6 => 95,
            Key::F7 => 96,
            Key::F8 => 97,
            Key::F9 => 98,
            Key::F10 => 99,
            Key::F11 => 100,
            Key::F12 => 101,
            Key::F13 => 102,
            Key::F14 => 103,
            Key::F15 => 104,
            Key::F16 => 105,
            Key::F17 => 106,
            Key::F18 => 107,
            Key::F19 => 108,
            Key::F20 => 109,
            Key::F21 => 110,
            Key::F22 => 111,
            Key::F23 => 112,
            Key::F24 => 113,
            Key::NumLock => 114,
            Key::ScrollLock => 115,
            Key::LeftShift => 116,
            Key::RightShift => 117,
            Key::LeftCtrl => 118,
            Key::RightCtrl => 119,
            Key::LeftAlt => 120,
            Key::RightAlt => 121,
            Key::OemSemicolon => 140,
            Key::OemPlus => 141,
            Key::OemComma => 142,
            Key::OemMinus => 143,
            Key::OemPeriod => 144,
            Key::OemSlash => 145,
            Key::OemTilde => 146,
            Key::OemOpenBrackets => 149,
            Key::OemPipe => 150,
            Key::OemCloseBrackets => 151,
            Key::OemQuotes => 152,
        }
    }
}

/// The key whose ordinal is `code`, if the subset has one.
pub open spec fn key_with_code(code: int) -> Option<Key> {
    if code == 0 {
        Some(Key::NoKey)
    } else if code == 2 {
        Some(Key::Back)
    } else if code == 3 {
        Some(Key::Tab)
    } else if code == 6 {
        Some(Key::Return)
    } else if code == 7 {
        Some(Key::Pause)
    } else if code == 8 {
        Some(Key::CapsLock)
    } else if code == 13 {
        Some(Key::Escape)
    } else if code == 18 {
        Some(Key::Space)
    } else if code == 19 {
        Some(Key::PageUp)
    } else if code == 20 {
        Some(Key::PageDown)
    } else if code == 21 {
        Some(Key::End)
    } else if code == 22 {
        Some(Key::Home)
    } else if code == 23 {
        Some(Key::Left)
    } else if code == 24 {
        Some(Key::Up)
    } else if code == 25 {
        Some(Key::Right)
    } else if code == 26 {
        Some(Key::Down)
    } else if code == 30 {
        Some(Key::PrintScreen)
    } else if code == 31 {
        Some(Key::Insert)
    } else if code == 32 {
        Some(Key::Delete)
    } else if code == 33 {
        Some(Key::Help)
    } else if code == 34 {
        Some(Key::D0)
    } else if code == 35 {
        Some(Key::D1)
    } else if code == 36 {
        Some(Key::D2)
    } else if code == 37 {
        Some(Key::D3)
    } else if code == 38 {
        Some(Key::D4)
    } else if code == 39 {
        Some(Key::D5)
    } else if code == 40 {
        Some(Key::D6)
    } else if code == 41 {
        Some(Key::D7)
    } else if code == 42 {
        Some(Key::D8)
    } else if code == 43 {
        Some(Key::D9)
    } else if code == 44 {
        Some(Key::A)
    } else if code == 45 {
        Some(Key::B)
    } else if code == 46 {
        Some(Key::C)
    } else if code == 47 {
        Some(Key::D)
    } else if code == 48 {
        Some(Key::E)
    } else if code == 49 {
        Some(Key::F)
    } else if code == 50 {
        Some(Key::G)
    } else if code == 51 {
        Some(Key::H)
    } else if code == 52 {
        Some(Key::I)
    } else if code == 53 {
        Some(Key::J)
    } else if code == 54 {
        Some(Key::K)
    } else if code == 55 {
        Some(Key::L)
    } else if code == 56 {
        Some(Key::M)
    } else if code == 57 {
        Some(Key::N)
    } else if code == 58 {
        Some(Key::O)
    } else if code == 59 {
        Some(Key::P)
    } else if code == 60 {
        Some(Key::Q)
    } else if code == 61 {
        Some(Key::R)
    } else if code == 62 {
        Some(Key::S)
    } else if code == 63 {
        Some(Key::T)
    } else if code == 64 {
        Some(Key::U)
    } else if code == 65 {
        Some(Key::V)
    } else if code == 66 {
        Some(Key::W)
    } else if code == 67 {
        Some(Key::X)
    } else if code == 68 {
        Some(Key::Y)
    } else if code == 69 {
        Some(Key::Z)
    } else if code == 70 {
        Some(Key::LWin)
    } else if code == 71 {
        Some(Key::RWin)
    } else if code == 72 {
        Some(Key::Apps)
    } else if code == 74 {
        Some(Key::NumPad0)
    } else if code == 75 {
        Some(Key::NumPad1)
    } else if code == 76 {
        Some(Key::NumPad2)
    } else if code == 77 {
        Some(Key::NumPad3)
    } else if code == 78 {
        Some(Key::NumPad4)
    } else if code == 79 {
        Some(Key::NumPad5)
    } else if code == 80 {
        Some(Key::NumPad6)
    } else if code == 81 {
        Some(Key::NumPad7)
    } else if code == 82 {
        Some(Key::NumPad8)
    } else if code == 83 {
        Some(Key::NumPad9)
    } else if code == 84 {
        Some(Key::Multiply)
    } else if code == 85 {
        Some(Key::Add)
    } else if code == 87 {
        Some(Key::Subtract)
    } else if code == 88 {
        Some(Key::Decimal)
    } else if code == 89 {
        Some(Key::Divide)
    } else if code == 90 {
        Some(Key::F1)
    } else if code == 91 {
        Some(Key::F2)
    } else if code == 92 {
        Some(Key::F3)
    } else if code == 93 {
        Some(Key::F4)
    } else if code == 94 {
        Some(Key::F5)
    } else if code == 95 {
        Some(Key::F6)
    } else if code == 96 {
        Some(Key::F7)
    } else if code == 97 {
        Some(Key::F8)
    } else if code == 98 {
        Some(Key::F9)
    } else if code == 99 {
        Some(Key::F10)
    } else if code == 100 {
        Some(Key::F11)
    } else if code == 101 {
        Some(Key::F12)
    } else if code == 102 {
        Some(Key::F13)
    } else if code == 103 {
        Some(Key::F14)
    } else if code == 104 {
        Some(Key::F15)
    } else if code == 105 {
        Some(Key::F16)
    } else if code == 106 {
        Some(Key::F17)
    } else if code == 107 {
        Some(Key::F18)
    } else if code == 108 {
        Some(Key::F19)
    } else if code == 109 {
        Some(Key::F20)
    } else if code == 110 {
        Some(Key::F21)
    } else if code == 111 {
        Some(Key::F22)
    } else if code == 112 {
        Some(Key::F23)
    } else if code == 113 {
        Some(Key::F24)
    } else if code == 114 {
        Some(Key::NumLock)
    } else if code == 115 {
        Some(Key::ScrollLock)
    } else if code == 116 {
        Some(Key::LeftShift)
    } else if code == 117 {
        Some(Key::RightShift)
    } else if code == 118 {
        Some(Key::LeftCtrl)
    } else if code == 119 {
        Some(Key::RightCtrl)
    } else if code == 120 {
        Some(Key::LeftAlt)
    } else if code == 121 {
        Some(Key::RightAlt)
    } else if code == 140 {
        Some(Key::OemSemicolon)
    } else if code == 141 {
        Some(Key::OemPlus)
    } else if code == 142 {
        Some(Key::OemComma)
    } else if code == 143 {
        Some(Key::OemMinus)
    } else if code == 144 {
        Some(Key::OemPeriod)
    } else if code == 145 {
        Some(Key::OemSlash)
    } else if code == 146 {
        Some(Key::OemTilde)
    } else if code == 149 {
        Some(Key::OemOpenBrackets)
    } else if code == 150 {
        Some(Key::OemPipe)
    } else if code == 151 {
        Some(Key::OemCloseBrackets)
    } else if code == 152 {
        Some(Key::OemQuotes)
    } else {
        None
    }
}
/// Two mouse buttons with the same ordinal are the same button, and every
/// ordinal lies in `0..=4`.
pub proof fn lemma_mouse_button_codes(a: MouseButton, b: MouseButton)
    ensures
        0 <= a.code() <= 4,
        a.code() == b.code() ==> a == b,
{
}

/// Every key's ordinal leads back to that key.
pub proof fn lemma_key_code_round_trip(k: Key)
    ensures
        key_with_code(k.code()) == Some(k),
{
}

/// Two keys with the same ordinal are the same key.
pub proof fn lemma_key_codes_distinct(a: Key, b: Key)
    ensures
        a.code() == b.code() ==> a == b,
{
    lemma_key_code_round_trip(a);
    lemma_key_code_round_trip(b);
}

/// `Noesis::RenderFlags` bit values mirrored for convenience. A view's flags
/// are the bitwise or of the flags it should render with.
#[allow(non_camel_case_types)]
pub enum RenderFlag {
    Wireframe,
    ColorBatches,
    Overdraw,
    FlipY,
    Ppaa,
    Lcd,
    ShowGlyphs,
    ShowRamps,
    DepthTesting,
}

impl RenderFlag {
    /// Position of this flag's bit within `Noesis::RenderFlags`.
    pub open spec fn bit_index(self) -> u32 {
        match self {
            RenderFlag::Wireframe => 0,
            RenderFlag::ColorBatches => 1,
            RenderFlag::Overdraw => 2,
            RenderFlag::FlipY => 3,
            RenderFlag::Ppaa => 4,
            RenderFlag::Lcd => 5,
            RenderFlag::ShowGlyphs => 6,
            RenderFlag::ShowRamps => 7,
            RenderFlag::DepthTesting => 8,
        }
    }

    /// The `Noesis::RenderFlags` value of this flag.
    pub open spec fn bits(self) -> u32 {
        match self {
            RenderFlag::Wireframe => 1,
            RenderFlag::ColorBatches => 2,
            RenderFlag::Overdraw => 4,
            RenderFlag::FlipY => 8,
            RenderFlag::Ppaa => 16,
            RenderFlag::Lcd => 32,
            RenderFlag::ShowGlyphs => 64,
            RenderFlag::ShowRamps => 128,
            RenderFlag::DepthTesting => 256,
        }
    }

    /// The value this flag contributes to a view's render flags.
    pub fn to_u32(self) -> (bits: u32)
        ensures
            bits == self.bits(),
    {
        match self {
            RenderFlag::Wireframe => 1,
            RenderFlag::ColorBatches => 2,
            RenderFlag::Overdraw => 4,
            RenderFlag::FlipY => 8,
            RenderFlag::Ppaa => 16,
            RenderFlag::Lcd => 32,
            RenderFlag::ShowGlyphs => 64,
            RenderFlag::ShowRamps => 128,
            RenderFlag::DepthTesting => 256,
        }
    }
}

proof fn lemma_low_powers_of_two()
    by (bit_vector)
    ensures
        1u32 << 0u32 == 1u32,
        1u32 << 1u32 == 2u32,
        1u32 << 2u32 == 4u32,
        1u32 << 3u32 == 8u32,
        1u32 << 4u32 == 16u32,
        1u32 << 5u32 == 32u32,
        1u32 << 6u32 == 64u32,
        1u32 << 7u32 == 128u32,
        1u32 << 8u32 == 256u32,
{
}

proof fn lemma_distinct_single_bits(i: u32, j: u32)
    by (bit_vector)
    requires
        i < 32,
        j < 32,
        i != j,
    ensures
        (1u32 << i) & (1u32 << j) == 0u32,
        (1u32 << i) != 0u32,
{
}

/// Each render flag is a single bit.
pub proof fn lemma_render_flag_single_bit(f: RenderFlag)
    ensures
        f.bit_index() < 32,
        f.bits() == 1u32 << f.bit_index(),
{
    lemma_low_powers_of_two();
}

/// Distinct render flags share no bit, so any set of them combined with `|`
/// can be taken apart again with `&`.
pub proof fn lemma_render_flags_disjoint(a: RenderFlag, b: RenderFlag)
    ensures
        a != b ==> a.bits() & b.bits() == 0,
        a.bits() != 0,
{
    lemma_render_flag_single_bit(a);
    lemma_render_flag_single_bit(b);
    if a != b {
        assert(a.bit_index() != b.bit_index());
        lemma_distinct_single_bits(a.bit_index(), b.bit_index());
    } else {
        lemma_distinct_single_bits(a.bit_index(), ((a.bit_index() + 1) % 32) as u32);
    }
}

} // verus!
