use dm_noesis::view::{Key, MouseButton, RenderFlag};

#[test]
fn mouse_button_ordinals_match_native_enum() {
    assert_eq!(MouseButton::Left.to_i32(), 0);
    assert_eq!(MouseButton::Right.to_i32(), 1);
    assert_eq!(MouseButton::Middle.to_i32(), 2);
    assert_eq!(MouseButton::XButton1.to_i32(), 3);
    assert_eq!(MouseButton::XButton2.to_i32(), 4);
}

fn all_keys() -> Vec<(Key, i32)> {
    vec![
        (Key::NoKey, 0),
        (Key::Back, 2),
        (Key::Tab, 3),
        (Key::Return, 6),
        (Key::Pause, 7),
        (Key::CapsLock, 8),
        (Key::Escape, 13),
        (Key::Space, 18),
        (Key::PageUp, 19),
        (Key::PageDown, 20),
        (Key::End, 21),
        (Key::Home, 22),
        (Key::Left, 23),
        (Key::Up, 24),
        (Key::Right, 25),
        (Key::Down, 26),
        (Key::PrintScreen, 30),
        (Key::Insert, 31),
        (Key::Delete, 32),
        (Key::Help, 33),
        (Key::D0, 34),
        (Key::D1, 35),
        (Key::D2, 36),
        (Key::D3, 37),
        (Key::D4, 38),
        (Key::D5, 39),
        (Key::D6, 40),
        (Key::D7, 41),
        (Key::D8, 42),
        (Key::D9, 43),
        (Key::A, 44),
        (Key::B, 45),
        (Key::C, 46),
        (Key::D, 47),
        (Key::E, 48),
        (Key::F, 49),
        (Key::G, 50),
        (Key::H, 51),
        (Key::I, 52),
        (Key::J, 53),
        (Key::K, 54),
        (Key::L, 55),
        (Key::M, 56),
        (Key::N, 57),
        (Key::O, 58),
        (Key::P, 59),
        (Key::Q, 60),
        (Key::R, 61),
        (Key::S, 62),
        (Key::T, 63),
        (Key::U, 64),
        (Key::V, 65),
        (Key::W, 66),
        (Key::X, 67),
        (Key::Y, 68),
        (Key::Z, 69),
        (Key::LWin, 70),
        (Key::RWin, 71),
        (Key::Apps, 72),
        (Key::NumPad0, 74),
        (Key::NumPad1, 75),
        (Key::NumPad2, 76),
        (Key::NumPad3, 77),
        (Key::NumPad4, 78),
        (Key::NumPad5, 79),
        (Key::NumPad6, 80),
        (Key::NumPad7, 81),
        (Key::NumPad8, 82),
        (Key::NumPad9, 83),
        (Key::Multiply, 84),
        (Key::Add, 85),
        (Key::Subtract, 87),
        (Key::Decimal, 88),
        (Key::Divide, 89),
        (Key::F1, 90),
        (Key::F2, 91),
        (Key::F3, 92),
        (Key::F4, 93),
        (Key::F5, 94),
        (Key::F6, 95),
        (Key::F7, 96),
        (Key::F8, 97),
        (Key::F9, 98),
        (Key::F10, 99),
        (Key::F11, 100),
        (Key::F12, 101),
        (Key::F13, 102),
        (Key::F14, 103),
        (Key::F15, 104),
        (Key::F16, 105),
        (Key::F17, 106),
        (Key::F18, 107),
        (Key::F19, 108),
        (Key::F20, 109),
        (Key::F21, 110),
        (Key::F22, 111),
        (Key::F23, 112),
        (Key::F24, 113),
        (Key::NumLock, 114),
        (Key::ScrollLock, 115),
        (Key::LeftShift, 116),
        (Key::RightShift, 117),
        (Key::LeftCtrl, 118),
        (Key::RightCtrl, 119),
        (Key::LeftAlt, 120),
        (Key::RightAlt, 121),
        (Key::OemSemicolon, 140),
        (Key::OemPlus, 141),
        (Key::OemComma, 142),
        (Key::OemMinus, 143),
        (Key::OemPeriod, 144),
        (Key::OemSlash, 145),
        (Key::OemTilde, 146),
        (Key::OemOpenBrackets, 149),
        (Key::OemPipe, 150),
        (Key::OemCloseBrackets, 151),
        (Key::OemQuotes, 152),
    ]
}

#[test]
fn key_ordinals_match_native_enum() {
    for (key, code) in all_keys() {
        assert_eq!(key.to_i32(), code, "{:?}", key);
    }
}

#[test]
fn key_ordinals_are_distinct() {
    let keys = all_keys();
    assert_eq!(keys.len(), 117);
    for (i, (a, _)) in keys.iter().enumerate() {
        for (b, _) in keys.iter().skip(i + 1) {
            assert_ne!(a.to_i32(), b.to_i32(), "{:?} and {:?}", a, b);
        }
    }
}

#[test]
fn common_key_ordinals() {
    assert_eq!(Key::NoKey.to_i32(), 0);
    assert_eq!(Key::Escape.to_i32(), 13);
    assert_eq!(Key::A.to_i32(), 44);
    assert_eq!(Key::Z.to_i32(), 69);
    assert_eq!(Key::F24.to_i32(), 113);
    assert_eq!(Key::OemQuotes.to_i32(), 152);
}

fn all_flags() -> Vec<RenderFlag> {
    vec![
        RenderFlag::Wireframe,
        RenderFlag::ColorBatches,
        RenderFlag::Overdraw,
        RenderFlag::FlipY,
        RenderFlag::Ppaa,
        RenderFlag::Lcd,
        RenderFlag::ShowGlyphs,
        RenderFlag::ShowRamps,
        RenderFlag::DepthTesting,
    ]
}

#[test]
fn render_flag_values_match_native_bits() {
    let values: Vec<u32> = all_flags().into_iter().map(|f| f.to_u32()).collect();
    assert_eq!(values, vec![1, 2, 4, 8, 16, 32, 64, 128, 256]);
}

#[test]
fn render_flags_combine_without_overlap() {
    let values: Vec<u32> = all_flags().into_iter().map(|f| f.to_u32()).collect();
    for (i, a) in values.iter().enumerate() {
        assert_eq!(a.count_ones(), 1);
        for b in values.iter().skip(i + 1) {
            assert_eq!(a & b, 0);
        }
    }
    let combined = RenderFlag::FlipY.to_u32() | RenderFlag::Ppaa.to_u32();
    assert_eq!(combined, 24);
    assert_ne!(combined & RenderFlag::Ppaa.to_u32(), 0);
    assert_eq!(combined & RenderFlag::Lcd.to_u32(), 0);
}
