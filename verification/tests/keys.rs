use keymenu::keycode::VirtualKeyCode;
use keymenu::vkey::{map_text_keys, needs_text_lookup, vkey_to_winit_vkey, winit_vkey_to_vkey};

const ALL_KEYS: [VirtualKeyCode; 163] = [
    VirtualKeyCode::Key1,
    VirtualKeyCode::Key2,
    VirtualKeyCode::Key3,
    VirtualKeyCode::Key4,
    VirtualKeyCode::Key5,
    VirtualKeyCode::Key6,
    VirtualKeyCode::Key7,
    VirtualKeyCode::Key8,
    VirtualKeyCode::Key9,
    VirtualKeyCode::Key0,
    VirtualKeyCode::A,
    VirtualKeyCode::B,
    VirtualKeyCode::C,
    VirtualKeyCode::D,
    VirtualKeyCode::E,
    VirtualKeyCode::F,
    VirtualKeyCode::G,
    VirtualKeyCode::H,
    VirtualKeyCode::I,
    VirtualKeyCode::J,
    VirtualKeyCode::K,
    VirtualKeyCode::L,
    VirtualKeyCode::M,
    VirtualKeyCode::N,
    VirtualKeyCode::O,
    VirtualKeyCode::P,
    VirtualKeyCode::Q,
    VirtualKeyCode::R,
    VirtualKeyCode::S,
    VirtualKeyCode::T,
    VirtualKeyCode::U,
    VirtualKeyCode::V,
    VirtualKeyCode::W,
    VirtualKeyCode::X,
    VirtualKeyCode::Y,
    VirtualKeyCode::Z,
    VirtualKeyCode::Escape,
    VirtualKeyCode::F1,
    VirtualKeyCode::F2,
    VirtualKeyCode::F3,
    VirtualKeyCode::F4,
    VirtualKeyCode::F5,
    VirtualKeyCode::F6,
    VirtualKeyCode::F7,
    VirtualKeyCode::F8,
    VirtualKeyCode::F9,
    VirtualKeyCode::F10,
    VirtualKeyCode::F11,
    VirtualKeyCode::F12,
    VirtualKeyCode::F13,
    VirtualKeyCode::F14,
    VirtualKeyCode::F15,
    VirtualKeyCode::F16,
    VirtualKeyCode::F17,
    VirtualKeyCode::F18,
    VirtualKeyCode::F19,
    VirtualKeyCode::F20,
    VirtualKeyCode::F21,
    VirtualKeyCode::F22,
    VirtualKeyCode::F23,
    VirtualKeyCode::F24,
    VirtualKeyCode::Snapshot,
    VirtualKeyCode::Scroll,
    VirtualKeyCode::Pause,
    VirtualKeyCode::Insert,
    VirtualKeyCode::Home,
    VirtualKeyCode::Delete,
    VirtualKeyCode::End,
    VirtualKeyCode::PageDown,
    VirtualKeyCode::PageUp,
    VirtualKeyCode::Left,
    VirtualKeyCode::Up,
    VirtualKeyCode::Right,
    VirtualKeyCode::Down,
    VirtualKeyCode::Back,
    VirtualKeyCode::Return,
    VirtualKeyCode::Space,
    VirtualKeyCode::Compose,
    VirtualKeyCode::Caret,
    VirtualKeyCode::Numlock,
    VirtualKeyCode::Numpad0,
    VirtualKeyCode::Numpad1,
    VirtualKeyCode::Numpad2,
    VirtualKeyCode::Numpad3,
    VirtualKeyCode::Numpad4,
    VirtualKeyCode::Numpad5,
    VirtualKeyCode::Numpad6,
    VirtualKeyCode::Numpad7,
    VirtualKeyCode::Numpad8,
    VirtualKeyCode::Numpad9,
    VirtualKeyCode::NumpadAdd,
    VirtualKeyCode::NumpadDivide,
    VirtualKeyCode::NumpadDecimal,
    VirtualKeyCode::NumpadComma,
    VirtualKeyCode::NumpadEnter,
    VirtualKeyCode::NumpadEquals,
    VirtualKeyCode::NumpadMultiply,
    VirtualKeyCode::NumpadSubtract,
    VirtualKeyCode::AbntC1,
    VirtualKeyCode::AbntC2,
    VirtualKeyCode::Apostrophe,
    VirtualKeyCode::Apps,
    VirtualKeyCode::Asterisk,
    VirtualKeyCode::At,
    VirtualKeyCode::Ax,
    VirtualKeyCode::Backslash,
    VirtualKeyCode::Calculator,
    VirtualKeyCode::Capital,
    VirtualKeyCode::Colon,
    VirtualKeyCode::Comma,
    VirtualKeyCode::Convert,
    VirtualKeyCode::Equals,
    VirtualKeyCode::Grave,
    VirtualKeyCode::Kana,
    VirtualKeyCode::Kanji,
    VirtualKeyCode::LAlt,
    VirtualKeyCode::LBracket,
    VirtualKeyCode::LControl,
    VirtualKeyCode::LShift,
    VirtualKeyCode::LWin,
    VirtualKeyCode::Mail,
    VirtualKeyCode::MediaSelect,
    VirtualKeyCode::MediaStop,
    VirtualKeyCode::Minus,
    VirtualKeyCode::Mute,
    VirtualKeyCode::MyComputer,
    VirtualKeyCode::NavigateForward,
    VirtualKeyCode::NavigateBackward,
    VirtualKeyCode::NextTrack,
    VirtualKeyCode::NoConvert,
    VirtualKeyCode::OEM102,
    VirtualKeyCode::Period,
    VirtualKeyCode::PlayPause,
    VirtualKeyCode::Plus,
    VirtualKeyCode::Power,
    VirtualKeyCode::PrevTrack,
    VirtualKeyCode::RAlt,
    VirtualKeyCode::RBracket,
    VirtualKeyCode::RControl,
    VirtualKeyCode::RShift,
    VirtualKeyCode::RWin,
    VirtualKeyCode::Semicolon,
    VirtualKeyCode::Slash,
    VirtualKeyCode::Sleep,
    VirtualKeyCode::Stop,
    VirtualKeyCode::Sysrq,
    VirtualKeyCode::Tab,
    VirtualKeyCode::Underline,
    VirtualKeyCode::Unlabeled,
    VirtualKeyCode::VolumeDown,
    VirtualKeyCode::VolumeUp,
    VirtualKeyCode::Wake,
    VirtualKeyCode::WebBack,
    VirtualKeyCode::WebFavorites,
    VirtualKeyCode::WebForward,
    VirtualKeyCode::WebHome,
    VirtualKeyCode::WebRefresh,
    VirtualKeyCode::WebSearch,
    VirtualKeyCode::WebStop,
    VirtualKeyCode::Yen,
    VirtualKeyCode::Copy,
    VirtualKeyCode::Paste,
    VirtualKeyCode::Cut,
];

/// The virtual-key code of each key that has one.
const NATIVE: [(VirtualKeyCode, i32); 130] = [
    (VirtualKeyCode::Back, 0x08),
    (VirtualKeyCode::Tab, 0x09),
    (VirtualKeyCode::Return, 0x0D),
    (VirtualKeyCode::LShift, 0xA0),
    (VirtualKeyCode::RShift, 0xA1),
    (VirtualKeyCode::LControl, 0xA2),
    (VirtualKeyCode::RControl, 0xA3),
    (VirtualKeyCode::LAlt, 0xA4),
    (VirtualKeyCode::RAlt, 0xA5),
    (VirtualKeyCode::Pause, 0x13),
    (VirtualKeyCode::Capital, 0x14),
    (VirtualKeyCode::Kana, 0x15),
    (VirtualKeyCode::Kanji, 0x19),
    (VirtualKeyCode::Escape, 0x1B),
    (VirtualKeyCode::Convert, 0x1C),
    (VirtualKeyCode::NoConvert, 0x1D),
    (VirtualKeyCode::Space, 0x20),
    (VirtualKeyCode::PageUp, 0x21),
    (VirtualKeyCode::PageDown, 0x22),
    (VirtualKeyCode::End, 0x23),
    (VirtualKeyCode::Home, 0x24),
    (VirtualKeyCode::Left, 0x25),
    (VirtualKeyCode::Up, 0x26),
    (VirtualKeyCode::Right, 0x27),
    (VirtualKeyCode::Down, 0x28),
    (VirtualKeyCode::Snapshot, 0x2C),
    (VirtualKeyCode::Insert, 0x2D),
    (VirtualKeyCode::Delete, 0x2E),
    (VirtualKeyCode::Key0, 0x30),
    (VirtualKeyCode::Key1, 0x31),
    (VirtualKeyCode::Key2, 0x32),
    (VirtualKeyCode::Key3, 0x33),
    (VirtualKeyCode::Key4, 0x34),
    (VirtualKeyCode::Key5, 0x35),
    (VirtualKeyCode::Key6, 0x36),
    (VirtualKeyCode::Key7, 0x37),
    (VirtualKeyCode::Key8, 0x38),
    (VirtualKeyCode::Key9, 0x39),
    (VirtualKeyCode::A, 0x41),
    (VirtualKeyCode::B, 0x42),
    (VirtualKeyCode::C, 0x43),
    (VirtualKeyCode::D, 0x44),
    (VirtualKeyCode::E, 0x45),
    (VirtualKeyCode::F, 0x46),
    (VirtualKeyCode::G, 0x47),
    (VirtualKeyCode::H, 0x48),
    (VirtualKeyCode::I, 0x49),
    (VirtualKeyCode::J, 0x4A),
    (VirtualKeyCode::K, 0x4B),
    (VirtualKeyCode::L, 0x4C),
    (VirtualKeyCode::M, 0x4D),
    (VirtualKeyCode::N, 0x4E),
    (VirtualKeyCode::O, 0x4F),
    (VirtualKeyCode::P, 0x50),
    (VirtualKeyCode::Q, 0x51),
    (VirtualKeyCode::R, 0x52),
    (VirtualKeyCode::S, 0x53),
    (VirtualKeyCode::T, 0x54),
    (VirtualKeyCode::U, 0x55),
    (VirtualKeyCode::V, 0x56),
    (VirtualKeyCode::W, 0x57),
    (VirtualKeyCode::X, 0x58),
    (VirtualKeyCode::Y, 0x59),
    (VirtualKeyCode::Z, 0x5A),
    (VirtualKeyCode::LWin, 0x5B),
    (VirtualKeyCode::RWin, 0x5C),
    (VirtualKeyCode::Apps, 0x5D),
    (VirtualKeyCode::Sleep, 0x5F),
    (VirtualKeyCode::Numpad0, 0x60),
    (VirtualKeyCode::Numpad1, 0x61),
    (VirtualKeyCode::Numpad2, 0x62),
    (VirtualKeyCode::Numpad3, 0x63),
    (VirtualKeyCode::Numpad4, 0x64),
    (VirtualKeyCode::Numpad5, 0x65),
    (VirtualKeyCode::Numpad6, 0x66),
    (VirtualKeyCode::Numpad7, 0x67),
    (VirtualKeyCode::Numpad8, 0x68),
    (VirtualKeyCode::Numpad9, 0x69),
    (VirtualKeyCode::NumpadMultiply, 0x6A),
    (VirtualKeyCode::NumpadAdd, 0x6B),
    (VirtualKeyCode::NumpadSubtract, 0x6D),
    (VirtualKeyCode::NumpadDecimal, 0x6E),
    (VirtualKeyCode::NumpadDivide, 0x6F),
    (VirtualKeyCode::F1, 0x70),
    (VirtualKeyCode::F2, 0x71),
    (VirtualKeyCode::F3, 0x72),
    (VirtualKeyCode::F4, 0x73),
    (VirtualKeyCode::F5, 0x74),
    (VirtualKeyCode::F6, 0x75),
    (VirtualKeyCode::F7, 0x76),
    (VirtualKeyCode::F8, 0x77),
    (VirtualKeyCode::F9, 0x78),
    (VirtualKeyCode::F10, 0x79),
    (VirtualKeyCode::F11, 0x7A),
    (VirtualKeyCode::F12, 0x7B),
    (VirtualKeyCode::F13, 0x7C),
    (VirtualKeyCode::F14, 0x7D),
    (VirtualKeyCode::F15, 0x7E),
    (VirtualKeyCode::F16, 0x7F),
    (VirtualKeyCode::F17, 0x80),
    (VirtualKeyCode::F18, 0x81),
    (VirtualKeyCode::F19, 0x82),
    (VirtualKeyCode::F20, 0x83),
    (VirtualKeyCode::F21, 0x84),
    (VirtualKeyCode::F22, 0x85),
    (VirtualKeyCode::F23, 0x86),
    (VirtualKeyCode::F24, 0x87),
    (VirtualKeyCode::Numlock, 0x90),
    (VirtualKeyCode::Scroll, 0x91),
    (VirtualKeyCode::NavigateBackward, 0xA6),
    (VirtualKeyCode::NavigateForward, 0xA7),
    (VirtualKeyCode::WebRefresh, 0xA8),
    (VirtualKeyCode::WebStop, 0xA9),
    (VirtualKeyCode::WebSearch, 0xAA),
    (VirtualKeyCode::WebFavorites, 0xAB),
    (VirtualKeyCode::WebHome, 0xAC),
    (VirtualKeyCode::Mute, 0xAD),
    (VirtualKeyCode::VolumeDown, 0xAE),
    (VirtualKeyCode::VolumeUp, 0xAF),
    (VirtualKeyCode::NextTrack, 0xB0),
    (VirtualKeyCode::PrevTrack, 0xB1),
    (VirtualKeyCode::MediaStop, 0xB2),
    (VirtualKeyCode::PlayPause, 0xB3),
    (VirtualKeyCode::Mail, 0xB4),
    (VirtualKeyCode::MediaSelect, 0xB5),
    (VirtualKeyCode::Equals, 0xBB),
    (VirtualKeyCode::Comma, 0xBC),
    (VirtualKeyCode::Minus, 0xBD),
    (VirtualKeyCode::Period, 0xBE),
    (VirtualKeyCode::OEM102, 0xE2),
];

/// The codes that are resolved by the character they produce.
const TEXT_VKEYS: [i32; 7] = [0xBA, 0xBF, 0xC0, 0xDB, 0xDC, 0xDD, 0xDE];

const TEXT_KEYS: [(char, VirtualKeyCode); 7] = [
    (';', VirtualKeyCode::Semicolon),
    ('/', VirtualKeyCode::Slash),
    ('`', VirtualKeyCode::Grave),
    ('[', VirtualKeyCode::LBracket),
    (']', VirtualKeyCode::RBracket),
    ('\'', VirtualKeyCode::Apostrophe),
    ('\\', VirtualKeyCode::Backslash),
];

#[test]
fn every_key_is_listed_once() {
    for (i, a) in ALL_KEYS.iter().enumerate() {
        for b in &ALL_KEYS[i + 1..] {
            assert_ne!(a, b);
        }
    }
}

#[test]
fn keys_map_to_their_virtual_key_codes() {
    for (key, code) in NATIVE {
        assert_eq!(winit_vkey_to_vkey(key), Some(code), "{:?}", key);
    }
}

#[test]
fn keys_without_a_virtual_key_code_map_to_nothing() {
    let mut lacking = 0;
    for key in ALL_KEYS {
        if NATIVE.iter().all(|(k, _)| *k != key) {
            assert_eq!(winit_vkey_to_vkey(key), None, "{:?}", key);
            lacking += 1;
        }
    }
    assert_eq!(lacking, ALL_KEYS.len() - NATIVE.len());
    assert_eq!(winit_vkey_to_vkey(VirtualKeyCode::Compose), None);
    assert_eq!(winit_vkey_to_vkey(VirtualKeyCode::Semicolon), None);
    assert_eq!(winit_vkey_to_vkey(VirtualKeyCode::NumpadEnter), None);
    assert_eq!(winit_vkey_to_vkey(VirtualKeyCode::Copy), None);
}

#[test]
fn virtual_key_codes_map_to_their_keys() {
    for (key, code) in NATIVE {
        assert_eq!(vkey_to_winit_vkey(code, 0), Some(key), "{:#x}", code);
    }
}

#[test]
fn mapping_round_trips_for_every_key_with_a_code() {
    let mut checked = 0;
    for key in ALL_KEYS {
        if let Some(code) = winit_vkey_to_vkey(key) {
            assert_eq!(vkey_to_winit_vkey(code, 0), Some(key));
            assert_eq!(vkey_to_winit_vkey(code, ';' as u32), Some(key));
            assert_eq!(vkey_to_winit_vkey(code, u32::MAX), Some(key));
            checked += 1;
        }
    }
    assert_eq!(checked, 130);
}

#[test]
fn virtual_key_codes_fit_in_a_byte() {
    for key in ALL_KEYS {
        if let Some(code) = winit_vkey_to_vkey(key) {
            assert!(0 < code && code < 0x100);
        }
    }
}

#[test]
fn exact_virtual_key_codes() {
    assert_eq!(winit_vkey_to_vkey(VirtualKeyCode::Back), Some(0x08));
    assert_eq!(winit_vkey_to_vkey(VirtualKeyCode::Return), Some(0x0D));
    assert_eq!(winit_vkey_to_vkey(VirtualKeyCode::Pause), Some(0x13));
    assert_eq!(winit_vkey_to_vkey(VirtualKeyCode::Key0), Some(0x30));
    assert_eq!(winit_vkey_to_vkey(VirtualKeyCode::A), Some(0x41));
    assert_eq!(winit_vkey_to_vkey(VirtualKeyCode::Z), Some(0x5A));
    assert_eq!(winit_vkey_to_vkey(VirtualKeyCode::F1), Some(0x70));
    assert_eq!(winit_vkey_to_vkey(VirtualKeyCode::F24), Some(0x87));
    assert_eq!(winit_vkey_to_vkey(VirtualKeyCode::Scroll), Some(0x91));
    assert_eq!(winit_vkey_to_vkey(VirtualKeyCode::LShift), Some(0xA0));
    assert_eq!(winit_vkey_to_vkey(VirtualKeyCode::RAlt), Some(0xA5));
    assert_eq!(winit_vkey_to_vkey(VirtualKeyCode::OEM102), Some(0xE2));
}

#[test]
fn codes_of_no_key_map_to_nothing() {
    for code in [0, 0x01, 0x07, 0x0A, 0x10, 0x11, 0x12, 0x3A, 0x40, 0x5E, 0x88, 0xB6, 0xDF, 0xFF, 0x100, -1, i32::MAX, i32::MIN]
    {
        assert_eq!(vkey_to_winit_vkey(code, ';' as u32), None, "{:#x}", code);
    }
}

#[test]
fn codes_without_a_key_are_exactly_the_unlisted_ones() {
    for code in 0..0x100 {
        let listed = NATIVE.iter().find(|(_, c)| *c == code).map(|(k, _)| *k);
        if !TEXT_VKEYS.contains(&code) {
            assert_eq!(vkey_to_winit_vkey(code, '/' as u32), listed, "{:#x}", code);
        }
    }
}

#[test]
fn character_is_asked_for_the_punctuation_codes_only() {
    for code in -2..0x102 {
        assert_eq!(needs_text_lookup(code), TEXT_VKEYS.contains(&code), "{:#x}", code);
    }
}

#[test]
fn character_does_not_matter_for_other_codes() {
    for code in -2..0x102 {
        if !needs_text_lookup(code) {
            let key = vkey_to_winit_vkey(code, 0);
            for (c, _) in TEXT_KEYS {
                assert_eq!(vkey_to_winit_vkey(code, c as u32), key, "{:#x}", code);
            }
        }
    }
}

#[test]
fn punctuation_is_resolved_by_character() {
    for (c, key) in TEXT_KEYS {
        assert_eq!(map_text_keys(c as u32), Some(key));
        for code in TEXT_VKEYS {
            assert_eq!(vkey_to_winit_vkey(code, c as u32), Some(key));
        }
    }
}

#[test]
fn punctuation_ignores_the_bits_above_the_character() {
    for (c, key) in TEXT_KEYS {
        assert_eq!(map_text_keys(c as u32 | 0x8000), Some(key));
        assert_eq!(map_text_keys(c as u32 | 0x8000_0000), Some(key));
        assert_eq!(map_text_keys(c as u32 | 0xFFFF_8000), Some(key));
    }
    assert_eq!(map_text_keys(';' as u32 | 0x4000), None);
}

#[test]
fn other_characters_are_no_punctuation_key() {
    for c in ['a', '1', ',', '.', '-', '=', ' ', '\0', ':', '?', '~', '{', '}', '"', '|'] {
        assert_eq!(map_text_keys(c as u32), None, "{:?}", c);
        for code in TEXT_VKEYS {
            assert_eq!(vkey_to_winit_vkey(code, c as u32), None);
        }
    }
    assert_eq!(map_text_keys(0), None);
    assert_eq!(map_text_keys(0x7FFF), None);
}

#[test]
fn the_same_code_is_another_key_on_another_layout() {
    assert_eq!(vkey_to_winit_vkey(0xBA, ';' as u32), Some(VirtualKeyCode::Semicolon));
    assert_eq!(vkey_to_winit_vkey(0xBA, '[' as u32), Some(VirtualKeyCode::LBracket));
    assert_eq!(vkey_to_winit_vkey(0xDE, '\'' as u32), Some(VirtualKeyCode::Apostrophe));
    assert_eq!(vkey_to_winit_vkey(0xDE, '`' as u32), Some(VirtualKeyCode::Grave));
}
