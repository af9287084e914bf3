//! The platform's virtual-key codes, and the tables that take a portable
//! key to its code and back.

use vstd::prelude::*;
use crate::keycode::VirtualKeyCode;

verus! {

// The virtual-key codes that stand for a key here, and those that a key
// message may carry in their place.
pub const VK_BACK: i32 = 0x08;
pub const VK_TAB: i32 = 0x09;
pub const VK_RETURN: i32 = 0x0D;
pub const VK_SHIFT: i32 = 0x10;
pub const VK_CONTROL: i32 = 0x11;
pub const VK_MENU: i32 = 0x12;
pub const VK_PAUSE: i32 = 0x13;
pub const VK_CAPITAL: i32 = 0x14;
pub const VK_KANA: i32 = 0x15;
pub const VK_KANJI: i32 = 0x19;
pub const VK_ESCAPE: i32 = 0x1B;
pub const VK_CONVERT: i32 = 0x1C;
pub const VK_NONCONVERT: i32 = 0x1D;
pub const VK_SPACE: i32 = 0x20;
pub const VK_PRIOR: i32 = 0x21;
pub const VK_NEXT: i32 = 0x22;
pub const VK_END: i32 = 0x23;
pub const VK_HOME: i32 = 0x24;
pub const VK_LEFT: i32 = 0x25;
pub const VK_UP: i32 = 0x26;
pub const VK_RIGHT: i32 = 0x27;
pub const VK_DOWN: i32 = 0x28;
pub const VK_SNAPSHOT: i32 = 0x2C;
pub const VK_INSERT: i32 = 0x2D;
pub const VK_DELETE: i32 = 0x2E;
pub const VK_LWIN: i32 = 0x5B;
pub const VK_RWIN: i32 = 0x5C;
pub const VK_APPS: i32 = 0x5D;
pub const VK_SLEEP: i32 = 0x5F;
pub const VK_NUMPAD0: i32 = 0x60;
pub const VK_NUMPAD1: i32 = 0x61;
pub const VK_NUMPAD2: i32 = 0x62;
pub const VK_NUMPAD3: i32 = 0x63;
pub const VK_NUMPAD4: i32 = 0x64;
pub const VK_NUMPAD5: i32 = 0x65;
pub const VK_NUMPAD6: i32 = 0x66;
pub const VK_NUMPAD7: i32 = 0x67;
pub const VK_NUMPAD8: i32 = 0x68;
pub const VK_NUMPAD9: i32 = 0x69;
pub const VK_MULTIPLY: i32 = 0x6A;
pub const VK_ADD: i32 = 0x6B;
pub const VK_SUBTRACT: i32 = 0x6D;
pub const VK_DECIMAL: i32 = 0x6E;
pub const VK_DIVIDE: i32 = 0x6F;
pub const VK_F1: i32 = 0x70;
pub const VK_F2: i32 = 0x71;
pub const VK_F3: i32 = 0x72;
pub const VK_F4: i32 = 0x73;
pub const VK_F5: i32 = 0x74;
pub const VK_F6: i32 = 0x75;
pub const VK_F7: i32 = 0x76;
pub const VK_F8: i32 = 0x77;
pub const VK_F9: i32 = 0x78;
pub const VK_F10: i32 = 0x79;
pub const VK_F11: i32 = 0x7A;
pub const VK_F12: i32 = 0x7B;
pub const VK_F13: i32 = 0x7C;
pub const VK_F14: i32 = 0x7D;
pub const VK_F15: i32 = 0x7E;
pub const VK_F16: i32 = 0x7F;
pub const VK_F17: i32 = 0x80;
pub const VK_F18: i32 = 0x81;
pub const VK_F19: i32 = 0x82;
pub const VK_F20: i32 = 0x83;
pub const VK_F21: i32 = 0x84;
pub const VK_F22: i32 = 0x85;
pub const VK_F23: i32 = 0x86;
pub const VK_F24: i32 = 0x87;
pub const VK_NUMLOCK: i32 = 0x90;
pub const VK_SCROLL: i32 = 0x91;
pub const VK_LSHIFT: i32 = 0xA0;
pub const VK_RSHIFT: i32 = 0xA1;
pub const VK_LCONTROL: i32 = 0xA2;
pub const VK_RCONTROL: i32 = 0xA3;
pub const VK_LMENU: i32 = 0xA4;
pub const VK_RMENU: i32 = 0xA5;
pub const VK_BROWSER_BACK: i32 = 0xA6;
pub const VK_BROWSER_FORWARD: i32 = 0xA7;
pub const VK_BROWSER_REFRESH: i32 = 0xA8;
pub const VK_BROWSER_STOP: i32 = 0xA9;
pub const VK_BROWSER_SEARCH: i32 = 0xAA;
pub const VK_BROWSER_FAVORITES: i32 = 0xAB;
pub const VK_BROWSER_HOME: i32 = 0xAC;
pub const VK_VOLUME_MUTE: i32 = 0xAD;
pub const VK_VOLUME_DOWN: i32 = 0xAE;
pub const VK_VOLUME_UP: i32 = 0xAF;
pub const VK_MEDIA_NEXT_TRACK: i32 = 0xB0;
pub const VK_MEDIA_PREV_TRACK: i32 = 0xB1;
pub const VK_MEDIA_STOP: i32 = 0xB2;
pub const VK_MEDIA_PLAY_PAUSE: i32 = 0xB3;
pub const VK_LAUNCH_MAIL: i32 = 0xB4;
pub const VK_LAUNCH_MEDIA_SELECT: i32 = 0xB5;
pub const VK_OEM_1: i32 = 0xBA;
pub const VK_OEM_PLUS: i32 = 0xBB;
pub const VK_OEM_COMMA: i32 = 0xBC;
pub const VK_OEM_MINUS: i32 = 0xBD;
pub const VK_OEM_PERIOD: i32 = 0xBE;
pub const VK_OEM_2: i32 = 0xBF;
pub const VK_OEM_3: i32 = 0xC0;
pub const VK_OEM_4: i32 = 0xDB;
pub const VK_OEM_5: i32 = 0xDC;
pub const VK_OEM_6: i32 = 0xDD;
pub const VK_OEM_7: i32 = 0xDE;
pub const VK_OEM_102: i32 = 0xE2;

/// The virtual-key code of `key`, where it has one.
pub open spec fn native_vkey(key: VirtualKeyCode) -> Option<i32> {
    match key {
        VirtualKeyCode::Back => Some(VK_BACK),
        VirtualKeyCode::Tab => Some(VK_TAB),
        VirtualKeyCode::Return => Some(VK_RETURN),
        VirtualKeyCode::LShift => Some(VK_LSHIFT),
        VirtualKeyCode::RShift => Some(VK_RSHIFT),
        VirtualKeyCode::LControl => Some(VK_LCONTROL),
        VirtualKeyCode::RControl => Some(VK_RCONTROL),
        VirtualKeyCode::LAlt => Some(VK_LMENU),
        VirtualKeyCode::RAlt => Some(VK_RMENU),
        VirtualKeyCode::Pause => Some(VK_PAUSE),
        VirtualKeyCode::Capital => Some(VK_CAPITAL),
        VirtualKeyCode::Kana => Some(VK_KANA),
        VirtualKeyCode::Kanji => Some(VK_KANJI),
        VirtualKeyCode::Escape => Some(VK_ESCAPE),
        VirtualKeyCode::Convert => Some(VK_CONVERT),
        VirtualKeyCode::NoConvert => Some(VK_NONCONVERT),
        VirtualKeyCode::Space => Some(VK_SPACE),
        VirtualKeyCode::PageUp => Some(VK_PRIOR),
        VirtualKeyCode::PageDown => Some(VK_NEXT),
        VirtualKeyCode::End => Some(VK_END),
        VirtualKeyCode::Home => Some(VK_HOME),
        VirtualKeyCode::Left => Some(VK_LEFT),
        VirtualKeyCode::Up => Some(VK_UP),
        VirtualKeyCode::Right => Some(VK_RIGHT),
        VirtualKeyCode::Down => Some(VK_DOWN),
        VirtualKeyCode::Snapshot => Some(VK_SNAPSHOT),
        VirtualKeyCode::Insert => Some(VK_INSERT),
        VirtualKeyCode::Delete => Some(VK_DELETE),
        VirtualKeyCode::Key0 => Some(0x30),
        VirtualKeyCode::Key1 => Some(0x31),
        VirtualKeyCode::Key2 => Some(0x32),
        VirtualKeyCode::Key3 => Some(0x33),
        VirtualKeyCode::Key4 => Some(0x34),
        VirtualKeyCode::Key5 => Some(0x35),
        VirtualKeyCode::Key6 => Some(0x36),
        VirtualKeyCode::Key7 => Some(0x37),
        VirtualKeyCode::Key8 => Some(0x38),
        VirtualKeyCode::Key9 => Some(0x39),
        VirtualKeyCode::A => Some(0x41),
        VirtualKeyCode::B => Some(0x42),
        VirtualKeyCode::C => Some(0x43),
        VirtualKeyCode::D => Some(0x44),
        VirtualKeyCode::E => Some(0x45),
        VirtualKeyCode::F => Some(0x46),
        VirtualKeyCode::G => Some(0x47),
        VirtualKeyCode::H => Some(0x48),
        VirtualKeyCode::I => Some(0x49),
        VirtualKeyCode::J => Some(0x4A),
        VirtualKeyCode::K => Some(0x4B),
        VirtualKeyCode::L => Some(0x4C),
        VirtualKeyCode::M => Some(0x4D),
        VirtualKeyCode::N => Some(0x4E),
        VirtualKeyCode::O => Some(0x4F),
        VirtualKeyCode::P => Some(0x50),
        VirtualKeyCode::Q => Some(0x51),
        VirtualKeyCode::R => Some(0x52),
        VirtualKeyCode::S => Some(0x53),
        VirtualKeyCode::T => Some(0x54),
        VirtualKeyCode::U => Some(0x55),
        VirtualKeyCode::V => Some(0x56),
        VirtualKeyCode::W => Some(0x57),
        VirtualKeyCode::X => Some(0x58),
        VirtualKeyCode::Y => Some(0x59),
        VirtualKeyCode::Z => Some(0x5A),
        VirtualKeyCode::LWin => Some(VK_LWIN),
        VirtualKeyCode::RWin => Some(VK_RWIN),
        VirtualKeyCode::Apps => Some(VK_APPS),
        VirtualKeyCode::Sleep => Some(VK_SLEEP),
        VirtualKeyCode::Numpad0 => Some(VK_NUMPAD0),
        VirtualKeyCode::Numpad1 => Some(VK_NUMPAD1),
        VirtualKeyCode::Numpad2 => Some(VK_NUMPAD2),
        VirtualKeyCode::Numpad3 => Some(VK_NUMPAD3),
        VirtualKeyCode::Numpad4 => Some(VK_NUMPAD4),
        VirtualKeyCode::Numpad5 => Some(VK_NUMPAD5),
        VirtualKeyCode::Numpad6 => Some(VK_NUMPAD6),
        VirtualKeyCode::Numpad7 => Some(VK_NUMPAD7),
        VirtualKeyCode::Numpad8 => Some(VK_NUMPAD8),
        VirtualKeyCode::Numpad9 => Some(VK_NUMPAD9),
        VirtualKeyCode::NumpadMultiply => Some(VK_MULTIPLY),
        VirtualKeyCode::NumpadAdd => Some(VK_ADD),
        VirtualKeyCode::NumpadSubtract => Some(VK_SUBTRACT),
        VirtualKeyCode::NumpadDecimal => Some(VK_DECIMAL),
        VirtualKeyCode::NumpadDivide => Some(VK_DIVIDE),
        VirtualKeyCode::F1 => Some(VK_F1),
        VirtualKeyCode::F2 => Some(VK_F2),
        VirtualKeyCode::F3 => Some(VK_F3),
        VirtualKeyCode::F4 => Some(VK_F4),
        VirtualKeyCode::F5 => Some(VK_F5),
        VirtualKeyCode::F6 => Some(VK_F6),
        VirtualKeyCode::F7 => Some(VK_F7),
        VirtualKeyCode::F8 => Some(VK_F8),
        VirtualKeyCode::F9 => Some(VK_F9),
        VirtualKeyCode::F10 => Some(VK_F10),
        VirtualKeyCode::F11 => Some(VK_F11),
        VirtualKeyCode::F12 => Some(VK_F12),
        VirtualKeyCode::F13 => Some(VK_F13),
        VirtualKeyCode::F14 => Some(VK_F14),
        VirtualKeyCode::F15 => Some(VK_F15),
        VirtualKeyCode::F16 => Some(VK_F16),
        VirtualKeyCode::F17 => Some(VK_F17),
        VirtualKeyCode::F18 => Some(VK_F18),
        VirtualKeyCode::F19 => Some(VK_F19),
        VirtualKeyCode::F20 => Some(VK_F20),
        VirtualKeyCode::F21 => Some(VK_F21),
        VirtualKeyCode::F22 => Some(VK_F22),
        VirtualKeyCode::F23 => Some(VK_F23),
        VirtualKeyCode::F24 => Some(VK_F24),
        VirtualKeyCode::Numlock => Some(VK_NUMLOCK),
        VirtualKeyCode::Scroll => Some(VK_SCROLL),
        VirtualKeyCode::NavigateBackward => Some(VK_BROWSER_BACK),
        VirtualKeyCode::NavigateForward => Some(VK_BROWSER_FORWARD),
        VirtualKeyCode::WebRefresh => Some(VK_BROWSER_REFRESH),
        VirtualKeyCode::WebStop => Some(VK_BROWSER_STOP),
        VirtualKeyCode::WebSearch => Some(VK_BROWSER_SEARCH),
        VirtualKeyCode::WebFavorites => Some(VK_BROWSER_FAVORITES),
        VirtualKeyCode::WebHome => Some(VK_BROWSER_HOME),
        VirtualKeyCode::Mute => Some(VK_VOLUME_MUTE),
        VirtualKeyCode::VolumeDown => Some(VK_VOLUME_DOWN),
        VirtualKeyCode::VolumeUp => Some(VK_VOLUME_UP),
        VirtualKeyCode::NextTrack => Some(VK_MEDIA_NEXT_TRACK),
        VirtualKeyCode::PrevTrack => Some(VK_MEDIA_PREV_TRACK),
        VirtualKeyCode::MediaStop => Some(VK_MEDIA_STOP),
        VirtualKeyCode::PlayPause => Some(VK_MEDIA_PLAY_PAUSE),
        VirtualKeyCode::Mail => Some(VK_LAUNCH_MAIL),
        VirtualKeyCode::MediaSelect => Some(VK_LAUNCH_MEDIA_SELECT),
        VirtualKeyCode::Equals => Some(VK_OEM_PLUS),
        VirtualKeyCode::Comma => Some(VK_OEM_COMMA),
        VirtualKeyCode::Minus => Some(VK_OEM_MINUS),
        VirtualKeyCode::Period => Some(VK_OEM_PERIOD),
        VirtualKeyCode::OEM102 => Some(VK_OEM_102),
        _ => None,
    }
}

/// The key that a mapped character stands for, among the punctuation keys
/// whose virtual-key codes differ from one layout to the next. `mapped` is
/// what the platform's mapping from a virtual key to a character gave; its
/// low fifteen bits are the character.
pub open spec fn text_key(mapped: u32) -> Option<VirtualKeyCode> {
    let c = mapped & 0x7FFF;
    if c == ';' as u32 {
        Some(VirtualKeyCode::Semicolon)
    } else if c == '/' as u32 {
        Some(VirtualKeyCode::Slash)
    } else if c == '`' as u32 {
        Some(VirtualKeyCode::Grave)
    } else if c == '[' as u32 {
        Some(VirtualKeyCode::LBracket)
    } else if c == ']' as u32 {
        Some(VirtualKeyCode::RBracket)
    } else if c == '\'' as u32 {
        Some(VirtualKeyCode::Apostrophe)
    } else if c == '\\' as u32 {
        Some(VirtualKeyCode::Backslash)
    } else {
        None
    }
}

/// Whether `vkey` is one of the codes that are resolved by the character
/// they produce.
pub open spec fn is_text_vkey(vkey: i32) -> bool {
    vkey == VK_OEM_1 || vkey == VK_OEM_2 || vkey == VK_OEM_3 || vkey == VK_OEM_4 || vkey
        == VK_OEM_5 || vkey == VK_OEM_6 || vkey == VK_OEM_7
}

/// The key that the virtual-key code `vkey` stands for, where it stands for
/// one. `mapped` is the character that the platform maps `vkey` to; it is
/// read for the layout-dependent punctuation codes only.
pub open spec fn portable_key(vkey: i32, mapped: u32) -> Option<VirtualKeyCode> {
    match vkey {
        VK_BACK => Some(VirtualKeyCode::Back),
        VK_TAB => Some(VirtualKeyCode::Tab),
        VK_RETURN => Some(VirtualKeyCode::Return),
        VK_LSHIFT => Some(VirtualKeyCode::LShift),
        VK_RSHIFT => Some(VirtualKeyCode::RShift),
        VK_LCONTROL => Some(VirtualKeyCode::LControl),
        VK_RCONTROL => Some(VirtualKeyCode::RControl),
        VK_LMENU => Some(VirtualKeyCode::LAlt),
        VK_RMENU => Some(VirtualKeyCode::RAlt),
        VK_PAUSE => Some(VirtualKeyCode::Pause),
        VK_CAPITAL => Some(VirtualKeyCode::Capital),
        VK_KANA => Some(VirtualKeyCode::Kana),
        VK_KANJI => Some(VirtualKeyCode::Kanji),
        VK_ESCAPE => Some(VirtualKeyCode::Escape),
        VK_CONVERT => Some(VirtualKeyCode::Convert),
        VK_NONCONVERT => Some(VirtualKeyCode::NoConvert),
        VK_SPACE => Some(VirtualKeyCode::Space),
        VK_PRIOR => Some(VirtualKeyCode::PageUp),
        VK_NEXT => Some(VirtualKeyCode::PageDown),
        VK_END => Some(VirtualKeyCode::End),
        VK_HOME => Some(VirtualKeyCode::Home),
        VK_LEFT => Some(VirtualKeyCode::Left),
        VK_UP => Some(VirtualKeyCode::Up),
        VK_RIGHT => Some(VirtualKeyCode::Right),
        VK_DOWN => Some(VirtualKeyCode::Down),
        VK_SNAPSHOT => Some(VirtualKeyCode::Snapshot),
        VK_INSERT => Some(VirtualKeyCode::Insert),
        VK_DELETE => Some(VirtualKeyCode::Delete),
        0x30 => Some(VirtualKeyCode::Key0),
        0x31 => Some(VirtualKeyCode::Key1),
        0x32 => Some(VirtualKeyCode::Key2),
        0x33 => Some(VirtualKeyCode::Key3),
        0x34 => Some(VirtualKeyCode::Key4),
        0x35 => Some(VirtualKeyCode::Key5),
        0x36 => Some(VirtualKeyCode::Key6),
        0x37 => Some(VirtualKeyCode::Key7),
        0x38 => Some(VirtualKeyCode::Key8),
        0x39 => Some(VirtualKeyCode::Key9),
        0x41 => Some(VirtualKeyCode::A),
        0x42 => Some(VirtualKeyCode::B),
        0x43 => Some(VirtualKeyCode::C),
        0x44 => Some(VirtualKeyCode::D),
        0x45 => Some(VirtualKeyCode::E),
        0x46 => Some(VirtualKeyCode::F),
        0x47 => Some(VirtualKeyCode::G),
        0x48 => Some(VirtualKeyCode::H),
        0x49 => Some(VirtualKeyCode::I),
        0x4A => Some(VirtualKeyCode::J),
        0x4B => Some(VirtualKeyCode::K),
        0x4C => Some(VirtualKeyCode::L),
        0x4D => Some(VirtualKeyCode::M),
        0x4E => Some(VirtualKeyCode::N),
        0x4F => Some(VirtualKeyCode::O),
        0x50 => Some(VirtualKeyCode::P),
        0x51 => Some(VirtualKeyCode::Q),
        0x52 => Some(VirtualKeyCode::R),
        0x53 => Some(VirtualKeyCode::S),
        0x54 => Some(VirtualKeyCode::T),
        0x55 => Some(VirtualKeyCode::U),
        0x56 => Some(VirtualKeyCode::V),
        0x57 => Some(VirtualKeyCode::W),
        0x58 => Some(VirtualKeyCode::X),
        0x59 => Some(VirtualKeyCode::Y),
        0x5A => Some(VirtualKeyCode::Z),
        VK_LWIN => Some(VirtualKeyCode::LWin),
        VK_RWIN => Some(VirtualKeyCode::RWin),
        VK_APPS => Some(VirtualKeyCode::Apps),
        VK_SLEEP => Some(VirtualKeyCode::Sleep),
        VK_NUMPAD0 => Some(VirtualKeyCode::Numpad0),
        VK_NUMPAD1 => Some(VirtualKeyCode::Numpad1),
        VK_NUMPAD2 => Some(VirtualKeyCode::Numpad2),
        VK_NUMPAD3 => Some(VirtualKeyCode::Numpad3),
        VK_NUMPAD4 => Some(VirtualKeyCode::Numpad4),
        VK_NUMPAD5 => Some(VirtualKeyCode::Numpad5),
        VK_NUMPAD6 => Some(VirtualKeyCode::Numpad6),
        VK_NUMPAD7 => Some(VirtualKeyCode::Numpad7),
        VK_NUMPAD8 => Some(VirtualKeyCode::Numpad8),
        VK_NUMPAD9 => Some(VirtualKeyCode::Numpad9),
        VK_MULTIPLY => Some(VirtualKeyCode::NumpadMultiply),
        VK_ADD => Some(VirtualKeyCode::NumpadAdd),
        VK_SUBTRACT => Some(VirtualKeyCode::NumpadSubtract),
        VK_DECIMAL => Some(VirtualKeyCode::NumpadDecimal),
        VK_DIVIDE => Some(VirtualKeyCode::NumpadDivide),
        VK_F1 => Some(VirtualKeyCode::F1),
        VK_F2 => Some(VirtualKeyCode::F2),
        VK_F3 => Some(VirtualKeyCode::F3),
        VK_F4 => Some(VirtualKeyCode::F4),
        VK_F5 => Some(VirtualKeyCode::F5),
        VK_F6 => Some(VirtualKeyCode::F6),
        VK_F7 => Some(VirtualKeyCode::F7),
        VK_F8 => Some(VirtualKeyCode::F8),
        VK_F9 => Some(VirtualKeyCode::F9),
        VK_F10 => Some(VirtualKeyCode::F10),
        VK_F11 => Some(VirtualKeyCode::F11),
        VK_F12 => Some(VirtualKeyCode::F12),
        VK_F13 => Some(VirtualKeyCode::F13),
        VK_F14 => Some(VirtualKeyCode::F14),
        VK_F15 => Some(VirtualKeyCode::F15),
        VK_F16 => Some(VirtualKeyCode::F16),
        VK_F17 => Some(VirtualKeyCode::F17),
        VK_F18 => Some(VirtualKeyCode::F18),
        VK_F19 => Some(VirtualKeyCode::F19),
        VK_F20 => Some(VirtualKeyCode::F20),
        VK_F21 => Some(VirtualKeyCode::F21),
        VK_F22 => Some(VirtualKeyCode::F22),
        VK_F23 => Some(VirtualKeyCode::F23),
        VK_F24 => Some(VirtualKeyCode::F24),
        VK_NUMLOCK => Some(VirtualKeyCode::Numlock),
        VK_SCROLL => Some(VirtualKeyCode::Scroll),
        VK_BROWSER_BACK => Some(VirtualKeyCode::NavigateBackward),
        VK_BROWSER_FORWARD => Some(VirtualKeyCode::NavigateForward),
        VK_BROWSER_REFRESH => Some(VirtualKeyCode::WebRefresh),
        VK_BROWSER_STOP => Some(VirtualKeyCode::WebStop),
        VK_BROWSER_SEARCH => Some(VirtualKeyCode::WebSearch),
        VK_BROWSER_FAVORITES => Some(VirtualKeyCode::WebFavorites),
        VK_BROWSER_HOME => Some(VirtualKeyCode::WebHome),
        VK_VOLUME_MUTE => Some(VirtualKeyCode::Mute),
        VK_VOLUME_DOWN => Some(VirtualKeyCode::VolumeDown),
        VK_VOLUME_UP => Some(VirtualKeyCode::VolumeUp),
        VK_MEDIA_NEXT_TRACK => Some(VirtualKeyCode::NextTrack),
        VK_MEDIA_PREV_TRACK => Some(VirtualKeyCode::PrevTrack),
        VK_MEDIA_STOP => Some(VirtualKeyCode::MediaStop),
        VK_MEDIA_PLAY_PAUSE => Some(VirtualKeyCode::PlayPause),
        VK_LAUNCH_MAIL => Some(VirtualKeyCode::Mail),
        VK_LAUNCH_MEDIA_SELECT => Some(VirtualKeyCode::MediaSelect),
        VK_OEM_PLUS => Some(VirtualKeyCode::Equals),
        VK_OEM_COMMA => Some(VirtualKeyCode::Comma),
        VK_OEM_MINUS => Some(VirtualKeyCode::Minus),
        VK_OEM_PERIOD => Some(VirtualKeyCode::Period),
        VK_OEM_1 => text_key(mapped),
        VK_OEM_2 => text_key(mapped),
        VK_OEM_3 => text_key(mapped),
        VK_OEM_4 => text_key(mapped),
        VK_OEM_5 => text_key(mapped),
        VK_OEM_6 => text_key(mapped),
        VK_OEM_7 => text_key(mapped),
        VK_OEM_102 => Some(VirtualKeyCode::OEM102),
        _ => None,
    }
}

/// Whether `vkey` is one of the codes that are resolved by the character
/// they produce: whether the platform has to be asked for that character.
pub fn needs_text_lookup(vkey: i32) -> (needed: bool)
    ensures
        needed == is_text_vkey(vkey),
{
    vkey == VK_OEM_1 || vkey == VK_OEM_2 || vkey == VK_OEM_3 || vkey == VK_OEM_4 || vkey
        == VK_OEM_5 || vkey == VK_OEM_6 || vkey == VK_OEM_7
}

/// Resolves a layout-dependent punctuation key by the character that the
/// platform maps its virtual-key code to.
pub fn map_text_keys(mapped: u32) -> (key: Option<VirtualKeyCode>)
    ensures
        key == text_key(mapped),
{
    let c = mapped & 0x7FFF;
    if c == ';' as u32 {
        Some(VirtualKeyCode::Semicolon)
    } else if c == '/' as u32 {
        Some(VirtualKeyCode::Slash)
    } else if c == '`' as u32 {
        Some(VirtualKeyCode::Grave)
    } else if c == '[' as u32 {
        Some(VirtualKeyCode::LBracket)
    } else if c == ']' as u32 {
        Some(VirtualKeyCode::RBracket)
    } else if c == '\'' as u32 {
        Some(VirtualKeyCode::Apostrophe)
    } else if c == '\\' as u32 {
        Some(VirtualKeyCode::Backslash)
    } else {
        None
    }
}

/// The portable key of a virtual-key code, where there is one.
/// `mapped` is the character that the platform maps `vkey` to, read for the
/// layout-dependent punctuation codes only.
pub fn vkey_to_winit_vkey(vkey: i32, mapped: u32) -> (key: Option<VirtualKeyCode>)
    ensures
        key == portable_key(vkey, mapped),
{
    match vkey {
        VK_BACK => Some(VirtualKeyCode::Back),
        VK_TAB => Some(VirtualKeyCode::Tab),
        VK_RETURN => Some(VirtualKeyCode::Return),
        VK_LSHIFT => Some(VirtualKeyCode::LShift),
        VK_RSHIFT => Some(VirtualKeyCode::RShift),
        VK_LCONTROL => Some(VirtualKeyCode::LControl),
        VK_RCONTROL => Some(VirtualKeyCode::RControl),
        VK_LMENU => Some(VirtualKeyCode::LAlt),
        VK_RMENU => Some(VirtualKeyCode::RAlt),
        VK_PAUSE => Some(VirtualKeyCode::Pause),
        VK_CAPITAL => Some(VirtualKeyCode::Capital),
        VK_KANA => Some(VirtualKeyCode::Kana),
        VK_KANJI => Some(VirtualKeyCode::Kanji),
        VK_ESCAPE => Some(VirtualKeyCode::Escape),
        VK_CONVERT => Some(VirtualKeyCode::Convert),
        VK_NONCONVERT => Some(VirtualKeyCode::NoConvert),
        VK_SPACE => Some(VirtualKeyCode::Space),
        VK_PRIOR => Some(VirtualKeyCode::PageUp),
        VK_NEXT => Some(VirtualKeyCode::PageDown),
        VK_END => Some(VirtualKeyCode::End),
        VK_HOME => Some(VirtualKeyCode::Home),
        VK_LEFT => Some(VirtualKeyCode::Left),
        VK_UP => Some(VirtualKeyCode::Up),
        VK_RIGHT => Some(VirtualKeyCode::Right),
        VK_DOWN => Some(VirtualKeyCode::Down),
        VK_SNAPSHOT => Some(VirtualKeyCode::Snapshot),
        VK_INSERT => Some(VirtualKeyCode::Insert),
        VK_DELETE => Some(VirtualKeyCode::Delete),
        0x30 => Some(VirtualKeyCode::Key0),
        0x31 => Some(VirtualKeyCode::Key1),
        0x32 => Some(VirtualKeyCode::Key2),
        0x33 => Some(VirtualKeyCode::Key3),
        0x34 => Some(VirtualKeyCode::Key4),
        0x35 => Some(VirtualKeyCode::Key5),
        0x36 => Some(VirtualKeyCode::Key6),
        0x37 => Some(VirtualKeyCode::Key7),
        0x38 => Some(VirtualKeyCode::Key8),
        0x39 => Some(VirtualKeyCode::Key9),
        0x41 => Some(VirtualKeyCode::A),
        0x42 => Some(VirtualKeyCode::B),
        0x43 => Some(VirtualKeyCode::C),
        0x44 => Some(VirtualKeyCode::D),
        0x45 => Some(VirtualKeyCode::E),
        0x46 => Some(VirtualKeyCode::F),
        0x47 => Some(VirtualKeyCode::G),
        0x48 => Some(VirtualKeyCode::H),
        0x49 => Some(VirtualKeyCode::I),
        0x4A => Some(VirtualKeyCode::J),
        0x4B => Some(VirtualKeyCode::K),
        0x4C => Some(VirtualKeyCode::L),
        0x4D => Some(VirtualKeyCode::M),
        0x4E => Some(VirtualKeyCode::N),
        0x4F => Some(VirtualKeyCode::O),
        0x50 => Some(VirtualKeyCode::P),
        0x51 => Some(VirtualKeyCode::Q),
        0x52 => Some(VirtualKeyCode::R),
        0x53 => Some(VirtualKeyCode::S),
        0x54 => Some(VirtualKeyCode::T),
        0x55 => Some(VirtualKeyCode::U),
        0x56 => Some(VirtualKeyCode::V),
        0x57 => Some(VirtualKeyCode::W),
        0x58 => Some(VirtualKeyCode::X),
        0x59 => Some(VirtualKeyCode::Y),
        0x5A => Some(VirtualKeyCode::Z),
        VK_LWIN => Some(VirtualKeyCode::LWin),
        VK_RWIN => Some(VirtualKeyCode::RWin),
        VK_APPS => Some(VirtualKeyCode::Apps),
        VK_SLEEP => Some(VirtualKeyCode::Sleep),
        VK_NUMPAD0 => Some(VirtualKeyCode::Numpad0),
        VK_NUMPAD1 => Some(VirtualKeyCode::Numpad1),
        VK_NUMPAD2 => Some(VirtualKeyCode::Numpad2),
        VK_NUMPAD3 => Some(VirtualKeyCode::Numpad3),
        VK_NUMPAD4 => Some(VirtualKeyCode::Numpad4),
        VK_NUMPAD5 => Some(VirtualKeyCode::Numpad5),
        VK_NUMPAD6 => Some(VirtualKeyCode::Numpad6),
        VK_NUMPAD7 => Some(VirtualKeyCode::Numpad7),
        VK_NUMPAD8 => Some(VirtualKeyCode::Numpad8),
        VK_NUMPAD9 => Some(VirtualKeyCode::Numpad9),
        VK_MULTIPLY => Some(VirtualKeyCode::NumpadMultiply),
        VK_ADD => Some(VirtualKeyCode::NumpadAdd),
        VK_SUBTRACT => Some(VirtualKeyCode::NumpadSubtract),
        VK_DECIMAL => Some(VirtualKeyCode::NumpadDecimal),
        VK_DIVIDE => Some(VirtualKeyCode::NumpadDivide),
        VK_F1 => Some(VirtualKeyCode::F1),
        VK_F2 => Some(VirtualKeyCode::F2),
        VK_F3 => Some(VirtualKeyCode::F3),
        VK_F4 => Some(VirtualKeyCode::F4),
        VK_F5 => Some(VirtualKeyCode::F5),
        VK_F6 => Some(VirtualKeyCode::F6),
        VK_F7 => Some(VirtualKeyCode::F7),
        VK_F8 => Some(VirtualKeyCode::F8),
        VK_F9 => Some(VirtualKeyCode::F9),
        VK_F10 => Some(VirtualKeyCode::F10),
        VK_F11 => Some(VirtualKeyCode::F11),
        VK_F12 => Some(VirtualKeyCode::F12),
        VK_F13 => Some(VirtualKeyCode::F13),
        VK_F14 => Some(VirtualKeyCode::F14),
        VK_F15 => Some(VirtualKeyCode::F15),
        VK_F16 => Some(VirtualKeyCode::F16),
        VK_F17 => Some(VirtualKeyCode::F17),
        VK_F18 => Some(VirtualKeyCode::F18),
        VK_F19 => Some(VirtualKeyCode::F19),
        VK_F20 => Some(VirtualKeyCode::F20),
        VK_F21 => Some(VirtualKeyCode::F21),
        VK_F22 => Some(VirtualKeyCode::F22),
        VK_F23 => Some(VirtualKeyCode::F23),
        VK_F24 => Some(VirtualKeyCode::F24),
        VK_NUMLOCK => Some(VirtualKeyCode::Numlock),
        VK_SCROLL => Some(VirtualKeyCode::Scroll),
        VK_BROWSER_BACK => Some(VirtualKeyCode::NavigateBackward),
        VK_BROWSER_FORWARD => Some(VirtualKeyCode::NavigateForward),
        VK_BROWSER_REFRESH => Some(VirtualKeyCode::WebRefresh),
        VK_BROWSER_STOP => Some(VirtualKeyCode::WebStop),
        VK_BROWSER_SEARCH => Some(VirtualKeyCode::WebSearch),
        VK_BROWSER_FAVORITES => Some(VirtualKeyCode::WebFavorites),
        VK_BROWSER_HOME => Some(VirtualKeyCode::WebHome),
        VK_VOLUME_MUTE => Some(VirtualKeyCode::Mute),
        VK_VOLUME_DOWN => Some(VirtualKeyCode::VolumeDown),
        VK_VOLUME_UP => Some(VirtualKeyCode::VolumeUp),
        VK_MEDIA_NEXT_TRACK => Some(VirtualKeyCode::NextTrack),
        VK_MEDIA_PREV_TRACK => Some(VirtualKeyCode::PrevTrack),
        VK_MEDIA_STOP => Some(VirtualKeyCode::MediaStop),
        VK_MEDIA_PLAY_PAUSE => Some(VirtualKeyCode::PlayPause),
        VK_LAUNCH_MAIL => Some(VirtualKeyCode::Mail),
        VK_LAUNCH_MEDIA_SELECT => Some(VirtualKeyCode::MediaSelect),
        VK_OEM_PLUS => Some(VirtualKeyCode::Equals),
        VK_OEM_COMMA => Some(VirtualKeyCode::Comma),
        VK_OEM_MINUS => Some(VirtualKeyCode::Minus),
        VK_OEM_PERIOD => Some(VirtualKeyCode::Period),
        VK_OEM_1 => map_text_keys(mapped),
        VK_OEM_2 => map_text_keys(mapped),
        VK_OEM_3 => map_text_keys(mapped),
        VK_OEM_4 => map_text_keys(mapped),
        VK_OEM_5 => map_text_keys(mapped),
        VK_OEM_6 => map_text_keys(mapped),
        VK_OEM_7 => map_text_keys(mapped),
        VK_OEM_102 => Some(VirtualKeyCode::OEM102),
        _ => None,
    }
}

/// The virtual-key code of a portable key, where it has one.
pub fn winit_vkey_to_vkey(vkey: VirtualKeyCode) -> (code: Option<i32>)
    ensures
        code == native_vkey(vkey),
{
    match vkey {
        VirtualKeyCode::Back => Some(VK_BACK),
        VirtualKeyCode::Tab => Some(VK_TAB),
        VirtualKeyCode::Return => Some(VK_RETURN),
        VirtualKeyCode::LShift => Some(VK_LSHIFT),
        VirtualKeyCode::RShift => Some(VK_RSHIFT),
        VirtualKeyCode::LControl => Some(VK_LCONTROL),
        VirtualKeyCode::RControl => Some(VK_RCONTROL),
        VirtualKeyCode::LAlt => Some(VK_LMENU),
        VirtualKeyCode::RAlt => Some(VK_RMENU),
        VirtualKeyCode::Pause => Some(VK_PAUSE),
        VirtualKeyCode::Capital => Some(VK_CAPITAL),
        VirtualKeyCode::Kana => Some(VK_KANA),
        VirtualKeyCode::Kanji => Some(VK_KANJI),
        VirtualKeyCode::Escape => Some(VK_ESCAPE),
        VirtualKeyCode::Convert => Some(VK_CONVERT),
        VirtualKeyCode::NoConvert => Some(VK_NONCONVERT),
        VirtualKeyCode::Space => Some(VK_SPACE),
        VirtualKeyCode::PageUp => Some(VK_PRIOR),
        VirtualKeyCode::PageDown => Some(VK_NEXT),
        VirtualKeyCode::End => Some(VK_END),
        VirtualKeyCode::Home => Some(VK_HOME),
        VirtualKeyCode::Left => Some(VK_LEFT),
        VirtualKeyCode::Up => Some(VK_UP),
        VirtualKeyCode::Right => Some(VK_RIGHT),
        VirtualKeyCode::Down => Some(VK_DOWN),
        VirtualKeyCode::Snapshot => Some(VK_SNAPSHOT),
        VirtualKeyCode::Insert => Some(VK_INSERT),
        VirtualKeyCode::Delete => Some(VK_DELETE),
        VirtualKeyCode::Key0 => Some(0x30),
        VirtualKeyCode::Key1 => Some(0x31),
        VirtualKeyCode::Key2 => Some(0x32),
        VirtualKeyCode::Key3 => Some(0x33),
        VirtualKeyCode::Key4 => Some(0x34),
        VirtualKeyCode::Key5 => Some(0x35),
        VirtualKeyCode::Key6 => Some(0x36),
        VirtualKeyCode::Key7 => Some(0x37),
        VirtualKeyCode::Key8 => Some(0x38),
        VirtualKeyCode::Key9 => Some(0x39),
        VirtualKeyCode::A => Some(0x41),
        VirtualKeyCode::B => Some(0x42),
        VirtualKeyCode::C => Some(0x43),
        VirtualKeyCode::D => Some(0x44),
        VirtualKeyCode::E => Some(0x45),
        VirtualKeyCode::F => Some(0x46),
        VirtualKeyCode::G => Some(0x47),
        VirtualKeyCode::H => Some(0x48),
        VirtualKeyCode::I => Some(0x49),
        VirtualKeyCode::J => Some(0x4A),
        VirtualKeyCode::K => Some(0x4B),
        VirtualKeyCode::L => Some(0x4C),
        VirtualKeyCode::M => Some(0x4D),
        VirtualKeyCode::N => Some(0x4E),
        VirtualKeyCode::O => Some(0x4F),
        VirtualKeyCode::P => Some(0x50),
        VirtualKeyCode::Q => Some(0x51),
        VirtualKeyCode::R => Some(0x52),
        VirtualKeyCode::S => Some(0x53),
        VirtualKeyCode::T => Some(0x54),
        VirtualKeyCode::U => Some(0x55),
        VirtualKeyCode::V => Some(0x56),
        VirtualKeyCode::W => Some(0x57),
        VirtualKeyCode::X => Some(0x58),
        VirtualKeyCode::Y => Some(0x59),
        VirtualKeyCode::Z => Some(0x5A),
        VirtualKeyCode::LWin => Some(VK_LWIN),
        VirtualKeyCode::RWin => Some(VK_RWIN),
        VirtualKeyCode::Apps => Some(VK_APPS),
        VirtualKeyCode::Sleep => Some(VK_SLEEP),
        VirtualKeyCode::Numpad0 => Some(VK_NUMPAD0),
        VirtualKeyCode::Numpad1 => Some(VK_NUMPAD1),
        VirtualKeyCode::Numpad2 => Some(VK_NUMPAD2),
        VirtualKeyCode::Numpad3 => Some(VK_NUMPAD3),
        VirtualKeyCode::Numpad4 => Some(VK_NUMPAD4),
        VirtualKeyCode::Numpad5 => Some(VK_NUMPAD5),
        VirtualKeyCode::Numpad6 => Some(VK_NUMPAD6),
        VirtualKeyCode::Numpad7 => Some(VK_NUMPAD7),
        VirtualKeyCode::Numpad8 => Some(VK_NUMPAD8),
        VirtualKeyCode::Numpad9 => Some(VK_NUMPAD9),
        VirtualKeyCode::NumpadMultiply => Some(VK_MULTIPLY),
        VirtualKeyCode::NumpadAdd => Some(VK_ADD),
        VirtualKeyCode::NumpadSubtract => Some(VK_SUBTRACT),
        VirtualKeyCode::NumpadDecimal => Some(VK_DECIMAL),
        VirtualKeyCode::NumpadDivide => Some(VK_DIVIDE),
        VirtualKeyCode::F1 => Some(VK_F1),
        VirtualKeyCode::F2 => Some(VK_F2),
        VirtualKeyCode::F3 => Some(VK_F3),
        VirtualKeyCode::F4 => Some(VK_F4),
        VirtualKeyCode::F5 => Some(VK_F5),
        VirtualKeyCode::F6 => Some(VK_F6),
        VirtualKeyCode::F7 => Some(VK_F7),
        VirtualKeyCode::F8 => Some(VK_F8),
        VirtualKeyCode::F9 => Some(VK_F9),
        VirtualKeyCode::F10 => Some(VK_F10),
        VirtualKeyCode::F11 => Some(VK_F11),
        VirtualKeyCode::F12 => Some(VK_F12),
        VirtualKeyCode::F13 => Some(VK_F13),
        VirtualKeyCode::F14 => Some(VK_F14),
        VirtualKeyCode::F15 => Some(VK_F15),
        VirtualKeyCode::F16 => Some(VK_F16),
        VirtualKeyCode::F17 => Some(VK_F17),
        VirtualKeyCode::F18 => Some(VK_F18),
        VirtualKeyCode::F19 => Some(VK_F19),
        VirtualKeyCode::F20 => Some(VK_F20),
        VirtualKeyCode::F21 => Some(VK_F21),
        VirtualKeyCode::F22 => Some(VK_F22),
        VirtualKeyCode::F23 => Some(VK_F23),
        VirtualKeyCode::F24 => Some(VK_F24),
        VirtualKeyCode::Numlock => Some(VK_NUMLOCK),
        VirtualKeyCode::Scroll => Some(VK_SCROLL),
        VirtualKeyCode::NavigateBackward => Some(VK_BROWSER_BACK),
        VirtualKeyCode::NavigateForward => Some(VK_BROWSER_FORWARD),
        VirtualKeyCode::WebRefresh => Some(VK_BROWSER_REFRESH),
        VirtualKeyCode::WebStop => Some(VK_BROWSER_STOP),
        VirtualKeyCode::WebSearch => Some(VK_BROWSER_SEARCH),
        VirtualKeyCode::WebFavorites => Some(VK_BROWSER_FAVORITES),
        VirtualKeyCode::WebHome => Some(VK_BROWSER_HOME),
        VirtualKeyCode::Mute => Some(VK_VOLUME_MUTE),
        VirtualKeyCode::VolumeDown => Some(VK_VOLUME_DOWN),
        VirtualKeyCode::VolumeUp => Some(VK_VOLUME_UP),
        VirtualKeyCode::NextTrack => Some(VK_MEDIA_NEXT_TRACK),
        VirtualKeyCode::PrevTrack => Some(VK_MEDIA_PREV_TRACK),
        VirtualKeyCode::MediaStop => Some(VK_MEDIA_STOP),
        VirtualKeyCode::PlayPause => Some(VK_MEDIA_PLAY_PAUSE),
        VirtualKeyCode::Mail => Some(VK_LAUNCH_MAIL),
        VirtualKeyCode::MediaSelect => Some(VK_LAUNCH_MEDIA_SELECT),
        VirtualKeyCode::Equals => Some(VK_OEM_PLUS),
        VirtualKeyCode::Comma => Some(VK_OEM_COMMA),
        VirtualKeyCode::Minus => Some(VK_OEM_MINUS),
        VirtualKeyCode::Period => Some(VK_OEM_PERIOD),
        VirtualKeyCode::OEM102 => Some(VK_OEM_102),
        _ => None,
    }
}

/// A key that has a virtual-key code is the key that its code stands for,
/// whatever the layout maps the code to.
pub proof fn lemma_native_round_trip(key: VirtualKeyCode, mapped: u32)
    requires
        native_vkey(key) is Some,
    ensures
        portable_key(native_vkey(key)->0, mapped) == Some(key),
{
}

/// The mapped character is read for the layout-dependent punctuation codes
/// and for no other: every other code stands for the same key, or for none,
/// on every layout.
pub proof fn lemma_mapped_matters_for_text_keys_only(vkey: i32, mapped: u32, other: u32)
    requires
        !is_text_vkey(vkey),
    ensures
        portable_key(vkey, mapped) == portable_key(vkey, other),
{
}

/// Every virtual-key code that a key has fits in a byte.
pub proof fn lemma_native_vkey_range(key: VirtualKeyCode)
    requires
        native_vkey(key) is Some,
    ensures
        0 < native_vkey(key)->0 < 0x100,
{
}

} // verus!
