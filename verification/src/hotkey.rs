//! Hotkeys: a key with the modifiers to hold, the label a menu shows for
//! it, and the key equivalent that a Cocoa menu item takes.

use vstd::prelude::*;
use crate::keycode::VirtualKeyCode;
use crate::modifiers::{Modifier, ModifiersState};

verus! {

/// A key together with the modifiers that are held with it.
#[derive(Clone, Copy, Debug, PartialEq, Eq, Hash, Structural)]
pub struct Hotkey {
    pub modifiers: ModifiersState,
    pub key: VirtualKeyCode,
}

/// The name that a label shows for `key`.
pub open spec fn key_name(key: VirtualKeyCode) -> Seq<char> {
    match key {
        VirtualKeyCode::Key1 => "1"@,
        VirtualKeyCode::Key2 => "2"@,
        VirtualKeyCode::Key3 => "3"@,
        VirtualKeyCode::Key4 => "4"@,
        VirtualKeyCode::Key5 => "5"@,
        VirtualKeyCode::Key6 => "6"@,
        VirtualKeyCode::Key7 => "7"@,
        VirtualKeyCode::Key8 => "8"@,
        VirtualKeyCode::Key9 => "9"@,
        VirtualKeyCode::Key0 => "0"@,
        VirtualKeyCode::A => "A"@,
        VirtualKeyCode::B => "B"@,
        VirtualKeyCode::C => "C"@,
        VirtualKeyCode::D => "D"@,
        VirtualKeyCode::E => "E"@,
        VirtualKeyCode::F => "F"@,
        VirtualKeyCode::G => "G"@,
        VirtualKeyCode::H => "H"@,
        VirtualKeyCode::I => "I"@,
        VirtualKeyCode::J => "J"@,
        VirtualKeyCode::K => "K"@,
        VirtualKeyCode::L => "L"@,
        VirtualKeyCode::M => "M"@,
        VirtualKeyCode::N => "N"@,
        VirtualKeyCode::O => "O"@,
        VirtualKeyCode::P => "P"@,
        VirtualKeyCode::Q => "Q"@,
        VirtualKeyCode::R => "R"@,
        VirtualKeyCode::S => "S"@,
        VirtualKeyCode::T => "T"@,
        VirtualKeyCode::U => "U"@,
        VirtualKeyCode::V => "V"@,
        VirtualKeyCode::W => "W"@,
        VirtualKeyCode::X => "X"@,
        VirtualKeyCode::Y => "Y"@,
        VirtualKeyCode::Z => "Z"@,
        VirtualKeyCode::Escape => "Esc"@,
        VirtualKeyCode::F1 => "F1"@,
        VirtualKeyCode::F2 => "F2"@,
        VirtualKeyCode::F3 => "F3"@,
        VirtualKeyCode::F4 => "F4"@,
        VirtualKeyCode::F5 => "F5"@,
        VirtualKeyCode::F6 => "F6"@,
        VirtualKeyCode::F7 => "F7"@,
        VirtualKeyCode::F8 => "F8"@,
        VirtualKeyCode::F9 => "F9"@,
        VirtualKeyCode::F10 => "F10"@,
        VirtualKeyCode::F11 => "F11"@,
        VirtualKeyCode::F12 => "F12"@,
        VirtualKeyCode::F13 => "F13"@,
        VirtualKeyCode::F14 => "F14"@,
        VirtualKeyCode::F15 => "F15"@,
        VirtualKeyCode::F16 => "F16"@,
        VirtualKeyCode::F17 => "F17"@,
        VirtualKeyCode::F18 => "F18"@,
        VirtualKeyCode::F19 => "F19"@,
        VirtualKeyCode::F20 => "F20"@,
        VirtualKeyCode::F21 => "F21"@,
        VirtualKeyCode::F22 => "F22"@,
        VirtualKeyCode::F23 => "F23"@,
        VirtualKeyCode::F24 => "F24"@,
        VirtualKeyCode::Snapshot => "PrtScn"@,
        VirtualKeyCode::Scroll => "ScrLk"@,
        VirtualKeyCode::Pause => "Pause"@,
        VirtualKeyCode::Insert => "Ins"@,
        VirtualKeyCode::Home => "Home"@,
        VirtualKeyCode::Delete => "Del"@,
        VirtualKeyCode::End => "End"@,
        VirtualKeyCode::PageDown => "PgDn"@,
        VirtualKeyCode::PageUp => "PgUp"@,
        VirtualKeyCode::Left => "Left"@,
        VirtualKeyCode::Up => "Up"@,
        VirtualKeyCode::Right => "Right"@,
        VirtualKeyCode::Down => "Down"@,
        VirtualKeyCode::Back => "Backspace"@,
        VirtualKeyCode::Return => "Enter"@,
        VirtualKeyCode::Space => "Space"@,
        VirtualKeyCode::Compose => "Compose"@,
        VirtualKeyCode::Caret => "^"@,
        VirtualKeyCode::Numlock => "NumLk"@,
        VirtualKeyCode::Numpad0 => "Numpad0"@,
        VirtualKeyCode::Numpad1 => "Numpad1"@,
        VirtualKeyCode::Numpad2 => "Numpad2"@,
        VirtualKeyCode::Numpad3 => "Numpad3"@,
        VirtualKeyCode::Numpad4 => "Numpad4"@,
        VirtualKeyCode::Numpad5 => "Numpad5"@,
        VirtualKeyCode::Numpad6 => "Numpad6"@,
        VirtualKeyCode::Numpad7 => "Numpad7"@,
        VirtualKeyCode::Numpad8 => "Numpad8"@,
        VirtualKeyCode::Numpad9 => "Numpad9"@,
        VirtualKeyCode::NumpadAdd => "+"@,
        VirtualKeyCode::NumpadDivide => "/"@,
        VirtualKeyCode::NumpadDecimal => "."@,
        VirtualKeyCode::NumpadComma => ","@,
        VirtualKeyCode::NumpadEnter => "Enter"@,
        VirtualKeyCode::NumpadEquals => "="@,
        VirtualKeyCode::NumpadMultiply => "*"@,
        VirtualKeyCode::NumpadSubtract => "-"@,
        VirtualKeyCode::AbntC1 => "AbntC1"@,
        VirtualKeyCode::AbntC2 => "AbntC2"@,
        VirtualKeyCode::Apostrophe => "'"@,
        VirtualKeyCode::Apps => "Apps"@,
        VirtualKeyCode::Asterisk => "*"@,
        VirtualKeyCode::At => "At"@,
        VirtualKeyCode::Ax => "Ax"@,
        VirtualKeyCode::Backslash => "\\"@,
        VirtualKeyCode::Calculator => "Calculator"@,
        VirtualKeyCode::Capital => "CapsLock"@,
        VirtualKeyCode::Colon => ";"@,
        VirtualKeyCode::Comma => ","@,
        VirtualKeyCode::Convert => "Convert"@,
        VirtualKeyCode::Equals => "="@,
        VirtualKeyCode::Grave => "Grave"@,
        VirtualKeyCode::Kana => "Kana"@,
        VirtualKeyCode::Kanji => "Kanji"@,
        VirtualKeyCode::LAlt => "LAlt"@,
        VirtualKeyCode::LBracket => "LBracket"@,
        VirtualKeyCode::LControl => "LControl"@,
        VirtualKeyCode::LShift => "LShift"@,
        VirtualKeyCode::LWin => "LWin"@,
        VirtualKeyCode::Mail => "Mail"@,
        VirtualKeyCode::MediaSelect => "MediaSelect"@,
        VirtualKeyCode::MediaStop => "MediaStop"@,
        VirtualKeyCode::Minus => "Minus"@,
        VirtualKeyCode::Mute => "Mute"@,
        VirtualKeyCode::MyComputer => "MyComputer"@,
        VirtualKeyCode::NavigateForward => "Next"@,
        VirtualKeyCode::NavigateBackward => "Prior"@,
        VirtualKeyCode::NextTrack => "NextTrack"@,
        VirtualKeyCode::NoConvert => "NoConvert"@,
        VirtualKeyCode::OEM102 => "OEM102"@,
        VirtualKeyCode::Period => "."@,
        VirtualKeyCode::PlayPause => "PlayPause"@,
        VirtualKeyCode::Plus => "Plus"@,
        VirtualKeyCode::Power => "Power"@,
        VirtualKeyCode::PrevTrack => "PrevTrack"@,
        VirtualKeyCode::RAlt => "RAlt"@,
        VirtualKeyCode::RBracket => "RBracket"@,
        VirtualKeyCode::RControl => "RControl"@,
        VirtualKeyCode::RShift => "RShift"@,
        VirtualKeyCode::RWin => "RWin"@,
        VirtualKeyCode::Semicolon => "Semicolon"@,
        VirtualKeyCode::Slash => "Slash"@,
        VirtualKeyCode::Sleep => "Sleep"@,
        VirtualKeyCode::Stop => "Stop"@,
        VirtualKeyCode::Sysrq => "Sysrq"@,
        VirtualKeyCode::Tab => "Tab"@,
        VirtualKeyCode::Underline => "_"@,
        VirtualKeyCode::Unlabeled => "Unlabeled"@,
        VirtualKeyCode::VolumeDown => "VolDown"@,
        VirtualKeyCode::VolumeUp => "VolUp"@,
        VirtualKeyCode::Wake => "Wake"@,
        VirtualKeyCode::WebBack => "WebBack"@,
        VirtualKeyCode::WebFavorites => "WebFavorites"@,
        VirtualKeyCode::WebForward => "WebForward"@,
        VirtualKeyCode::WebHome => "WebHome"@,
        VirtualKeyCode::WebRefresh => "WebRefresh"@,
        VirtualKeyCode::WebSearch => "WebSearch"@,
        VirtualKeyCode::WebStop => "WebStop"@,
        VirtualKeyCode::Yen => "Yen"@,
        VirtualKeyCode::Copy => "Copy"@,
        VirtualKeyCode::Paste => "Paste"@,
        VirtualKeyCode::Cut => "Cut"@,
    }
}

/// `name` where `modifier` is held, and nothing where it is not.
pub open spec fn prefix_if(held: Set<Modifier>, modifier: Modifier, name: Seq<char>) -> Seq<char> {
    if held.contains(modifier) {
        name
    } else {
        Seq::empty()
    }
}

/// The label of a hotkey: the modifiers that are held, always in the order
/// logo, control, shift, alt, each with a `+` behind it, and then the name of
/// the key. `logo` is what the platform calls the logo key, `+` included.
pub open spec fn hotkey_label(logo: Seq<char>, held: Set<Modifier>, key: VirtualKeyCode) -> Seq<
    char,
> {
    prefix_if(held, Modifier::Logo, logo) + prefix_if(held, Modifier::Ctrl, "Ctrl+"@) + prefix_if(
        held,
        Modifier::Shift,
        "Shift+"@,
    ) + prefix_if(held, Modifier::Alt, "Alt+"@) + key_name(key)
}

/// The order in which the modifiers were pressed, or put into the state,
/// does not show in a label.
pub proof fn lemma_label_ignores_insertion_order(
    logo: Seq<char>,
    held: Set<Modifier>,
    first: Modifier,
    second: Modifier,
    key: VirtualKeyCode,
)
    ensures
        hotkey_label(logo, held.insert(first).insert(second), key) == hotkey_label(
            logo,
            held.insert(second).insert(first),
            key,
        ),
{
    assert(held.insert(first).insert(second) =~= held.insert(second).insert(first));
}

/// With control and alt held, and no other modifier, the label names
/// control before alt.
pub proof fn lemma_label_of_ctrl_and_alt(logo: Seq<char>, held: Set<Modifier>, key: VirtualKeyCode)
    requires
        held.contains(Modifier::Ctrl),
        held.contains(Modifier::Alt),
        !held.contains(Modifier::Logo),
        !held.contains(Modifier::Shift),
    ensures
        hotkey_label(logo, held, key) == "Ctrl+"@ + "Alt+"@ + key_name(key),
{
}

/// The character that stands for `key` in the key equivalent of a Cocoa
/// menu item; none for the keys that Cocoa has no character for.
pub open spec fn key_equivalent_char(key: VirtualKeyCode) -> Option<char> {
    match key {
        VirtualKeyCode::Key1 => Some('1'),
        VirtualKeyCode::Key2 => Some('2'),
        VirtualKeyCode::Key3 => Some('3'),
        VirtualKeyCode::Key4 => Some('4'),
        VirtualKeyCode::Key5 => Some('5'),
        VirtualKeyCode::Key6 => Some('6'),
        VirtualKeyCode::Key7 => Some('7'),
        VirtualKeyCode::Key8 => Some('8'),
        VirtualKeyCode::Key9 => Some('9'),
        VirtualKeyCode::Key0 => Some('0'),
        VirtualKeyCode::A => Some('a'),
        VirtualKeyCode::B => Some('b'),
        VirtualKeyCode::C => Some('c'),
        VirtualKeyCode::D => Some('d'),
        VirtualKeyCode::E => Some('e'),
        VirtualKeyCode::F => Some('f'),
        VirtualKeyCode::G => Some('g'),
        VirtualKeyCode::H => Some('h'),
        VirtualKeyCode::I => Some('i'),
        VirtualKeyCode::J => Some('j'),
        VirtualKeyCode::K => Some('k'),
        VirtualKeyCode::L => Some('l'),
        VirtualKeyCode::M => Some('m'),
        VirtualKeyCode::N => Some('n'),
        VirtualKeyCode::O => Some('o'),
        VirtualKeyCode::P => Some('p'),
        VirtualKeyCode::Q => Some('q'),
        VirtualKeyCode::R => Some('r'),
        VirtualKeyCode::S => Some('s'),
        VirtualKeyCode::T => Some('t'),
        VirtualKeyCode::U => Some('u'),
        VirtualKeyCode::V => Some('v'),
        VirtualKeyCode::W => Some('w'),
        VirtualKeyCode::X => Some('x'),
        VirtualKeyCode::Y => Some('y'),
        VirtualKeyCode::Z => Some('z'),
        VirtualKeyCode::F1 => Some('\u{f704}'),
        VirtualKeyCode::F2 => Some('\u{f705}'),
        VirtualKeyCode::F3 => Some('\u{f706}'),
        VirtualKeyCode::F4 => Some('\u{f707}'),
        VirtualKeyCode::F5 => Some('\u{f708}'),
        VirtualKeyCode::F6 => Some('\u{f709}'),
        VirtualKeyCode::F7 => Some('\u{f70A}'),
        VirtualKeyCode::F8 => Some('\u{f70B}'),
        VirtualKeyCode::F9 => Some('\u{f70C}'),
        VirtualKeyCode::F10 => Some('\u{f70D}'),
        VirtualKeyCode::F11 => Some('\u{f70E}'),
        VirtualKeyCode::F12 => Some('\u{f70F}'),
        VirtualKeyCode::F13 => Some('\u{f710}'),
        VirtualKeyCode::F14 => Some('\u{f711}'),
        VirtualKeyCode::F15 => Some('\u{f712}'),
        VirtualKeyCode::F16 => Some('\u{f713}'),
        VirtualKeyCode::F17 => Some('\u{f714}'),
        VirtualKeyCode::F18 => Some('\u{f715}'),
        VirtualKeyCode::F19 => Some('\u{f716}'),
        VirtualKeyCode::F20 => Some('\u{f717}'),
        VirtualKeyCode::F21 => Some('\u{f718}'),
        VirtualKeyCode::F22 => Some('\u{f719}'),
        VirtualKeyCode::F23 => Some('\u{f71A}'),
        VirtualKeyCode::F24 => Some('\u{f71B}'),
        VirtualKeyCode::Snapshot => Some('\u{f738}'),
        VirtualKeyCode::Scroll => Some('\u{f72F}'),
        VirtualKeyCode::Pause => Some('\u{f730}'),
        VirtualKeyCode::Sysrq => Some('\u{f731}'),
        VirtualKeyCode::Stop => Some('\u{f734}'),
        VirtualKeyCode::Insert => Some('\u{f727}'),
        VirtualKeyCode::Home => Some('\u{f729}'),
        VirtualKeyCode::Delete => Some('\u{f728}'),
        VirtualKeyCode::End => Some('\u{f72B}'),
        VirtualKeyCode::PageDown => Some('\u{f72D}'),
        VirtualKeyCode::PageUp => Some('\u{f72C}'),
        VirtualKeyCode::Up => Some('\u{f700}'),
        VirtualKeyCode::Down => Some('\u{f701}'),
        VirtualKeyCode::Left => Some('\u{f702}'),
        VirtualKeyCode::Right => Some('\u{f703}'),
        VirtualKeyCode::Back => Some('\u{0008}'),
        VirtualKeyCode::Return => Some('\u{000d}'),
        VirtualKeyCode::Space => Some('\u{0020}'),
        VirtualKeyCode::Escape => Some('\u{001b}'),
        _ => None,
    }
}

/// In the modifier flags of a Cocoa key equivalent, the shift key.
pub const NS_SHIFT_KEY_MASK: u64 = 0x2_0000;

/// In the modifier flags of a Cocoa key equivalent, the control key.
pub const NS_CONTROL_KEY_MASK: u64 = 0x4_0000;

/// In the modifier flags of a Cocoa key equivalent, the option key.
pub const NS_ALTERNATE_KEY_MASK: u64 = 0x8_0000;

/// In the modifier flags of a Cocoa key equivalent, the command key.
pub const NS_COMMAND_KEY_MASK: u64 = 0x10_0000;

/// The modifier flags of a Cocoa key equivalent that needs the modifiers
/// `held`: the logo key is the command key, and alt the option key.
pub open spec fn key_equivalent_flags(held: Set<Modifier>) -> int {
    (if held.contains(Modifier::Logo) {
        NS_COMMAND_KEY_MASK as int
    } else {
        0
    }) + (if held.contains(Modifier::Ctrl) {
        NS_CONTROL_KEY_MASK as int
    } else {
        0
    }) + (if held.contains(Modifier::Shift) {
        NS_SHIFT_KEY_MASK as int
    } else {
        0
    }) + (if held.contains(Modifier::Alt) {
        NS_ALTERNATE_KEY_MASK as int
    } else {
        0
    })
}

/// The key equivalent of a Cocoa menu item: the character of the key, and
/// the modifier flags to set on the item. An item on which none are set
/// keeps those that the system gives it.
#[derive(Clone, Copy, Debug, PartialEq, Eq, Structural)]
pub struct KeyEquivalent {
    pub key: char,
    pub masks: Option<u64>,
}

/// The key equivalent of `hotkey`: the character of its key and the flags
/// of its modifiers; none where Cocoa has no character for the key.
pub open spec fn key_equivalent_of(hotkey: Hotkey) -> Option<KeyEquivalent> {
    match key_equivalent_char(hotkey.key) {
        Some(key) => Some(
            KeyEquivalent { key, masks: Some(key_equivalent_flags(hotkey.modifiers@) as u64) },
        ),
        None => None,
    }
}

/// The name that a label shows for `key`.
pub fn key_display_name(key: VirtualKeyCode) -> (name: &'static str)
    ensures
        name@ == key_name(key),
{
    match key {
        VirtualKeyCode::Key1 => "1",
        VirtualKeyCode::Key2 => "2",
        VirtualKeyCode::Key3 => "3",
        VirtualKeyCode::Key4 => "4",
        VirtualKeyCode::Key5 => "5",
        VirtualKeyCode::Key6 => "6",
        VirtualKeyCode::Key7 => "7",
        VirtualKeyCode::Key8 => "8",
        VirtualKeyCode::Key9 => "9",
        VirtualKeyCode::Key0 => "0",
        VirtualKeyCode::A => "A",
        VirtualKeyCode::B => "B",
        VirtualKeyCode::C => "C",
        VirtualKeyCode::D => "D",
        VirtualKeyCode::E => "E",
        VirtualKeyCode::F => "F",
        VirtualKeyCode::G => "G",
        VirtualKeyCode::H => "H",
        VirtualKeyCode::I => "I",
        VirtualKeyCode::J => "J",
        VirtualKeyCode::K => "K",
        VirtualKeyCode::L => "L",
        VirtualKeyCode::M => "M",
        VirtualKeyCode::N => "N",
        VirtualKeyCode::O => "O",
        VirtualKeyCode::P => "P",
        VirtualKeyCode::Q => "Q",
        VirtualKeyCode::R => "R",
        VirtualKeyCode::S => "S",
        VirtualKeyCode::T => "T",
        VirtualKeyCode::U => "U",
        VirtualKeyCode::V => "V",
        VirtualKeyCode::W => "W",
        VirtualKeyCode::X => "X",
        VirtualKeyCode::Y => "Y",
        VirtualKeyCode::Z => "Z",
        VirtualKeyCode::Escape => "Esc",
        VirtualKeyCode::F1 => "F1",
        VirtualKeyCode::F2 => "F2",
        VirtualKeyCode::F3 => "F3",
        VirtualKeyCode::F4 => "F4",
        VirtualKeyCode::F5 => "F5",
        VirtualKeyCode::F6 => "F6",
        VirtualKeyCode::F7 => "F7",
        VirtualKeyCode::F8 => "F8",
        VirtualKeyCode::F9 => "F9",
        VirtualKeyCode::F10 => "F10",
        VirtualKeyCode::F11 => "F11",
        VirtualKeyCode::F12 => "F12",
        VirtualKeyCode::F13 => "F13",
        VirtualKeyCode::F14 => "F14",
        VirtualKeyCode::F15 => "F15",
        VirtualKeyCode::F16 => "F16",
        VirtualKeyCode::F17 => "F17",
        VirtualKeyCode::F18 => "F18",
        VirtualKeyCode::F19 => "F19",
        VirtualKeyCode::F20 => "F20",
        VirtualKeyCode::F21 => "F21",
        VirtualKeyCode::F22 => "F22",
        VirtualKeyCode::F23 => "F23",
        VirtualKeyCode::F24 => "F24",
        VirtualKeyCode::Snapshot => "PrtScn",
        VirtualKeyCode::Scroll => "ScrLk",
        VirtualKeyCode::Pause => "Pause",
        VirtualKeyCode::Insert => "Ins",
        VirtualKeyCode::Home => "Home",
        VirtualKeyCode::Delete => "Del",
        VirtualKeyCode::End => "End",
        VirtualKeyCode::PageDown => "PgDn",
        VirtualKeyCode::PageUp => "PgUp",
        VirtualKeyCode::Left => "Left",
        VirtualKeyCode::Up => "Up",
        VirtualKeyCode::Right => "Right",
        VirtualKeyCode::Down => "Down",
        VirtualKeyCode::Back => "Backspace",
        VirtualKeyCode::Return => "Enter",
        VirtualKeyCode::Space => "Space",
        VirtualKeyCode::Compose => "Compose",
        VirtualKeyCode::Caret => "^",
        VirtualKeyCode::Numlock => "NumLk",
        VirtualKeyCode::Numpad0 => "Numpad0",
        VirtualKeyCode::Numpad1 => "Numpad1",
        VirtualKeyCode::Numpad2 => "Numpad2",
        VirtualKeyCode::Numpad3 => "Numpad3",
        VirtualKeyCode::Numpad4 => "Numpad4",
        VirtualKeyCode::Numpad5 => "Numpad5",
        VirtualKeyCode::Numpad6 => "Numpad6",
        VirtualKeyCode::Numpad7 => "Numpad7",
        VirtualKeyCode::Numpad8 => "Numpad8",
        VirtualKeyCode::Numpad9 => "Numpad9",
        VirtualKeyCode::NumpadAdd => "+",
        VirtualKeyCode::NumpadDivide => "/",
        VirtualKeyCode::NumpadDecimal => ".",
        VirtualKeyCode::NumpadComma => ",",
        VirtualKeyCode::NumpadEnter => "Enter",
        VirtualKeyCode::NumpadEquals => "=",
        VirtualKeyCode::NumpadMultiply => "*",
        VirtualKeyCode::NumpadSubtract => "-",
        VirtualKeyCode::AbntC1 => "AbntC1",
        VirtualKeyCode::AbntC2 => "AbntC2",
        VirtualKeyCode::Apostrophe => "'",
        VirtualKeyCode::Apps => "Apps",
        VirtualKeyCode::Asterisk => "*",
        VirtualKeyCode::At => "At",
        VirtualKeyCode::Ax => "Ax",
        VirtualKeyCode::Backslash => "\\",
        VirtualKeyCode::Calculator => "Calculator",
        VirtualKeyCode::Capital => "CapsLock",
        VirtualKeyCode::Colon => ";",
        VirtualKeyCode::Comma => ",",
        VirtualKeyCode::Convert => "Convert",
        VirtualKeyCode::Equals => "=",
        VirtualKeyCode::Grave => "Grave",
        VirtualKeyCode::Kana => "Kana",
        VirtualKeyCode::Kanji => "Kanji",
        VirtualKeyCode::LAlt => "LAlt",
        VirtualKeyCode::LBracket => "LBracket",
        VirtualKeyCode::LControl => "LControl",
        VirtualKeyCode::LShift => "LShift",
        VirtualKeyCode::LWin => "LWin",
        VirtualKeyCode::Mail => "Mail",
        VirtualKeyCode::MediaSelect => "MediaSelect",
        VirtualKeyCode::MediaStop => "MediaStop",
        VirtualKeyCode::Minus => "Minus",
        VirtualKeyCode::Mute => "Mute",
        VirtualKeyCode::MyComputer => "MyComputer",
        VirtualKeyCode::NavigateForward => "Next",
        VirtualKeyCode::NavigateBackward => "Prior",
        VirtualKeyCode::NextTrack => "NextTrack",
        VirtualKeyCode::NoConvert => "NoConvert",
        VirtualKeyCode::OEM102 => "OEM102",
        VirtualKeyCode::Period => ".",
        VirtualKeyCode::PlayPause => "PlayPause",
        VirtualKeyCode::Plus => "Plus",
        VirtualKeyCode::Power => "Power",
        VirtualKeyCode::PrevTrack => "PrevTrack",
        VirtualKeyCode::RAlt => "RAlt",
        VirtualKeyCode::RBracket => "RBracket",
        VirtualKeyCode::RControl => "RControl",
        VirtualKeyCode::RShift => "RShift",
        VirtualKeyCode::RWin => "RWin",
        VirtualKeyCode::Semicolon => "Semicolon",
        VirtualKeyCode::Slash => "Slash",
        VirtualKeyCode::Sleep => "Sleep",
        VirtualKeyCode::Stop => "Stop",
        VirtualKeyCode::Sysrq => "Sysrq",
        VirtualKeyCode::Tab => "Tab",
        VirtualKeyCode::Underline => "_",
        VirtualKeyCode::Unlabeled => "Unlabeled",
        VirtualKeyCode::VolumeDown => "VolDown",
        VirtualKeyCode::VolumeUp => "VolUp",
        VirtualKeyCode::Wake => "Wake",
        VirtualKeyCode::WebBack => "WebBack",
        VirtualKeyCode::WebFavorites => "WebFavorites",
        VirtualKeyCode::WebForward => "WebForward",
        VirtualKeyCode::WebHome => "WebHome",
        VirtualKeyCode::WebRefresh => "WebRefresh",
        VirtualKeyCode::WebSearch => "WebSearch",
        VirtualKeyCode::WebStop => "WebStop",
        VirtualKeyCode::Yen => "Yen",
        VirtualKeyCode::Copy => "Copy",
        VirtualKeyCode::Paste => "Paste",
        VirtualKeyCode::Cut => "Cut",
    }
}

/// The character that stands for `key` in a Cocoa key equivalent, where
/// Cocoa has one for it.
fn key_equivalent(key: VirtualKeyCode) -> (c: Option<char>)
    ensures
        c == key_equivalent_char(key),
{
    match key {
        VirtualKeyCode::Key1 => Some('1'),
        VirtualKeyCode::Key2 => Some('2'),
        VirtualKeyCode::Key3 => Some('3'),
        VirtualKeyCode::Key4 => Some('4'),
        VirtualKeyCode::Key5 => Some('5'),
        VirtualKeyCode::Key6 => Some('6'),
        VirtualKeyCode::Key7 => Some('7'),
        VirtualKeyCode::Key8 => Some('8'),
        VirtualKeyCode::Key9 => Some('9'),
        VirtualKeyCode::Key0 => Some('0'),
        VirtualKeyCode::A => Some('a'),
        VirtualKeyCode::B => Some('b'),
        VirtualKeyCode::C => Some('c'),
        VirtualKeyCode::D => Some('d'),
        VirtualKeyCode::E => Some('e'),
        VirtualKeyCode::F => Some('f'),
        VirtualKeyCode::G => Some('g'),
        VirtualKeyCode::H => Some('h'),
        VirtualKeyCode::I => Some('i'),
        VirtualKeyCode::J => Some('j'),
        VirtualKeyCode::K => Some('k'),
        VirtualKeyCode::L => Some('l'),
        VirtualKeyCode::M => Some('m'),
        VirtualKeyCode::N => Some('n'),
        VirtualKeyCode::O => Some('o'),
        VirtualKeyCode::P => Some('p'),
        VirtualKeyCode::Q => Some('q'),
        VirtualKeyCode::R => Some('r'),
        VirtualKeyCode::S => Some('s'),
        VirtualKeyCode::T => Some('t'),
        VirtualKeyCode::U => Some('u'),
        VirtualKeyCode::V => Some('v'),
        VirtualKeyCode::W => Some('w'),
        VirtualKeyCode::X => Some('x'),
        VirtualKeyCode::Y => Some('y'),
        VirtualKeyCode::Z => Some('z'),
        VirtualKeyCode::F1 => Some('\u{f704}'),
        VirtualKeyCode::F2 => Some('\u{f705}'),
        VirtualKeyCode::F3 => Some('\u{f706}'),
        VirtualKeyCode::F4 => Some('\u{f707}'),
        VirtualKeyCode::F5 => Some('\u{f708}'),
        VirtualKeyCode::F6 => Some('\u{f709}'),
        VirtualKeyCode::F7 => Some('\u{f70A}'),
        VirtualKeyCode::F8 => Some('\u{f70B}'),
        VirtualKeyCode::F9 => Some('\u{f70C}'),
        VirtualKeyCode::F10 => Some('\u{f70D}'),
        VirtualKeyCode::F11 => Some('\u{f70E}'),
        VirtualKeyCode::F12 => Some('\u{f70F}'),
        VirtualKeyCode::F13 => Some('\u{f710}'),
        VirtualKeyCode::F14 => Some('\u{f711}'),
        VirtualKeyCode::F15 => Some('\u{f712}'),
        VirtualKeyCode::F16 => Some('\u{f713}'),
        VirtualKeyCode::F17 => Some('\u{f714}'),
        VirtualKeyCode::F18 => Some('\u{f715}'),
        VirtualKeyCode::F19 => Some('\u{f716}'),
        VirtualKeyCode::F20 => Some('\u{f717}'),
        VirtualKeyCode::F21 => Some('\u{f718}'),
        VirtualKeyCode::F22 => Some('\u{f719}'),
        VirtualKeyCode::F23 => Some('\u{f71A}'),
        VirtualKeyCode::F24 => Some('\u{f71B}'),
        VirtualKeyCode::Snapshot => Some('\u{f738}'),
        VirtualKeyCode::Scroll => Some('\u{f72F}'),
        VirtualKeyCode::Pause => Some('\u{f730}'),
        VirtualKeyCode::Sysrq => Some('\u{f731}'),
        VirtualKeyCode::Stop => Some('\u{f734}'),
        VirtualKeyCode::Insert => Some('\u{f727}'),
        VirtualKeyCode::Home => Some('\u{f729}'),
        VirtualKeyCode::Delete => Some('\u{f728}'),
        VirtualKeyCode::End => Some('\u{f72B}'),
        VirtualKeyCode::PageDown => Some('\u{f72D}'),
        VirtualKeyCode::PageUp => Some('\u{f72C}'),
        VirtualKeyCode::Up => Some('\u{f700}'),
        VirtualKeyCode::Down => Some('\u{f701}'),
        VirtualKeyCode::Left => Some('\u{f702}'),
        VirtualKeyCode::Right => Some('\u{f703}'),
        VirtualKeyCode::Back => Some('\u{0008}'),
        VirtualKeyCode::Return => Some('\u{000d}'),
        VirtualKeyCode::Space => Some('\u{0020}'),
        VirtualKeyCode::Escape => Some('\u{001b}'),
        _ => None,
    }
}

/// Appends to `string` the modifiers of a label, `logo` standing for the
/// logo key.
fn push_modifiers(string: &mut String, modifiers: ModifiersState, logo: &str)
    ensures
        final(string)@ == old(string)@ + prefix_if(modifiers@, Modifier::Logo, logo@) + prefix_if(
            modifiers@,
            Modifier::Ctrl,
            "Ctrl+"@,
        ) + prefix_if(modifiers@, Modifier::Shift, "Shift+"@) + prefix_if(
            modifiers@,
            Modifier::Alt,
            "Alt+"@,
        ),
{
    if modifiers.logo() {
        string.append(logo);
    }
    if modifiers.ctrl() {
        string.append("Ctrl+");
    }
    if modifiers.shift() {
        string.append("Shift+");
    }
    if modifiers.alt() {
        string.append("Alt+");
    }
}

impl Hotkey {
    pub fn new(modifiers: ModifiersState, key: VirtualKeyCode) -> (hotkey: Self)
        ensures
            hotkey.modifiers == modifiers,
            hotkey.key == key,
    {
        Self { modifiers, key }
    }

    /// The label that a menu shows for this hotkey, in which the logo key is
    /// called `Windows`.
    pub fn parse(&self) -> (label: String)
        ensures
            label@ == hotkey_label("Windows+"@, self.modifiers@, self.key),
    {
        let mut string = String::new();
        push_modifiers(&mut string, self.modifiers, "Windows+");
        string.append(key_display_name(self.key));
        string
    }

    /// The key equivalent that a Cocoa menu item takes for this hotkey; none
    /// where Cocoa has no character for the key. The item of such a hotkey
    /// gets no key equivalent, and answers to no keystroke.
    pub fn key_equivalent(&self) -> (equivalent: Option<KeyEquivalent>)
        ensures
            equivalent == key_equivalent_of(*self),
    {
        match key_equivalent(self.key) {
            Some(key) => {
                let mut masks: u64 = 0;
                if self.modifiers.logo() {
                    masks = masks + NS_COMMAND_KEY_MASK;
                }
                if self.modifiers.ctrl() {
                    masks = masks + NS_CONTROL_KEY_MASK;
                }
                if self.modifiers.shift() {
                    masks = masks + NS_SHIFT_KEY_MASK;
                }
                if self.modifiers.alt() {
                    masks = masks + NS_ALTERNATE_KEY_MASK;
                }
                Some(KeyEquivalent { key, masks: Some(masks) })
            },
            None => None,
        }
    }
}

/// A hotkey whose key Cocoa has no character for has no key equivalent: in
/// particular it does not get the key equivalent of another key. Where a
/// hotkey has one, it is its own: hotkeys with different keys that both have
/// a key equivalent have different ones.
pub proof fn lemma_key_equivalent_is_of_the_key(hotkey: Hotkey, other: Hotkey)
    ensures
        key_equivalent_char(hotkey.key) is None ==> key_equivalent_of(hotkey) is None,
        key_equivalent_of(hotkey) is Some && key_equivalent_of(other) is Some && hotkey.key
            != other.key ==> key_equivalent_of(hotkey)->0.key != key_equivalent_of(other)->0.key,
{
}

/// The label of a hotkey in which the logo key is called `Super`.
impl From<Hotkey> for String {
    fn from(hotkey: Hotkey) -> (string: String)
        ensures
            string@ == hotkey_label("Super+"@, hotkey.modifiers@, hotkey.key),
    {
        let mut string = String::new();
        push_modifiers(&mut string, hotkey.modifiers, "Super+");
        string.append(key_display_name(hotkey.key));
        string
    }
}

/// Of the string that `from` gives, its characters are known and nothing
/// else: `from` is held to its own `ensures`, not to `from_spec`.
impl vstd::std_specs::convert::FromSpecImpl<Hotkey> for String {
    open spec fn obeys_from_spec() -> bool {
        false
    }

    open spec fn from_spec(hotkey: Hotkey) -> String {
        choose|string: String|
            #[trigger] string@ == hotkey_label("Super+"@, hotkey.modifiers@, hotkey.key)
    }
}

} // verus!
