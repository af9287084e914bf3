//! Key messages: telling apart the keys that the platform reports under one
//! virtual-key code, and reading a key event out of a message's parameters.

use vstd::prelude::*;
use crate::keycode::{ScanCode, VirtualKeyCode};
use crate::vkey::{
    portable_key, vkey_to_winit_vkey, VK_CONTROL, VK_LCONTROL, VK_LMENU, VK_MENU, VK_PAUSE,
    VK_RCONTROL, VK_RMENU, VK_SCROLL, VK_SHIFT,
};

verus! {

/// What goes in front of the scancode of an extended key.
pub const EXTENDED_PREFIX: u32 = 0xE000;

/// The virtual-key code that raw input reports for the second event of the
/// pause key.
pub const VK_RAW_PAUSE: i32 = 0xFF;

/// The scancode that the pause key is reported with.
pub const PAUSE_SCANCODE: u32 = 0xE059;

/// The scancode of a message together with its extended flag.
pub open spec fn combined_scancode(scancode: u32, extended: bool) -> u32 {
    (if extended {
        EXTENDED_PREFIX
    } else {
        0u32
    }) | scancode
}

/// The key that a message is about, as a virtual-key code and a scancode,
/// from the code that the message carries, its scancode and its extended
/// flag; none for the message that is to be dropped. `shift_vkey` is what the
/// platform's mapping from scancodes to virtual keys gives for the combined
/// scancode; it is read where the message carries the code of both shift
/// keys.
///
/// The code of both control keys, or of both alt keys, stands for the right
/// key where the flag is set and for the left one where it is not. The pause
/// key comes as two events: the first, a control key with the pause key's
/// code, is dropped, and the second is the pause key. So is the event that the
/// pause key sends when it is pressed with a modifier. Scroll lock, which
/// then carries a wrong code too, is known by its scancode.
pub open spec fn extended_key(vkey: i32, scancode: u32, extended: bool, shift_vkey: i32) -> Option<
    (i32, u32),
> {
    let combined = combined_scancode(scancode, extended);
    if vkey == VK_SHIFT {
        Some((shift_vkey, combined))
    } else if vkey == VK_CONTROL {
        Some((if extended { VK_RCONTROL } else { VK_LCONTROL }, combined))
    } else if vkey == VK_MENU {
        Some((if extended { VK_RMENU } else { VK_LMENU }, combined))
    } else if combined == 0xE01D && vkey == VK_PAUSE {
        None
    } else if combined == 0x45 && (vkey == VK_PAUSE || vkey == VK_RAW_PAUSE) {
        Some((VK_PAUSE, PAUSE_SCANCODE))
    } else if combined == 0xE046 {
        Some((VK_PAUSE, PAUSE_SCANCODE))
    } else if combined == 0x46 {
        Some((VK_SCROLL, combined))
    } else {
        Some((vkey, combined))
    }
}

/// The scancode in the parameter of a key message: its bits 16 to 23.
pub open spec fn key_scancode(lparam: isize) -> u32 {
    ((lparam >> 16) & 0xff) as u32
}

/// The extended flag in the parameter of a key message: its bit 24.
pub open spec fn key_is_extended(lparam: isize) -> bool {
    lparam & 0x0100_0000 != 0
}

/// The virtual-key code in the first parameter of a key message: the low
/// 32 bits of the parameter, read as a number with a sign. What stands above
/// them does not count.
pub open spec fn key_vkey(wparam: usize) -> i32 {
    let low = (wparam as int) % 0x1_0000_0000;
    if low < 0x8000_0000 {
        low as i32
    } else {
        (low - 0x1_0000_0000) as i32
    }
}

/// The key event of a key message with the parameters `wparam` and `lparam`:
/// the scancode, and the key where the virtual-key code stands for one; none
/// for the message that is to be dropped.
pub open spec fn key_params(wparam: usize, lparam: isize, shift_vkey: i32, mapped: u32) -> Option<
    (ScanCode, Option<VirtualKeyCode>),
> {
    match extended_key(key_vkey(wparam), key_scancode(lparam), key_is_extended(lparam), shift_vkey) {
        Some((vkey, scancode)) => Some((scancode, portable_key(vkey, mapped))),
        None => None,
    }
}

/// The scancode of a message together with its extended flag: what the
/// platform's mapping from scancodes to virtual keys is asked about.
pub fn scancode_with_flag(scancode: u32, extended: bool) -> (combined: u32)
    ensures
        combined == combined_scancode(scancode, extended),
{
    (if extended {
        EXTENDED_PREFIX
    } else {
        0u32
    }) | scancode
}

/// Whether the message's code is that of both shift keys: whether the
/// platform's mapping from scancodes to virtual keys has to be asked.
pub fn needs_shift_lookup(vkey: i32) -> (needed: bool)
    ensures
        needed == (vkey == VK_SHIFT),
{
    vkey == VK_SHIFT
}

/// Tells apart the keys that share a virtual-key code.
pub fn handle_extended_keys(vkey: i32, scancode: u32, extended: bool, shift_vkey: i32) -> (key:
    Option<(i32, u32)>)
    ensures
        key == extended_key(vkey, scancode, extended, shift_vkey),
{
    let scancode = scancode_with_flag(scancode, extended);
    if vkey == VK_SHIFT {
        Some((shift_vkey, scancode))
    } else if vkey == VK_CONTROL {
        Some((if extended { VK_RCONTROL } else { VK_LCONTROL }, scancode))
    } else if vkey == VK_MENU {
        Some((if extended { VK_RMENU } else { VK_LMENU }, scancode))
    } else if scancode == 0xE01D && vkey == VK_PAUSE {
        None
    } else if scancode == 0x45 && (vkey == VK_PAUSE || vkey == VK_RAW_PAUSE) {
        Some((VK_PAUSE, PAUSE_SCANCODE))
    } else if scancode == 0xE046 {
        Some((VK_PAUSE, PAUSE_SCANCODE))
    } else if scancode == 0x46 {
        Some((VK_SCROLL, scancode))
    } else {
        Some((vkey, scancode))
    }
}

proof fn lemma_scancode_bits(lparam: isize)
    by (bit_vector)
    ensures
        0 <= (lparam >> 16) & 0xff < 0x100,
{
}

proof fn lemma_low_bits(wparam: usize)
    by (bit_vector)
    ensures
        (wparam & 0xffff_ffff) as u64 == (wparam as u64) % 0x1_0000_0000u64,
{
}

/// The virtual-key code in the first parameter of a key message.
pub fn message_vkey(wparam: usize) -> (vkey: i32)
    ensures
        vkey == key_vkey(wparam),
{
    proof {
        lemma_low_bits(wparam);
    }
    let low: u32 = (wparam & 0xffff_ffff) as u32;
    if low < 0x8000_0000 {
        low as i32
    } else {
        (low - 0x8000_0000) as i32 + i32::MIN
    }
}

/// The scancode in the parameter of a key message.
pub fn message_scancode(lparam: isize) -> (scancode: u32)
    ensures
        scancode == key_scancode(lparam),
        scancode < 0x100,
{
    proof {
        lemma_scancode_bits(lparam);
    }
    ((lparam >> 16) & 0xff) as u32
}

/// The extended flag in the parameter of a key message.
pub fn message_is_extended(lparam: isize) -> (extended: bool)
    ensures
        extended == key_is_extended(lparam),
{
    (lparam & 0x0100_0000) != 0
}

/// Reads the key event out of the parameters of a key message. `shift_vkey`
/// is what the platform's mapping from scancodes to virtual keys gives for the
/// message's scancode with its extended flag, and `mapped` the character that
/// the platform maps to the virtual key that `handle_extended_keys` finds the
/// message to be about.
pub fn process_key_params(wparam: usize, lparam: isize, shift_vkey: i32, mapped: u32) -> (event:
    Option<(ScanCode, Option<VirtualKeyCode>)>)
    ensures
        event == key_params(wparam, lparam, shift_vkey, mapped),
{
    let scancode = message_scancode(lparam);
    let extended = message_is_extended(lparam);
    match handle_extended_keys(message_vkey(wparam), scancode, extended, shift_vkey) {
        Some((vkey, scancode)) => Some((scancode, vkey_to_winit_vkey(vkey, mapped))),
        None => None,
    }
}

/// The extended flag tells the right control key and the right alt key
/// from the left ones, whatever the scancode; which shift key it is, the
/// platform's mapping says, whatever the flag. The scancode goes out with the
/// flag in front of it.
pub proof fn lemma_sides_of_modifiers(scancode: u32, extended: bool, shift_vkey: i32)
    ensures
        extended_key(VK_CONTROL, scancode, true, shift_vkey) == Some(
            (VK_RCONTROL, combined_scancode(scancode, true)),
        ),
        extended_key(VK_CONTROL, scancode, false, shift_vkey) == Some(
            (VK_LCONTROL, combined_scancode(scancode, false)),
        ),
        extended_key(VK_MENU, scancode, true, shift_vkey) == Some(
            (VK_RMENU, combined_scancode(scancode, true)),
        ),
        extended_key(VK_MENU, scancode, false, shift_vkey) == Some(
            (VK_LMENU, combined_scancode(scancode, false)),
        ),
        extended_key(VK_SHIFT, scancode, extended, shift_vkey) == Some(
            (shift_vkey, combined_scancode(scancode, extended)),
        ),
{
}

/// What the platform's mapping gives is read where the message carries the
/// code of both shift keys, and nowhere else.
pub proof fn lemma_lookup_matters_for_shift_only(
    vkey: i32,
    scancode: u32,
    extended: bool,
    shift_vkey: i32,
    other: i32,
)
    requires
        vkey != VK_SHIFT,
    ensures
        extended_key(vkey, scancode, extended, shift_vkey) == extended_key(
            vkey,
            scancode,
            extended,
            other,
        ),
{
}

/// Of the two events that the pause key comes as, the first is dropped and
/// the second is the pause key, under the scancode that the pause key is
/// reported with. An event with the scancode that the pause key has when a
/// modifier is held is the pause key too, unless it carries the code of the
/// shift, control or alt keys, which is settled first.
pub proof fn lemma_pause_key(vkey: i32, scancode: u32, extended: bool, shift_vkey: i32)
    ensures
        vkey == VK_PAUSE && combined_scancode(scancode, extended) == 0xE01D ==> extended_key(
            vkey,
            scancode,
            extended,
            shift_vkey,
        ) is None,
        (vkey == VK_PAUSE || vkey == VK_RAW_PAUSE) && combined_scancode(scancode, extended) == 0x45
            ==> extended_key(vkey, scancode, extended, shift_vkey) == Some(
            (VK_PAUSE, PAUSE_SCANCODE),
        ),
        vkey != VK_SHIFT && vkey != VK_CONTROL && vkey != VK_MENU && combined_scancode(
            scancode,
            extended,
        ) == 0xE046 ==> extended_key(vkey, scancode, extended, shift_vkey) == Some(
            (VK_PAUSE, PAUSE_SCANCODE),
        ),
        extended_key(vkey, scancode, extended, shift_vkey) is None ==> vkey == VK_PAUSE
            && combined_scancode(scancode, extended) == 0xE01D,
{
}

/// Only the low 32 bits of the first parameter count: two parameters that
/// agree in them give the same key event.
pub proof fn lemma_high_bits_of_wparam_do_not_count(
    wparam: usize,
    other: usize,
    lparam: isize,
    shift_vkey: i32,
    mapped: u32,
)
    requires
        (wparam as int) % 0x1_0000_0000 == (other as int) % 0x1_0000_0000,
    ensures
        key_vkey(wparam) == key_vkey(other),
        key_params(wparam, lparam, shift_vkey, mapped) == key_params(
            other,
            lparam,
            shift_vkey,
            mapped,
        ),
{
}

/// The scancode of a message whose scancode fits in a byte, with its
/// extended flag: the flag adds `0xE000`.
pub proof fn lemma_combined_scancode(scancode: u32, extended: bool)
    requires
        scancode < 0x100,
    ensures
        combined_scancode(scancode, extended) == scancode + if extended {
            0xE000int
        } else {
            0int
        },
{
    assert(scancode < 0x100 ==> 0xE000u32 | scancode == 0xE000 + scancode) by (bit_vector);
    assert(0u32 | scancode == scancode) by (bit_vector);
}

} // verus!
