//! Accelerator records: what a hotkey and a command id become for the
//! platform's accelerator table.

use vstd::prelude::*;
use crate::hotkey::Hotkey;
use crate::modifiers::Modifier;
use crate::vkey::{
    lemma_native_round_trip, lemma_native_vkey_range, native_vkey, portable_key,
    winit_vkey_to_vkey,
};

verus! {

/// The key of the record is a virtual-key code, not a character.
pub const FVIRTKEY: u8 = 0x01;

/// The shift key must be held.
pub const FSHIFT: u8 = 0x04;

/// The control key must be held.
pub const FCONTROL: u8 = 0x08;

/// The alt key must be held.
pub const FALT: u8 = 0x10;

/// One record of an accelerator table: the keystroke, as flags and a
/// virtual-key code, and the command that it sends.
#[derive(Clone, Copy, Debug, PartialEq, Eq, Structural)]
pub struct Accelerator {
    pub f_virt: u8,
    pub key: u16,
    pub cmd: u16,
}

/// The flags of a record whose keystroke needs the modifiers `held`. The
/// logo key has no flag.
pub open spec fn accelerator_flags(held: Set<Modifier>) -> int {
    FVIRTKEY + (if held.contains(Modifier::Ctrl) {
        FCONTROL as int
    } else {
        0
    }) + (if held.contains(Modifier::Alt) {
        FALT as int
    } else {
        0
    }) + (if held.contains(Modifier::Shift) {
        FSHIFT as int
    } else {
        0
    })
}

/// The record for `hotkey` and the command `id`; none where the key has no
/// virtual-key code.
pub open spec fn accelerator_of(hotkey: Hotkey, id: u16) -> Option<Accelerator> {
    match native_vkey(hotkey.key) {
        Some(vkey) => Some(
            Accelerator {
                f_virt: accelerator_flags(hotkey.modifiers@) as u8,
                key: vkey as u16,
                cmd: id,
            },
        ),
        None => None,
    }
}

proof fn lemma_flag_bits(c: u8, a: u8, s: u8)
    by (bit_vector)
    requires
        c == 0 || c == 0x08,
        a == 0 || a == 0x10,
        s == 0 || s == 0x04,
    ensures
        ((0x01u8 | c) | a) | s == 0x01 + c + a + s,
{
}

proof fn lemma_low_byte(vkey: i32)
    by (bit_vector)
    requires
        0 <= vkey < 0x100,
    ensures
        vkey & 0x00ff == vkey,
{
}

impl Accelerator {
    /// The record for `hotkey` and the command `id`; none where the key has
    /// no virtual-key code.
    pub fn parse(hotkey: &Hotkey, id: u16) -> (accelerator: Option<Self>)
        ensures
            accelerator == accelerator_of(*hotkey, id),
    {
        let c: u8 = if hotkey.modifiers.ctrl() { FCONTROL } else { 0 };
        let a: u8 = if hotkey.modifiers.alt() { FALT } else { 0 };
        let s: u8 = if hotkey.modifiers.shift() { FSHIFT } else { 0 };
        let f_virt: u8 = FVIRTKEY | c | a | s;
        proof {
            lemma_flag_bits(c, a, s);
        }
        match winit_vkey_to_vkey(hotkey.key) {
            Some(vkey) => {
                proof {
                    lemma_native_vkey_range(hotkey.key);
                    lemma_low_byte(vkey);
                }
                let key = (vkey & 0x00ff) as u16;
                Some(Accelerator { f_virt, key, cmd: id })
            },
            None => None,
        }
    }
}

/// The key of a hotkey's record is the code of the hotkey's key: taken back
/// through the table of codes, whatever the layout, it is that key again.
pub proof fn lemma_accelerator_round_trip(hotkey: Hotkey, id: u16, mapped: u32)
    requires
        accelerator_of(hotkey, id) is Some,
    ensures
        portable_key(accelerator_of(hotkey, id)->0.key as i32, mapped) == Some(hotkey.key),
        accelerator_of(hotkey, id)->0.cmd == id,
{
    lemma_native_vkey_range(hotkey.key);
    lemma_native_round_trip(hotkey.key, mapped);
}

} // verus!
