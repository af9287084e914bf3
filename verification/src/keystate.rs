//! What the platform reports of the keyboard's state: which modifiers are
//! held, and which keys are down.

use vstd::prelude::*;
use crate::modifiers::{Modifier, ModifiersState};

verus! {

/// The states of the keys that the modifiers are read from, each as the
/// platform's query for one key returns it.
#[derive(Clone, Copy, Debug)]
pub struct ModifierKeyStates {
    /// Either shift key.
    pub shift: i16,
    /// Either control key.
    pub control: i16,
    /// Either alt key.
    pub menu: i16,
    /// The left logo key.
    pub lwin: i16,
    /// The right logo key.
    pub rwin: i16,
    /// The right alt key, which is AltGr where the layout has one.
    pub rmenu: i16,
}

/// Whether a key is down, by the state that the query for one key returns:
/// the high-order bit of the sixteen says so.
pub open spec fn is_key_pressed(state: i16) -> bool {
    state < 0
}

/// Whether a key is down, by its entry in the state of the whole keyboard:
/// the high-order bit of the eight says so.
pub open spec fn is_entry_pressed(entry: u8) -> bool {
    entry >= 0x80
}

/// Whether AltGr is held: the layout has one, and the right alt key is down.
pub open spec fn altgr_held(states: ModifierKeyStates, layout_uses_altgr: bool) -> bool {
    layout_uses_altgr && is_key_pressed(states.rmenu)
}

/// Whether `modifier` is held, by the states of the keys. AltGr, which the
/// platform reports as control and alt together, counts as neither.
pub open spec fn modifier_held(
    states: ModifierKeyStates,
    layout_uses_altgr: bool,
    modifier: Modifier,
) -> bool {
    match modifier {
        Modifier::Shift => is_key_pressed(states.shift),
        Modifier::Ctrl => is_key_pressed(states.control) && !altgr_held(states, layout_uses_altgr),
        Modifier::Alt => is_key_pressed(states.menu) && !altgr_held(states, layout_uses_altgr),
        Modifier::Logo => is_key_pressed(states.lwin) || is_key_pressed(states.rwin),
    }
}

/// The keys that are down in the state of the whole keyboard: the places of
/// the entries that say so, in rising order.
pub open spec fn pressed_keys(keyboard_state: Seq<u8>) -> Seq<i32>
    decreases keyboard_state.len(),
{
    if keyboard_state.len() == 0 {
        Seq::empty()
    } else {
        let before = pressed_keys(keyboard_state.drop_last());
        if is_entry_pressed(keyboard_state.last()) {
            before.push((keyboard_state.len() - 1) as i32)
        } else {
            before
        }
    }
}

/// Whether a key is down, by the state that the query for one key returns.
pub fn key_pressed(state: i16) -> (pressed: bool)
    ensures
        pressed == is_key_pressed(state),
{
    state < 0
}

/// The modifiers that are held, by the states of their keys and by whether
/// the layout has AltGr.
pub fn get_key_mods(states: &ModifierKeyStates, layout_uses_altgr: bool) -> (mods: ModifiersState)
    ensures
        mods@ == Set::new(|m: Modifier| modifier_held(*states, layout_uses_altgr, m)),
{
    let filter_out_altgr = layout_uses_altgr && key_pressed(states.rmenu);
    let mut mods = ModifiersState::empty();
    mods.set(Modifier::Shift, key_pressed(states.shift));
    mods.set(Modifier::Ctrl, key_pressed(states.control) && !filter_out_altgr);
    mods.set(Modifier::Alt, key_pressed(states.menu) && !filter_out_altgr);
    mods.set(Modifier::Logo, key_pressed(states.lwin) || key_pressed(states.rwin));
    assert(mods@ =~= Set::new(|m: Modifier| modifier_held(*states, layout_uses_altgr, m)));
    mods
}

proof fn lemma_high_bit(entry: u8)
    by (bit_vector)
    ensures
        (entry & 0x80 != 0) == (entry >= 0x80),
{
}

/// The keys that are down, by the state of the whole keyboard.
pub fn get_pressed_keys(keyboard_state: &[u8; 256]) -> (keys: Vec<i32>)
    ensures
        keys@ == pressed_keys(keyboard_state@),
{
    let mut keys: Vec<i32> = Vec::new();
    let mut i: usize = 0;
    while i < 256
        invariant
            i <= 256,
            keyboard_state@.len() == 256,
            keys@ == pressed_keys(keyboard_state@.take(i as int)),
        decreases 256 - i,
    {
        proof {
            lemma_high_bit(keyboard_state@[i as int]);
            assert(keyboard_state@.take(i + 1).drop_last() =~= keyboard_state@.take(i as int));
        }
        if keyboard_state[i] & 0x80 != 0 {
            keys.push(i as i32);
        }
        i += 1;
    }
    assert(keyboard_state@.take(256) =~= keyboard_state@);
    keys
}

/// What `pressed_keys` lists: every key that is down, and no other, each
/// once, in rising order.
pub proof fn lemma_pressed_keys(keyboard_state: Seq<u8>)
    requires
        keyboard_state.len() <= i32::MAX,
    ensures
        forall|k: int|
            0 <= k < pressed_keys(keyboard_state).len() ==> 0 <= (#[trigger] pressed_keys(
                keyboard_state,
            )[k]) < keyboard_state.len() && is_entry_pressed(
                keyboard_state[pressed_keys(keyboard_state)[k] as int],
            ),
        forall|k: int, l: int|
            0 <= k < l < pressed_keys(keyboard_state).len() ==> (#[trigger] pressed_keys(
                keyboard_state,
            )[k]) < (#[trigger] pressed_keys(keyboard_state)[l]),
        forall|i: int|
            0 <= i < keyboard_state.len() && is_entry_pressed(#[trigger] keyboard_state[i])
                ==> pressed_keys(keyboard_state).contains(i as i32),
    decreases keyboard_state.len(),
{
    if keyboard_state.len() > 0 {
        let rest = keyboard_state.drop_last();
        lemma_pressed_keys(rest);
        let keys = pressed_keys(keyboard_state);
        let before = pressed_keys(rest);
        assert forall|i: int|
            0 <= i < keyboard_state.len() && is_entry_pressed(
                #[trigger] keyboard_state[i],
            ) implies keys.contains(i as i32) by {
            if i < rest.len() {
                assert(is_entry_pressed(rest[i]));
                let k = choose|k: int| 0 <= k < before.len() && before[k] == i as i32;
                assert(keys[k] == i as i32);
            } else {
                assert(keys[keys.len() - 1] == i as i32);
            }
        }
    }
}

} // verus!
