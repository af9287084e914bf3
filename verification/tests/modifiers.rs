use keymenu::keystate::{get_key_mods, get_pressed_keys, key_pressed, ModifierKeyStates};
use keymenu::modifiers::{Modifier, ModifiersState, ModifiersStateSide, SideModifier};

const ALL_MODIFIERS: [Modifier; 4] = [Modifier::Shift, Modifier::Ctrl, Modifier::Alt, Modifier::Logo];

const ALL_SIDES: [SideModifier; 8] = [
    SideModifier::LShift,
    SideModifier::RShift,
    SideModifier::LCtrl,
    SideModifier::RCtrl,
    SideModifier::LAlt,
    SideModifier::RAlt,
    SideModifier::LLogo,
    SideModifier::RLogo,
];

fn side_state(keys: &[SideModifier]) -> ModifiersStateSide {
    let mut state = ModifiersStateSide::empty();
    for key in keys {
        state.insert(*key);
    }
    state
}

fn held(state: &ModifiersState) -> Vec<Modifier> {
    ALL_MODIFIERS.iter().copied().filter(|m| state.contains(*m)).collect()
}

fn held_sides(state: &ModifiersStateSide) -> Vec<SideModifier> {
    ALL_SIDES.iter().copied().filter(|m| state.contains(*m)).collect()
}

const DOWN: i16 = i16::MIN;

fn released() -> ModifierKeyStates {
    ModifierKeyStates { shift: 0, control: 0, menu: 0, lwin: 0, rwin: 0, rmenu: 0 }
}

#[test]
fn empty_state_holds_nothing() {
    let state = ModifiersState::empty();
    assert!(!state.shift());
    assert!(!state.ctrl());
    assert!(!state.alt());
    assert!(!state.logo());
    assert_eq!(held(&state), vec![]);
}

#[test]
fn insert_sets_one_modifier_only() {
    for modifier in ALL_MODIFIERS {
        let mut state = ModifiersState::empty();
        state.insert(modifier);
        assert_eq!(held(&state), vec![modifier]);
    }
}

#[test]
fn insert_twice_is_insert_once() {
    let mut once = ModifiersState::empty();
    once.insert(Modifier::Ctrl);
    let mut twice = once;
    twice.insert(Modifier::Ctrl);
    assert_eq!(once, twice);
}

#[test]
fn insertion_order_does_not_matter() {
    let mut a = ModifiersState::empty();
    a.insert(Modifier::Alt);
    a.insert(Modifier::Ctrl);
    let mut b = ModifiersState::empty();
    b.insert(Modifier::Ctrl);
    b.insert(Modifier::Alt);
    assert_eq!(a, b);
}

#[test]
fn remove_clears_one_modifier_only() {
    let mut state = ModifiersState::empty();
    for modifier in ALL_MODIFIERS {
        state.insert(modifier);
    }
    state.remove(Modifier::Alt);
    assert_eq!(held(&state), vec![Modifier::Shift, Modifier::Ctrl, Modifier::Logo]);
    state.remove(Modifier::Alt);
    assert_eq!(held(&state), vec![Modifier::Shift, Modifier::Ctrl, Modifier::Logo]);
}

#[test]
fn set_inserts_or_removes() {
    let mut state = ModifiersState::empty();
    state.set(Modifier::Logo, true);
    state.set(Modifier::Shift, true);
    assert_eq!(held(&state), vec![Modifier::Shift, Modifier::Logo]);
    state.set(Modifier::Logo, false);
    state.set(Modifier::Ctrl, false);
    assert_eq!(held(&state), vec![Modifier::Shift]);
}

#[test]
fn modifier_sides_pair_up() {
    assert_eq!(Modifier::Shift.left(), SideModifier::LShift);
    assert_eq!(Modifier::Shift.right(), SideModifier::RShift);
    assert_eq!(Modifier::Ctrl.left(), SideModifier::LCtrl);
    assert_eq!(Modifier::Ctrl.right(), SideModifier::RCtrl);
    assert_eq!(Modifier::Alt.left(), SideModifier::LAlt);
    assert_eq!(Modifier::Alt.right(), SideModifier::RAlt);
    assert_eq!(Modifier::Logo.left(), SideModifier::LLogo);
    assert_eq!(Modifier::Logo.right(), SideModifier::RLogo);
}

#[test]
fn side_state_keeps_each_key_apart() {
    for key in ALL_SIDES {
        let state = side_state(&[key]);
        assert_eq!(held_sides(&state), vec![key]);
    }
    assert_eq!(held_sides(&ModifiersStateSide::empty()), vec![]);
}

#[test]
fn side_remove_clears_one_key_only() {
    for key in ALL_SIDES {
        let mut state = side_state(&ALL_SIDES);
        state.remove(key);
        let expected: Vec<SideModifier> = ALL_SIDES.iter().copied().filter(|k| *k != key).collect();
        assert_eq!(held_sides(&state), expected);
        state.remove(key);
        assert_eq!(held_sides(&state), expected);
    }
}

#[test]
fn side_remove_of_a_released_key_changes_nothing() {
    let mut state = side_state(&[SideModifier::LShift, SideModifier::RAlt]);
    state.remove(SideModifier::RShift);
    state.remove(SideModifier::LAlt);
    assert_eq!(state, side_state(&[SideModifier::LShift, SideModifier::RAlt]));
    let mut empty = ModifiersStateSide::empty();
    empty.remove(SideModifier::LCtrl);
    assert_eq!(empty, ModifiersStateSide::empty());
}

#[test]
fn side_set_inserts_or_removes() {
    let mut state = ModifiersStateSide::empty();
    state.set(SideModifier::RCtrl, true);
    state.set(SideModifier::LLogo, true);
    state.set(SideModifier::RCtrl, true);
    assert_eq!(held_sides(&state), vec![SideModifier::RCtrl, SideModifier::LLogo]);
    state.set(SideModifier::RCtrl, false);
    state.set(SideModifier::LCtrl, false);
    assert_eq!(held_sides(&state), vec![SideModifier::LLogo]);
    state.set(SideModifier::LLogo, false);
    assert_eq!(state, ModifiersStateSide::empty());
}

#[test]
fn side_insert_then_remove_gives_the_state_back() {
    for key in ALL_SIDES {
        let before = side_state(&[SideModifier::LShift, SideModifier::RLogo]);
        let mut state = before;
        if !before.contains(key) {
            state.insert(key);
            assert_ne!(state, before);
            state.remove(key);
            assert_eq!(state, before);
        }
    }
}

#[test]
fn filter_out_altgr_drops_ctrl_and_alt_of_both_sides() {
    let state = side_state(&ALL_SIDES);
    let filtered = state.filter_out_altgr(true);
    assert_eq!(
        held_sides(&filtered),
        vec![SideModifier::LShift, SideModifier::RShift, SideModifier::LLogo, SideModifier::RLogo]
    );
}

#[test]
fn filter_out_altgr_drops_the_synthetic_left_ctrl() {
    let state = side_state(&[SideModifier::LCtrl, SideModifier::RAlt, SideModifier::LShift]);
    let filtered = state.filter_out_altgr(true);
    assert_eq!(held_sides(&filtered), vec![SideModifier::LShift]);
}

#[test]
fn filter_out_altgr_needs_the_right_alt_key() {
    let state = side_state(&[SideModifier::LCtrl, SideModifier::LAlt, SideModifier::RCtrl]);
    assert_eq!(state.filter_out_altgr(true), state);
}

#[test]
fn filter_out_altgr_needs_a_layout_with_altgr() {
    let state = side_state(&[SideModifier::LCtrl, SideModifier::RAlt]);
    assert_eq!(state.filter_out_altgr(false), state);
}

#[test]
fn collapse_joins_left_and_right() {
    assert_eq!(held(&side_state(&[SideModifier::LShift]).collapse()), vec![Modifier::Shift]);
    assert_eq!(held(&side_state(&[SideModifier::RShift]).collapse()), vec![Modifier::Shift]);
    assert_eq!(
        held(&side_state(&[SideModifier::LCtrl, SideModifier::RCtrl]).collapse()),
        vec![Modifier::Ctrl]
    );
    assert_eq!(
        held(&side_state(&[SideModifier::RAlt, SideModifier::LLogo]).collapse()),
        vec![Modifier::Alt, Modifier::Logo]
    );
    assert_eq!(held(&side_state(&[]).collapse()), vec![]);
    assert_eq!(held(&side_state(&ALL_SIDES).collapse()), ALL_MODIFIERS.to_vec());
}

#[test]
fn from_side_state_is_collapse() {
    for key in ALL_SIDES {
        let side = side_state(&[key, SideModifier::RLogo]);
        assert_eq!(ModifiersState::from(side), side.collapse());
    }
    let state: ModifiersState = side_state(&[SideModifier::RCtrl]).into();
    assert_eq!(held(&state), vec![Modifier::Ctrl]);
}

#[test]
fn altgr_is_neither_ctrl_nor_alt_once_filtered_and_collapsed() {
    let state = side_state(&[SideModifier::LCtrl, SideModifier::RAlt, SideModifier::RShift]);
    assert_eq!(held(&state.filter_out_altgr(true).collapse()), vec![Modifier::Shift]);
    assert_eq!(
        held(&state.filter_out_altgr(false).collapse()),
        vec![Modifier::Shift, Modifier::Ctrl, Modifier::Alt]
    );
}

#[test]
fn key_pressed_reads_the_high_order_bit() {
    assert!(key_pressed(i16::MIN));
    assert!(key_pressed(-1));
    assert!(key_pressed(i16::MIN | 1));
    assert!(!key_pressed(0));
    assert!(!key_pressed(1));
    assert!(!key_pressed(i16::MAX));
}

#[test]
fn key_mods_of_released_keys_are_empty() {
    assert_eq!(get_key_mods(&released(), false), ModifiersState::empty());
    assert_eq!(get_key_mods(&released(), true), ModifiersState::empty());
}

#[test]
fn key_mods_read_each_key() {
    let shift = ModifierKeyStates { shift: DOWN, ..released() };
    assert_eq!(held(&get_key_mods(&shift, false)), vec![Modifier::Shift]);
    let control = ModifierKeyStates { control: DOWN, ..released() };
    assert_eq!(held(&get_key_mods(&control, false)), vec![Modifier::Ctrl]);
    let menu = ModifierKeyStates { menu: DOWN, ..released() };
    assert_eq!(held(&get_key_mods(&menu, false)), vec![Modifier::Alt]);
    let lwin = ModifierKeyStates { lwin: DOWN, ..released() };
    assert_eq!(held(&get_key_mods(&lwin, false)), vec![Modifier::Logo]);
    let rwin = ModifierKeyStates { rwin: DOWN, ..released() };
    assert_eq!(held(&get_key_mods(&rwin, false)), vec![Modifier::Logo]);
}

#[test]
fn key_mods_ignore_the_toggle_bit() {
    let toggled = ModifierKeyStates { shift: 1, control: 1, menu: 1, lwin: 1, rwin: 1, rmenu: 1 };
    assert_eq!(get_key_mods(&toggled, true), ModifiersState::empty());
}

#[test]
fn key_mods_never_report_altgr_as_ctrl_or_alt() {
    let altgr = ModifierKeyStates {
        shift: DOWN,
        control: DOWN,
        menu: DOWN,
        lwin: 0,
        rwin: DOWN,
        rmenu: DOWN,
    };
    assert_eq!(held(&get_key_mods(&altgr, true)), vec![Modifier::Shift, Modifier::Logo]);
}

#[test]
fn key_mods_keep_ctrl_and_alt_without_altgr() {
    let keys = ModifierKeyStates {
        shift: 0,
        control: DOWN,
        menu: DOWN,
        lwin: 0,
        rwin: 0,
        rmenu: DOWN,
    };
    assert_eq!(held(&get_key_mods(&keys, false)), vec![Modifier::Ctrl, Modifier::Alt]);
    let left_alt = ModifierKeyStates { control: DOWN, menu: DOWN, ..released() };
    assert_eq!(held(&get_key_mods(&left_alt, true)), vec![Modifier::Ctrl, Modifier::Alt]);
}

#[test]
fn pressed_keys_of_an_idle_keyboard_are_none() {
    assert_eq!(get_pressed_keys(&[0u8; 256]), Vec::<i32>::new());
    assert_eq!(get_pressed_keys(&[0x7f; 256]), Vec::<i32>::new());
}

#[test]
fn pressed_keys_come_in_rising_order() {
    let mut state = [0u8; 256];
    state[0x41] = 0x80;
    state[0x10] = 0x81;
    state[0xff] = 0xff;
    state[0x00] = 0x80;
    state[0x20] = 0x01;
    assert_eq!(get_pressed_keys(&state), vec![0x00, 0x10, 0x41, 0xff]);
}

#[test]
fn pressed_keys_of_a_keyboard_with_every_key_down() {
    let keys = get_pressed_keys(&[0x80; 256]);
    assert_eq!(keys, (0..256).collect::<Vec<i32>>());
}
