use std::cell::Cell;

use keymenu::layout::{
    get_char, keyboard_state_altgr, keyboard_state_empty, probe_altgr, LayoutCache,
};

fn same_output() -> [Option<char>; 256] {
    let mut chars = [None; 256];
    chars[0x41] = Some('a');
    chars[0x45] = Some('e');
    chars[0x51] = Some('q');
    chars
}

fn altgr_output() -> [Option<char>; 256] {
    let mut chars = same_output();
    chars[0x51] = Some('@');
    chars
}

/// One detection on `cache`, which counts in `probes` how often the keys
/// were tried.
fn detect(
    cache: &mut LayoutCache,
    hkl: usize,
    altgr: [Option<char>; 256],
    probes: &Cell<u32>,
) -> bool {
    cache.layout_uses_altgr(hkl, || {
        probes.set(probes.get() + 1);
        (same_output(), altgr)
    })
}

#[test]
fn detection_on_an_unchanged_layout_tries_no_key() {
    let probes = Cell::new(0);
    let mut cache = LayoutCache::new();
    assert!(detect(&mut cache, 0x0407_0407, altgr_output(), &probes));
    assert_eq!(probes.get(), 1);
    assert!(detect(&mut cache, 0x0407_0407, altgr_output(), &probes));
    assert!(detect(&mut cache, 0x0407_0407, same_output(), &probes));
    assert!(detect(&mut cache, 0x0407_0407, [None; 256], &probes));
    assert_eq!(probes.get(), 1);
}

#[test]
fn detection_on_a_changed_layout_tries_the_keys_once() {
    let probes = Cell::new(0);
    let mut cache = LayoutCache::new();
    assert!(detect(&mut cache, 0x0407_0407, altgr_output(), &probes));
    assert_eq!(probes.get(), 1);
    assert!(!detect(&mut cache, 0x0409_0409, same_output(), &probes));
    assert_eq!(probes.get(), 2);
    assert!(!detect(&mut cache, 0x0409_0409, altgr_output(), &probes));
    assert_eq!(probes.get(), 2);
    assert!(detect(&mut cache, 0x0407_0407, altgr_output(), &probes));
    assert_eq!(probes.get(), 3);
}

#[test]
fn detection_on_the_null_layout_of_a_new_cache_tries_no_key() {
    let probes = Cell::new(0);
    let mut cache = LayoutCache::new();
    assert!(!detect(&mut cache, 0, altgr_output(), &probes));
    assert_eq!(probes.get(), 0);
}

#[test]
fn detection_leaves_its_answer_in_the_cache() {
    let probes = Cell::new(0);
    let mut cache = LayoutCache::new();
    assert_eq!(cache.lookup(9), None);
    assert!(detect(&mut cache, 9, altgr_output(), &probes));
    assert_eq!(cache.lookup(9), Some(true));
    assert_eq!(cache.lookup(0), None);
}

#[test]
fn char_of_one_unit() {
    assert_eq!(get_char(1, &[0x61, 0, 0, 0, 0]), Some('a'));
    assert_eq!(get_char(1, &[0x20AC, 0, 0, 0, 0]), Some('€'));
    assert_eq!(get_char(1, &[0, 0, 0, 0, 0]), Some('\0'));
    assert_eq!(get_char(1, &[0xD7FF, 0, 0, 0, 0]), Some('\u{D7FF}'));
    assert_eq!(get_char(1, &[0xE000, 0, 0, 0, 0]), Some('\u{E000}'));
    assert_eq!(get_char(1, &[0xFFFF, 0, 0, 0, 0]), Some('\u{FFFF}'));
}

#[test]
fn char_is_the_first_of_several() {
    assert_eq!(get_char(2, &[0x61, 0x62, 0, 0, 0]), Some('a'));
    assert_eq!(get_char(5, &[0x7A, 0x79, 0x78, 0x77, 0x76]), Some('z'));
}

#[test]
fn char_of_a_surrogate_pair() {
    assert_eq!(get_char(2, &[0xD83D, 0xDE00, 0, 0, 0]), Some('\u{1F600}'));
    assert_eq!(get_char(2, &[0xD800, 0xDC00, 0, 0, 0]), Some('\u{10000}'));
    assert_eq!(get_char(2, &[0xDBFF, 0xDFFF, 0, 0, 0]), Some('\u{10FFFF}'));
    assert_eq!(get_char(1, &[0xD83D, 0xDE00, 0, 0, 0]), Some('\u{1F600}'));
}

#[test]
fn no_char_of_a_lone_surrogate() {
    assert_eq!(get_char(1, &[0xD83D, 0, 0, 0, 0]), None);
    assert_eq!(get_char(2, &[0xD83D, 0x61, 0, 0, 0]), None);
    assert_eq!(get_char(2, &[0xD83D, 0xD83D, 0, 0, 0]), None);
    assert_eq!(get_char(1, &[0xDE00, 0, 0, 0, 0]), None);
    assert_eq!(get_char(2, &[0xDC00, 0xD800, 0, 0, 0]), None);
    assert_eq!(get_char(2, &[0xDFFF, 0xDFFF, 0, 0, 0]), None);
    assert_eq!(get_char(2, &[0xDBFF, 0xDBFF, 0, 0, 0]), None);
    assert_eq!(get_char(2, &[0xD800, 0xE000, 0, 0, 0]), None);
}

#[test]
fn no_char_where_the_decoding_wrote_none() {
    assert_eq!(get_char(0, &[0x61, 0, 0, 0, 0]), None);
    assert_eq!(get_char(-1, &[0x61, 0, 0, 0, 0]), None);
    assert_eq!(get_char(i32::MIN, &[0x61, 0x62, 0x63, 0x64, 0x65]), None);
}

#[test]
fn empty_keyboard_state_has_no_key_down() {
    assert_eq!(keyboard_state_empty(), [0u8; 256]);
}

#[test]
fn altgr_keyboard_state_has_control_and_alt_down() {
    let state = keyboard_state_altgr();
    for (i, entry) in state.iter().enumerate() {
        let expected = if i == 0x11 || i == 0x12 { 0x80 } else { 0 };
        assert_eq!(*entry, expected, "{:#x}", i);
    }
}

#[test]
fn layout_without_output_has_no_altgr() {
    assert!(!probe_altgr(&[None; 256], &[None; 256]));
}

#[test]
fn layout_with_the_same_output_has_no_altgr() {
    assert!(!probe_altgr(&same_output(), &same_output()));
    assert!(!probe_altgr(&[Some('x'); 256], &[Some('x'); 256]));
}

#[test]
fn key_that_produces_nothing_with_altgr_does_not_count() {
    let mut altgr = same_output();
    altgr[0x45] = None;
    assert!(!probe_altgr(&same_output(), &altgr));
    assert!(!probe_altgr(&altgr, &same_output()));
    assert!(!probe_altgr(&same_output(), &[None; 256]));
    assert!(!probe_altgr(&[None; 256], &same_output()));
}

#[test]
fn layout_with_one_changed_key_has_altgr() {
    let mut altgr = same_output();
    altgr[0x45] = Some('€');
    assert!(probe_altgr(&same_output(), &altgr));
    assert!(probe_altgr(&altgr, &same_output()));
}

#[test]
fn every_key_is_tried() {
    for v_key in [0usize, 1, 0x7F, 0x80, 0xFE, 0xFF] {
        let mut plain = [None; 256];
        let mut altgr = [None; 256];
        plain[v_key] = Some('q');
        altgr[v_key] = Some('@');
        assert!(probe_altgr(&plain, &altgr), "{:#x}", v_key);
        altgr[v_key] = Some('q');
        assert!(!probe_altgr(&plain, &altgr), "{:#x}", v_key);
    }
}

#[test]
fn new_cache_answers_for_the_null_layout() {
    let cache = LayoutCache::new();
    assert_eq!(cache.lookup(0), Some(false));
}

#[test]
fn new_layout_has_to_be_probed() {
    let cache = LayoutCache::new();
    assert_eq!(cache.lookup(0x0409_0409), None);
    assert_eq!(cache.lookup(0x0409_0409), None);
    assert_eq!(cache.lookup(usize::MAX), None);
}

#[test]
fn unchanged_layout_is_answered_from_the_cache() {
    let mut altgr = same_output();
    altgr[0x51] = Some('@');
    let mut cache = LayoutCache::new();
    assert_eq!(cache.lookup(0x0407_0407), None);
    assert!(cache.probe(0x0407_0407, &same_output(), &altgr));
    assert_eq!(cache.lookup(0x0407_0407), Some(true));
    assert_eq!(cache.lookup(0x0407_0407), Some(true));
}

#[test]
fn changed_layout_is_probed_once() {
    let mut altgr = same_output();
    altgr[0x51] = Some('@');
    let mut cache = LayoutCache::new();
    assert!(cache.probe(0x0407_0407, &same_output(), &altgr));
    assert_eq!(cache.lookup(0x0409_0409), None);
    assert!(!cache.probe(0x0409_0409, &same_output(), &same_output()));
    assert_eq!(cache.lookup(0x0409_0409), Some(false));
    assert_eq!(cache.lookup(0x0409_0409), Some(false));
}

#[test]
fn cache_holds_one_layout() {
    let mut altgr = same_output();
    altgr[0x51] = Some('@');
    let mut cache = LayoutCache::new();
    assert!(cache.probe(7, &same_output(), &altgr));
    assert_eq!(cache.lookup(0), None);
    assert!(!cache.probe(8, &same_output(), &same_output()));
    assert_eq!(cache.lookup(7), None);
    assert_eq!(cache.lookup(8), Some(false));
    assert!(cache.probe(7, &same_output(), &altgr));
    assert_eq!(cache.lookup(7), Some(true));
    assert_eq!(cache.lookup(8), None);
}

#[test]
fn probing_the_null_layout_replaces_the_first_answer() {
    let mut altgr = same_output();
    altgr[0x51] = Some('@');
    let mut cache = LayoutCache::new();
    assert!(cache.probe(0, &same_output(), &altgr));
    assert_eq!(cache.lookup(0), Some(true));
}
