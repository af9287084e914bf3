//! Whether the keyboard layout has an AltGr key.
//!
//! The platform does not say. A layout has AltGr where holding control and
//! alt, which is how AltGr is reported, changes the character that some key
//! produces. Every key is tried, once for each change of layout: the answer
//! is kept with the handle of the layout that it was found for.

use vstd::prelude::*;
use crate::vkey::{VK_CONTROL, VK_MENU};

verus! {

/// In the state of the whole keyboard, the entry of a key that is down.
pub const KEY_DOWN: u8 = 0x80;

/// Whether `c` is a Unicode scalar value.
pub open spec fn is_scalar_value(c: u32) -> bool {
    c <= 0xD7FF || 0xE000 <= c <= 0x10FFFF
}

/// The character at the head of `units`, read as UTF-16: a unit that is no
/// surrogate stands for itself, and a high surrogate with a low one behind it
/// for the character that the pair encodes. There is none where `units` is
/// empty or begins with a surrogate that is not the first of such a pair.
pub open spec fn first_utf16_char(units: Seq<u16>) -> Option<char> {
    if units.len() == 0 {
        None
    } else if units[0] < 0xD800 || units[0] > 0xDFFF {
        Some(units[0] as char)
    } else if units[0] <= 0xDBFF && units.len() > 1 && 0xDC00 <= units[1] <= 0xDFFF {
        Some((0x10000 + (units[0] - 0xD800) * 0x400 + (units[1] - 0xDC00)) as char)
    } else {
        None
    }
}

/// Whether holding AltGr changes what some key produces. `plain` holds, for
/// each of the 256 virtual keys, the character that the key produces alone,
/// and `altgr` the one that it produces with control and alt held; a key
/// counts where it produces a character both ways, and the two differ.
pub open spec fn altgr_changes_output(plain: Seq<Option<char>>, altgr: Seq<Option<char>>) -> bool {
    exists|v: int|
        0 <= v < 256 && (#[trigger] plain[v]) is Some && altgr[v] is Some && plain[v] != altgr[v]
}

/// What a `LayoutCache` holds: the handle of a layout, and whether that
/// layout has AltGr.
pub struct LayoutCacheView {
    pub layout: usize,
    pub uses_altgr: bool,
}

impl LayoutCacheView {
    /// The answer that the cache has for the layout `hkl`: none where it
    /// holds another layout, and the keys have to be tried.
    pub open spec fn lookup(self, hkl: usize) -> Option<bool> {
        if hkl == self.layout {
            Some(self.uses_altgr)
        } else {
            None
        }
    }

    /// The cache after the keys were tried on the layout `hkl`.
    pub open spec fn probe(self, hkl: usize, plain: Seq<Option<char>>, altgr: Seq<Option<char>>)
        -> LayoutCacheView {
        LayoutCacheView { layout: hkl, uses_altgr: altgr_changes_output(plain, altgr) }
    }

    /// One detection for the layout `hkl`: a lookup, and the keys tried only
    /// where the lookup has no answer. `plain` and `altgr` are what the keys
    /// produce, should they be tried.
    pub open spec fn detect(
        self,
        hkl: usize,
        plain: Seq<Option<char>>,
        altgr: Seq<Option<char>>,
    ) -> Detection {
        match self.lookup(hkl) {
            Some(uses_altgr) => Detection { cache: self, uses_altgr, probes: 0 },
            None => Detection {
                cache: self.probe(hkl, plain, altgr),
                uses_altgr: altgr_changes_output(plain, altgr),
                probes: 1,
            },
        }
    }
}

/// What one detection comes to: the cache after it, the answer, and how
/// often the keys were tried for it.
pub struct Detection {
    pub cache: LayoutCacheView,
    pub uses_altgr: bool,
    pub probes: nat,
}

/// The answer for the layout that the keys were last tried on, so that
/// they are tried once for each change of layout and not with every
/// keystroke.
#[derive(Clone, Copy, Debug)]
pub struct LayoutCache {
    active_layout: usize,
    uses_altgr: bool,
}

impl View for LayoutCache {
    type V = LayoutCacheView;

    closed spec fn view(&self) -> LayoutCacheView {
        LayoutCacheView { layout: self.active_layout, uses_altgr: self.uses_altgr }
    }
}

/// `char::from_u32` gives the character with the number `i` where `i` is a
/// Unicode scalar value, and nothing where it is not.
pub assume_specification[ char::from_u32 ](i: u32) -> (c: Option<char>)
    ensures
        c == if is_scalar_value(i) {
            Some(i as char)
        } else {
            None::<char>
        },
;

/// The character that the platform decoded for a key. `len` is what the
/// decoding returned, the number of UTF-16 units that it wrote
/// where that is positive, and `units` is the buffer that it wrote to.
pub fn get_char(len: i32, units: &[u16; 5]) -> (c: Option<char>)
    ensures
        c == if len >= 1 {
            first_utf16_char(units@)
        } else {
            None
        },
{
    if len >= 1 {
        let first = units[0];
        if first < 0xD800 || first > 0xDFFF {
            char::from_u32(first as u32)
        } else if first <= 0xDBFF && 0xDC00 <= units[1] && units[1] <= 0xDFFF {
            let high: u32 = (first - 0xD800) as u32;
            let low: u32 = (units[1] - 0xDC00) as u32;
            char::from_u32(0x10000 + high * 0x400 + low)
        } else {
            None
        }
    } else {
        None
    }
}

/// The state of a keyboard on which no key is down.
pub fn keyboard_state_empty() -> (state: [u8; 256])
    ensures
        forall|i: int| 0 <= i < 256 ==> state@[i] == 0,
{
    [0u8;256]
}

/// The state of a keyboard on which control and alt are down and no other
/// key is: what the platform sees when AltGr is held.
pub fn keyboard_state_altgr() -> (state: [u8; 256])
    ensures
        forall|i: int|
            0 <= i < 256 ==> state@[i] == if i == VK_MENU || i == VK_CONTROL {
                KEY_DOWN
            } else {
                0u8
            },
{
    let mut state = [0u8;256];
    state[VK_MENU as usize] = KEY_DOWN;
    state[VK_CONTROL as usize] = KEY_DOWN;
    state
}

/// Whether holding AltGr changes what some key produces.
pub fn probe_altgr(plain: &[Option<char>; 256], altgr: &[Option<char>; 256]) -> (changes: bool)
    ensures
        changes == altgr_changes_output(plain@, altgr@),
{
    let mut v_key: usize = 0;
    while v_key < 256
        invariant
            v_key <= 256,
            plain@.len() == 256,
            altgr@.len() == 256,
            forall|v: int|
                0 <= v < v_key ==> !((#[trigger] plain@[v]) is Some && altgr@[v] is Some
                    && plain@[v] != altgr@[v]),
        decreases 256 - v_key,
    {
        if let (Some(noaltgr), Some(altgr)) = (plain[v_key], altgr[v_key]) {
            if noaltgr != altgr {
                return true;
            }
        }
        v_key += 1;
    }
    false
}

impl LayoutCache {
    /// The cache before any layout was seen: it holds the null handle, and
    /// that such a layout has no AltGr.
    pub fn new() -> (cache: Self)
        ensures
            cache@ == (LayoutCacheView { layout: 0, uses_altgr: false }),
    {
        LayoutCache { active_layout: 0, uses_altgr: false }
    }

    /// Whether the layout `hkl` has AltGr, where the cache holds the answer
    /// for it. Where it holds another layout there is none: the keys have to
    /// be tried, and `probe` told what they produce.
    pub fn lookup(&self, hkl: usize) -> (known: Option<bool>)
        ensures
            known == self@.lookup(hkl),
    {
        if hkl == self.active_layout {
            Some(self.uses_altgr)
        } else {
            None
        }
    }

    /// Finds out from what the keys produce whether the layout `hkl` has
    /// AltGr, and keeps the answer for it in place of the one it held.
    pub fn probe(
        &mut self,
        hkl: usize,
        plain: &[Option<char>; 256],
        altgr: &[Option<char>; 256],
    ) -> (uses_altgr: bool)
        ensures
            final(self)@ == old(self)@.probe(hkl, plain@, altgr@),
            uses_altgr == altgr_changes_output(plain@, altgr@),
    {
        let uses_altgr = probe_altgr(plain, altgr);
        self.active_layout = hkl;
        self.uses_altgr = uses_altgr;
        uses_altgr
    }

    /// Whether the layout `hkl` has AltGr: one detection. `probe` tries the
    /// keys and gives what they produce, alone and with control and alt held.
    /// It is called where the cache has no answer for the layout, once, and
    /// not at all where it has one.
    pub fn layout_uses_altgr<F>(&mut self, hkl: usize, probe: F) -> (uses_altgr: bool) where
        F: FnOnce() -> ([Option<char>; 256], [Option<char>; 256]),
        requires
            old(self)@.lookup(hkl) is None ==> call_requires(probe, ()),
        ensures
            old(self)@.lookup(hkl) is Some ==> old(self)@.detect(hkl, Seq::empty(), Seq::empty())
                == (Detection { cache: final(self)@, uses_altgr, probes: 0 }),
            old(self)@.lookup(hkl) is None ==> exists|
                produced: ([Option<char>; 256], [Option<char>; 256]),
            |
                call_ensures(probe, (), produced) && old(self)@.detect(
                    hkl,
                    produced.0@,
                    produced.1@,
                ) == (Detection { cache: final(self)@, uses_altgr, probes: 1 }),
    {
        match self.lookup(hkl) {
            Some(uses_altgr) => uses_altgr,
            None => {
                let produced = probe();
                self.probe(hkl, &produced.0, &produced.1)
            },
        }
    }
}

/// While the layout stays the same, the answer comes from the cache:
/// asked again for the layout that it was asked for last, the cache gives the
/// same answer, stays as it is, and no key is tried, whatever the keys would
/// produce.
pub proof fn lemma_unchanged_layout_is_not_probed(
    cache: LayoutCacheView,
    hkl: usize,
    plain: Seq<Option<char>>,
    altgr: Seq<Option<char>>,
    later_plain: Seq<Option<char>>,
    later_altgr: Seq<Option<char>>,
)
    ensures
        ({
            let first = cache.detect(hkl, plain, altgr);
            let second = first.cache.detect(hkl, later_plain, later_altgr);
            second.probes == 0 && second.uses_altgr == first.uses_altgr && second.cache
                == first.cache
        }),
{
}

/// A layout other than the one that the cache holds has no answer in it:
/// the keys are tried, once, and what they produce decides. From then on the
/// cache answers for the new layout.
pub proof fn lemma_changed_layout_is_probed_once(
    cache: LayoutCacheView,
    hkl: usize,
    plain: Seq<Option<char>>,
    altgr: Seq<Option<char>>,
)
    requires
        hkl != cache.layout,
    ensures
        cache.lookup(hkl) is None,
        cache.detect(hkl, plain, altgr).probes == 1,
        cache.detect(hkl, plain, altgr).uses_altgr == altgr_changes_output(plain, altgr),
        cache.detect(hkl, plain, altgr).cache.lookup(hkl) == Some(
            altgr_changes_output(plain, altgr),
        ),
{
}

} // verus!
