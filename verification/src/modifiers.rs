//! Modifier-key bit sets: the logical one that key events carry, and the
//! one that tells the left key of a pair from the right.

use vstd::prelude::*;

verus! {

/// A logical modifier key.
#[derive(Clone, Copy, Debug, PartialEq, Eq, Hash, Structural)]
pub enum Modifier {
    Shift,
    Ctrl,
    Alt,
    /// The "windows" key on a PC keyboard, "command" on a Mac.
    Logo,
}

/// A modifier key on one side of the keyboard.
#[derive(Clone, Copy, Debug, PartialEq, Eq, Hash, Structural)]
pub enum SideModifier {
    LShift,
    RShift,
    LCtrl,
    RCtrl,
    LAlt,
    RAlt,
    LLogo,
    RLogo,
}

/// Every bit that a `ModifiersState` may hold.
const MODIFIERS_ALL: u32 = 0x924;

/// Every bit that a `ModifiersStateSide` may hold.
const SIDE_MODIFIERS_ALL: u32 = 0x6db;

/// The bits of the left and right Ctrl and Alt keys, of which AltGr is made.
const SIDE_CTRL_ALT: u32 = 0x0d8;

impl Modifier {
    /// The bit that stands for this modifier.
    spec fn mask_spec(self) -> u32 {
        match self {
            Modifier::Shift => 0x004,
            Modifier::Ctrl => 0x020,
            Modifier::Alt => 0x100,
            Modifier::Logo => 0x800,
        }
    }

    #[verifier::when_used_as_spec(mask_spec)]
    fn mask(self) -> (mask: u32)
        ensures
            mask == self.mask_spec(),
    {
        match self {
            Modifier::Shift => 0x004,
            Modifier::Ctrl => 0x020,
            Modifier::Alt => 0x100,
            Modifier::Logo => 0x800,
        }
    }

    /// The left key of the pair.
    pub open spec fn left_spec(self) -> SideModifier {
        match self {
            Modifier::Shift => SideModifier::LShift,
            Modifier::Ctrl => SideModifier::LCtrl,
            Modifier::Alt => SideModifier::LAlt,
            Modifier::Logo => SideModifier::LLogo,
        }
    }

    #[verifier::when_used_as_spec(left_spec)]
    pub fn left(self) -> (side: SideModifier)
        ensures
            side == self.left_spec(),
    {
        match self {
            Modifier::Shift => SideModifier::LShift,
            Modifier::Ctrl => SideModifier::LCtrl,
            Modifier::Alt => SideModifier::LAlt,
            Modifier::Logo => SideModifier::LLogo,
        }
    }

    /// The right key of the pair.
    pub open spec fn right_spec(self) -> SideModifier {
        match self {
            Modifier::Shift => SideModifier::RShift,
            Modifier::Ctrl => SideModifier::RCtrl,
            Modifier::Alt => SideModifier::RAlt,
            Modifier::Logo => SideModifier::RLogo,
        }
    }

    #[verifier::when_used_as_spec(right_spec)]
    pub fn right(self) -> (side: SideModifier)
        ensures
            side == self.right_spec(),
    {
        match self {
            Modifier::Shift => SideModifier::RShift,
            Modifier::Ctrl => SideModifier::RCtrl,
            Modifier::Alt => SideModifier::RAlt,
            Modifier::Logo => SideModifier::RLogo,
        }
    }
}

impl SideModifier {
    /// The bit that stands for this key.
    spec fn mask_spec(self) -> u32 {
        match self {
            SideModifier::LShift => 0x002,
            SideModifier::RShift => 0x001,
            SideModifier::LCtrl => 0x010,
            SideModifier::RCtrl => 0x008,
            SideModifier::LAlt => 0x080,
            SideModifier::RAlt => 0x040,
            SideModifier::LLogo => 0x400,
            SideModifier::RLogo => 0x200,
        }
    }

    #[verifier::when_used_as_spec(mask_spec)]
    fn mask(self) -> (mask: u32)
        ensures
            mask == self.mask_spec(),
    {
        match self {
            SideModifier::LShift => 0x002,
            SideModifier::RShift => 0x001,
            SideModifier::LCtrl => 0x010,
            SideModifier::RCtrl => 0x008,
            SideModifier::LAlt => 0x080,
            SideModifier::RAlt => 0x040,
            SideModifier::LLogo => 0x400,
            SideModifier::RLogo => 0x200,
        }
    }

    /// Whether this is one of the four keys that AltGr is made of.
    pub open spec fn is_ctrl_or_alt(self) -> bool {
        self == SideModifier::LCtrl || self == SideModifier::RCtrl || self == SideModifier::LAlt
            || self == SideModifier::RAlt
    }
}

/// What `|` and `& !` do to the bits that another mask selects.
proof fn lemma_bits(b: u32, m: u32, k: u32)
    by (bit_vector)
    ensures
        ((b | m) & k != 0) <==> (b & k != 0 || m & k != 0),
        m & k == 0 ==> (b & !m) & k == b & k,
        k & !m == 0 ==> (b & !m) & k == 0,
        0u32 & k == 0,
        k & !k == 0,
{
}

/// What staying within a set of bits means for `|`, `& !` and `&`.
proof fn lemma_within(b: u32, m: u32, all: u32)
    by (bit_vector)
    ensures
        b & !all == 0 && m & !all == 0 ==> (b | m) & !all == 0,
        b & !all == 0 ==> (b & !m) & !all == 0,
        0u32 & !all == 0,
{
}

/// The modifier masks are single bits, each its own.
proof fn lemma_modifier_masks(a: Modifier, b: Modifier)
    ensures
        a.mask() & a.mask() != 0,
        a.mask() & !MODIFIERS_ALL == 0,
        a != b ==> a.mask() & b.mask() == 0,
{
    assert(0x004u32 & 0x004u32 != 0 && 0x020u32 & 0x020u32 != 0 && 0x100u32 & 0x100u32 != 0
        && 0x800u32 & 0x800u32 != 0 && 0x004u32 & !0x924u32 == 0 && 0x020u32 & !0x924u32 == 0
        && 0x100u32 & !0x924u32 == 0 && 0x800u32 & !0x924u32 == 0
        && 0x004u32 & 0x020u32 == 0 && 0x004u32 & 0x100u32 == 0 && 0x004u32 & 0x800u32 == 0
        && 0x020u32 & 0x004u32 == 0 && 0x020u32 & 0x100u32 == 0 && 0x020u32 & 0x800u32 == 0
        && 0x100u32 & 0x004u32 == 0 && 0x100u32 & 0x020u32 == 0 && 0x100u32 & 0x800u32 == 0
        && 0x800u32 & 0x004u32 == 0 && 0x800u32 & 0x020u32 == 0 && 0x800u32 & 0x100u32 == 0)
        by (bit_vector);
}

/// Two sets of modifier bits with the same modifiers in them are the same.
proof fn lemma_same_modifiers(x: u32, y: u32)
    by (bit_vector)
    requires
        x & !0x924u32 == 0,
        y & !0x924u32 == 0,
        (x & 0x004 != 0) == (y & 0x004 != 0),
        (x & 0x020 != 0) == (y & 0x020 != 0),
        (x & 0x100 != 0) == (y & 0x100 != 0),
        (x & 0x800 != 0) == (y & 0x800 != 0),
    ensures
        x == y,
{
}

/// The side masks are single bits, each its own; those of the Ctrl and Alt
/// keys make up `SIDE_CTRL_ALT`, which holds none of the others.
proof fn lemma_side_masks(a: SideModifier, b: SideModifier)
    ensures
        a.mask() & a.mask() != 0,
        a.mask() & !SIDE_MODIFIERS_ALL == 0,
        a != b ==> a.mask() & b.mask() == 0,
        a.is_ctrl_or_alt() ==> a.mask() & !SIDE_CTRL_ALT == 0,
        !a.is_ctrl_or_alt() ==> SIDE_CTRL_ALT & a.mask() == 0,
{
    assert(0x002u32 == 1u32 << 1u32 && 0x001u32 == 1u32 << 0u32 && 0x010u32 == 1u32 << 4u32
        && 0x008u32 == 1u32 << 3u32 && 0x080u32 == 1u32 << 7u32 && 0x040u32 == 1u32 << 6u32
        && 0x400u32 == 1u32 << 10u32 && 0x200u32 == 1u32 << 9u32) by (bit_vector);
    assert(forall|i: u32, j: u32|
        i < 32 && j < 32 ==> #[trigger] ((1u32 << i) & (1u32 << j)) == if i == j {
            1u32 << i
        } else {
            0u32
        }) by (bit_vector);
    assert(forall|i: u32| i < 32 ==> #[trigger] (1u32 << i) != 0) by (bit_vector);
    assert(0x002u32 & !0x6dbu32 == 0 && 0x001u32 & !0x6dbu32 == 0 && 0x010u32 & !0x6dbu32 == 0
        && 0x008u32 & !0x6dbu32 == 0 && 0x080u32 & !0x6dbu32 == 0 && 0x040u32 & !0x6dbu32 == 0
        && 0x400u32 & !0x6dbu32 == 0 && 0x200u32 & !0x6dbu32 == 0 && 0x010u32 & !0x0d8u32 == 0
        && 0x008u32 & !0x0d8u32 == 0 && 0x080u32 & !0x0d8u32 == 0 && 0x040u32 & !0x0d8u32 == 0
        && 0x0d8u32 & 0x002u32 == 0 && 0x0d8u32 & 0x001u32 == 0 && 0x0d8u32 & 0x400u32 == 0
        && 0x0d8u32 & 0x200u32 == 0) by (bit_vector);
}

/// The logical modifier keys that are held, without regard to the side of
/// the keyboard. Its view is the set of those keys.
#[derive(Clone, Copy, Debug, PartialEq, Eq, Hash, Structural)]
pub struct ModifiersState {
    bits: u32,
}

impl View for ModifiersState {
    type V = Set<Modifier>;

    closed spec fn view(&self) -> Set<Modifier> {
        Set::new(|m: Modifier| self.bits & m.mask() != 0)
    }
}

impl ModifiersState {
    /// No bit but those of the four modifiers is ever set.
    #[verifier::type_invariant]
    pub closed spec fn wf(self) -> bool {
        self.bits & !MODIFIERS_ALL == 0
    }

    /// A state is what its view is: two states in which the same modifiers
    /// are held are equal.
    pub proof fn lemma_view_injective(self, other: ModifiersState)
        requires
            self.wf(),
            other.wf(),
            self@ == other@,
        ensures
            self == other,
    {
        assert forall|m: Modifier|
            (self.bits & m.mask() != 0) == (other.bits & m.mask() != 0) by {
            assert(self@.contains(m) == (self.bits & m.mask() != 0));
            assert(other@.contains(m) == (other.bits & m.mask() != 0));
        }
        assert((self.bits & Modifier::Shift.mask() != 0) == (other.bits & Modifier::Shift.mask()
            != 0));
        assert((self.bits & Modifier::Ctrl.mask() != 0) == (other.bits & Modifier::Ctrl.mask()
            != 0));
        assert((self.bits & Modifier::Alt.mask() != 0) == (other.bits & Modifier::Alt.mask()
            != 0));
        assert((self.bits & Modifier::Logo.mask() != 0) == (other.bits & Modifier::Logo.mask()
            != 0));
        lemma_same_modifiers(self.bits, other.bits);
    }

    /// The state in which no modifier is held.
    pub fn empty() -> (state: Self)
        ensures
            state@ == Set::<Modifier>::empty(),
    {
        proof {
            lemma_within(0, 0, MODIFIERS_ALL);
        }
        let state = ModifiersState { bits: 0 };
        proof {
            assert forall|m: Modifier| !state@.contains(m) by {
                lemma_bits(0, 0, m.mask());
            }
            assert(state@ =~= Set::<Modifier>::empty());
        }
        state
    }

    /// Whether `modifier` is held.
    pub fn contains(&self, modifier: Modifier) -> (held: bool)
        ensures
            held == self@.contains(modifier),
    {
        self.bits & modifier.mask() != 0
    }

    /// Whether the shift key is held.
    pub fn shift(&self) -> (held: bool)
        ensures
            held == self@.contains(Modifier::Shift),
    {
        self.contains(Modifier::Shift)
    }

    /// Whether the control key is held.
    pub fn ctrl(&self) -> (held: bool)
        ensures
            held == self@.contains(Modifier::Ctrl),
    {
        self.contains(Modifier::Ctrl)
    }

    /// Whether the alt key is held.
    pub fn alt(&self) -> (held: bool)
        ensures
            held == self@.contains(Modifier::Alt),
    {
        self.contains(Modifier::Alt)
    }

    /// Whether the logo key is held.
    pub fn logo(&self) -> (held: bool)
        ensures
            held == self@.contains(Modifier::Logo),
    {
        self.contains(Modifier::Logo)
    }

    /// Marks `modifier` as held.
    pub fn insert(&mut self, modifier: Modifier)
        ensures
            final(self)@ == old(self)@.insert(modifier),
    {
        proof {
            use_type_invariant(&*self);
        }
        let bits = self.bits | modifier.mask();
        proof {
            lemma_modifier_masks(modifier, modifier);
            lemma_within(self.bits, modifier.mask(), MODIFIERS_ALL);
        }
        let ghost before = *self;
        *self = ModifiersState { bits };
        proof {
            assert forall|m: Modifier| self@.contains(m) == before@.insert(modifier).contains(m) by {
                lemma_bits(before.bits, modifier.mask(), m.mask());
                lemma_modifier_masks(modifier, m);
            }
            assert(self@ =~= before@.insert(modifier));
        }
    }

    /// Marks `modifier` as released.
    pub fn remove(&mut self, modifier: Modifier)
        ensures
            final(self)@ == old(self)@.remove(modifier),
    {
        proof {
            use_type_invariant(&*self);
        }
        let bits = self.bits & !modifier.mask();
        proof {
            lemma_within(self.bits, modifier.mask(), MODIFIERS_ALL);
        }
        let ghost before = *self;
        *self = ModifiersState { bits };
        proof {
            assert forall|m: Modifier| self@.contains(m) == before@.remove(modifier).contains(m) by {
                lemma_bits(before.bits, modifier.mask(), m.mask());
                lemma_modifier_masks(modifier, m);
            }
            assert(self@ =~= before@.remove(modifier));
        }
    }

    /// Marks `modifier` as held or released, as `held` says.
    pub fn set(&mut self, modifier: Modifier, held: bool)
        ensures
            final(self)@ == if held {
                old(self)@.insert(modifier)
            } else {
                old(self)@.remove(modifier)
            },
    {
        if held {
            self.insert(modifier);
        } else {
            self.remove(modifier);
        }
    }
}

/// The modifier keys that are held, the left key of each pair told from the
/// right one. Its view is the set of those keys.
#[derive(Clone, Copy, Debug, PartialEq, Eq, Hash, Structural)]
pub struct ModifiersStateSide {
    bits: u32,
}

impl View for ModifiersStateSide {
    type V = Set<SideModifier>;

    closed spec fn view(&self) -> Set<SideModifier> {
        Set::new(|m: SideModifier| self.bits & m.mask() != 0)
    }
}

/// The logical modifiers of a set of keys: a modifier is held where its left
/// key or its right key is.
pub open spec fn collapse(held: Set<SideModifier>) -> Set<Modifier> {
    Set::new(|m: Modifier| held.contains(m.left()) || held.contains(m.right()))
}

/// What is left of a set of keys once AltGr is taken out of it: where the
/// layout has AltGr and the right Alt key is held, the Ctrl and Alt keys of
/// both sides go, and otherwise nothing does.
pub open spec fn without_altgr(held: Set<SideModifier>, layout_uses_altgr: bool) -> Set<
    SideModifier,
> {
    if layout_uses_altgr && held.contains(SideModifier::RAlt) {
        Set::new(|m: SideModifier| held.contains(m) && !m.is_ctrl_or_alt())
    } else {
        held
    }
}

impl Default for ModifiersState {
    fn default() -> (state: Self)
        ensures
            state@ == Set::<Modifier>::empty(),
    {
        ModifiersState::empty()
    }
}

impl Default for ModifiersStateSide {
    fn default() -> (state: Self)
        ensures
            state@ == Set::<SideModifier>::empty(),
    {
        ModifiersStateSide::empty()
    }
}

impl ModifiersStateSide {
    /// No bit but those of the eight keys is ever set.
    #[verifier::type_invariant]
    pub closed spec fn wf(self) -> bool {
        self.bits & !SIDE_MODIFIERS_ALL == 0
    }

    /// The state in which no key is held.
    pub fn empty() -> (state: Self)
        ensures
            state@ == Set::<SideModifier>::empty(),
    {
        proof {
            lemma_within(0, 0, SIDE_MODIFIERS_ALL);
        }
        let state = ModifiersStateSide { bits: 0 };
        proof {
            assert forall|m: SideModifier| !state@.contains(m) by {
                lemma_bits(0, 0, m.mask());
            }
            assert(state@ =~= Set::<SideModifier>::empty());
        }
        state
    }

    /// Whether `key` is held.
    pub fn contains(&self, key: SideModifier) -> (held: bool)
        ensures
            held == self@.contains(key),
    {
        self.bits & key.mask() != 0
    }

    /// Marks `key` as held.
    pub fn insert(&mut self, key: SideModifier)
        ensures
            final(self)@ == old(self)@.insert(key),
    {
        proof {
            use_type_invariant(&*self);
        }
        let bits = self.bits | key.mask();
        proof {
            lemma_side_masks(key, key);
            lemma_within(self.bits, key.mask(), SIDE_MODIFIERS_ALL);
        }
        let ghost before = *self;
        *self = ModifiersStateSide { bits };
        proof {
            assert forall|m: SideModifier| self@.contains(m) == before@.insert(key).contains(m) by {
                lemma_bits(before.bits, key.mask(), m.mask());
                lemma_side_masks(key, m);
            }
            assert(self@ =~= before@.insert(key));
        }
    }

    /// Marks `key` as released.
    pub fn remove(&mut self, key: SideModifier)
        ensures
            final(self)@ == old(self)@.remove(key),
    {
        proof {
            use_type_invariant(&*self);
        }
        let bits = self.bits & !key.mask();
        proof {
            lemma_within(self.bits, key.mask(), SIDE_MODIFIERS_ALL);
        }
        let ghost before = *self;
        *self = ModifiersStateSide { bits };
        proof {
            assert forall|m: SideModifier| self@.contains(m) == before@.remove(key).contains(m) by {
                lemma_bits(before.bits, key.mask(), m.mask());
                lemma_side_masks(key, m);
            }
            assert(self@ =~= before@.remove(key));
        }
    }

    /// Marks `key` as held or released, as `held` says.
    pub fn set(&mut self, key: SideModifier, held: bool)
        ensures
            final(self)@ == if held {
                old(self)@.insert(key)
            } else {
                old(self)@.remove(key)
            },
    {
        if held {
            self.insert(key);
        } else {
            self.remove(key);
        }
    }

    /// Takes AltGr out of the held keys: on a layout that has AltGr, which
    /// the platform reports as Ctrl and Alt together, a held right Alt key
    /// means AltGr, and no Ctrl or Alt key is reported as held.
    pub fn filter_out_altgr(&self, layout_uses_altgr: bool) -> (filtered: ModifiersStateSide)
        ensures
            filtered@ == without_altgr(self@, layout_uses_altgr),
    {
        proof {
            use_type_invariant(self);
        }
        if layout_uses_altgr && self.contains(SideModifier::RAlt) {
            let bits = self.bits & !SIDE_CTRL_ALT;
            proof {
                lemma_within(self.bits, SIDE_CTRL_ALT, SIDE_MODIFIERS_ALL);
            }
            let filtered = ModifiersStateSide { bits };
            proof {
                assert forall|m: SideModifier| #[trigger]
                    filtered@.contains(m) == (self@.contains(m) && !m.is_ctrl_or_alt()) by {
                    lemma_bits(self.bits, SIDE_CTRL_ALT, m.mask());
                    lemma_side_masks(m, m);
                }
                assert(filtered@ =~= without_altgr(self@, layout_uses_altgr));
            }
            filtered
        } else {
            *self
        }
    }

    /// The logical modifiers that these keys stand for, as a state.
    pub closed spec fn collapsed(self) -> ModifiersState {
        choose|state: ModifiersState| state.wf() && state@ == collapse(self@)
    }

    /// The logical modifiers that these keys stand for.
    pub fn collapse(&self) -> (state: ModifiersState)
        ensures
            state@ == collapse(self@),
            state == self.collapsed(),
    {
        let mut state = ModifiersState::empty();
        state.set(
            Modifier::Shift,
            self.contains(SideModifier::LShift) || self.contains(SideModifier::RShift),
        );
        state.set(
            Modifier::Ctrl,
            self.contains(SideModifier::LCtrl) || self.contains(SideModifier::RCtrl),
        );
        state.set(
            Modifier::Alt,
            self.contains(SideModifier::LAlt) || self.contains(SideModifier::RAlt),
        );
        state.set(
            Modifier::Logo,
            self.contains(SideModifier::LLogo) || self.contains(SideModifier::RLogo),
        );
        assert(state@ =~= collapse(self@));
        proof {
            use_type_invariant(&state);
            state.lemma_view_injective(self.collapsed());
        }
        state
    }
}

impl From<ModifiersStateSide> for ModifiersState {
    fn from(side: ModifiersStateSide) -> (state: Self)
        ensures
            state@ == collapse(side@),
    {
        side.collapse()
    }
}

impl vstd::std_specs::convert::FromSpecImpl<ModifiersStateSide> for ModifiersState {
    open spec fn obeys_from_spec() -> bool {
        true
    }

    open spec fn from_spec(side: ModifiersStateSide) -> Self {
        side.collapsed()
    }
}

} // verus!
