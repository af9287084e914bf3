//! Menus: an append-only tree of items, separators and submenus, and the
//! hotkeys gathered from all of it.

use vstd::prelude::*;
use crate::hotkey::{hotkey_label, Hotkey};
use crate::vkey::{native_vkey, winit_vkey_to_vkey};

verus! {

/// One entry of a menu.
#[derive(Debug)]
pub enum MenuItem {
    /// A command, with the id that its activation reports.
    Item { id: u16, label: String, hotkey: Option<Hotkey> },
    Separator,
    /// A menu that opens from this entry.
    Submenu { label: String, menu: Menu },
}

/// A menu under construction: its entries in the order they were added, and
/// the hotkeys of its commands and of those of every submenu attached to it,
/// each with the id of its command.
#[derive(Debug)]
pub struct Menu {
    items: Vec<MenuItem>,
    accelerators: Vec<(Hotkey, u16)>,
}

/// What a `MenuItem` holds, as a value of specifications.
pub enum MenuItemView {
    Item { id: u16, label: Seq<char>, hotkey: Option<Hotkey> },
    Separator,
    Submenu { label: Seq<char>, menu: MenuView },
}

/// What a `Menu` holds, as a value of specifications.
pub struct MenuView {
    pub items: Seq<MenuItemView>,
    pub accelerators: Seq<(Hotkey, u16)>,
}

/// Whether an accelerator can be made for `hotkey`: its key has a
/// virtual-key code.
pub open spec fn representable(hotkey: Hotkey) -> bool {
    native_vkey(hotkey.key) is Some
}

/// Whether `list` binds `hotkey` to a command.
pub open spec fn is_bound(list: Seq<(Hotkey, u16)>, hotkey: Hotkey) -> bool {
    exists|i: int| 0 <= i < list.len() && (#[trigger] list[i]).0 == hotkey
}

/// Where `list` binds `hotkey`, if it does.
pub open spec fn position_of(list: Seq<(Hotkey, u16)>, hotkey: Hotkey) -> int {
    choose|i: int| 0 <= i < list.len() && (#[trigger] list[i]).0 == hotkey
}

/// No hotkey is bound twice.
pub open spec fn distinct_hotkeys(list: Seq<(Hotkey, u16)>) -> bool {
    forall|i: int, j: int|
        0 <= i < j < list.len() ==> (#[trigger] list[i]).0 != (#[trigger] list[j]).0
}

/// `list` with `hotkey` bound to `id`: in the place where it was bound
/// before, or else at the end.
pub open spec fn bind(list: Seq<(Hotkey, u16)>, hotkey: Hotkey, id: u16) -> Seq<(Hotkey, u16)> {
    if is_bound(list, hotkey) {
        list.update(position_of(list, hotkey), (hotkey, id))
    } else {
        list.push((hotkey, id))
    }
}

/// `list` with every binding of `other` bound in it, in the order of
/// `other`.
pub open spec fn merge(list: Seq<(Hotkey, u16)>, other: Seq<(Hotkey, u16)>) -> Seq<(Hotkey, u16)>
    decreases other.len(),
{
    if other.len() == 0 {
        list
    } else {
        bind(merge(list, other.drop_last()), other.last().0, other.last().1)
    }
}

/// The bindings of `list` as a map from hotkey to command id.
pub open spec fn bindings(list: Seq<(Hotkey, u16)>) -> Map<Hotkey, u16> {
    Map::new(
        |hotkey: Hotkey| is_bound(list, hotkey),
        |hotkey: Hotkey| list[position_of(list, hotkey)].1,
    )
}

/// The text that the platform shows for a command: its label and, behind a
/// tab, the label of its hotkey where it has one.
pub open spec fn item_text(label: Seq<char>, hotkey: Option<Hotkey>) -> Seq<char> {
    match hotkey {
        Some(hotkey) => label + "\t"@ + hotkey_label(
            "Windows+"@,
            hotkey.modifiers@,
            hotkey.key,
        ),
        None => label,
    }
}

impl MenuItemView {
    /// The text that the platform shows for this entry; a separator has
    /// none.
    pub open spec fn text(self) -> Seq<char> {
        match self {
            MenuItemView::Item { id, label, hotkey } => item_text(label, hotkey),
            MenuItemView::Separator => Seq::empty(),
            MenuItemView::Submenu { label, menu } => label,
        }
    }
}

impl MenuView {
    /// No hotkey is gathered twice, and an accelerator can be made for each.
    pub open spec fn wf(self) -> bool {
        &&& distinct_hotkeys(self.accelerators)
        &&& forall|i: int|
            0 <= i < self.accelerators.len() ==> representable((#[trigger] self.accelerators[i]).0)
    }

    /// The menu with nothing in it.
    pub open spec fn empty() -> MenuView {
        MenuView { items: Seq::empty(), accelerators: Seq::empty() }
    }

    /// The menu as a parent holds it: its hotkeys have gone to the parent.
    pub open spec fn attached(self) -> MenuView {
        MenuView { items: self.items, accelerators: Seq::empty() }
    }

    /// The hotkeys after a command with `hotkey` and `id` was added.
    pub open spec fn with_hotkey(self, hotkey: Option<Hotkey>, id: u16) -> Seq<(Hotkey, u16)> {
        match hotkey {
            Some(hotkey) => if representable(hotkey) {
                bind(self.accelerators, hotkey, id)
            } else {
                self.accelerators
            },
            None => self.accelerators,
        }
    }
}

impl View for MenuItem {
    type V = MenuItemView;

    closed spec fn view(&self) -> MenuItemView {
        item_view(*self)
    }
}

impl View for Menu {
    type V = MenuView;

    closed spec fn view(&self) -> MenuView {
        menu_view(*self)
    }
}

spec fn item_view(item: MenuItem) -> MenuItemView
    decreases item,
{
    match item {
        MenuItem::Item { id, label, hotkey } => MenuItemView::Item { id, label: label@, hotkey },
        MenuItem::Separator => MenuItemView::Separator,
        MenuItem::Submenu { label, menu } => MenuItemView::Submenu {
            label: label@,
            menu: menu_view(menu),
        },
    }
}

spec fn menu_view(menu: Menu) -> MenuView
    decreases menu,
{
    MenuView {
        items: Seq::new(
            menu.items@.len(),
            |i: int|
                if 0 <= i < menu.items@.len() {
                    item_view(menu.items@[i])
                } else {
                    MenuItemView::Separator
                },
        ),
        accelerators: menu.accelerators@,
    }
}

/// In a list without doubles, a hotkey is bound where it is found.
pub proof fn lemma_position(list: Seq<(Hotkey, u16)>, hotkey: Hotkey, i: int)
    requires
        distinct_hotkeys(list),
        0 <= i < list.len(),
        list[i].0 == hotkey,
    ensures
        is_bound(list, hotkey),
        position_of(list, hotkey) == i,
{
    let p = position_of(list, hotkey);
    assert(0 <= p < list.len() && list[p].0 == hotkey);
    if p < i {
        assert(list[p].0 != list[i].0);
    } else if i < p {
        assert(list[i].0 != list[p].0);
    }
}

/// Binding a hotkey keeps the list without doubles, lengthens it by one
/// where the hotkey was not bound, and is `insert` on the map of bindings.
pub proof fn lemma_bind(list: Seq<(Hotkey, u16)>, hotkey: Hotkey, id: u16)
    requires
        distinct_hotkeys(list),
    ensures
        distinct_hotkeys(bind(list, hotkey, id)),
        bind(list, hotkey, id).len() == list.len() + (if is_bound(list, hotkey) {
            0int
        } else {
            1int
        }),
        bindings(bind(list, hotkey, id)) == bindings(list).insert(hotkey, id),
        forall|i: int|
            0 <= i < bind(list, hotkey, id).len() ==> (#[trigger] bind(list, hotkey, id)[i]).0
                == hotkey || (i < list.len() && bind(list, hotkey, id)[i] == list[i]),
{
    let after = bind(list, hotkey, id);
    let p = if is_bound(list, hotkey) {
        position_of(list, hotkey)
    } else {
        list.len() as int
    };
    assert(after.len() > p >= 0 && after[p] == (hotkey, id));
    assert forall|i: int| 0 <= i < after.len() && i != p implies after[i] == list[i] && (
    #[trigger] after[i]).0 != hotkey by {
        if is_bound(list, hotkey) {
            if after[i].0 == hotkey {
                lemma_position(list, hotkey, i);
            }
        }
    }
    assert forall|i: int, j: int| 0 <= i < j < after.len() implies (#[trigger] after[i]).0 != (
    #[trigger] after[j]).0 by {
        if i != p && j != p {
            assert(list[i].0 != list[j].0);
        }
    }
    lemma_position(after, hotkey, p);
    assert forall|k: Hotkey| is_bound(after, k) == (k == hotkey || is_bound(list, k)) by {
        if is_bound(after, k) && k != hotkey {
            let i = position_of(after, k);
            assert(list[i].0 == k);
        }
        if is_bound(list, k) && k != hotkey {
            let i = position_of(list, k);
            assert(after[i].0 == k);
        }
    }
    assert forall|k: Hotkey| is_bound(after, k) implies #[trigger] bindings(after)[k] == bindings(
        list,
    ).insert(hotkey, id)[k] by {
        if k != hotkey {
            let i = position_of(list, k);
            assert(after[i].0 == k);
            lemma_position(after, k, i);
        }
    }
    assert(bindings(after) =~= bindings(list).insert(hotkey, id));
}

/// Merging keeps the list without doubles, and on the maps of bindings it
/// is the union in which `other` wins.
pub proof fn lemma_merge(list: Seq<(Hotkey, u16)>, other: Seq<(Hotkey, u16)>)
    requires
        distinct_hotkeys(list),
        distinct_hotkeys(other),
    ensures
        distinct_hotkeys(merge(list, other)),
        bindings(merge(list, other)) == bindings(list).union_prefer_right(bindings(other)),
        merge(list, other).len() >= list.len(),
        forall|i: int|
            0 <= i < merge(list, other).len() ==> is_bound(
                other,
                (#[trigger] merge(list, other)[i]).0,
            ) || (i < list.len() && merge(list, other)[i] == list[i]),
    decreases other.len(),
{
    if other.len() == 0 {
        assert(bindings(other) =~= Map::empty());
        assert(bindings(list).union_prefer_right(bindings(other)) =~= bindings(list));
    } else {
        let rest = other.drop_last();
        let last = other.last();
        assert forall|i: int, j: int| 0 <= i < j < rest.len() implies (#[trigger] rest[i]).0 != (
        #[trigger] rest[j]).0 by {
            assert(other[i].0 != other[j].0);
        }
        lemma_merge(list, rest);
        let before = merge(list, rest);
        lemma_bind(before, last.0, last.1);
        lemma_position(other, last.0, other.len() - 1);
        assert forall|k: Hotkey| is_bound(other, k) == (k == last.0 || is_bound(rest, k)) by {
            if is_bound(other, k) && k != last.0 {
                let i = position_of(other, k);
                assert(rest[i].0 == k);
            }
            if is_bound(rest, k) {
                let i = position_of(rest, k);
                assert(other[i].0 == k);
            }
        }
        assert forall|k: Hotkey| is_bound(rest, k) implies #[trigger] bindings(other)[k]
            == bindings(rest)[k] by {
            let i = position_of(rest, k);
            assert(other[i].0 == k);
            lemma_position(other, k, i);
        }
        assert(!is_bound(rest, last.0)) by {
            if is_bound(rest, last.0) {
                let i = position_of(rest, last.0);
                assert(other[i].0 != other[other.len() - 1].0);
            }
        }
        assert(bindings(other) =~= bindings(rest).insert(last.0, last.1));
        assert(bindings(merge(list, other)) =~= bindings(list).union_prefer_right(
            bindings(other),
        ));
        let after = merge(list, other);
        assert forall|i: int| 0 <= i < after.len() implies is_bound(other, (#[trigger] after[i]).0)
            || (i < list.len() && after[i] == list[i]) by {
            if after[i].0 != last.0 {
                assert(before[i] == after[i]);
            }
        }
    }
}

/// Binds `hotkey` to `id` in `list`.
fn bind_hotkey(list: &mut Vec<(Hotkey, u16)>, hotkey: Hotkey, id: u16)
    requires
        distinct_hotkeys(old(list)@),
    ensures
        final(list)@ == bind(old(list)@, hotkey, id),
{
    let mut i: usize = 0;
    while i < list.len()
        invariant
            i <= list.len(),
            *list == *old(list),
            distinct_hotkeys(list@),
            forall|j: int| 0 <= j < i ==> (#[trigger] list@[j]).0 != hotkey,
        decreases list.len() - i,
    {
        if list[i].0 == hotkey {
            proof {
                lemma_position(list@, hotkey, i as int);
            }
            list.set(i, (hotkey, id));
            return ;
        }
        i += 1;
    }
    list.push((hotkey, id));
}

impl MenuItem {
    /// The text that the platform shows for this entry; a separator has
    /// none.
    pub fn text(&self) -> (text: String)
        ensures
            text@ == self@.text(),
    {
        match self {
            MenuItem::Item { id, label, hotkey } => {
                let mut text = label.clone();
                if let Some(hotkey) = hotkey {
                    text.append("\t");
                    text.append(hotkey.parse().as_str());
                }
                text
            },
            MenuItem::Separator => String::new(),
            MenuItem::Submenu { label, menu } => label.clone(),
        }
    }
}

impl Default for Menu {
    fn default() -> (menu: Self)
        ensures
            menu@ == MenuView::empty(),
    {
        Menu::new()
    }
}

impl Menu {
    /// What holds of the hotkeys that a menu has gathered.
    #[verifier::type_invariant]
    spec fn inv(self) -> bool {
        &&& distinct_hotkeys(self.accelerators@)
        &&& forall|i: int|
            0 <= i < self.accelerators@.len() ==> representable(
                (#[trigger] self.accelerators@[i]).0,
            )
    }

    /// The menu with nothing in it.
    pub fn new() -> (menu: Self)
        ensures
            menu@ == MenuView::empty(),
    {
        let menu = Menu { items: Vec::new(), accelerators: Vec::new() };
        assert(menu@.items =~= Seq::empty());
        menu
    }

    /// Appends a command. Where `key` is a hotkey for which an accelerator can
    /// be made, it is bound to `id`, in place of the command that it was bound
    /// to before. The platform sends `id` when the command is chosen, from
    /// whatever menu of the tree: it is for the caller to give each command an
    /// id of its own.
    pub fn add_item(&mut self, id: u16, name: &str, key: Option<Hotkey>)
        ensures
            final(self)@.items == old(self)@.items.push(
                MenuItemView::Item { id, label: name@, hotkey: key },
            ),
            final(self)@.accelerators == old(self)@.with_hotkey(key, id),
            final(self)@.wf(),
    {
        proof {
            use_type_invariant(&*self);
        }
        let ghost before = *self;
        let mut items = Vec::new();
        let mut accelerators = Vec::new();
        std::mem::swap(&mut items, &mut self.items);
        std::mem::swap(&mut accelerators, &mut self.accelerators);
        if let Some(hotkey) = key {
            if winit_vkey_to_vkey(hotkey.key).is_some() {
                proof {
                    lemma_bind(accelerators@, hotkey, id);
                }
                bind_hotkey(&mut accelerators, hotkey, id);
            }
        }
        items.push(MenuItem::Item { id, label: name.to_owned(), hotkey: key });
        self.items = items;
        self.accelerators = accelerators;
        assert(self@.items =~= before@.items.push(
            MenuItemView::Item { id, label: name@, hotkey: key },
        ));
    }

    /// Appends `menu` as a submenu. Its hotkeys move to this menu, where each
    /// takes the place of an equal hotkey that is bound there.
    pub fn add_dropdown(&mut self, name: &str, menu: Menu)
        ensures
            final(self)@.items == old(self)@.items.push(
                MenuItemView::Submenu { label: name@, menu: menu@.attached() },
            ),
            final(self)@.accelerators == merge(old(self)@.accelerators, menu@.accelerators),
            final(self)@.wf(),
    {
        proof {
            use_type_invariant(&*self);
            use_type_invariant(&menu);
        }
        let ghost before = *self;
        let ghost moved = menu@;
        let Menu { items: moved_items, accelerators: moved_accelerators } = menu;
        let mut items = Vec::new();
        let mut accelerators = Vec::new();
        std::mem::swap(&mut items, &mut self.items);
        std::mem::swap(&mut accelerators, &mut self.accelerators);
        let mut i: usize = 0;
        while i < moved_accelerators.len()
            invariant
                i <= moved_accelerators.len(),
                accelerators@ == merge(
                    before.accelerators@,
                    moved_accelerators@.take(i as int),
                ),
                distinct_hotkeys(accelerators@),
                distinct_hotkeys(moved_accelerators@),
                forall|j: int|
                    0 <= j < accelerators@.len() ==> representable(
                        (#[trigger] accelerators@[j]).0,
                    ),
                forall|j: int|
                    0 <= j < moved_accelerators@.len() ==> representable(
                        (#[trigger] moved_accelerators@[j]).0,
                    ),
            decreases moved_accelerators.len() - i,
        {
            let (hotkey, id) = moved_accelerators[i];
            proof {
                lemma_bind(accelerators@, hotkey, id);
                assert(moved_accelerators@.take(i + 1).drop_last() =~= moved_accelerators@.take(
                    i as int,
                ));
            }
            bind_hotkey(&mut accelerators, hotkey, id);
            i += 1;
        }
        assert(moved_accelerators@.take(i as int) =~= moved_accelerators@);
        let submenu = Menu { items: moved_items, accelerators: Vec::new() };
        assert(submenu@ == moved.attached());
        items.push(MenuItem::Submenu { label: name.to_owned(), menu: submenu });
        self.items = items;
        self.accelerators = accelerators;
        assert(self@.items =~= before@.items.push(
            MenuItemView::Submenu { label: name@, menu: moved.attached() },
        ));
    }

    /// Appends a separator.
    pub fn add_separator(&mut self)
        ensures
            final(self)@.items == old(self)@.items.push(MenuItemView::Separator),
            final(self)@.accelerators == old(self)@.accelerators,
            final(self)@.wf(),
    {
        proof {
            use_type_invariant(&*self);
        }
        let ghost before = *self;
        let mut items = Vec::new();
        std::mem::swap(&mut items, &mut self.items);
        items.push(MenuItem::Separator);
        self.items = items;
        assert(self@.items =~= before@.items.push(MenuItemView::Separator));
    }

    /// The entries, in the order they were added.
    pub fn items(&self) -> (items: &Vec<MenuItem>)
        ensures
            items@.len() == self@.items.len(),
            forall|i: int| 0 <= i < items@.len() ==> (#[trigger] items@[i])@ == self@.items[i],
    {
        &self.items
    }

    /// The hotkeys gathered so far, each with the id of its command.
    pub fn accelerators(&self) -> (accelerators: &Vec<(Hotkey, u16)>)
        ensures
            accelerators@ == self@.accelerators,
            self@.wf(),
    {
        proof {
            use_type_invariant(self);
        }
        &self.accelerators
    }
}

} // verus!
