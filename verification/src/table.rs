//! The accelerator table that a menu compiles to, and the slot that holds
//! the one table in use.

use vstd::prelude::*;
use crate::accel::{accelerator_of, Accelerator};
use crate::hotkey::Hotkey;
use crate::menu::{
    bindings, distinct_hotkeys, is_bound, lemma_merge, lemma_position, merge, position_of,
    representable, Menu, MenuView,
};

verus! {

/// The records that a list of bound hotkeys compiles to, in the order of the
/// list; a hotkey for which no record can be made is passed over.
pub open spec fn compile_entries(list: Seq<(Hotkey, u16)>) -> Seq<Accelerator>
    decreases list.len(),
{
    if list.len() == 0 {
        Seq::empty()
    } else {
        let rest = compile_entries(list.drop_last());
        match accelerator_of(list.last().0, list.last().1) {
            Some(accelerator) => rest.push(accelerator),
            None => rest,
        }
    }
}

/// A compiled accelerator table: the records that the platform's table is
/// made from. Once made it does not change.
#[derive(Debug)]
pub struct AcceleratorTable {
    entries: Vec<Accelerator>,
}

impl View for AcceleratorTable {
    type V = Seq<Accelerator>;

    closed spec fn view(&self) -> Seq<Accelerator> {
        self.entries@
    }
}

impl AcceleratorTable {
    /// The table of the records in `list`.
    pub fn new(list: &[Accelerator]) -> (table: Self)
        ensures
            table@ == list@,
    {
        let mut entries: Vec<Accelerator> = Vec::new();
        let mut i: usize = 0;
        while i < list.len()
            invariant
                i <= list.len(),
                entries@ == list@.take(i as int),
            decreases list.len() - i,
        {
            entries.push(list[i]);
            assert(list@.take(i + 1) =~= list@.take(i as int).push(list@[i as int]));
            i += 1;
        }
        assert(list@.take(i as int) =~= list@);
        AcceleratorTable { entries }
    }

    /// The records of the table.
    pub fn entries(&self) -> (entries: &Vec<Accelerator>)
        ensures
            entries@ == self@,
    {
        &self.entries
    }
}

/// Compiles the hotkeys that `menu` has gathered, its own and those of its
/// submenus, into one table.
pub fn compile(menu: &Menu) -> (table: AcceleratorTable)
    ensures
        table@ == compile_entries(menu@.accelerators),
{
    let list = menu.accelerators();
    let mut entries: Vec<Accelerator> = Vec::new();
    let mut i: usize = 0;
    while i < list.len()
        invariant
            i <= list.len(),
            entries@ == compile_entries(list@.take(i as int)),
        decreases list.len() - i,
    {
        let (hotkey, id) = list[i];
        assert(list@.take(i + 1).drop_last() =~= list@.take(i as int));
        if let Some(accelerator) = Accelerator::parse(&hotkey, id) {
            entries.push(accelerator);
        }
        i += 1;
    }
    assert(list@.take(i as int) =~= list@);
    AcceleratorTable { entries }
}

/// Whether `list` binds `hotkey` to the command `id`.
pub open spec fn binds(list: Seq<(Hotkey, u16)>, hotkey: Hotkey, id: u16) -> bool {
    exists|i: int| 0 <= i < list.len() && #[trigger] list[i] == (hotkey, id)
}

/// Where an accelerator can be made for every hotkey of a list, the table
/// has one record for each, in the order of the list: a hotkey stands behind
/// one record and no more.
pub proof fn lemma_compile_representable(list: Seq<(Hotkey, u16)>)
    requires
        forall|i: int| 0 <= i < list.len() ==> representable((#[trigger] list[i]).0),
    ensures
        compile_entries(list).len() == list.len(),
        forall|i: int|
            0 <= i < list.len() ==> Some(#[trigger] compile_entries(list)[i]) == accelerator_of(
                list[i].0,
                list[i].1,
            ),
    decreases list.len(),
{
    if list.len() > 0 {
        let rest = list.drop_last();
        assert forall|i: int| 0 <= i < rest.len() implies representable((#[trigger] rest[i]).0) by {
            assert(rest[i] == list[i]);
        }
        lemma_compile_representable(rest);
        assert(representable(list[list.len() - 1].0));
    }
}

/// A hotkey that a submenu has gathered is bound, to the same command, in
/// the menu that the submenu is attached to.
pub proof fn lemma_merge_keeps_submenu(
    list: Seq<(Hotkey, u16)>,
    other: Seq<(Hotkey, u16)>,
    hotkey: Hotkey,
    id: u16,
)
    requires
        distinct_hotkeys(list),
        distinct_hotkeys(other),
        binds(other, hotkey, id),
    ensures
        binds(merge(list, other), hotkey, id),
{
    lemma_merge(list, other);
    let i = choose|i: int| 0 <= i < other.len() && #[trigger] other[i] == (hotkey, id);
    lemma_position(other, hotkey, i);
    let merged = merge(list, other);
    assert(bindings(merged).dom().contains(hotkey));
    let p = position_of(merged, hotkey);
    assert(merged[p].0 == hotkey);
    assert(bindings(merged)[hotkey] == id);
    assert(merged[p] == (hotkey, id));
}

/// Hotkeys gather from any depth: the table compiled from a menu holds, for
/// every hotkey that an attached submenu had gathered, the record of that
/// hotkey with the id of its command.
pub proof fn lemma_submenu_hotkeys_compiled(
    parent: MenuView,
    submenu: MenuView,
    hotkey: Hotkey,
    id: u16,
)
    requires
        parent.wf(),
        submenu.wf(),
        binds(submenu.accelerators, hotkey, id),
    ensures
        accelerator_of(hotkey, id) is Some,
        accelerator_of(hotkey, id)->0.cmd == id,
        compile_entries(merge(parent.accelerators, submenu.accelerators)).contains(
            accelerator_of(hotkey, id)->0,
        ),
{
    let merged = merge(parent.accelerators, submenu.accelerators);
    lemma_merge(parent.accelerators, submenu.accelerators);
    lemma_merge_keeps_submenu(parent.accelerators, submenu.accelerators, hotkey, id);
    assert forall|i: int| 0 <= i < merged.len() implies representable((#[trigger] merged[i]).0) by {
        if is_bound(submenu.accelerators, merged[i].0) {
            let j = position_of(submenu.accelerators, merged[i].0);
            assert(representable(submenu.accelerators[j].0));
        } else {
            assert(merged[i] == parent.accelerators[i]);
        }
    }
    lemma_compile_representable(merged);
    let p = choose|p: int| 0 <= p < merged.len() && #[trigger] merged[p] == (hotkey, id);
    assert(representable(merged[p].0));
    assert(Some(compile_entries(merged)[p]) == accelerator_of(hotkey, id));
}

/// A command whose hotkey has no virtual-key code adds nothing to the
/// table; with a hotkey that has one, and that the menu has not bound yet, it
/// adds one record.
pub proof fn lemma_unrepresentable_hotkey_adds_no_entry(
    menu: MenuView,
    lacking: Hotkey,
    mappable: Hotkey,
    id: u16,
)
    requires
        menu.wf(),
        !representable(lacking),
        representable(mappable),
        !is_bound(menu.accelerators, mappable),
    ensures
        compile_entries(menu.with_hotkey(Some(lacking), id)) == compile_entries(menu.accelerators),
        compile_entries(menu.with_hotkey(Some(mappable), id)).len() == compile_entries(
            menu.with_hotkey(Some(lacking), id),
        ).len() + 1,
{
    let with = menu.with_hotkey(Some(mappable), id);
    assert(with.drop_last() =~= menu.accelerators);
}

/// The slot for the one accelerator table that is in use. `T` is what the
/// owner keeps of a table: the table itself, or the platform's handle to it.
#[derive(Debug)]
pub struct AcceleratorRegistry<T> {
    active: Option<T>,
}

impl<T> View for AcceleratorRegistry<T> {
    type V = Option<T>;

    closed spec fn view(&self) -> Option<T> {
        self.active
    }
}

/// The slot after `table` was installed, and the table that was handed
/// back.
pub open spec fn install_step<T>(slot: Option<T>, table: T) -> (Option<T>, Option<T>) {
    (Some(table), slot)
}

/// The slot after `tables` were installed one after the other, and the
/// tables that were handed back on the way, in the order they came back.
pub open spec fn install_all<T>(slot: Option<T>, tables: Seq<T>) -> (Option<T>, Seq<T>)
    decreases tables.len(),
{
    if tables.len() == 0 {
        (slot, Seq::empty())
    } else {
        let (before, handed_back) = install_all(slot, tables.drop_last());
        let (after, previous) = install_step(before, tables.last());
        (
            after,
            match previous {
                Some(previous) => handed_back.push(previous),
                None => handed_back,
            },
        )
    }
}

/// One table is in use at a time, the one installed last, and every table
/// that was in use before comes back once, in the order of installation, for
/// its owner to destroy.
pub proof fn lemma_install_all<T>(slot: Option<T>, tables: Seq<T>)
    requires
        tables.len() > 0,
    ensures
        install_all(slot, tables).0 == Some(tables.last()),
        install_all(slot, tables).1 == (match slot {
            Some(first) => seq![first],
            None => Seq::empty(),
        }) + tables.drop_last(),
    decreases tables.len(),
{
    let rest = tables.drop_last();
    if rest.len() > 0 {
        lemma_install_all(slot, rest);
        assert(rest.drop_last().push(rest.last()) =~= rest);
    }
    reveal_with_fuel(install_all, 2);
    assert(install_all(slot, tables).1 =~= (match slot {
        Some(first) => seq![first],
        None => Seq::empty(),
    }) + tables.drop_last());
}

impl<T> AcceleratorRegistry<T> {
    /// The slot with no table in it.
    pub fn new() -> (registry: Self)
        ensures
            registry@ is None,
    {
        AcceleratorRegistry { active: None }
    }

    /// Puts `table` in the slot and hands back the table that was there. The
    /// new table is in place when the old one comes back: the caller destroys
    /// the old one after that, and no sooner.
    pub fn install(&mut self, table: T) -> (previous: Option<T>)
        ensures
            (final(self)@, previous) == install_step(old(self)@, table),
    {
        let mut slot = Some(table);
        std::mem::swap(&mut slot, &mut self.active);
        slot
    }

    /// The table in use.
    pub fn active(&self) -> (table: Option<&T>)
        ensures
            table is Some == self@ is Some,
            table is Some ==> *table->0 == self@->0,
    {
        self.active.as_ref()
    }

    /// Empties the slot and hands back the table that was there, for the
    /// caller to destroy.
    pub fn uninstall(&mut self) -> (previous: Option<T>)
        ensures
            final(self)@ is None,
            previous == old(self)@,
    {
        let mut slot = None;
        std::mem::swap(&mut slot, &mut self.active);
        slot
    }
}

} // verus!
