use vstd::prelude::*;
use crate::item::{ItemType, spec_from_extension, spec_kind_at_slot, spec_slot};
use crate::scrap::{
    Scrap, has_name, law_add_item_is_map_insert, law_add_item_keeps_names_distinct,
    lemma_has_name_has_first, spec_as_map, names_distinct, spec_add_item,
};
use crate::trash::{TrashEntry, TrashItem};

verus! {

/// The content of the Trash, sorted by kind: one `Scrap` for each of the
/// eight kinds, held in the order of `ItemType::slot`.
pub struct ScrapYard {
    junk: Vec<Scrap>,
}

/// Whether a file name marks a hidden file (it starts with a dot).
pub open spec fn spec_is_hidden(name: Seq<char>) -> bool {
    name.len() > 0 && name[0] == '.'
}

/// Whether a file name marks a hidden file (it starts with a dot).
pub fn is_hidden(name: &str) -> (r: bool)
    ensures
        r == spec_is_hidden(name@),
{
    !name.is_empty() && name.get_char(0) == '.'
}

/// The item that an entry of the Trash becomes.
pub open spec fn spec_item_of_entry(e: TrashEntry) -> TrashItem {
    TrashItem {
        name: e.name,
        original_path: e.original_path,
        deleted_at: e.deleted_at,
        item_type: spec_from_extension(e.extension@, e.is_dir),
        size: e.size,
    }
}

/// The items of kind `t` once the entries are read in order: hidden entries
/// are left out, and each other entry is added to the items of its kind.
pub open spec fn spec_built_items(entries: Seq<TrashEntry>, t: ItemType) -> Seq<TrashItem>
    decreases entries.len(),
{
    if entries.len() == 0 {
        Seq::empty()
    } else {
        let before = spec_built_items(entries.drop_last(), t);
        let e = entries.last();
        if spec_is_hidden(e.name@) || spec_from_extension(e.extension@, e.is_dir) != t {
            before
        } else {
            spec_add_item(before, spec_item_of_entry(e))
        }
    }
}

/// The sum of the sizes of the items.
pub open spec fn total_size(items: Seq<TrashItem>) -> int
    decreases items.len(),
{
    if items.len() == 0 {
        0
    } else {
        total_size(items.drop_last()) + items.last().size
    }
}

/// `x`, or the largest `u64` where `x` is larger.
pub open spec fn clamp_u64(x: int) -> int {
    if x > u64::MAX as int {
        u64::MAX as int
    } else {
        x
    }
}

/// The items of the first `n` kinds in the order of `ItemType::slot`, kind
/// after kind.
pub open spec fn items_in_first_slots(y: ScrapYard, n: int) -> Seq<TrashItem>
    decreases n,
{
    if n <= 0 {
        Seq::empty()
    } else {
        items_in_first_slots(y, n - 1) + y.items_of(spec_kind_at_slot(n - 1))
    }
}

impl ScrapYard {
    #[verifier::type_invariant]
    spec fn well_sorted(self) -> bool {
        &&& self.junk@.len() == 8
        &&& forall|t: ItemType| #![trigger self.junk@[spec_slot(t)]]
            all_of_kind(self.junk@[spec_slot(t)].items@, t) && names_distinct(
                self.junk@[spec_slot(t)].items@,
            )
    }

    /// Every item sits in the list of its own kind, and no two items of a
    /// kind share a name.
    pub open spec fn sorted_and_distinct(self) -> bool {
        forall|t: ItemType| #![trigger self.items_of(t)]
            all_of_kind(self.items_of(t), t) && names_distinct(self.items_of(t))
    }

    /// The items of kind `t`, in the order in which they are listed.
    pub closed spec fn items_of(self, t: ItemType) -> Seq<TrashItem> {
        self.junk@[spec_slot(t)].items@
    }

    /// All the items, kind after kind.
    pub open spec fn all_items(self) -> Seq<TrashItem> {
        items_in_first_slots(self, 8)
    }

    /// An empty yard.
    pub fn new() -> (r: ScrapYard)
        ensures
            forall|t: ItemType| r.items_of(t).len() == 0,
            r.sorted_and_distinct(),
    {
        let mut junk: Vec<Scrap> = Vec::new();
        let mut i: usize = 0;
        while i < 8
            invariant
                i <= 8,
                junk@.len() == i,
                forall|k: int| 0 <= k < i ==> junk@[k].items@.len() == 0,
            decreases 8 - i,
        {
            junk.push(Scrap::new());
            i = i + 1;
        }
        let r = ScrapYard { junk };
        assert forall|t: ItemType| r.items_of(t).len() == 0 by {
            assert(0 <= spec_slot(t) < 8);
        }
        r
    }

    /// Adds an item to the items of its kind.
    pub fn add_junk(&mut self, item: TrashItem)
        ensures
            final(self).items_of(item.item_type) == spec_add_item(
                old(self).items_of(item.item_type),
                item,
            ),
            forall|t: ItemType| t != item.item_type ==> final(self).items_of(t) == old(self).items_of(t),
            old(self).sorted_and_distinct(),
            final(self).sorted_and_distinct(),
    {
        proof {
            use_type_invariant(&*self);
            assert(all_of_kind(self.items_of(item.item_type), item.item_type));
            law_add_item_keeps_kind(self.items_of(item.item_type), item, item.item_type);
            law_add_item_keeps_names_distinct(self.items_of(item.item_type), item);
        }
        let mut junk = self.take_junk();
        let s = item.item_type.slot();
        junk[s].add_item(item);
        *self = ScrapYard { junk };
    }

    /// Takes the lists of every kind out, and leaves an empty yard.
    fn take_junk(&mut self) -> (r: Vec<Scrap>)
        ensures
            r@ == old(self).junk@,
            r@.len() == 8,
            forall|t: ItemType| #![trigger r@[spec_slot(t)]]
                all_of_kind(r@[spec_slot(t)].items@, t) && names_distinct(r@[spec_slot(t)].items@),
    {
        proof {
            use_type_invariant(&*self);
        }
        let mut other = ScrapYard::new();
        std::mem::swap(self, &mut other);
        proof {
            use_type_invariant(&other);
        }
        let ScrapYard { junk } = other;
        junk
    }

    /// The number of items of a kind.
    pub fn get_type_count(&self, item_type: &ItemType) -> (r: usize)
        ensures
            r == self.items_of(*item_type).len(),
            self.sorted_and_distinct(),
    {
        proof {
            use_type_invariant(self);
        }
        self.junk[item_type.slot()].items.len()
    }

    /// The item at a place of the list of a kind, if the list is that long.
    pub fn get_item_at(&self, item_type: &ItemType, index: usize) -> (r: Option<&TrashItem>)
        ensures
            r == (if index < self.items_of(*item_type).len() {
                Some(&self.items_of(*item_type)[index as int])
            } else {
                None
            }),
            self.sorted_and_distinct(),
    {
        proof {
            use_type_invariant(self);
        }
        let items = &self.junk[item_type.slot()].items;
        if index < items.len() {
            Some(&items[index])
        } else {
            None
        }
    }

    /// The items of a kind, in order.
    pub fn iter_items(&self, item_type: &ItemType) -> (r: &[TrashItem])
        ensures
            r@ == self.items_of(*item_type),
            self.sorted_and_distinct(),
    {
        proof {
            use_type_invariant(self);
        }
        self.junk[item_type.slot()].items.as_slice()
    }

    /// Takes out every item, and hands them back kind after kind.
    pub fn delete_all(&mut self) -> (r: Vec<TrashItem>)
        ensures
            forall|t: ItemType| final(self).items_of(t).len() == 0,
            r@ == old(self).all_items(),
            old(self).sorted_and_distinct(),
            final(self).sorted_and_distinct(),
    {
        proof {
            use_type_invariant(&*self);
        }
        let mut junk = self.take_junk();
        let mut removed: Vec<TrashItem> = Vec::new();
        let mut i: usize = 0;
        while i < 8
            invariant
                i <= 8,
                junk@.len() == 8,
                old(self).junk@.len() == 8,
                forall|k: int| 0 <= k < i ==> junk@[k].items@.len() == 0,
                forall|k: int| i <= k < 8 ==> junk@[k] == old(self).junk@[k],
                removed@ == items_in_first_slots(*old(self), i as int),
            decreases 8 - i,
        {
            let mut taken: Vec<TrashItem> = Vec::new();
            std::mem::swap(&mut junk[i].items, &mut taken);
            assert(old(self).items_of(spec_kind_at_slot(i as int)) == taken@);
            removed.append(&mut taken);
            i = i + 1;
        }
        proof {
            assert forall|t: ItemType| #![trigger junk@[spec_slot(t)]]
                junk@[spec_slot(t)].items@.len() == 0 by {
                assert(0 <= spec_slot(t) < 8);
            }
        }
        *self = ScrapYard { junk };
        removed
    }

    /// Takes out every item of a kind, and hands them back; the other kinds
    /// keep theirs.
    pub fn delete_by_type(&mut self, item_type: &ItemType) -> (r: Vec<TrashItem>)
        ensures
            final(self).items_of(*item_type).len() == 0,
            forall|t: ItemType| t != *item_type ==> final(self).items_of(t) == old(self).items_of(t),
            r@ == old(self).items_of(*item_type),
            old(self).sorted_and_distinct(),
            final(self).sorted_and_distinct(),
    {
        proof {
            use_type_invariant(&*self);
        }
        let mut junk = self.take_junk();
        let mut taken: Vec<TrashItem> = Vec::new();
        std::mem::swap(&mut junk[item_type.slot()].items, &mut taken);
        *self = ScrapYard { junk };
        taken
    }

    /// The total size in bytes of all the items, or the largest `u64` where
    /// the total is larger.
    pub fn size(&self) -> (r: u64)
        ensures
            r == clamp_u64(total_size(self.all_items())),
            self.sorted_and_distinct(),
    {
        proof {
            use_type_invariant(self);
        }
        let mut total: u64 = 0;
        let mut i: usize = 0;
        while i < 8
            invariant
                i <= 8,
                self.junk@.len() == 8,
                total == clamp_u64(total_size(items_in_first_slots(*self, i as int))),
            decreases 8 - i,
        {
            let items = &self.junk[i].items;
            let ghost before = items_in_first_slots(*self, i as int);
            assert(self.items_of(spec_kind_at_slot(i as int)) == items@);
            let n = items.len();
            let mut j: usize = 0;
            while j < n
                invariant
                    j <= n,
                    n == items@.len(),
                    total == clamp_u64(total_size(before + items@.take(j as int))),
                decreases n - j,
            {
                let ghost prefix = before + items@.take(j as int);
                assert(before + items@.take(j + 1) =~= prefix.push(items@[j as int]));
                assert(prefix.push(items@[j as int]).drop_last() =~= prefix);
                total = total.saturating_add(items[j].size);
                j = j + 1;
            }
            assert(items@.take(n as int) =~= items@);
            i = i + 1;
        }
        total
    }

    /// The yard that the entries of the Trash make: hidden entries are left
    /// out, and each other entry becomes an item of the kind that its
    /// extension, or its being a directory, gives.
    pub fn build(entries: Vec<TrashEntry>) -> (r: ScrapYard)
        ensures
            forall|t: ItemType| r.items_of(t) == spec_built_items(entries@, t),
            r.sorted_and_distinct(),
    {
        let mut yard = ScrapYard::new();
        let n = entries.len();
        let mut i: usize = 0;
        while i < n
            invariant
                i <= n,
                n == entries@.len(),
                forall|t: ItemType| yard.items_of(t) == spec_built_items(entries@.take(i as int), t),
                yard.sorted_and_distinct(),
            decreases n - i,
        {
            let e = &entries[i];
            proof {
                assert(entries@.take(i + 1).drop_last() =~= entries@.take(i as int));
                assert(entries@.take(i + 1).last() == e);
            }
            if !is_hidden(e.name.as_str()) {
                let item_type = ItemType::from_extension(e.extension.as_str(), e.is_dir);
                let item = TrashItem {
                    name: e.name.clone(),
                    original_path: e.original_path.clone(),
                    deleted_at: e.deleted_at.clone(),
                    item_type,
                    size: e.size,
                };
                assert(item == spec_item_of_entry(*e));
                yard.add_junk(item);
            }
            i = i + 1;
        }
        assert(entries@.take(n as int) =~= entries@);
        yard
    }
}

/// All items of the sequence are of kind `t`.
pub open spec fn all_of_kind(items: Seq<TrashItem>, t: ItemType) -> bool {
    forall|i: int| 0 <= i < items.len() ==> items[i].item_type == t
}

/// Adding an item of kind `t` to items of kind `t` gives items of kind `t`.
pub proof fn law_add_item_keeps_kind(items: Seq<TrashItem>, item: TrashItem, t: ItemType)
    requires
        all_of_kind(items, t),
        item.item_type == t,
    ensures
        all_of_kind(spec_add_item(items, item), t),
{
    if has_name(items, item.name@) {
        lemma_has_name_has_first(items, item.name@);
    }
}

/// Every item in the tab of a kind is of that kind, and no two items there
/// share a name.
pub proof fn law_built_items_sorted_and_distinct(entries: Seq<TrashEntry>, t: ItemType)
    ensures
        all_of_kind(spec_built_items(entries, t), t),
        names_distinct(spec_built_items(entries, t)),
    decreases entries.len(),
{
    if entries.len() > 0 {
        let before = spec_built_items(entries.drop_last(), t);
        let e = entries.last();
        law_built_items_sorted_and_distinct(entries.drop_last(), t);
        if !(spec_is_hidden(e.name@) || spec_from_extension(e.extension@, e.is_dir) != t) {
            law_add_item_keeps_kind(before, spec_item_of_entry(e), t);
            law_add_item_keeps_names_distinct(before, spec_item_of_entry(e));
        }
    }
}

/// An entry whose name starts with a dot adds nothing.
pub proof fn law_hidden_entries_left_out(entries: Seq<TrashEntry>, e: TrashEntry, t: ItemType)
    requires
        e.name@.len() > 0,
        e.name@[0] == '.',
    ensures
        spec_built_items(entries.push(e), t) == spec_built_items(entries, t),
{
    assert(entries.push(e).drop_last() =~= entries);
}

/// A yard with no item of any kind has no item at all, and its size is zero.
pub proof fn law_empty_yard_has_no_size(y: ScrapYard)
    requires
        forall|t: ItemType| y.items_of(t).len() == 0,
    ensures
        y.all_items().len() == 0,
        total_size(y.all_items()) == 0,
{
    lemma_first_slots_empty(y, 8);
}

proof fn lemma_first_slots_empty(y: ScrapYard, n: int)
    requires
        forall|t: ItemType| y.items_of(t).len() == 0,
    ensures
        items_in_first_slots(y, n).len() == 0,
    decreases n,
{
    if n > 0 {
        lemma_first_slots_empty(y, n - 1);
        assert(y.items_of(spec_kind_at_slot(n - 1)).len() == 0);
    }
}

/// Every entry whose name does not start with a dot is listed under its
/// kind, under its name, as the item it makes, whatever its size or other
/// fields; the items of the other kinds are not touched by it.
pub proof fn law_visible_entry_is_listed(entries: Seq<TrashEntry>, e: TrashEntry)
    requires
        e.name@.len() == 0 || e.name@[0] != '.',
    ensures
        has_name(spec_built_items(entries.push(e), spec_from_extension(e.extension@, e.is_dir)), e.name@),
        spec_as_map(spec_built_items(entries.push(e), spec_from_extension(e.extension@, e.is_dir)))[e.name@]
            == spec_item_of_entry(e),
        forall|u: ItemType| u != spec_from_extension(e.extension@, e.is_dir)
            ==> spec_built_items(entries.push(e), u) == spec_built_items(entries, u),
{
    let t = spec_from_extension(e.extension@, e.is_dir);
    let before = spec_built_items(entries, t);
    assert(entries.push(e).drop_last() =~= entries);
    assert(entries.push(e).last() == e);
    law_add_item_is_map_insert(before, spec_item_of_entry(e));
    assert(spec_as_map(spec_add_item(before, spec_item_of_entry(e))).dom().contains(e.name@));
}

} // verus!
