use vstd::prelude::*;
use crate::trash::TrashItem;

verus! {

/// The items of one kind, each under its own name: adding an item whose name
/// is already there replaces the item of that name.
pub struct Scrap {
    pub items: Vec<TrashItem>,
}

/// Whether some item of `items` has the name `name`.
pub open spec fn has_name(items: Seq<TrashItem>, name: Seq<char>) -> bool {
    exists|i: int| 0 <= i < items.len() && items[i].name@ == name
}

/// Whether `i` is the first place in `items` of an item named `name`.
pub open spec fn is_first_with_name(items: Seq<TrashItem>, name: Seq<char>, i: int) -> bool {
    &&& 0 <= i < items.len()
    &&& items[i].name@ == name
    &&& forall|j: int| 0 <= j < i ==> items[j].name@ != name
}

/// The first place in `items` of an item named `name` (meaningful when
/// `has_name(items, name)`).
pub open spec fn index_of_name(items: Seq<TrashItem>, name: Seq<char>) -> int {
    choose|i: int| is_first_with_name(items, name, i)
}

/// No two items carry the same name.
pub open spec fn names_distinct(items: Seq<TrashItem>) -> bool {
    forall|i: int, j: int| 0 <= i < items.len() && 0 <= j < items.len() && i != j
        ==> items[i].name@ != items[j].name@
}

/// The items after `item` is added: it takes the place of the item of the
/// same name, or comes last when there is none.
pub open spec fn spec_add_item(items: Seq<TrashItem>, item: TrashItem) -> Seq<TrashItem> {
    if has_name(items, item.name@) {
        items.update(index_of_name(items, item.name@), item)
    } else {
        items.push(item)
    }
}

/// The items seen as a map from names to items.
pub open spec fn spec_as_map(items: Seq<TrashItem>) -> Map<Seq<char>, TrashItem> {
    Map::new(|n: Seq<char>| has_name(items, n), |n: Seq<char>| items[index_of_name(items, n)])
}

impl Scrap {
    pub fn new() -> (r: Scrap)
        ensures
            r.items@.len() == 0,
    {
        Scrap { items: Vec::new() }
    }

    pub fn add_item(&mut self, item: TrashItem)
        ensures
            final(self).items@ == spec_add_item(old(self).items@, item),
    {
        let n = self.items.len();
        let mut i: usize = 0;
        while i < n
            invariant
                n == self.items@.len(),
                self.items@ == old(self).items@,
                i <= n,
                forall|j: int| 0 <= j < i ==> self.items@[j].name@ != item.name@,
            decreases n - i,
        {
            if self.items[i].name == item.name {
                proof {
                    lemma_first_is_chosen(self.items@, item.name@, i as int);
                }
                self.items.set(i, item);
                return;
            }
            i = i + 1;
        }
        self.items.push(item);
    }
}

/// The first place of a name is the one that `index_of_name` picks.
proof fn lemma_first_is_chosen(items: Seq<TrashItem>, name: Seq<char>, i: int)
    requires
        is_first_with_name(items, name, i),
    ensures
        has_name(items, name),
        index_of_name(items, name) == i,
{
    let c = index_of_name(items, name);
    assert(is_first_with_name(items, name, c));
    if c < i {
        assert(items[c].name@ != name);
    } else if c > i {
        assert(items[i].name@ != name);
    }
}

/// When a name occurs in `items`, it has a first place.
pub proof fn lemma_has_name_has_first(items: Seq<TrashItem>, name: Seq<char>)
    requires
        has_name(items, name),
    ensures
        is_first_with_name(items, name, index_of_name(items, name)),
    decreases items.len(),
{
    let k = choose|k: int| 0 <= k < items.len() && items[k].name@ == name;
    if exists|j: int| 0 <= j < k && items[j].name@ == name {
        let j = choose|j: int| 0 <= j < k && items[j].name@ == name;
        let shorter = items.subrange(0, k);
        assert(shorter[j].name@ == name);
        lemma_has_name_has_first(shorter, name);
        let f = index_of_name(shorter, name);
        assert forall|m: int| 0 <= m < f implies items[m].name@ != name by {
            assert(shorter[m] == items[m]);
        }
        assert(shorter[f] == items[f]);
        assert(is_first_with_name(items, name, f));
        lemma_first_is_chosen(items, name, f);
    } else {
        assert(is_first_with_name(items, name, k));
    }
}

/// Adding an item never makes two items share a name.
pub proof fn law_add_item_keeps_names_distinct(items: Seq<TrashItem>, item: TrashItem)
    requires
        names_distinct(items),
    ensures
        names_distinct(spec_add_item(items, item)),
{
    if has_name(items, item.name@) {
        lemma_has_name_has_first(items, item.name@);
    }
}

/// Seen as a map from names to items, adding an item is inserting it under
/// its name: the item of that name, if any, is replaced, and every other name
/// keeps its item.
pub proof fn law_add_item_is_map_insert(items: Seq<TrashItem>, item: TrashItem)
    ensures
        spec_as_map(spec_add_item(items, item)) == spec_as_map(items).insert(item.name@, item),
{
    let after = spec_add_item(items, item);
    let name = item.name@;
    let p = if has_name(items, name) { index_of_name(items, name) } else { items.len() as int };
    if has_name(items, name) {
        lemma_has_name_has_first(items, name);
    }
    assert(is_first_with_name(after, name, p));
    lemma_first_is_chosen(after, name, p);
    assert forall|n: Seq<char>| n != name implies (has_name(after, n) == has_name(items, n)
        && (has_name(items, n) ==> index_of_name(after, n) == index_of_name(items, n)
            && after[index_of_name(after, n)] == items[index_of_name(items, n)])) by {
        if has_name(items, n) {
            lemma_has_name_has_first(items, n);
            let q = index_of_name(items, n);
            assert(q != p);
            assert(after[q] == items[q]);
            assert(is_first_with_name(after, n, q));
            lemma_first_is_chosen(after, n, q);
        }
        if has_name(after, n) {
            let k = choose|k: int| 0 <= k < after.len() && after[k].name@ == n;
            assert(k != p);
            assert(items[k].name@ == n);
        }
    }
    assert(spec_as_map(after) =~= spec_as_map(items).insert(name, item));
}

/// Adding an item makes the items one longer exactly when no item had its
/// name before.
pub proof fn law_add_item_len(items: Seq<TrashItem>, item: TrashItem)
    ensures
        spec_add_item(items, item).len() == if has_name(items, item.name@) {
            items.len()
        } else {
            items.len() + 1
        },
{
    if has_name(items, item.name@) {
        lemma_has_name_has_first(items, item.name@);
    }
}

/// Adding the same item twice leaves the items as adding it once does.
pub proof fn law_add_item_twice(items: Seq<TrashItem>, item: TrashItem)
    ensures
        spec_add_item(spec_add_item(items, item), item) == spec_add_item(items, item),
{
    let once = spec_add_item(items, item);
    let name = item.name@;
    let p = if has_name(items, name) { index_of_name(items, name) } else { items.len() as int };
    if has_name(items, name) {
        lemma_has_name_has_first(items, name);
    }
    assert(is_first_with_name(once, name, p));
    lemma_first_is_chosen(once, name, p);
    assert(spec_add_item(once, item) =~= once);
}

} // verus!
