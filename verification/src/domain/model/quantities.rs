//! A finite map from item identifiers to quantities, kept as a list in which
//! no identifier occurs twice.

use vstd::prelude::*;
use crate::domain::model::item::ItemId;

verus! {

/// The key under which an item is filed: the text of its identifier, if any.
pub type ItemKey = Option<Seq<char>>;

/// Entry `i` of `entries` exists and is filed under `key`.
spec fn filed_at(entries: Seq<(ItemId, u32)>, key: ItemKey, i: int) -> bool {
    0 <= i < entries.len() && entries[i].0@ == key
}

/// No two entries are filed under the same key.
spec fn distinct_keys(entries: Seq<(ItemId, u32)>) -> bool {
    forall|i: int, j: int| 0 <= i < j < entries.len() ==> entries[i].0@ != entries[j].0@
}

/// The map that a list of entries stands for.
spec fn as_map(entries: Seq<(ItemId, u32)>) -> Map<ItemKey, u32> {
    Map::new(
        |key: ItemKey| exists|i: int| filed_at(entries, key, i),
        |key: ItemKey| entries[choose|i: int| filed_at(entries, key, i)].1,
    )
}

/// The keys of a list of entries, in order.
spec fn keys_of(entries: Seq<(ItemId, u32)>) -> Seq<ItemKey> {
    Seq::new(entries.len(), |i: int| entries[i].0@)
}

/// The sum of the quantities of a list of entries.
spec fn listed_total(entries: Seq<(ItemId, u32)>) -> nat
    decreases entries.len(),
{
    if entries.len() == 0 {
        0
    } else {
        listed_total(entries.drop_last()) + entries.last().1 as nat
    }
}

/// The sum of all quantities in a finite map.
pub open spec fn total_of(quantities: Map<ItemKey, u32>) -> nat
    decreases quantities.dom().len(),
    when quantities.dom().finite()
{
    if quantities.dom().len() == 0 {
        0
    } else {
        let key = quantities.dom().choose();
        quantities[key] as nat + total_of(quantities.remove(key))
    }
}

/// The total of a map is the quantity under any one key plus the total of the rest.
pub proof fn lemma_total_split(quantities: Map<ItemKey, u32>, key: ItemKey)
    requires
        quantities.dom().finite(),
        quantities.dom().contains(key),
    ensures
        total_of(quantities) == quantities[key] as nat + total_of(quantities.remove(key)),
    decreases quantities.dom().len(),
{
    let chosen = quantities.dom().choose();
    if chosen != key {
        let without_chosen = quantities.remove(chosen);
        let without_key = quantities.remove(key);
        lemma_total_split(without_chosen, key);
        lemma_total_split(without_key, chosen);
        assert(without_chosen.remove(key) =~= without_key.remove(chosen));
    }
}

/// Filing a quantity under a new key adds it to the total.
pub proof fn lemma_total_insert(quantities: Map<ItemKey, u32>, key: ItemKey, quantity: u32)
    requires
        quantities.dom().finite(),
        !quantities.dom().contains(key),
    ensures
        total_of(quantities.insert(key, quantity)) == total_of(quantities) + quantity as nat,
{
    let extended = quantities.insert(key, quantity);
    lemma_total_split(extended, key);
    assert(extended.remove(key) =~= quantities);
}

/// With distinct keys, every entry is found in the map under its own key.
proof fn lemma_as_map_entries(entries: Seq<(ItemId, u32)>)
    requires
        distinct_keys(entries),
    ensures
        forall|i: int|
            0 <= i < entries.len() ==> as_map(entries).dom().contains(#[trigger] entries[i].0@)
                && as_map(entries)[entries[i].0@] == entries[i].1,
{
    assert forall|i: int| 0 <= i < entries.len() implies as_map(entries).dom().contains(
        #[trigger] entries[i].0@,
    ) && as_map(entries)[entries[i].0@] == entries[i].1 by {
        let key = entries[i].0@;
        assert(filed_at(entries, key, i));
        let found = choose|j: int| filed_at(entries, key, j);
        assert(found == i);
    }
}

/// The keys of the map are the keys of the list: finitely many, and with
/// distinct keys as many as there are entries.
proof fn lemma_as_map_domain(entries: Seq<(ItemId, u32)>)
    requires
        distinct_keys(entries),
    ensures
        as_map(entries).dom().finite(),
        as_map(entries).dom().len() == entries.len(),
{
    let keys = keys_of(entries);
    assert(as_map(entries).dom() =~= keys.to_set()) by {
        assert forall|key: ItemKey| as_map(entries).dom().contains(key) implies keys.to_set().contains(
            key,
        ) by {
            let i = choose|i: int| filed_at(entries, key, i);
            assert(keys[i] == key);
        }
        assert forall|key: ItemKey| keys.to_set().contains(key) implies as_map(
            entries,
        ).dom().contains(key) by {
            let i = choose|i: int| 0 <= i < keys.len() && keys[i] == key;
            assert(filed_at(entries, key, i));
        }
    }
    vstd::seq_lib::seq_to_set_is_finite(keys);
    keys.unique_seq_to_set();
}

/// Leaving out the last entry of a list leaves out its key from the map.
proof fn lemma_as_map_push(entries: Seq<(ItemId, u32)>)
    requires
        distinct_keys(entries),
        entries.len() > 0,
    ensures
        distinct_keys(entries.drop_last()),
        !as_map(entries.drop_last()).dom().contains(entries.last().0@),
        as_map(entries) == as_map(entries.drop_last()).insert(entries.last().0@, entries.last().1),
{
    let front = entries.drop_last();
    let last = entries.last();
    lemma_as_map_entries(entries);
    lemma_as_map_entries(front);
    assert(!as_map(front).dom().contains(last.0@)) by {
        if as_map(front).dom().contains(last.0@) {
            let i = choose|i: int| filed_at(front, last.0@, i);
            assert(entries[i].0@ == entries[entries.len() - 1].0@);
        }
    }
    assert(as_map(entries) =~= as_map(front).insert(last.0@, last.1)) by {
        assert forall|key: ItemKey| as_map(entries).dom().contains(key) implies as_map(
            front,
        ).insert(last.0@, last.1).dom().contains(key) by {
            let i = choose|i: int| filed_at(entries, key, i);
            if i < front.len() {
                assert(filed_at(front, key, i));
            }
        }
        assert forall|key: ItemKey|
            as_map(front).insert(last.0@, last.1).dom().contains(key) implies as_map(
            entries,
        ).dom().contains(key) && as_map(entries)[key] == as_map(front).insert(last.0@, last.1)[key] by {
            if key == last.0@ {
                assert(filed_at(entries, key, entries.len() - 1));
            } else {
                let i = choose|i: int| filed_at(front, key, i);
                assert(filed_at(entries, key, i));
                assert(front[i].0@ == key);
            }
        }
    }
}

/// With distinct keys, the total of the map is the total of the list.
proof fn lemma_as_map_total(entries: Seq<(ItemId, u32)>)
    requires
        distinct_keys(entries),
    ensures
        total_of(as_map(entries)) == listed_total(entries),
    decreases entries.len(),
{
    lemma_as_map_domain(entries);
    if entries.len() > 0 {
        let front = entries.drop_last();
        lemma_as_map_push(entries);
        lemma_as_map_total(front);
        lemma_as_map_domain(front);
        lemma_total_insert(as_map(front), entries.last().0@, entries.last().1);
    }
}

/// The total of the first entries of a list is no more than the total of all.
proof fn lemma_listed_total_grows(entries: Seq<(ItemId, u32)>, n: int)
    requires
        0 <= n <= entries.len(),
    ensures
        listed_total(entries.take(n)) <= listed_total(entries),
    decreases entries.len(),
{
    if n < entries.len() {
        let front = entries.drop_last();
        lemma_listed_total_grows(front, n);
        assert(front.take(n) =~= entries.take(n));
    } else {
        assert(entries.take(n) =~= entries);
    }
}

/// Two lists with the same keys and quantities, entry by entry, stand for the
/// same map.
proof fn lemma_as_map_copy(entries: Seq<(ItemId, u32)>, copy: Seq<(ItemId, u32)>)
    requires
        distinct_keys(entries),
        copy.len() == entries.len(),
        forall|i: int|
            0 <= i < entries.len() ==> copy[i].0@ == entries[i].0@ && copy[i].1 == entries[i].1,
    ensures
        distinct_keys(copy),
        as_map(copy) == as_map(entries),
{
    lemma_as_map_entries(entries);
    lemma_as_map_entries(copy);
    assert(as_map(copy) =~= as_map(entries)) by {
        assert forall|key: ItemKey| as_map(copy).dom().contains(key) implies as_map(
            entries,
        ).dom().contains(key) && as_map(entries)[key] == as_map(copy)[key] by {
            let i = choose|i: int| filed_at(copy, key, i);
            assert(filed_at(entries, key, i));
            assert(entries[i].0@ == key);
            assert(copy[i].0@ == key);
        }
        assert forall|key: ItemKey| as_map(entries).dom().contains(key) implies as_map(
            copy,
        ).dom().contains(key) by {
            let i = choose|i: int| filed_at(entries, key, i);
            assert(filed_at(copy, key, i));
        }
    }
}

/// Quantities by item: each item occurs at most once.
#[derive(Debug)]
pub struct ItemQuantities {
    entries: Vec<(ItemId, u32)>,
}

impl View for ItemQuantities {
    type V = Map<ItemKey, u32>;

    closed spec fn view(&self) -> Map<ItemKey, u32> {
        as_map(self.entries@)
    }
}

impl Clone for ItemQuantities {
    fn clone(&self) -> (r: ItemQuantities)
        ensures
            r@ == self@,
    {
        let entries = self.copy_entries();
        proof {
            use_type_invariant(self);
            lemma_as_map_copy(self.entries@, entries@);
        }
        ItemQuantities { entries }
    }
}

impl ItemQuantities {
    /// No item is listed twice.
    #[verifier::type_invariant]
    spec fn listed_once(self) -> bool {
        distinct_keys(self.entries@)
    }

    /// Takes the list of entries out and leaves an empty one behind.
    fn take_entries(&mut self) -> (entries: Vec<(ItemId, u32)>)
        ensures
            entries == old(self).entries,
            final(self).entries@.len() == 0,
    {
        let mut entries: Vec<(ItemId, u32)> = Vec::new();
        core::mem::swap(&mut self.entries, &mut entries);
        entries
    }

    /// The position of `key` among the entries, if it is there.
    fn position(&self, key: &ItemId) -> (r: Option<usize>)
        ensures
            match r {
                Some(i) => filed_at(self.entries@, key@, i as int),
                None => forall|i: int| !filed_at(self.entries@, key@, i),
            },
    {
        let mut i: usize = 0;
        while i < self.entries.len()
            invariant
                i <= self.entries.len(),
                forall|j: int| 0 <= j < i ==> !filed_at(self.entries@, key@, j),
            decreases self.entries.len() - i,
        {
            if self.entries[i].0 == *key {
                return Some(i);
            }
            i = i + 1;
        }
        None
    }

    /// A copy of the entries, in their order.
    fn copy_entries(&self) -> (copy: Vec<(ItemId, u32)>)
        ensures
            copy@.len() == self.entries@.len(),
            forall|i: int|
                0 <= i < copy@.len() ==> copy@[i].0@ == self.entries@[i].0@ && copy@[i].1
                    == self.entries@[i].1,
    {
        let mut copy: Vec<(ItemId, u32)> = Vec::new();
        let mut i: usize = 0;
        while i < self.entries.len()
            invariant
                i <= self.entries.len(),
                copy@.len() == i,
                forall|j: int|
                    0 <= j < i ==> copy@[j].0@ == self.entries@[j].0@ && copy@[j].1
                        == self.entries@[j].1,
            decreases self.entries.len() - i,
        {
            copy.push((self.entries[i].0.clone(), self.entries[i].1));
            i = i + 1;
        }
        copy
    }

    /// All items with their quantities, each item once, in no particular
    /// order.
    pub fn entries(&self) -> (list: Vec<(ItemId, u32)>)
        ensures
            list@.len() == self@.dom().len(),
            forall|i: int|
                0 <= i < list@.len() ==> self@.dom().contains(#[trigger] list@[i].0@)
                    && self@[list@[i].0@] == list@[i].1,
            forall|i: int, j: int| 0 <= i < j < list@.len() ==> list@[i].0@ != list@[j].0@,
    {
        let list = self.copy_entries();
        proof {
            use_type_invariant(self);
            lemma_as_map_copy(self.entries@, list@);
            lemma_as_map_entries(list@);
            lemma_as_map_domain(list@);
        }
        list
    }

    /// An empty map.
    pub fn new() -> (r: ItemQuantities)
        ensures
            r@ == Map::<ItemKey, u32>::empty(),
    {
        let r = ItemQuantities { entries: Vec::new() };
        assert(r@ =~= Map::<ItemKey, u32>::empty());
        r
    }

    /// The quantity filed under `key`, if any.
    pub fn get(&self, key: &ItemId) -> (r: Option<&u32>)
        ensures
            self@.dom().finite(),
            match r {
                Some(quantity) => self@.dom().contains(key@) && self@[key@] == *quantity,
                None => !self@.dom().contains(key@),
            },
    {
        proof {
            use_type_invariant(self);
            lemma_as_map_entries(self.entries@);
            lemma_as_map_domain(self.entries@);
        }
        match self.position(key) {
            Some(i) => Some(&self.entries[i].1),
            None => None,
        }
    }

    /// Whether anything is filed under `key`.
    pub fn contains_key(&self, key: &ItemId) -> (r: bool)
        ensures
            self@.dom().finite(),
            r == self@.dom().contains(key@),
    {
        proof {
            use_type_invariant(self);
            lemma_as_map_domain(self.entries@);
        }
        self.position(key).is_some()
    }

    /// Files `value` under `key`, and returns what was filed there before.
    pub fn insert(&mut self, key: ItemId, value: u32) -> (r: Option<u32>)
        ensures
            final(self)@.dom().finite(),
            final(self)@ == old(self)@.insert(key@, value),
            r == (if old(self)@.dom().contains(key@) {
                Some(old(self)@[key@])
            } else {
                None
            }),
    {
        proof {
            use_type_invariant(&*self);
            lemma_as_map_entries(self.entries@);
        }
        let found = self.position(&key);
        let mut entries = self.take_entries();
        let ghost before = entries@;
        let ghost filed = key@;
        let previous = match found {
            Some(i) => {
                let previous = entries[i].1;
                entries[i] = (key, value);
                proof {
                    let after = entries@;
                    assert(forall|j: int| 0 <= j < after.len() ==> after[j].0@ == before[j].0@);
                    lemma_as_map_entries(after);
                    assert(as_map(after) =~= as_map(before).insert(filed, value)) by {
                        assert forall|k: ItemKey| as_map(after).dom().contains(k) implies as_map(
                            before,
                        ).insert(filed, value).dom().contains(k) by {
                            let j = choose|j: int| filed_at(after, k, j);
                            assert(filed_at(before, k, j));
                        }
                        assert forall|k: ItemKey|
                            as_map(before).insert(filed, value).dom().contains(k) implies as_map(
                            after,
                        ).dom().contains(k) && as_map(after)[k] == as_map(before).insert(
                            filed,
                            value,
                        )[k] by {
                            if k == filed {
                                assert(filed_at(after, k, i as int));
                            } else {
                                let j = choose|j: int| filed_at(before, k, j);
                                assert(filed_at(after, k, j));
                                assert(after[j].0@ == k);
                                assert(before[j].0@ == k);
                            }
                        }
                    }
                }
                Some(previous)
            },
            None => {
                entries.push((key, value));
                proof {
                    let after = entries@;
                    assert(after.drop_last() =~= before);
                    assert(distinct_keys(after)) by {
                        assert forall|a: int, b: int| 0 <= a < b < after.len() implies after[a].0@
                            != after[b].0@ by {
                            if b == after.len() - 1 {
                                assert(!filed_at(before, filed, a));
                            }
                        }
                    }
                    lemma_as_map_push(after);
                }
                None
            },
        };
        proof {
            lemma_as_map_domain(entries@);
        }
        self.entries = entries;
        previous
    }

    /// Takes out what is filed under `key`, and returns it.
    pub fn remove(&mut self, key: &ItemId) -> (r: Option<u32>)
        ensures
            final(self)@.dom().finite(),
            final(self)@ == old(self)@.remove(key@),
            r == (if old(self)@.dom().contains(key@) {
                Some(old(self)@[key@])
            } else {
                None
            }),
    {
        proof {
            use_type_invariant(&*self);
            lemma_as_map_entries(self.entries@);
            lemma_as_map_domain(self.entries@);
        }
        match self.position(key) {
            Some(i) => {
                let mut entries = self.take_entries();
                let ghost before = entries@;
                let removed = entries.remove(i);
                proof {
                    let after = entries@;
                    assert(forall|j: int| 0 <= j < i ==> after[j] == before[j]);
                    assert(forall|j: int| i <= j < after.len() ==> after[j] == before[j + 1]);
                    lemma_as_map_entries(after);
                    lemma_as_map_domain(after);
                    assert(as_map(after) =~= as_map(before).remove(key@)) by {
                        assert forall|k: ItemKey| as_map(after).dom().contains(k) implies as_map(
                            before,
                        ).remove(key@).dom().contains(k) && as_map(after)[k] == as_map(
                            before,
                        ).remove(key@)[k] by {
                            let j = choose|j: int| filed_at(after, k, j);
                            if j < i {
                                assert(filed_at(before, k, j));
                                assert(before[j].0@ == k);
                            } else {
                                assert(filed_at(before, k, j + 1));
                                assert(before[j + 1].0@ == k);
                            }
                            assert(after[j].0@ == k);
                        }
                        assert forall|k: ItemKey|
                            as_map(before).remove(key@).dom().contains(k) implies as_map(
                            after,
                        ).dom().contains(k) by {
                            let j = choose|j: int| filed_at(before, k, j);
                            if j < i {
                                assert(filed_at(after, k, j));
                            } else {
                                assert(filed_at(after, k, j - 1));
                            }
                        }
                    }
                }
                self.entries = entries;
                Some(removed.1)
            },
            None => {
                assert(self@ =~= old(self)@.remove(key@));
                None
            },
        }
    }

    /// Takes out every entry.
    pub fn clear(&mut self)
        ensures
            final(self)@.dom().finite(),
            final(self)@ == Map::<ItemKey, u32>::empty(),
    {
        self.entries = Vec::new();
        assert(self@ =~= Map::<ItemKey, u32>::empty());
    }

    /// Whether nothing is filed.
    pub fn is_empty(&self) -> (r: bool)
        ensures
            self@.dom().finite(),
            r == (self@.dom().len() == 0),
            r == (self@ == Map::<ItemKey, u32>::empty()),
    {
        proof {
            use_type_invariant(self);
            lemma_as_map_domain(self.entries@);
            if self.entries@.len() == 0 {
                assert(self@ =~= Map::<ItemKey, u32>::empty());
            }
        }
        self.entries.len() == 0
    }

    /// The number of keys.
    pub fn len(&self) -> (r: usize)
        ensures
            self@.dom().finite(),
            r == self@.dom().len(),
    {
        proof {
            use_type_invariant(self);
            lemma_as_map_domain(self.entries@);
        }
        self.entries.len()
    }

    /// The sum of all quantities, where it fits.
    pub fn checked_total(&self) -> (r: Option<u32>)
        ensures
            self@.dom().finite(),
            r == (if total_of(self@) <= u32::MAX {
                Some(total_of(self@) as u32)
            } else {
                None
            }),
    {
        proof {
            use_type_invariant(self);
            lemma_as_map_total(self.entries@);
            lemma_as_map_domain(self.entries@);
        }
        let mut sum: u32 = 0;
        let mut i: usize = 0;
        while i < self.entries.len()
            invariant
                i <= self.entries.len(),
                sum == listed_total(self.entries@.take(i as int)),
                total_of(self@) == listed_total(self.entries@),
                self@.dom().finite(),
            decreases self.entries.len() - i,
        {
            proof {
                let upto = self.entries@.take(i + 1);
                assert(upto.drop_last() =~= self.entries@.take(i as int));
                assert(upto.last() == self.entries@[i as int]);
                lemma_listed_total_grows(self.entries@, i + 1);
            }
            match sum.checked_add(self.entries[i].1) {
                Some(next) => {
                    sum = next;
                },
                None => {
                    return None;
                },
            }
            i = i + 1;
        }
        assert(self.entries@.take(i as int) =~= self.entries@);
        Some(sum)
    }

    /// Whether every quantity is above zero.
    pub fn all_positive(&self) -> (r: bool)
        ensures
            self@.dom().finite(),
            r == (forall|key: ItemKey| self@.dom().contains(key) ==> self@[key] > 0),
    {
        proof {
            use_type_invariant(self);
            lemma_as_map_entries(self.entries@);
            lemma_as_map_domain(self.entries@);
        }
        let mut i: usize = 0;
        while i < self.entries.len()
            invariant
                i <= self.entries.len(),
                self@.dom().finite(),
                forall|j: int| 0 <= j < i ==> self.entries@[j].1 > 0,
                forall|j: int|
                    0 <= j < self.entries@.len() ==> self@.dom().contains(
                        #[trigger] self.entries@[j].0@,
                    ) && self@[self.entries@[j].0@] == self.entries@[j].1,
            decreases self.entries.len() - i,
        {
            if self.entries[i].1 == 0 {
                assert(self@.dom().contains(self.entries@[i as int].0@));
                return false;
            }
            i = i + 1;
        }
        proof {
            assert forall|key: ItemKey| self@.dom().contains(key) implies self@[key] > 0 by {
                let j = choose|j: int| filed_at(self.entries@, key, j);
                assert(self.entries@[j].0@ == key);
            }
        }
        true
    }
}

} // verus!
