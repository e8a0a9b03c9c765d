//! Tables keyed by entities and by names, on top of the engine's hash map.

use bevy::platform::collections::HashMap;
use bevy::platform::hash::FixedHasher;
use vstd::prelude::*;

verus! {

/// The engine's hash map, `bevy::platform::collections::HashMap`.
#[verifier::external_type_specification]
#[verifier::external_body]
#[verifier::reject_recursive_types(K)]
#[verifier::reject_recursive_types(V)]
#[verifier::reject_recursive_types(S)]
pub struct ExHashMap<K, V, S>(HashMap<K, V, S>);

/// The hasher that the engine's hash map uses unless told otherwise.
#[verifier::external_type_specification]
#[verifier::external_body]
pub struct ExFixedHasher(FixedHasher);

/// The contents of a hash map from 64-bit keys to slots.
pub uninterp spec fn slots_of(index: HashMap<u64, usize, FixedHasher>) -> Map<u64, usize>;

/// The contents of a hash map from names to slots, each name as its characters.
pub uninterp spec fn named_slots_of(index: HashMap<String, usize, FixedHasher>) -> Map<
    Seq<char>,
    usize,
>;

/// `HashMap::new`, for 64-bit keys: the new map holds nothing.
#[verifier::external_body]
fn new_index() -> (index: HashMap<u64, usize, FixedHasher>)
    ensures
        slots_of(index).dom() == Set::<u64>::empty(),
{
    HashMap::new()
}

/// `HashMap::get`, for 64-bit keys: the slot that the key is bound to, if it is bound.
#[verifier::external_body]
fn index_get(index: &HashMap<u64, usize, FixedHasher>, key: u64) -> (slot: Option<usize>)
    ensures
        slot == (if slots_of(*index).dom().contains(key) {
            Some(slots_of(*index)[key])
        } else {
            None
        }),
{
    index.get(&key).copied()
}

/// `HashMap::insert`, for 64-bit keys: binds the key to the slot, in place of any slot that it was
/// bound to before, and leaves every other key as it was.
#[verifier::external_body]
fn index_insert(index: &mut HashMap<u64, usize, FixedHasher>, key: u64, slot: usize)
    ensures
        slots_of(*final(index)) == slots_of(*old(index)).insert(key, slot),
{
    index.insert(key, slot);
}

/// `HashMap::new`, for names: the new map holds nothing.
#[verifier::external_body]
fn new_name_index() -> (index: HashMap<String, usize, FixedHasher>)
    ensures
        named_slots_of(index).dom() == Set::<Seq<char>>::empty(),
{
    HashMap::new()
}

/// `HashMap::get`, for names: the slot that the name is bound to, if it is bound.
#[verifier::external_body]
fn name_index_get(
    index: &HashMap<String, usize, FixedHasher>,
    name: &String,
) -> (slot: Option<usize>)
    ensures
        slot == (if named_slots_of(*index).dom().contains(name@) {
            Some(named_slots_of(*index)[name@])
        } else {
            None
        }),
{
    index.get(name).copied()
}

/// `HashMap::insert`, for names: binds the name to the slot, in place of any slot that it was
/// bound to before, and leaves every other name as it was.
#[verifier::external_body]
fn name_index_insert(
    index: &mut HashMap<String, usize, FixedHasher>,
    name: String,
    slot: usize,
)
    ensures
        named_slots_of(*final(index)) == named_slots_of(*old(index)).insert(name@, slot),
{
    index.insert(name, slot);
}

/// `HashMap::keys`, for names: every bound name, once each. The order is the map's own and is left
/// open.
#[verifier::external_body]
fn name_index_keys(index: &HashMap<String, usize, FixedHasher>) -> (names: Vec<String>)
    ensures
        views(names@).no_duplicates(),
        views(names@).to_set() == named_slots_of(*index).dom(),
{
    index.keys().cloned().collect()
}

/// The characters of each string.
pub open spec fn views(strings: Seq<String>) -> Seq<Seq<char>> {
    strings.map_values(|s: String| s@)
}

/// A table that gives each of its keys one value.
///
/// A key is the bit pattern of an entity, or another number that names one thing.
pub struct EntityMap<V> {
    index: HashMap<u64, usize, FixedHasher>,
    entries: Vec<(u64, V)>,
}

impl<V> View for EntityMap<V> {
    type V = Map<u64, V>;

    closed spec fn view(&self) -> Map<u64, V> {
        Map::new(
            |key: u64| slots_of(self.index).dom().contains(key),
            |key: u64| self.entries@[slots_of(self.index)[key] as int].1,
        )
    }
}

impl<V> EntityMap<V> {
    /// The hash map points each key at the entry that carries it, and no entry is without its key.
    pub closed spec fn wf(&self) -> bool {
        &&& forall|key: u64| #[trigger]
            slots_of(self.index).dom().contains(key) ==> {
                &&& slots_of(self.index)[key] < self.entries@.len()
                &&& self.entries@[slots_of(self.index)[key] as int].0 == key
            }
        &&& forall|i: int|
            0 <= i < self.entries@.len() ==> {
                &&& slots_of(self.index).dom().contains((#[trigger] self.entries@[i]).0)
                &&& slots_of(self.index)[self.entries@[i].0] == i
            }
    }

    /// The keys, in the order in which they first came.
    pub closed spec fn keys(&self) -> Seq<u64> {
        self.entries@.map_values(|entry: (u64, V)| entry.0)
    }

    /// The keys are listed once each, and they are the keys that have a value.
    pub proof fn lemma_keys(&self)
        requires
            self.wf(),
        ensures
            self.keys().no_duplicates(),
            self.keys().to_set() == self@.dom(),
    {
        assert forall|i: int, j: int| 0 <= i < self.keys().len() && 0 <= j < self.keys().len() && i
            != j implies self.keys()[i] != self.keys()[j] by {
            assert(slots_of(self.index)[self.entries@[i].0] == i);
            assert(slots_of(self.index)[self.entries@[j].0] == j);
        }
        assert forall|key: u64| self.keys().to_set().contains(key) <==> self@.dom().contains(
            key,
        ) by {
            if self.keys().to_set().contains(key) {
                let i = choose|i: int| 0 <= i < self.keys().len() && self.keys()[i] == key;
                assert(self.entries@[i].0 == key);
            }
            if self@.dom().contains(key) {
                assert(self.keys()[slots_of(self.index)[key] as int] == key);
            }
        }
        assert(self.keys().to_set() =~= self@.dom());
    }

    /// An empty table.
    pub fn new() -> (table: Self)
        ensures
            table.wf(),
            table@ == Map::<u64, V>::empty(),
            table.keys().len() == 0,
    {
        let table = EntityMap { index: new_index(), entries: Vec::new() };
        assert(table@ =~= Map::<u64, V>::empty());
        table
    }

    /// How many keys have a value.
    pub fn len(&self) -> (count: usize)
        requires
            self.wf(),
        ensures
            count == self.keys().len(),
    {
        self.entries.len()
    }

    /// The key that came in at the given place.
    pub fn key_at(&self, i: usize) -> (key: u64)
        requires
            self.wf(),
            i < self.keys().len(),
        ensures
            key == self.keys()[i as int],
            self@.dom().contains(key),
    {
        self.entries[i].0
    }

    /// Whether the key has a value.
    pub fn contains_key(&self, key: u64) -> (found: bool)
        requires
            self.wf(),
        ensures
            found == self@.dom().contains(key),
    {
        index_get(&self.index, key).is_some()
    }

    /// The value of a key, if it has one.
    pub fn get(&self, key: u64) -> (value: Option<&V>)
        requires
            self.wf(),
        ensures
            match value {
                Some(v) => self@.dom().contains(key) && *v == self@[key],
                None => !self@.dom().contains(key),
            },
    {
        match index_get(&self.index, key) {
            Some(slot) => Some(&self.entries[slot].1),
            None => None,
        }
    }

    /// Gives the key a value, in place of any that it had.
    pub fn insert(&mut self, key: u64, value: V)
        requires
            old(self).wf(),
        ensures
            final(self).wf(),
            final(self)@ == old(self)@.insert(key, value),
            final(self).keys() == if old(self)@.dom().contains(key) {
                old(self).keys()
            } else {
                old(self).keys().push(key)
            },
    {
        match index_get(&self.index, key) {
            Some(slot) => {
                self.entries.set(slot, (key, value));
            },
            None => {
                let slot: usize = self.entries.len();
                self.entries.push((key, value));
                index_insert(&mut self.index, key, slot);
            },
        }
        assert(self@ =~= old(self)@.insert(key, value));
        assert(self.keys() =~= if old(self)@.dom().contains(key) {
            old(self).keys()
        } else {
            old(self).keys().push(key)
        });
    }

    /// Exchanges the value of a key with another value. A key without a value is left alone.
    pub fn swap(&mut self, key: u64, other: &mut V)
        requires
            old(self).wf(),
        ensures
            final(self).wf(),
            final(self).keys() == old(self).keys(),
            old(self)@.dom().contains(key) ==> {
                &&& final(self)@ == old(self)@.insert(key, *old(other))
                &&& *final(other) == old(self)@[key]
            },
            !old(self)@.dom().contains(key) ==> {
                &&& final(self)@ == old(self)@
                &&& *final(other) == *old(other)
            },
    {
        match index_get(&self.index, key) {
            Some(slot) => {
                let place = &mut self.entries[slot];
                core::mem::swap(&mut place.1, other);
                assert(self@ =~= old(self)@.insert(key, *old(other)));
                assert(self.keys() =~= old(self).keys());
            },
            None => {},
        }
    }
}

/// A table that gives each of its names one value.
pub struct NameMap<V> {
    index: HashMap<String, usize, FixedHasher>,
    values: Vec<V>,
}

impl<V> View for NameMap<V> {
    type V = Map<Seq<char>, V>;

    closed spec fn view(&self) -> Map<Seq<char>, V> {
        Map::new(
            |name: Seq<char>| named_slots_of(self.index).dom().contains(name),
            |name: Seq<char>| self.values@[named_slots_of(self.index)[name] as int],
        )
    }
}

impl<V> NameMap<V> {
    /// Each name has a value of its own.
    pub closed spec fn wf(&self) -> bool {
        &&& forall|name: Seq<char>| #[trigger]
            named_slots_of(self.index).dom().contains(name) ==> named_slots_of(self.index)[name]
                < self.values@.len()
        &&& forall|a: Seq<char>, b: Seq<char>|
            #![trigger named_slots_of(self.index)[a], named_slots_of(self.index)[b]]
            named_slots_of(self.index).dom().contains(a) && named_slots_of(
                self.index,
            ).dom().contains(b) && named_slots_of(self.index)[a] == named_slots_of(self.index)[b]
                ==> a == b
    }

    /// An empty table.
    pub fn new() -> (table: Self)
        ensures
            table.wf(),
            table@ == Map::<Seq<char>, V>::empty(),
    {
        let table = NameMap { index: new_name_index(), values: Vec::new() };
        assert(table@ =~= Map::<Seq<char>, V>::empty());
        table
    }

    /// The value of a name, if it has one.
    pub fn get(&self, name: &String) -> (value: Option<&V>)
        requires
            self.wf(),
        ensures
            match value {
                Some(v) => self@.dom().contains(name@) && *v == self@[name@],
                None => !self@.dom().contains(name@),
            },
    {
        match name_index_get(&self.index, name) {
            Some(slot) => Some(&self.values[slot]),
            None => None,
        }
    }

    /// Gives the name a value, in place of any that it had.
    pub fn insert(&mut self, name: String, value: V)
        requires
            old(self).wf(),
        ensures
            final(self).wf(),
            final(self)@ == old(self)@.insert(name@, value),
    {
        match name_index_get(&self.index, &name) {
            Some(slot) => {
                self.values.set(slot, value);
            },
            None => {
                let slot: usize = self.values.len();
                self.values.push(value);
                name_index_insert(&mut self.index, name, slot);
            },
        }
        assert(self@ =~= old(self)@.insert(name@, value));
    }

    /// The names that have a value, once each, in no order that could be relied on.
    pub fn names(&self) -> (names: Vec<String>)
        requires
            self.wf(),
        ensures
            views(names@).no_duplicates(),
            views(names@).to_set() == self@.dom(),
    {
        let names = name_index_keys(&self.index);
        assert(named_slots_of(self.index).dom() =~= self@.dom());
        names
    }
}

/// A key has the value that it was last given, and giving it one leaves every other key alone.
pub proof fn law_key_has_the_value_that_it_was_given<V>(
    table: &mut EntityMap<V>,
    key: u64,
    value: V,
    after: &EntityMap<V>,
    other: u64,
    found: Option<&V>,
    known: bool,
)
    requires
        call_ensures(EntityMap::<V>::insert, (table, key, value), ()),
        *after == *final(table),
        call_ensures(EntityMap::<V>::get, (after, other), found),
        call_ensures(EntityMap::<V>::contains_key, (after, other), known),
    ensures
        other == key ==> known && found is Some && *found->0 == value,
        other != key ==> (known <==> old(table)@.dom().contains(other)),
        known <==> found is Some,
        other != key && known ==> *found->0 == old(table)@[other],
{
}

/// Exchanging a value takes it out and puts the other one in, and a key without a value stays without
/// one.
pub proof fn law_values_are_exchanged<V>(
    table: &mut EntityMap<V>,
    key: u64,
    value: &mut V,
    other: u64,
)
    requires
        call_ensures(EntityMap::<V>::swap, (table, key, value), ()),
    ensures
        final(table)@.dom() == old(table)@.dom(),
        old(table)@.dom().contains(key) ==> *final(value) == old(table)@[key],
        old(table)@.dom().contains(key) ==> final(table)@[key] == *old(value),
        !old(table)@.dom().contains(key) ==> *final(value) == *old(value),
        other != key && old(table)@.dom().contains(other) ==> final(table)@[other]
            == old(table)@[other],
{
    assert(final(table)@.dom() =~= old(table)@.dom());
}

/// A name has the value that it was last given, and giving it one leaves every other name alone.
pub proof fn law_name_has_the_value_that_it_was_given<V>(
    table: &mut NameMap<V>,
    name: String,
    value: V,
    after: &NameMap<V>,
    other: &String,
    found: Option<&V>,
)
    requires
        call_ensures(NameMap::<V>::insert, (table, name, value), ()),
        *after == *final(table),
        call_ensures(NameMap::<V>::get, (after, other), found),
    ensures
        other@ == name@ ==> found is Some && *found->0 == value,
        other@ != name@ ==> (found is Some <==> old(table)@.dom().contains(other@)),
        other@ != name@ && found is Some ==> *found->0 == old(table)@[other@],
{
}

} // verus!
