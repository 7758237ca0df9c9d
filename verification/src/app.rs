//! A store that holds at most one value per type key: the bag in which an
//! application keeps its ambient state.
//!
//! The key is a stable identifier of the value's type and the value is
//! whatever erased form the host keeps its state in; the store itself never
//! looks inside a value.

use vstd::prelude::*;
use std::collections::HashMap;
use std::collections::hash_map::Entry;
use vstd::std_specs::iter::IteratorSpec;

verus! {

/// The keys of a map, each once, in the order in which the map hands them
/// out.
fn keys_of<V>(map: &HashMap<u64, V>) -> (keys: Vec<u64>)
    ensures
        keys@.to_set() == map@.dom(),
        keys@.no_duplicates(),
{
    broadcast use vstd::std_specs::hash::group_hash_axioms;

    let mut keys: Vec<u64> = Vec::new();
    for key in it: map.keys()
        invariant
            it.seq() == map.keys().remaining(),
            keys@.len() == it.index(),
            forall|i: int| 0 <= i < keys@.len() ==> keys@[i] == *it.seq()[i],
    {
        keys.push(*key);
    }
    assert(keys@ =~= map.keys().remaining().unref());
    keys
}

/// A map from type keys to values.
pub struct App<V> {
    map: HashMap<u64, V>,
}

impl<V> View for App<V> {
    type V = Map<u64, V>;

    closed spec fn view(&self) -> Map<u64, V> {
        self.map@
    }
}

impl<V> App<V> {
    /// An empty store.
    pub fn new() -> (app: App<V>)
        ensures
            app@ == Map::<u64, V>::empty(),
    {
        App { map: HashMap::new() }
    }

    /// Stores `val` under `key`. A value that was stored under the key
    /// before is replaced and returned.
    pub fn insert(&mut self, key: u64, val: V) -> (previous: Option<V>)
        ensures
            final(self)@ == old(self)@.insert(key, val),
            previous == (if old(self)@.contains_key(key) {
                Some(old(self)@[key])
            } else {
                None
            }),
    {
        broadcast use vstd::std_specs::hash::group_hash_axioms;

        self.map.insert(key, val)
    }

    /// Whether a value is stored under `key`.
    pub fn contains(&self, key: u64) -> (b: bool)
        ensures
            b == self@.contains_key(key),
    {
        broadcast use vstd::std_specs::hash::group_hash_axioms;

        self.map.contains_key(&key)
    }

    /// The value stored under `key`, if there is one.
    pub fn get(&self, key: u64) -> (r: Option<&V>)
        ensures
            r is Some <==> self@.contains_key(key),
            r matches Some(v) ==> *v == self@[key],
    {
        broadcast use vstd::std_specs::hash::group_hash_axioms;

        self.map.get(&key)
    }

    /// The value stored under `key`, to be changed in place, if there is
    /// one. Nothing else in the store changes.
    pub fn get_mut(&mut self, key: u64) -> (r: Option<&mut V>)
        ensures
            r is Some <==> old(self)@.contains_key(key),
            r matches Some(v) ==> *v == old(self)@[key] && final(self)@ == old(self)@.insert(
                key,
                *final(v),
            ),
            r is None ==> final(self)@ == old(self)@,
    {
        broadcast use vstd::std_specs::hash::group_hash_axioms;

        match self.map.entry(key) {
            Entry::Occupied(occupied) => Some(occupied.into_mut()),
            Entry::Vacant(_) => None,
        }
    }

    /// Takes the value stored under `key` out of the store and returns it,
    /// if there is one.
    pub fn remove(&mut self, key: u64) -> (r: Option<V>)
        ensures
            final(self)@ == old(self)@.remove(key),
            r == (if old(self)@.contains_key(key) {
                Some(old(self)@[key])
            } else {
                None
            }),
    {
        broadcast use vstd::std_specs::hash::group_hash_axioms;

        self.map.remove(&key)
    }

    /// Moves every entry of `other` into this store. Where both hold a
    /// value under the same key, the one of `other` replaces the one here.
    pub fn extend(&mut self, other: App<V>)
        ensures
            final(self)@ == old(self)@.union_prefer_right(other@),
    {
        broadcast use vstd::std_specs::hash::group_hash_axioms;

        let mut other = other;
        let keys: Vec<u64> = keys_of(&other.map);
        let ghost ours = self.map@;
        let ghost theirs = other.map@;
        let mut i: usize = 0;
        while i < keys.len()
            invariant
                i <= keys@.len(),
                keys@.no_duplicates(),
                keys@.to_set() == theirs.dom(),
                forall|j: int|
                    i <= j < keys@.len() ==> other.map@.contains_key(#[trigger] keys@[j])
                        && other.map@[keys@[j]] == theirs[keys@[j]],
                forall|k: u64| #[trigger]
                    self.map@.contains_key(k) <==> ours.contains_key(k) || keys@.take(
                        i as int,
                    ).contains(k),
                forall|k: u64| #[trigger]
                    self.map@.contains_key(k) ==> self.map@[k] == (if keys@.take(
                        i as int,
                    ).contains(k) {
                        theirs[k]
                    } else {
                        ours[k]
                    }),
            decreases keys@.len() - i,
        {
            let key: u64 = keys[i];
            let ghost done = keys@.take(i as int);
            let ghost next = keys@.take(i + 1);
            assert(next =~= done.push(key));
            assert(!done.contains(key));
            assert forall|k: u64| next.contains(k) <==> done.contains(k) || k == key by {
                if done.contains(k) {
                    let j = choose|j: int| 0 <= j < done.len() && done[j] == k;
                    assert(next[j] == k);
                }
                if k == key {
                    assert(next[i as int] == key);
                }
                if next.contains(k) {
                    let j = choose|j: int| 0 <= j < next.len() && next[j] == k;
                    if j < i {
                        assert(done[j] == k);
                    }
                }
            }
            assert forall|j: int| i + 1 <= j < keys@.len() implies keys@[j] != key by {}
            match other.map.remove(&key) {
                Some(val) => {
                    self.map.insert(key, val);
                },
                None => {},
            }
            i = i + 1;
        }
        assert(keys@.take(i as int) =~= keys@);
        assert forall|k: u64| keys@.contains(k) <==> theirs.contains_key(k) by {
            assert(keys@.to_set().contains(k) <==> keys@.contains(k));
        }
        assert(self.map@ =~= ours.union_prefer_right(theirs));
    }

    /// Empties the store.
    pub fn clear(&mut self)
        ensures
            final(self)@ == Map::<u64, V>::empty(),
    {
        self.map.clear()
    }
}

} // verus!
