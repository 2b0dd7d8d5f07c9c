//! A multimap over std's hashed containers: each key owns a `HashSet` of
//! values.
use std::collections::{HashMap, HashSet};
use std::hash::Hash;
use vstd::prelude::*;
use vstd::std_specs::hash::obeys_key_model;
use vstd::std_specs::iter::IteratorSpec;

use crate::multimap::{holds_pair, with_pair, without_pair};

verus! {

/// Whether hashing and equality of `K` and `V` agree with spec equality, so
/// that the std containers behave as their model says.
pub open spec fn lawful_hash<K, V>() -> bool {
    obeys_key_model::<K>() && obeys_key_model::<V>()
}

/// A map from keys to unordered sets of values. A key whose set has become
/// empty stays in the map.
pub struct HashMapToSet<K, V> {
    map: HashMap<K, HashSet<V>>,
}

impl<K, V> View for HashMapToSet<K, V> {
    type V = Map<K, Set<V>>;

    closed spec fn view(&self) -> Map<K, Set<V>> {
        self.map@.map_values(|s: HashSet<V>| s@)
    }
}

impl<K: Hash + Eq, V: Hash + Eq> HashMapToSet<K, V> {
    /// An empty collection.
    pub fn new() -> (r: Self)
        ensures
            r@ == Map::<K, Set<V>>::empty(),
    {
        HashMapToSet { map: HashMap::new() }
    }

    /// The set of values under `key`, if the key is present (its set may be
    /// empty).
    pub fn get(&self, key: &K) -> (r: Option<&HashSet<V>>)
        ensures
            obeys_key_model::<K>() ==> match r {
                Some(set) => self@.contains_key(*key) && set@ == self@[*key],
                None => !self@.contains_key(*key),
            },
    {
        self.map.get(key)
    }

    /// The keys, each once, in no particular order.
    pub fn keys(&self) -> (r: Vec<&K>)
        requires
            obeys_key_model::<K>(),
        ensures
            ({
                let ks = r@.map_values(|k: &K| *k);
                &&& ks.to_set() == self@.dom()
                &&& ks.no_duplicates()
            }),
    {
        let mut r: Vec<&K> = Vec::new();
        for k in it: self.map.keys()
            invariant
                r@ == it.seq().take(it.index() as int),
                obeys_key_model::<K>(),
                it.seq() == self.map.keys().remaining(),
        {
            r.push(k);
        }
        proof {
            assert(r@.map_values(|k: &K| *k) == self.map.keys().remaining().unref());
        }
        r
    }
}

/// Relies on `HashMap::get_mut`: a mutable reference to the value under
/// `key` when the key is present, `None` with the map untouched otherwise.
#[verifier::external_body]
fn hash_get_mut<'a, K: Hash + Eq, W>(map: &'a mut HashMap<K, W>, key: &K) -> (r: Option<&'a mut W>)
    ensures
        obeys_key_model::<K>() && !old(map)@.contains_key(*key) ==> r.is_none() && final(map)@
            == old(map)@,
        obeys_key_model::<K>() && old(map)@.contains_key(*key) ==> r.is_some() && *r.unwrap()
            == old(map)@[*key] && final(map)@ == old(map)@.insert(*key, *final(r.unwrap())),
{
    map.get_mut(key)
}

/// Membership, insertion and removal of one key-value pair.
pub trait HashMapToSetExt<K: Hash + Eq, V: Hash + Eq>: Sized {
    /// The map from each key to the set of values filed under it.
    spec fn sets(&self) -> Map<K, Set<V>>;

    /// Whether `value` is filed under `key`.
    fn sub_contains(&self, key: &K, value: &V) -> (r: bool)
        ensures
            lawful_hash::<K, V>() ==> r == holds_pair(self.sets(), *key, *value),
    ;

    /// Files `value` under `key`, creating the key's set if needed. Returns
    /// whether the pair was new.
    fn sub_insert(&mut self, key: K, value: V) -> (r: bool)
        ensures
            lawful_hash::<K, V>() ==> {
                &&& final(self).sets() == with_pair(old(self).sets(), key, value)
                &&& r == !holds_pair(old(self).sets(), key, value)
            },
    ;

    /// Takes `value` out of the set under `key`; the key stays. Returns
    /// whether the pair was there.
    fn sub_remove(&mut self, key: &K, value: &V) -> (r: bool)
        ensures
            lawful_hash::<K, V>() ==> {
                &&& final(self).sets() == without_pair(old(self).sets(), *key, *value)
                &&& r == holds_pair(old(self).sets(), *key, *value)
            },
    ;
}

impl<K: Hash + Eq, V: Hash + Eq> HashMapToSetExt<K, V> for HashMapToSet<K, V> {
    open spec fn sets(&self) -> Map<K, Set<V>> {
        self@
    }

    fn sub_contains(&self, key: &K, value: &V) -> (r: bool) {
        match self.map.get(key) {
            Some(set) => set.contains(value),
            None => false,
        }
    }

    fn sub_insert(&mut self, key: K, value: V) -> (r: bool) {
        let mut set = match self.map.remove(&key) {
            Some(set) => set,
            None => HashSet::new(),
        };
        let r = set.insert(value);
        self.map.insert(key, set);
        proof {
            if lawful_hash::<K, V>() {
                assert(self@ =~= with_pair(old(self)@, key, value));
            }
        }
        r
    }

    fn sub_remove(&mut self, key: &K, value: &V) -> (r: bool) {
        match hash_get_mut(&mut self.map, key) {
            Some(set) => set.remove(value),
            None => false,
        }
    }
}

} // verus!
