//! A multimap over std's ordered containers: each key owns a `BTreeSet` of
//! values.
use std::collections::{BTreeMap, BTreeSet};
use vstd::laws_cmp::{lemma_ref_obeys_cmp_spec, obeys_cmp};
use vstd::prelude::*;
use vstd::std_specs::btree::axiom_increasing_seq_meaning;
use vstd::std_specs::cmp::OrdSpec;
use vstd::std_specs::iter::IteratorSpec;

use crate::multimap::{holds_pair, with_pair, without_pair};

verus! {

/// Whether the orderings of `K` and `V` obey the laws of a total order, so
/// that the std containers behave as their model says.
pub open spec fn lawful_order<K: Ord, V: Ord>() -> bool {
    obeys_cmp::<K>() && obeys_cmp::<V>()
}

/// A map from keys to ordered sets of values. A key whose set has become
/// empty stays in the map.
pub struct BTreeMapToSet<K, V> {
    map: BTreeMap<K, BTreeSet<V>>,
}

impl<K, V> View for BTreeMapToSet<K, V> {
    type V = Map<K, Set<V>>;

    closed spec fn view(&self) -> Map<K, Set<V>> {
        self.map@.map_values(|s: BTreeSet<V>| s@)
    }
}

impl<K: Ord, V: Ord> BTreeMapToSet<K, V> {
    /// An empty collection.
    pub fn new() -> (r: Self)
        ensures
            r@ == Map::<K, Set<V>>::empty(),
    {
        BTreeMapToSet { map: BTreeMap::new() }
    }

    /// The set of values under `key`, if the key is present (its set may be
    /// empty).
    pub fn get(&self, key: &K) -> (r: Option<&BTreeSet<V>>)
        ensures
            obeys_cmp::<K>() ==> match r {
                Some(set) => self@.contains_key(*key) && set@ == self@[*key],
                None => !self@.contains_key(*key),
            },
    {
        self.map.get(key)
    }

    /// The keys, each once, in ascending order.
    pub fn keys(&self) -> (r: Vec<&K>)
        requires
            obeys_cmp::<K>(),
        ensures
            ({
                let ks = r@.map_values(|k: &K| *k);
                &&& ks.to_set() == self@.dom()
                &&& ks.no_duplicates()
                &&& forall|i: int, j: int|
                    #![trigger ks[i], ks[j]]
                    0 <= i < j < ks.len() ==> ks[i].cmp_spec(&ks[j]) is Less
            }),
    {
        let mut r: Vec<&K> = Vec::new();
        for k in it: self.map.keys()
            invariant
                r@ == it.seq().take(it.index() as int),
                obeys_cmp::<K>(),
                it.seq() == self.map.keys().remaining(),
        {
            r.push(k);
        }
        proof {
            broadcast use lemma_ref_obeys_cmp_spec;

            let ks = r@.map_values(|k: &K| *k);
            let rs = self.map.keys().remaining();
            assert(ks == rs.unref());
            // The std keys come in increasing order of `&K`, which compares
            // as `K` does.
            axiom_increasing_seq_meaning::<&K>(rs);
            assert forall|i: int, j: int|
                #![trigger ks[i], ks[j]]
                0 <= i < j < ks.len() implies ks[i].cmp_spec(&ks[j]) is Less by {
                assert(<&K as OrdSpec>::cmp_spec(&rs[i], &rs[j]) is Less);
            }
        }
        r
    }
}

/// Relies on `BTreeMap::get_mut`: a mutable reference to the value under
/// `key` when the key is present, `None` with the map untouched otherwise.
#[verifier::external_body]
fn btree_get_mut<'a, K: Ord, W>(map: &'a mut BTreeMap<K, W>, key: &K) -> (r: Option<&'a mut W>)
    ensures
        obeys_cmp::<K>() && !old(map)@.contains_key(*key) ==> r.is_none() && final(map)@
            == old(map)@,
        obeys_cmp::<K>() && old(map)@.contains_key(*key) ==> r.is_some() && *r.unwrap()
            == old(map)@[*key] && final(map)@ == old(map)@.insert(*key, *final(r.unwrap())),
{
    map.get_mut(key)
}

/// Membership, insertion and removal of one key-value pair.
pub trait BTreeMapToSetExt<K: Ord, V: Ord>: Sized {
    /// The map from each key to the set of values filed under it.
    spec fn sets(&self) -> Map<K, Set<V>>;

    /// Whether `value` is filed under `key`.
    fn sub_contains(&self, key: &K, value: &V) -> (r: bool)
        ensures
            lawful_order::<K, V>() ==> r == holds_pair(self.sets(), *key, *value),
    ;

    /// Files `value` under `key`, creating the key's set if needed. Returns
    /// whether the pair was new.
    fn sub_insert(&mut self, key: K, value: V) -> (r: bool)
        ensures
            lawful_order::<K, V>() ==> {
                &&& final(self).sets() == with_pair(old(self).sets(), key, value)
                &&& r == !holds_pair(old(self).sets(), key, value)
            },
    ;

    /// Takes `value` out of the set under `key`; the key stays. Returns
    /// whether the pair was there.
    fn sub_remove(&mut self, key: &K, value: &V) -> (r: bool)
        ensures
            lawful_order::<K, V>() ==> {
                &&& final(self).sets() == without_pair(old(self).sets(), *key, *value)
                &&& r == holds_pair(old(self).sets(), *key, *value)
            },
    ;
}

impl<K: Ord, V: Ord> BTreeMapToSetExt<K, V> for BTreeMapToSet<K, V> {
    open spec fn sets(&self) -> Map<K, Set<V>> {
        self@
    }

    fn sub_contains(&self, key: &K, value: &V) -> (r: bool) {
        match self.map.get(key) {
            Some(set) => set.contains(value),
            None => false,
        }
    }

    fn sub_insert(&mut self, key: K, value: V) -> (r: bool) {
        let mut set = match self.map.remove(&key) {
            Some(set) => set,
            None => BTreeSet::new(),
        };
        let r = set.insert(value);
        self.map.insert(key, set);
        proof {
            if lawful_order::<K, V>() {
                assert(self@ =~= with_pair(old(self)@, key, value));
            }
        }
        r
    }

    fn sub_remove(&mut self, key: &K, value: &V) -> (r: bool) {
        match btree_get_mut(&mut self.map, key) {
            Some(set) => set.remove(value),
            None => false,
        }
    }
}

} // verus!
