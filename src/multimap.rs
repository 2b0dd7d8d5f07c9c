//! The mathematical model shared by every collection of this crate: a map
//! from each key to the set of values filed under it.
use vstd::prelude::*;

verus! {

/// Whether `value` is filed under `key` in `m`.
pub open spec fn holds_pair<K, V>(m: Map<K, Set<V>>, key: K, value: V) -> bool {
    m.contains_key(key) && m[key].contains(value)
}

/// `m` after filing `value` under `key`: a key that was absent gets a new set.
pub open spec fn with_pair<K, V>(m: Map<K, Set<V>>, key: K, value: V) -> Map<K, Set<V>> {
    if m.contains_key(key) {
        m.insert(key, m[key].insert(value))
    } else {
        m.insert(key, Set::empty().insert(value))
    }
}

/// `m` after taking `value` out of the set under `key`. The key stays, even
/// when its set becomes empty; an absent key leaves `m` as it is.
pub open spec fn without_pair<K, V>(m: Map<K, Set<V>>, key: K, value: V) -> Map<K, Set<V>> {
    if m.contains_key(key) {
        m.insert(key, m[key].remove(value))
    } else {
        m
    }
}

/// After filing `value` under `key`, the pair is held.
pub proof fn lemma_insert_then_contains<K, V>(m: Map<K, Set<V>>, key: K, value: V)
    ensures
        holds_pair(with_pair(m, key, value), key, value),
{
}

/// After filing `value` under `key` and then taking it out again, the pair
/// is no longer held.
pub proof fn lemma_insert_remove_then_not_contains<K, V>(m: Map<K, Set<V>>, key: K, value: V)
    ensures
        !holds_pair(without_pair(with_pair(m, key, value), key, value), key, value),
{
}

/// Removing a pair under a key that was never filed finds nothing and leaves
/// the map as it was.
pub proof fn lemma_remove_absent_key<K, V>(m: Map<K, Set<V>>, key: K, value: V)
    requires
        !m.contains_key(key),
    ensures
        !holds_pair(m, key, value),
        without_pair(m, key, value) == m,
{
}

/// Filing the same pair twice: the second time finds the pair already held,
/// and leaves the map as the first time left it.
pub proof fn lemma_insert_twice<K, V>(m: Map<K, Set<V>>, key: K, value: V)
    ensures
        holds_pair(with_pair(m, key, value), key, value),
        with_pair(with_pair(m, key, value), key, value) == with_pair(m, key, value),
{
    let once = with_pair(m, key, value);
    assert(once[key].insert(value) =~= once[key]);
    assert(with_pair(once, key, value) =~= once);
}

/// Filing two values under one key and two under another, starting empty,
/// gives exactly those two keys, each with its two values.
pub proof fn lemma_two_keys_two_values<K, V>(k1: K, k2: K, v1: V, v2: V, v3: V, v4: V)
    requires
        k1 != k2,
    ensures
        ({
            let m = with_pair(
                with_pair(with_pair(with_pair(Map::empty(), k1, v1), k1, v2), k2, v3),
                k2,
                v4,
            );
            &&& m.dom() == set![k1, k2]
            &&& m[k1] == set![v1, v2]
            &&& m[k2] == set![v3, v4]
        }),
{
    let m = with_pair(
        with_pair(with_pair(with_pair(Map::<K, Set<V>>::empty(), k1, v1), k1, v2), k2, v3),
        k2,
        v4,
    );
    assert(m.dom() =~= set![k1, k2]);
    assert(m[k1] =~= set![v1, v2]);
    assert(m[k2] =~= set![v3, v4]);
}

/// Of two files with different lengths, filing only the first under its
/// length in an empty index makes the first one held and the second not.
pub proof fn lemma_files_of_different_lengths<P>(
    first: P,
    first_len: u64,
    second: P,
    second_len: u64,
)
    requires
        first_len != second_len,
    ensures
        holds_pair(with_pair(Map::empty(), first_len, first), first_len, first),
        !holds_pair(with_pair(Map::empty(), first_len, first), second_len, second),
{
}

/// Taking out the last path filed under a length keeps that length in the
/// index, with an empty set.
pub proof fn lemma_emptied_length_stays<P>(m: Map<u64, Set<P>>, len: u64, path: P)
    requires
        m.contains_key(len),
        m[len] == set![path],
    ensures
        without_pair(m, len, path).contains_key(len),
        without_pair(m, len, path)[len] == Set::<P>::empty(),
{
    assert(set![path].remove(path) =~= Set::<P>::empty());
}

} // verus!
