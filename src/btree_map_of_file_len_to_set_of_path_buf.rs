//! An ordered index of paths by file length, the first filter of a search
//! for duplicate files.
//!
//! The index does not read the file system itself: each operation takes the
//! outcome of reading the file's length, fresh for that call, and either
//! files the path under that length or hands the error back untouched.
use std::collections::BTreeSet;
use std::path::PathBuf;
use vstd::prelude::*;

use crate::btree_map_to_set::{lawful_order, BTreeMapToSet, BTreeMapToSetExt};
use crate::metadata_error::MetadataError;
use crate::multimap::{holds_pair, with_pair, without_pair};

verus! {

/// Paths filed under their file length in bytes, in order of length and of
/// path. A length whose set has become empty stays in the index.
pub struct BTreeMapOfFileLenToSetOfPathBuf {
    index: BTreeMapToSet<u64, PathBuf>,
}

impl View for BTreeMapOfFileLenToSetOfPathBuf {
    type V = Map<u64, Set<PathBuf>>;

    closed spec fn view(&self) -> Map<u64, Set<PathBuf>> {
        self.index@
    }
}

impl BTreeMapOfFileLenToSetOfPathBuf {
    /// An empty index.
    pub fn new() -> (r: Self)
        ensures
            r@ == Map::<u64, Set<PathBuf>>::empty(),
    {
        BTreeMapOfFileLenToSetOfPathBuf { index: BTreeMapToSet::new() }
    }

    /// The set of paths filed under the length `len`, if that length is
    /// present (its set may be empty).
    pub fn get(&self, len: &u64) -> (r: Option<&BTreeSet<PathBuf>>)
        ensures
            match r {
                Some(set) => self@.contains_key(*len) && set@ == self@[*len],
                None => !self@.contains_key(*len),
            },
    {
        self.index.get(len)
    }

    /// The lengths present, each once, in ascending order.
    pub fn keys(&self) -> (r: Vec<u64>)
        ensures
            r@.to_set() == self@.dom(),
            r@.no_duplicates(),
            forall|i: int, j: int| 0 <= i < j < r@.len() ==> r@[i] < r@[j],
    {
        let lens = self.index.keys();
        let mut r: Vec<u64> = Vec::new();
        for i in 0..lens.len()
            invariant
                r@ == lens@.take(i as int).map_values(|n: &u64| *n),
        {
            r.push(*lens[i]);
        }
        proof {
            assert(lens@.take(lens@.len() as int) == lens@);
        }
        r
    }
}

/// Membership, insertion and removal of one path, filed under its length.
pub trait BTreeMapOfFileLenToSetOfPathBufExt: Sized {
    /// The map from each file length to the set of paths filed under it.
    spec fn sets(&self) -> Map<u64, Set<PathBuf>>;

    /// Whether `value` is filed under the length `file_len` that was read
    /// for it; a failed read is handed back.
    fn sub_contains_path(&self, value: &PathBuf, file_len: Result<u64, MetadataError>) -> (r:
        Result<bool, MetadataError>)
        ensures
            match file_len {
                Ok(n) => r is Ok && (lawful_order::<u64, PathBuf>() ==> r == Ok::<
                    bool,
                    MetadataError,
                >(holds_pair(self.sets(), n, *value))),
                Err(e) => r == Err::<bool, MetadataError>(e),
            },
    ;

    /// Files `value` under the length `file_len` that was read for it and
    /// returns whether the path was new there; a failed read is handed back
    /// and the index is left as it was.
    fn sub_insert_path(&mut self, value: PathBuf, file_len: Result<u64, MetadataError>) -> (r:
        Result<bool, MetadataError>)
        ensures
            match file_len {
                Ok(n) => r is Ok && (lawful_order::<u64, PathBuf>() ==> {
                    &&& final(self).sets() == with_pair(old(self).sets(), n, value)
                    &&& r == Ok::<bool, MetadataError>(!holds_pair(old(self).sets(), n, value))
                }),
                Err(e) => r == Err::<bool, MetadataError>(e) && final(self).sets() == old(
                    self,
                ).sets(),
            },
    ;

    /// Takes `value` out of the set under the length `file_len` that was
    /// read for it, keeping that length in the index, and returns whether
    /// the path was there; a failed read is handed back and the index is
    /// left as it was.
    fn sub_remove_path(&mut self, value: PathBuf, file_len: Result<u64, MetadataError>) -> (r:
        Result<bool, MetadataError>)
        ensures
            match file_len {
                Ok(n) => r is Ok && (lawful_order::<u64, PathBuf>() ==> {
                    &&& final(self).sets() == without_pair(old(self).sets(), n, value)
                    &&& r == Ok::<bool, MetadataError>(holds_pair(old(self).sets(), n, value))
                }),
                Err(e) => r == Err::<bool, MetadataError>(e) && final(self).sets() == old(
                    self,
                ).sets(),
            },
    ;
}

impl BTreeMapOfFileLenToSetOfPathBufExt for BTreeMapOfFileLenToSetOfPathBuf {
    open spec fn sets(&self) -> Map<u64, Set<PathBuf>> {
        self@
    }

    fn sub_contains_path(&self, value: &PathBuf, file_len: Result<u64, MetadataError>) -> (r:
        Result<bool, MetadataError>) {
        match file_len {
            Ok(n) => Ok(self.index.sub_contains(&n, value)),
            Err(e) => Err(e),
        }
    }

    fn sub_insert_path(&mut self, value: PathBuf, file_len: Result<u64, MetadataError>) -> (r:
        Result<bool, MetadataError>) {
        match file_len {
            Ok(n) => Ok(self.index.sub_insert(n, value)),
            Err(e) => Err(e),
        }
    }

    fn sub_remove_path(&mut self, value: PathBuf, file_len: Result<u64, MetadataError>) -> (r:
        Result<bool, MetadataError>) {
        match file_len {
            Ok(n) => Ok(self.index.sub_remove(&n, &value)),
            Err(e) => Err(e),
        }
    }
}

} // verus!
