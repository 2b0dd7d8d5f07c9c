//! Multimaps that file each key's values in a set, over std's ordered and
//! hashed containers, and indexes of file paths by file length built on them.
pub mod multimap;
pub mod btree_map_to_set;
pub mod hash_map_to_set;
pub mod metadata_error;
pub mod btree_map_of_file_len_to_set_of_path_buf;
pub mod hash_map_of_file_len_to_set_of_path_buf;

pub use self::multimap::{holds_pair, with_pair, without_pair};

pub use self::btree_map_to_set::{lawful_order, BTreeMapToSet, BTreeMapToSetExt};
pub use self::hash_map_to_set::{lawful_hash, HashMapToSet, HashMapToSetExt};

pub use self::metadata_error::MetadataError;

pub use self::btree_map_of_file_len_to_set_of_path_buf::{
    BTreeMapOfFileLenToSetOfPathBuf, BTreeMapOfFileLenToSetOfPathBufExt,
};
pub use self::hash_map_of_file_len_to_set_of_path_buf::{
    HashMapOfFileLenToSetOfPathBuf, HashMapOfFileLenToSetOfPathBufExt,
};
