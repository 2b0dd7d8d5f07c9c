//! The one error of the path indexes, and the path type they file.
use vstd::prelude::*;

verus! {

/// Declares std's `PathBuf` to Verus as an opaque type, so that the path
/// indexes can hold paths; nothing of its contents is assumed.
#[verifier::external_type_specification]
#[verifier::external_body]
pub struct ExPathBuf(std::path::PathBuf);

/// Why the length of a file could not be read from the file system.
#[derive(Debug, Clone, Copy, PartialEq, Eq, Structural)]
pub enum MetadataError {
    /// No file stands at the path (a missing file or a broken link).
    NotFound,
    /// The file system refused to give the file's metadata.
    PermissionDenied,
    /// Any other failure to read the metadata.
    Other,
}

} // verus!
