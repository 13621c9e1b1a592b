//! Filesystem probes. What the filesystem answers depends on the state of
//! the machine at the moment of the call, so none of these promises
//! anything about its result: every caller is verified for every answer the
//! probe could give. The gap between a probe and any later use of the path
//! is an accepted time-of-check-to-time-of-use limitation of the design.

use vstd::prelude::*;

verus! {

/// Relies on `std::path::Path::exists`: whether anything lives at the path
/// on the current filesystem. The answer depends on the disk, so nothing is
/// promised of it.
#[verifier::external_body]
pub(crate) fn probe_exists(path: &str) -> bool {
    std::path::Path::new(path).exists()
}

/// Relies on `std::path::Path::is_file`: whether the path names an existing
/// regular file (a directory is not one). The answer depends on the disk,
/// so nothing is promised of it.
#[verifier::external_body]
pub(crate) fn probe_is_file(path: &str) -> bool {
    std::path::Path::new(path).is_file()
}

/// Relies on `std::path::Path::canonicalize`: the absolute form of the
/// path, with symlinks and relative segments resolved, when the filesystem
/// can resolve it (and the result is representable as a string). The answer
/// depends on the disk, so nothing is promised of it.
#[verifier::external_body]
pub(crate) fn probe_canonicalize(path: &str) -> Option<String> {
    match std::path::Path::new(path).canonicalize() {
        Ok(resolved) => match resolved.to_str() {
            Some(s) => Some(s.to_string()),
            None => None,
        },
        Err(_) => None,
    }
}

} // verus!
