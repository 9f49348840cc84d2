//! The one machine probe the library performs itself: whether a path
//! exists. All other probes (package state, binaries on the search path)
//! need a process runner and are answered by the caller.

use vstd::prelude::*;

verus! {

/// Relies on std::path::Path::exists: whether `path` names anything on this
/// machine right now. A plain `false` means "not present"; nothing more can
/// be promised of a live filesystem.
#[verifier::external_body]
pub fn path_exists(path: &str) -> bool {
    std::path::Path::new(path).exists()
}

} // verus!
