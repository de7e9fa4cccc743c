//! Path canonicalization for cache keys. What a path canonicalizes to depends
//! on the file system at the time of the call.

use vstd::prelude::*;

verus! {

/// `dunce::canonicalize`: the canonical form of a path as the file system
/// resolves it now (`None` when it cannot be resolved), rendered lossily as
/// text. Nothing is stated of the text: it depends on what is on disk.
#[verifier::external_body]
fn dunce_canonicalize(raw_path: &str) -> Option<String> {
    match dunce::canonicalize(raw_path) {
        Ok(path) => Some(path.to_string_lossy().to_string()),
        Err(_) => None,
    }
}

/// The canonical form when there is one, else the raw path unchanged.
pub fn canonical_or_raw(canonical: Option<String>, raw_path: &str) -> (r: String)
    ensures
        r@ == match canonical {
            Some(c) => c@,
            None => raw_path@,
        },
{
    match canonical {
        Some(c) => c,
        None => String::from_str(raw_path),
    }
}

/// Canonicalizes a path for use as a file-context alias; a path that cannot
/// be resolved is kept as it is.
pub fn fsc_canonicalize_path(raw_path: &str) -> String {
    canonical_or_raw(dunce_canonicalize(raw_path), raw_path)
}

} // verus!
