//! How a setup source string is interpreted before fetching: remote sources
//! are recognised by scheme, and a GitHub web address pointing at a blob is
//! rewritten to its raw-content equivalent. The fetch itself is not done
//! here.

use vstd::prelude::*;
use crate::strutil::{
    first_match, replace_first, replace_first_spec, seq_is_prefix, str_contains, str_starts_with,
};

verus! {

/// A source is remote when it names a web scheme; anything else is read as
/// a local file path.
pub fn source_is_remote(source: &str) -> (r: bool)
    ensures
        r == (seq_is_prefix(source@, "http://"@) || seq_is_prefix(source@, "https://"@)),
{
    str_starts_with(source, "http://") || str_starts_with(source, "https://")
}

/// A GitHub web address that mentions a blob becomes the raw-content
/// address: the domain and the first blob marker are each replaced once.
/// Every other source stands as written.
pub open spec fn spec_rewrite_source(s: Seq<char>) -> Seq<char> {
    if seq_is_prefix(s, "https://github.com/"@) && first_match(s, "blob"@) is Some {
        replace_first_spec(
            replace_first_spec(s, "https://github.com/"@, "https://raw.githubusercontent.com/"@),
            "/blob/"@,
            "/refs/heads/"@,
        )
    } else {
        s
    }
}

/// See `spec_rewrite_source`.
pub fn rewrite_source(source: &str) -> (r: String)
    ensures
        r@ == spec_rewrite_source(source@),
{
    if str_starts_with(source, "https://github.com/") && str_contains(source, "blob") {
        let step = replace_first(source, "https://github.com/", "https://raw.githubusercontent.com/");
        replace_first(step.as_str(), "/blob/", "/refs/heads/")
    } else {
        String::from_str(source)
    }
}

} // verus!
