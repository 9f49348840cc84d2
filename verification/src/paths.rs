//! Path rules: where the persisted pointer and the cache live, and how a
//! home-relative repository target resolves. The environment values come in
//! as plain optional strings; no environment is read here.

use vstd::prelude::*;
use crate::strutil::{seq_is_prefix, str_concat, str_concat3, str_strip_prefix};

verus! {

/// The base directory rule shared by configuration and cache: an explicit
/// override wins when non-empty, then the home fallback with `suffix`
/// appended, then the empty string.
pub open spec fn spec_base_dir(
    override_dir: Option<Seq<char>>,
    home: Option<Seq<char>>,
    suffix: Seq<char>,
) -> Seq<char> {
    if override_dir is Some && override_dir->0.len() > 0 {
        override_dir->0
    } else if home is Some && home->0.len() > 0 {
        home->0 + suffix
    } else {
        Seq::empty()
    }
}

/// View of an optional string.
pub open spec fn opt_view(s: Option<String>) -> Option<Seq<char>> {
    match s {
        Some(x) => Some(x@),
        None => None,
    }
}

/// The directory holding the persisted configuration:
/// the configuration override when set and non-empty, else `home/.config`.
pub fn config_dir(override_dir: &Option<String>, home: &Option<String>) -> (r: String)
    ensures
        r@ == spec_base_dir(opt_view(*override_dir), opt_view(*home), "/.config"@),
{
    base_dir(override_dir, home, "/.config")
}

/// The directory holding cached downloads and staged files:
/// the cache override when set and non-empty, else `home/.cache`.
pub fn cache_dir(override_dir: &Option<String>, home: &Option<String>) -> (r: String)
    ensures
        r@ == spec_base_dir(opt_view(*override_dir), opt_view(*home), "/.cache"@),
{
    base_dir(override_dir, home, "/.cache")
}

fn base_dir(override_dir: &Option<String>, home: &Option<String>, suffix: &str) -> (r: String)
    ensures
        r@ == spec_base_dir(opt_view(*override_dir), opt_view(*home), suffix@),
{
    match override_dir {
        Some(d) => {
            if d.as_str().unicode_len() > 0 {
                return d.clone();
            }
        },
        None => {},
    }
    match home {
        Some(h) => {
            if h.as_str().unicode_len() > 0 {
                return str_concat(h.as_str(), suffix);
            }
        },
        None => {},
    }
    let r = String::new();
    assert(r@ =~= Seq::<char>::empty());
    r
}

/// The persisted configuration file inside its directory.
pub fn config_file_path(dir: &str) -> (r: String)
    ensures
        r@ == dir@ + "/localsetup.toml"@,
{
    str_concat(dir, "/localsetup.toml")
}

/// A repository target resolves against the home directory when it starts
/// with the home marker; otherwise it stands as written.
pub open spec fn spec_resolve_target(target: Seq<char>, home: Seq<char>) -> Seq<char> {
    if seq_is_prefix(target, "~/"@) {
        home + "/"@ + target.skip(2)
    } else {
        target
    }
}

/// See `spec_resolve_target`.
pub fn resolve_target(target: &str, home: &str) -> (r: String)
    ensures
        r@ == spec_resolve_target(target@, home@),
{
    proof {
        reveal_strlit("~/");
        reveal_strlit("/");
    }
    match str_strip_prefix(target, "~/") {
        Some(rest) => str_concat3(home, "/", rest),
        None => String::from_str(target),
    }
}

} // verus!
