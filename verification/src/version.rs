//! Dotted-numeric version comparison for the self-update check. Versions
//! compare component-wise as integers, never as text; when one version is a
//! prefix of the other, the shorter one is older.

use vstd::prelude::*;
use crate::strutil::{
    digits_val, is_dec_u64, parse_u64, seq_is_prefix, split_char, split_spec, str_strip_prefix,
};

verus! {

/// Why a version check could not be answered.
#[derive(PartialEq, Eq, Structural, Debug)]
pub enum VersionError {
    /// The running tool's own version string did not parse.
    CurrentMalformed,
    /// The release feed's version, after stripping the release prefix, did
    /// not parse.
    LatestMalformed,
}

/// The numeric values of a sequence of parsed components.
pub open spec fn nums_view(v: Seq<u64>) -> Seq<int> {
    Seq::new(v.len(), |i: int| v[i] as int)
}

/// The numeric values of a sequence of version components, when every one of
/// them is a run of digits that fits a `u64`.
pub open spec fn parse_components(parts: Seq<Seq<char>>) -> Option<Seq<int>>
    decreases parts.len(),
{
    if parts.len() == 0 {
        Some(Seq::empty())
    } else {
        match parse_components(parts.drop_last()) {
            Some(rest) => if is_dec_u64(parts.last()) {
                Some(rest.push(digits_val(parts.last())))
            } else {
                None
            },
            None => None,
        }
    }
}

/// A failed component anywhere makes the whole parse fail.
pub proof fn lemma_parse_components_none(parts: Seq<Seq<char>>, k: int)
    requires
        0 <= k < parts.len(),
        !is_dec_u64(parts[k]),
    ensures
        parse_components(parts) is None,
    decreases parts.len(),
{
    if k == parts.len() - 1 {
    } else {
        lemma_parse_components_none(parts.drop_last(), k);
    }
}

/// The dotted components of a version string as integers, when every
/// component is a run of digits that fits a `u64`.
pub open spec fn spec_version_components(s: Seq<char>) -> Option<Seq<int>> {
    parse_components(split_spec(s, '.'))
}

/// Parse a dotted version string into its numeric components.
pub fn parse_version(s: &str) -> (r: Option<Vec<u64>>)
    ensures
        match r {
            Some(v) => spec_version_components(s@) == Some(nums_view(v@)),
            None => spec_version_components(s@) is None,
        },
{
    let parts = split_char(s, '.');
    let ghost pv = split_spec(s@, '.');
    let mut nums: Vec<u64> = Vec::new();
    let mut i: usize = 0;
    while i < parts.len()
        invariant
            i <= parts.len(),
            pv == split_spec(s@, '.'),
            parts.deep_view() == pv,
            nums.len() == i,
            parse_components(pv.take(i as int)) == Some(nums_view(nums@)),
        decreases parts.len() - i,
    {
        match parse_u64(parts[i].as_str()) {
            Some(n) => {
                let ghost prev = nums_view(nums@);
                nums.push(n);
                proof {
                    assert(pv.take(i + 1).drop_last() =~= pv.take(i as int));
                    assert(pv.take(i + 1).last() == pv[i as int]);
                    assert(nums_view(nums@) =~= prev.push(digits_val(pv[i as int])));
                }
            },
            None => {
                proof {
                    assert(pv[i as int] == parts@[i as int]@);
                    lemma_parse_components_none(pv, i as int);
                }
                return None;
            },
        }
        i += 1;
    }
    proof {
        assert(pv.take(pv.len() as int) =~= pv);
    }
    Some(nums)
}

/// Strict lexicographic order on integer sequences: the first differing
/// component decides; a proper prefix is smaller.
pub open spec fn spec_seq_lt(a: Seq<int>, b: Seq<int>) -> bool
    decreases a.len() + b.len(),
{
    if b.len() == 0 {
        false
    } else if a.len() == 0 {
        true
    } else if a[0] < b[0] {
        true
    } else if a[0] > b[0] {
        false
    } else {
        spec_seq_lt(a.drop_first(), b.drop_first())
    }
}

/// Component-wise comparison of two parsed versions.
pub fn version_lt(a: &Vec<u64>, b: &Vec<u64>) -> (r: bool)
    ensures
        r == spec_seq_lt(nums_view(a@), nums_view(b@)),
{
    let ghost va = nums_view(a@);
    let ghost vb = nums_view(b@);
    proof {
        assert(va.skip(0) =~= va);
        assert(vb.skip(0) =~= vb);
    }
    let mut i: usize = 0;
    loop
        invariant
            i <= a.len(),
            i <= b.len(),
            va == nums_view(a@),
            vb == nums_view(b@),
            va.len() == a.len(),
            vb.len() == b.len(),
            spec_seq_lt(va, vb) == spec_seq_lt(va.skip(i as int), vb.skip(i as int)),
        decreases a.len() - i,
    {
        if i >= b.len() {
            assert(vb.skip(i as int).len() == 0);
            return false;
        }
        if i >= a.len() {
            assert(va.skip(i as int).len() == 0);
            return true;
        }
        let x = a[i];
        let y = b[i];
        assert(va.skip(i as int)[0] == va[i as int]);
        assert(vb.skip(i as int)[0] == vb[i as int]);
        if x < y {
            return true;
        }
        if x > y {
            return false;
        }
        assert(va.skip(i as int).drop_first() =~= va.skip(i + 1));
        assert(vb.skip(i as int).drop_first() =~= vb.skip(i + 1));
        i += 1;
    }
}

/// A release name with the release prefix stripped; other names stand as
/// they are.
pub open spec fn spec_release_version(name: Seq<char>) -> Seq<char> {
    if seq_is_prefix(name, "Release v"@) {
        name.skip("Release v"@.len() as int)
    } else {
        name
    }
}

/// See `spec_release_version`.
pub fn release_version(name: &str) -> (r: String)
    ensures
        r@ == spec_release_version(name@),
{
    match str_strip_prefix(name, "Release v") {
        Some(rest) => String::from_str(rest),
        None => String::from_str(name),
    }
}

/// Is a newer release available? `current` is the running tool's version;
/// `latest_name` is the name of the latest release from the feed. Fails
/// exactly when either version string does not parse, the current one
/// checked first.
pub fn update_available(current: &str, latest_name: &str) -> (r: Result<bool, VersionError>)
    ensures
        match r {
            Ok(b) => {
                &&& spec_version_components(current@) is Some
                &&& spec_version_components(spec_release_version(latest_name@)) is Some
                &&& b == spec_seq_lt(
                    spec_version_components(current@)->0,
                    spec_version_components(spec_release_version(latest_name@))->0,
                )
            },
            Err(e) => match e {
                VersionError::CurrentMalformed => spec_version_components(current@) is None,
                VersionError::LatestMalformed => {
                    &&& spec_version_components(current@) is Some
                    &&& spec_version_components(spec_release_version(latest_name@)) is None
                },
            },
        },
{
    let cur = match parse_version(current) {
        Some(v) => v,
        None => {
            return Err(VersionError::CurrentMalformed);
        },
    };
    let latest_version = release_version(latest_name);
    let latest = match parse_version(latest_version.as_str()) {
        Some(v) => v,
        None => {
            return Err(VersionError::LatestMalformed);
        },
    };
    Ok(version_lt(&cur, &latest))
}

} // verus!
