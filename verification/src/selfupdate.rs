//! The self-update flow: the fixed release feed, the paths involved in
//! replacing the running binary, and the decision itself, which is the
//! version comparison. The binary is renamed aside best-effort, the new
//! one is downloaded to the original path and made executable; nothing is
//! rolled back when a step in the middle fails.

use vstd::prelude::*;
use crate::strutil::str_concat;

verus! {

/// The version this tool reports for itself.
pub fn tool_version() -> (r: String)
    ensures
        r@ == "0.0.2"@,
{
    String::from_str("0.0.2")
}

/// The agent string sent with release feed requests.
pub fn user_agent() -> (r: String)
    ensures
        r@ == "zgtm/localsetup 0.0.2"@,
{
    String::from_str("zgtm/localsetup 0.0.2")
}

/// Where the latest release's name is asked for.
pub fn release_feed_url() -> (r: String)
    ensures
        r@ == "https://api.github.com/repos/zgtm/localsetup/releases/latest"@,
{
    String::from_str("https://api.github.com/repos/zgtm/localsetup/releases/latest")
}

/// Where the latest binary is downloaded from.
pub fn release_download_url() -> (r: String)
    ensures
        r@ == "https://github.com/zgtm/localsetup/releases/latest/download/localsetup"@,
{
    String::from_str("https://github.com/zgtm/localsetup/releases/latest/download/localsetup")
}

/// The installed binary, which the update replaces in place.
pub fn binary_path(home: &str) -> (r: String)
    ensures
        r@ == home@ + "/.local/bin/localsetup"@,
{
    str_concat(home, "/.local/bin/localsetup")
}

/// Where the running binary is renamed aside before the download.
pub fn backup_path(home: &str) -> (r: String)
    ensures
        r@ == home@ + "/.local/bin/__localsetup_old"@,
{
    str_concat(home, "/.local/bin/__localsetup_old")
}

} // verus!
