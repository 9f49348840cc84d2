//! Git identity convergence: each declared field is applied only while the
//! machine has no value for it. The probe asks the version-control tool for
//! the current value; the caller reports whether one was found.

use vstd::prelude::*;
use crate::cmd::{Command, CommandModel};
use crate::doc::Git;

verus! {

/// The probe for one identity key: asks for the current value; a failing
/// exit means the key is unset.
pub open spec fn spec_git_probe_cmd(key: Seq<char>) -> CommandModel {
    CommandModel { program: "git"@, args: seq!["config"@, "get"@, key], cwd: None }
}

/// See `spec_git_probe_cmd`.
pub fn git_probe_command(key: &str) -> (r: Command)
    ensures
        r@ == spec_git_probe_cmd(key@),
{
    let r = Command::new("git").arg("config").arg("get").arg(key);
    assert(r@ =~= spec_git_probe_cmd(key@)) by {
        assert(r@.args =~= seq!["config"@, "get"@, key@]);
    }
    r
}

/// Sets one identity key globally.
pub open spec fn spec_git_set_cmd(key: Seq<char>, value: Seq<char>) -> CommandModel {
    CommandModel { program: "git"@, args: seq!["config"@, "--global"@, key, value], cwd: None }
}

/// See `spec_git_set_cmd`.
pub fn git_set_command(key: &str, value: &str) -> (r: Command)
    ensures
        r@ == spec_git_set_cmd(key@, value@),
{
    let r = Command::new("git").arg("config").arg("--global").arg(key).arg(value);
    assert(r@ =~= spec_git_set_cmd(key@, value@)) by {
        assert(r@.args =~= seq!["config"@, "--global"@, key@, value@]);
    }
    r
}

/// The set calls the identity step performs: the name only when declared
/// and currently unset, then the mail address under the same rule.
pub open spec fn spec_git_identity_plan(git: Git, name_unset: bool, email_unset: bool) -> Seq<
    CommandModel,
> {
    (match git.name {
        Some(n) => if name_unset {
            seq![spec_git_set_cmd("user.name"@, n@)]
        } else {
            Seq::empty()
        },
        None => Seq::empty(),
    }) + (match git.email {
        Some(e) => if email_unset {
            seq![spec_git_set_cmd("user.email"@, e@)]
        } else {
            Seq::empty()
        },
        None => Seq::empty(),
    })
}

/// See `spec_git_identity_plan`. `name_unset` and `email_unset` say
/// whether the probe found no current value for the respective key.
pub fn git_identity_commands(git: &Git, name_unset: bool, email_unset: bool) -> (r: Vec<Command>)
    ensures
        r.deep_view() == spec_git_identity_plan(*git, name_unset, email_unset),
{
    let mut r: Vec<Command> = Vec::new();
    match &git.name {
        Some(n) => {
            if name_unset {
                r.push(git_set_command("user.name", n.as_str()));
            }
        },
        None => {},
    }
    match &git.email {
        Some(e) => {
            if email_unset {
                r.push(git_set_command("user.email", e.as_str()));
            }
        },
        None => {},
    }
    assert(r.deep_view() =~= spec_git_identity_plan(*git, name_unset, email_unset));
    r
}

} // verus!
