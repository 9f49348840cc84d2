//! The package reconciler: merge the inline and file-sourced lists, and turn
//! each non-empty direction into exactly one batched package-manager
//! invocation. Install and remove are independent; an empty direction asks
//! for nothing at all.

use vstd::prelude::*;
use crate::cmd::Command;
use crate::strutil::{lines_spec, split_lines};

verus! {

/// What an optional inline list contributes.
pub open spec fn opt_list_view(l: Option<Vec<String>>) -> Seq<Seq<char>> {
    match l {
        Some(v) => v.deep_view(),
        None => Seq::empty(),
    }
}

/// The package names in a list file: one per line.
pub open spec fn spec_package_lines(content: Seq<char>) -> Seq<Seq<char>> {
    lines_spec(content)
}

/// Parse the contents of a package list file, one package name per line.
pub fn parse_package_list(content: &str) -> (r: Vec<String>)
    ensures
        r.deep_view() == spec_package_lines(content@),
{
    split_lines(content)
}

/// The final set for one direction: the inline list followed by the
/// file-sourced list, order preserved, duplicates kept.
pub open spec fn spec_merged(inline: Option<Vec<String>>, from_file: Option<Vec<String>>) -> Seq<
    Seq<char>,
> {
    opt_list_view(inline) + opt_list_view(from_file)
}

fn append_clone(out: &mut Vec<String>, list: &Vec<String>)
    ensures
        final (out).deep_view() == old(out).deep_view() + list.deep_view(),
{
    let ghost prev = out.deep_view();
    let mut i: usize = 0;
    while i < list.len()
        invariant
            i <= list.len(),
            out.deep_view() == prev + list.deep_view().subrange(0, i as int),
        decreases list.len() - i,
    {
        let ghost before = out.deep_view();
        out.push(list[i].clone());
        assert(out.deep_view() =~= before.push(list.deep_view()[i as int]));
        assert(out.deep_view() =~= prev + list.deep_view().subrange(0, i + 1));
        i += 1;
    }
    assert(list.deep_view().subrange(0, list.len() as int) =~= list.deep_view());
}

/// Merge an optional inline list with an optional file-sourced list.
pub fn merged_packages(inline: &Option<Vec<String>>, from_file: &Option<Vec<String>>) -> (r: Vec<
    String,
>)
    ensures
        r.deep_view() == spec_merged(*inline, *from_file),
{
    let mut r: Vec<String> = Vec::new();
    assert(r.deep_view() =~= Seq::<Seq<char>>::empty());
    match inline {
        Some(v) => append_clone(&mut r, v),
        None => {},
    }
    match from_file {
        Some(v) => append_clone(&mut r, v),
        None => {},
    }
    assert(r.deep_view() =~= spec_merged(*inline, *from_file));
    r
}

/// The argument list of one batched package-manager call: the tool, the
/// verb, the confirmation flag when asked for, then every package.
pub open spec fn spec_apt_args(verb: Seq<char>, assume_yes: bool, pkgs: Seq<Seq<char>>) -> Seq<
    Seq<char>,
> {
    if assume_yes {
        seq!["apt"@, verb, "--yes"@] + pkgs
    } else {
        seq!["apt"@, verb] + pkgs
    }
}

fn apt_command(verb: &str, assume_yes: bool, packages: &Vec<String>) -> (r: Command)
    ensures
        r@.program == "sudo"@,
        r@.args == spec_apt_args(verb@, assume_yes, packages.deep_view()),
        r@.cwd is None,
{
    let base = Command::new("sudo").arg("apt").arg(verb);
    let with_flag = if assume_yes {
        base.arg("--yes")
    } else {
        base
    };
    let r = with_flag.args_from(packages);
    assert(r@.args =~= spec_apt_args(verb@, assume_yes, packages.deep_view()));
    r
}

/// The one install invocation, present exactly when there are packages to
/// install.
pub fn install_command(packages: &Vec<String>, assume_yes: bool) -> (r: Option<Command>)
    ensures
        r is Some <==> packages@.len() > 0,
        r is Some ==> (r->0)@.program == "sudo"@ && (r->0)@.args == spec_apt_args(
            "install"@,
            assume_yes,
            packages.deep_view(),
        ) && (r->0)@.cwd is None,
{
    if packages.len() == 0 {
        None
    } else {
        Some(apt_command("install", assume_yes, packages))
    }
}

/// The one removal invocation, present exactly when there are packages to
/// remove.
pub fn remove_command(packages: &Vec<String>, assume_yes: bool) -> (r: Option<Command>)
    ensures
        r is Some <==> packages@.len() > 0,
        r is Some ==> (r->0)@.program == "sudo"@ && (r->0)@.args == spec_apt_args(
            "remove"@,
            assume_yes,
            packages.deep_view(),
        ) && (r->0)@.cwd is None,
{
    if packages.len() == 0 {
        None
    } else {
        Some(apt_command("remove", assume_yes, packages))
    }
}

/// With nothing to install and nothing to remove, neither direction asks
/// for a package-manager invocation: both merged sets are empty exactly
/// when all four inputs contribute nothing.
pub proof fn lemma_empty_reconciliation(
    inline_install: Option<Vec<String>>,
    file_install: Option<Vec<String>>,
    inline_remove: Option<Vec<String>>,
    file_remove: Option<Vec<String>>,
)
    requires
        opt_list_view(inline_install).len() == 0,
        opt_list_view(file_install).len() == 0,
        opt_list_view(inline_remove).len() == 0,
        opt_list_view(file_remove).len() == 0,
    ensures
        spec_merged(inline_install, file_install).len() == 0,
        spec_merged(inline_remove, file_remove).len() == 0,
{
}

} // verus!
