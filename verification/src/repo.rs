//! The repository synchronisation state machine. For one entry and the
//! current state of its target path, decide: clone into a freshly created
//! base directory, leave an existing checkout alone, pull, or run the full
//! commit, rebase-pull, push sequence. A freshly cloned repository never
//! also updates or synchronises in the same run.

use vstd::prelude::*;
use crate::cmd::{Command, CommandModel};
use crate::doc::Repository;
use crate::paths::{resolve_target, spec_resolve_target};
use crate::strutil::{last_index_of, rfind_char};

verus! {

/// What the engine decides for one repository entry.
#[derive(PartialEq, Eq, Structural, Debug)]
pub enum RepoActionKind {
    /// The target path is absent: clone.
    CloneRepo,
    /// The target exists and no flag asks for more: report it, touch nothing.
    Existing,
    /// The target exists and asks for the full three-step reconciliation.
    Synchronise,
    /// The target exists and asks only to be pulled.
    Update,
}

/// The decision table of the state machine. `synchronise` wins over
/// `update`; a missing target always clones and never also updates.
pub open spec fn spec_repo_decision(
    target_exists: bool,
    synchronise: bool,
    update: bool,
) -> RepoActionKind {
    if !target_exists {
        RepoActionKind::CloneRepo
    } else if synchronise {
        RepoActionKind::Synchronise
    } else if update {
        RepoActionKind::Update
    } else {
        RepoActionKind::Existing
    }
}

/// See `spec_repo_decision`.
pub fn repo_decision(repo: &Repository, target_exists: bool) -> (r: RepoActionKind)
    ensures
        r == spec_repo_decision(
            target_exists,
            repo.spec_wants_synchronise(),
            repo.spec_wants_update(),
        ),
{
    if !target_exists {
        RepoActionKind::CloneRepo
    } else if repo.wants_synchronise() {
        RepoActionKind::Synchronise
    } else if repo.wants_update() {
        RepoActionKind::Update
    } else {
        RepoActionKind::Existing
    }
}

/// The directory tree to create before cloning into `t`: the part before
/// the last separator; behind a trailing separator, the part before the
/// last separator of what remains. Nothing, when no basename can be told
/// apart from a base.
pub open spec fn spec_creation_base(t: Seq<char>) -> Option<Seq<char>> {
    let i = last_index_of(t, '/');
    if i < 0 {
        None
    } else if i < t.len() - 1 {
        Some(t.take(i))
    } else {
        let head = t.take(i);
        let j = last_index_of(head, '/');
        if j < 0 {
            None
        } else {
            Some(head.take(j))
        }
    }
}

/// See `spec_creation_base`.
pub fn creation_base(t: &str) -> (r: Option<String>)
    ensures
        match r {
            Some(b) => spec_creation_base(t@) == Some(b@),
            None => spec_creation_base(t@) is None,
        },
{
    let n = t.unicode_len();
    match rfind_char(t, '/') {
        None => None,
        Some(i) => {
            proof {
                crate::strutil::lemma_last_index_of(t@, '/');
            }
            if i + 1 < n {
                let b = String::from_str(t.substring_char(0, i));
                assert(b@ =~= t@.take(i as int));
                Some(b)
            } else {
                let head = t.substring_char(0, i);
                assert(head@ =~= t@.take(i as int));
                match rfind_char(head, '/') {
                    None => None,
                    Some(j) => {
                        proof {
                            crate::strutil::lemma_last_index_of(head@, '/');
                        }
                        let b = String::from_str(head.substring_char(0, j));
                        assert(b@ =~= head@.take(j as int));
                        Some(b)
                    },
                }
            }
        },
    }
}

/// The clone invocation: exactly the source and the resolved target.
pub open spec fn spec_clone_cmd(source: Seq<char>, target: Seq<char>) -> CommandModel {
    CommandModel { program: "git"@, args: seq!["clone"@, source, target], cwd: None }
}

/// A version-control call run inside the checkout at `dir`.
pub open spec fn spec_git_in_dir(args: Seq<Seq<char>>, dir: Seq<char>) -> CommandModel {
    CommandModel { program: "git"@, args, cwd: Some(dir) }
}

/// Commit everything local under the fixed automatic message.
pub open spec fn spec_commit_cmd(dir: Seq<char>) -> CommandModel {
    spec_git_in_dir(seq!["commit"@, "-am"@, "autocommit"@], dir)
}

/// Pull with rebase.
pub open spec fn spec_pull_rebase_cmd(dir: Seq<char>) -> CommandModel {
    spec_git_in_dir(seq!["pull"@, "-r"@], dir)
}

/// Push.
pub open spec fn spec_push_cmd(dir: Seq<char>) -> CommandModel {
    spec_git_in_dir(seq!["push"@], dir)
}

/// Plain pull, for entries that ask only to be updated.
pub open spec fn spec_pull_cmd(dir: Seq<char>) -> CommandModel {
    spec_git_in_dir(seq!["pull"@], dir)
}

/// The synchronise sequence: commit, then pull with rebase, then push.
/// All three run unconditionally, in this order, whatever each reports.
pub open spec fn spec_synchronise_plan(dir: Seq<char>) -> Seq<CommandModel> {
    seq![spec_commit_cmd(dir), spec_pull_rebase_cmd(dir), spec_push_cmd(dir)]
}

/// See `spec_clone_cmd`.
pub fn clone_command(source: &str, target: &str) -> (r: Command)
    ensures
        r@ == spec_clone_cmd(source@, target@),
{
    let r = Command::new("git").arg("clone").arg(source).arg(target);
    assert(r@ =~= spec_clone_cmd(source@, target@)) by {
        assert(r@.args =~= seq!["clone"@, source@, target@]);
    }
    r
}

/// See `spec_pull_cmd`.
pub fn pull_command(dir: &str) -> (r: Command)
    ensures
        r@ == spec_pull_cmd(dir@),
{
    let r = Command::new("git").arg("pull").in_dir(String::from_str(dir));
    assert(r@ =~= spec_pull_cmd(dir@)) by {
        assert(r@.args =~= seq!["pull"@]);
    }
    r
}

/// See `spec_synchronise_plan`.
pub fn synchronise_commands(dir: &str) -> (r: Vec<Command>)
    ensures
        r.deep_view() == spec_synchronise_plan(dir@),
{
    let commit = Command::new("git").arg("commit").arg("-am").arg("autocommit").in_dir(
        String::from_str(dir),
    );
    assert(commit@ =~= spec_commit_cmd(dir@)) by {
        assert(commit@.args =~= seq!["commit"@, "-am"@, "autocommit"@]);
    }
    let pull = Command::new("git").arg("pull").arg("-r").in_dir(String::from_str(dir));
    assert(pull@ =~= spec_pull_rebase_cmd(dir@)) by {
        assert(pull@.args =~= seq!["pull"@, "-r"@]);
    }
    let push = Command::new("git").arg("push").in_dir(String::from_str(dir));
    assert(push@ =~= spec_push_cmd(dir@)) by {
        assert(push@.args =~= seq!["push"@]);
    }
    let mut r: Vec<Command> = Vec::new();
    r.push(commit);
    r.push(pull);
    r.push(push);
    assert(r.deep_view() =~= spec_synchronise_plan(dir@));
    r
}

/// Why a repository entry is rejected.
#[derive(PartialEq, Eq, Structural, Debug)]
pub enum RepoError {
    /// The target resolves to something with no usable basename, so no
    /// creation base exists to clone into.
    InvalidTarget,
}

/// Everything the engine asks to have run for one repository entry.
pub enum RepoPlan {
    /// Nothing: the checkout is already there and nothing more was asked.
    Existing,
    /// Make sure `base` exists as a directory tree, then run `clone`.
    Create { base: String, clone: Command },
    /// Run the three synchronise steps in their fixed order.
    Synchronise { commands: Vec<Command> },
    /// Run the one pull.
    Update { command: Command },
}

/// The whole per-entry step: resolve the target against the home
/// directory, decide by the state machine, and emit the exact commands.
pub fn repo_plan(repo: &Repository, home: &str, target_exists: bool) -> (r: Result<
    RepoPlan,
    RepoError,
>)
    ensures
        ({
            let t = spec_resolve_target(repo.target@, home@);
            let sync = repo.spec_wants_synchronise();
            let upd = repo.spec_wants_update();
            match r {
                Ok(plan) => match plan {
                    RepoPlan::Existing => target_exists && !sync && !upd,
                    RepoPlan::Create { base, clone } => !target_exists && spec_creation_base(t)
                        == Some(base@) && clone@ == spec_clone_cmd(repo.source@, t),
                    RepoPlan::Synchronise { commands } => target_exists && sync
                        && commands.deep_view() == spec_synchronise_plan(t),
                    RepoPlan::Update { command } => target_exists && !sync && upd && command@
                        == spec_pull_cmd(t),
                },
                Err(e) => !target_exists && spec_creation_base(t) is None,
            }
        }),
{
    let target = resolve_target(repo.target.as_str(), home);
    if !target_exists {
        match creation_base(target.as_str()) {
            Some(base) => Ok(
                RepoPlan::Create { base, clone: clone_command(repo.source.as_str(), target.as_str()) },
            ),
            None => Err(RepoError::InvalidTarget),
        }
    } else if repo.wants_synchronise() {
        Ok(RepoPlan::Synchronise { commands: synchronise_commands(target.as_str()) })
    } else if repo.wants_update() {
        Ok(RepoPlan::Update { command: pull_command(target.as_str()) })
    } else {
        Ok(RepoPlan::Existing)
    }
}

/// An absent target always clones, and only an absent target does: on a
/// later run, when the clone has made the target exist, the same entry is
/// reported as existing (with no flags set) and never cloned again.
pub proof fn lemma_clone_exactly_when_absent(
    target_exists: bool,
    synchronise: bool,
    update: bool,
)
    ensures
        (spec_repo_decision(target_exists, synchronise, update) is CloneRepo) <==> !target_exists,
        spec_repo_decision(true, false, false) is Existing,
{
}

/// An existing checkout with neither flag set asks for no mutating call at
/// all.
pub proof fn lemma_existing_no_flags_is_noop(synchronise: bool, update: bool)
    requires
        !synchronise,
        !update,
    ensures
        spec_repo_decision(true, synchronise, update) is Existing,
{
}

/// The synchronise sequence is always commit, then rebase-pull, then push,
/// whatever the commit will find to do: the plan is fixed by the target
/// directory alone.
pub proof fn lemma_synchronise_order(dir: Seq<char>)
    ensures
        spec_synchronise_plan(dir).len() == 3,
        spec_synchronise_plan(dir)[0] == spec_commit_cmd(dir),
        spec_synchronise_plan(dir)[1] == spec_pull_rebase_cmd(dir),
        spec_synchronise_plan(dir)[2] == spec_push_cmd(dir),
{
}

} // verus!
