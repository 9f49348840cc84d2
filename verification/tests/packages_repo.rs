use localsetup::doc::Repository;
use localsetup::packages::{install_command, merged_packages, parse_package_list, remove_command};
use localsetup::repo::{
    clone_command, creation_base, pull_command, repo_decision, repo_plan, synchronise_commands,
    RepoActionKind, RepoError, RepoPlan,
};

fn strs(v: &Vec<String>) -> Vec<&str> {
    v.iter().map(|s| s.as_str()).collect()
}

fn owned(v: Vec<&str>) -> Vec<String> {
    v.into_iter().map(String::from).collect()
}

fn entry(source: &str, target: &str, update: Option<bool>, synchronise: Option<bool>) -> Repository {
    Repository {
        source: String::from(source),
        target: String::from(target),
        update,
        synchronise,
        run_once: None,
        run_everytime: None,
    }
}

#[test]
fn empty_lists_mean_no_invocations() {
    let merged = merged_packages(&None, &None);
    assert_eq!(merged.len(), 0);
    assert!(install_command(&merged, true).is_none());
    assert!(install_command(&merged, false).is_none());
    assert!(remove_command(&merged, true).is_none());
    assert!(remove_command(&merged, false).is_none());
}

#[test]
fn one_install_invocation_with_curl() {
    let merged = merged_packages(&Some(owned(vec!["curl"])), &None);
    let cmd = install_command(&merged, false).unwrap();
    assert_eq!(cmd.program, "sudo");
    assert_eq!(strs(&cmd.args), vec!["apt", "install", "curl"]);
    assert!(cmd.cwd.is_none());
    assert!(remove_command(&merged_packages(&None, &None), false).is_none());
}

#[test]
fn assume_yes_adds_the_flag() {
    let merged = merged_packages(&Some(owned(vec!["curl", "git"])), &None);
    let cmd = install_command(&merged, true).unwrap();
    assert_eq!(strs(&cmd.args), vec!["apt", "install", "--yes", "curl", "git"]);
    let rm = remove_command(&merged, true).unwrap();
    assert_eq!(rm.program, "sudo");
    assert_eq!(strs(&rm.args), vec!["apt", "remove", "--yes", "curl", "git"]);
}

#[test]
fn merge_keeps_order_and_duplicates() {
    let merged = merged_packages(
        &Some(owned(vec!["b", "a"])),
        &Some(owned(vec!["a", "c"])),
    );
    assert_eq!(strs(&merged), vec!["b", "a", "a", "c"]);
}

#[test]
fn list_files_are_one_package_per_line() {
    assert_eq!(strs(&parse_package_list("curl\ngit\n")), vec!["curl", "git"]);
    assert_eq!(strs(&parse_package_list("")), Vec::<&str>::new());
}

#[test]
fn absent_target_clones() {
    let e = entry("git@host:a/b.git", "~/code/b", None, None);
    assert_eq!(repo_decision(&e, false), RepoActionKind::CloneRepo);
    match repo_plan(&e, "/home/me", false).unwrap() {
        RepoPlan::Create { base, clone } => {
            assert_eq!(base, "/home/me/code");
            assert_eq!(clone.program, "git");
            assert_eq!(strs(&clone.args), vec!["clone", "git@host:a/b.git", "/home/me/code/b"]);
            assert!(clone.cwd.is_none());
        },
        _ => panic!("expected a clone plan"),
    }
}

#[test]
fn existing_target_without_flags_is_untouched() {
    let e = entry("s", "~/code/b", None, None);
    assert_eq!(repo_decision(&e, true), RepoActionKind::Existing);
    assert!(matches!(repo_plan(&e, "/home/me", true), Ok(RepoPlan::Existing)));
}

#[test]
fn clone_and_flags_are_mutually_exclusive_per_run() {
    let e = entry("s", "~/code/b", Some(true), Some(true));
    assert_eq!(repo_decision(&e, false), RepoActionKind::CloneRepo);
    assert_eq!(repo_decision(&e, true), RepoActionKind::Synchronise);
}

#[test]
fn synchronise_wins_over_update() {
    let e = entry("s", "/r", Some(true), Some(true));
    assert_eq!(repo_decision(&e, true), RepoActionKind::Synchronise);
    let u = entry("s", "/r", Some(true), Some(false));
    assert_eq!(repo_decision(&u, true), RepoActionKind::Update);
}

#[test]
fn synchronise_is_commit_pull_rebase_push_in_order() {
    let cmds = synchronise_commands("/home/me/code/b");
    assert_eq!(cmds.len(), 3);
    assert_eq!(cmds[0].program, "git");
    assert_eq!(strs(&cmds[0].args), vec!["commit", "-am", "autocommit"]);
    assert_eq!(cmds[0].cwd.as_deref(), Some("/home/me/code/b"));
    assert_eq!(strs(&cmds[1].args), vec!["pull", "-r"]);
    assert_eq!(cmds[1].cwd.as_deref(), Some("/home/me/code/b"));
    assert_eq!(strs(&cmds[2].args), vec!["push"]);
    assert_eq!(cmds[2].cwd.as_deref(), Some("/home/me/code/b"));
}

#[test]
fn update_is_one_pull() {
    let cmd = pull_command("/r");
    assert_eq!(cmd.program, "git");
    assert_eq!(strs(&cmd.args), vec!["pull"]);
    assert_eq!(cmd.cwd.as_deref(), Some("/r"));
}

#[test]
fn creation_base_rules() {
    assert_eq!(creation_base("/home/me/code/b").as_deref(), Some("/home/me/code"));
    assert_eq!(creation_base("/home/me/code/b/").as_deref(), Some("/home/me/code"));
    assert_eq!(creation_base("/b").as_deref(), Some(""));
    assert_eq!(creation_base("b"), None);
    assert_eq!(creation_base("b/"), None);
    assert_eq!(creation_base("/"), None);
}

#[test]
fn invalid_target_is_an_error() {
    let e = entry("s", "plain", None, None);
    assert!(matches!(repo_plan(&e, "/home/me", false), Err(RepoError::InvalidTarget)));
    assert!(matches!(repo_plan(&e, "/home/me", true), Ok(RepoPlan::Existing)));
}

#[test]
fn clone_command_exact() {
    let c = clone_command("src", "dst");
    assert_eq!(c.program, "git");
    assert_eq!(strs(&c.args), vec!["clone", "src", "dst"]);
}
