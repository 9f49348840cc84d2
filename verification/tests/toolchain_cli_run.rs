use localsetup::cli::{cli_action, CliAction};
use localsetup::doc::{Packages, Rustup, Setupfile, Ssh, Uv};
use localsetup::gitid::{git_identity_commands, git_probe_command, git_set_command};
use localsetup::orchestrate::{run_order, Section};
use localsetup::selfupdate::{backup_path, binary_path, release_download_url, release_feed_url};
use localsetup::ssh::{ssh_keygen_command, ssh_public_key_path};
use localsetup::toolchain::{rustup_plan, uv_plan, ToolchainAction};

fn strs(v: &Vec<String>) -> Vec<&str> {
    v.iter().map(|s| s.as_str()).collect()
}

fn empty_setup() -> Setupfile {
    Setupfile {
        packages: None,
        ssh: None,
        git: None,
        repositories: None,
        symlink: None,
        ubuntu: None,
        rustup: None,
        uv: None,
    }
}

fn rustup_flags(install: Option<bool>, update: Option<bool>) -> Rustup {
    Rustup { install_rust: install, update_rust: update }
}

#[test]
fn rustup_bootstrap_when_nothing_is_installed() {
    let plan = rustup_plan(&rustup_flags(Some(true), None), false, false, "/c");
    assert_eq!(plan.len(), 2);
    match &plan[0] {
        ToolchainAction::Download { url, dest } => {
            assert_eq!(url, "https://sh.rustup.rs");
            assert_eq!(dest, "/c/rustup.sh");
        },
        _ => panic!("expected a download"),
    }
    match &plan[1] {
        ToolchainAction::Run(c) => {
            assert_eq!(c.program, "sh");
            assert_eq!(strs(&c.args), vec!["/c/rustup.sh", "-y"]);
        },
        _ => panic!("expected a run"),
    }
}

#[test]
fn rustup_manager_present_toolchain_absent() {
    let plan = rustup_plan(&rustup_flags(Some(true), None), true, false, "/c");
    assert_eq!(plan.len(), 1);
    match &plan[0] {
        ToolchainAction::Run(c) => {
            assert_eq!(c.program, "rustup");
            assert_eq!(strs(&c.args), vec!["toolchain", "install", "stable"]);
        },
        _ => panic!("expected a run"),
    }
}

#[test]
fn rustup_update_only_when_everything_is_present() {
    let plan = rustup_plan(&rustup_flags(None, Some(true)), true, true, "/c");
    assert_eq!(plan.len(), 1);
    match &plan[0] {
        ToolchainAction::Run(c) => {
            assert_eq!(c.program, "rustup");
            assert_eq!(strs(&c.args), vec!["update"]);
        },
        _ => panic!("expected a run"),
    }
    assert_eq!(rustup_plan(&rustup_flags(None, Some(true)), false, false, "/c").len(), 0);
    assert_eq!(rustup_plan(&rustup_flags(None, None), true, true, "/c").len(), 0);
}

#[test]
fn fresh_install_skips_the_update() {
    let plan = rustup_plan(&rustup_flags(Some(true), Some(true)), false, false, "/c");
    assert_eq!(plan.len(), 2);
    assert!(matches!(plan[0], ToolchainAction::Download { .. }));
    assert!(matches!(&plan[1], ToolchainAction::Run(c) if c.program == "sh"));
}

#[test]
fn uv_plan_cases() {
    let want = Uv { install_astral_sh: Some(true) };
    let plan = uv_plan(&want, false, "/c");
    assert_eq!(plan.len(), 2);
    match &plan[0] {
        ToolchainAction::Download { url, dest } => {
            assert_eq!(url, "https://astral.sh/uv/install.sh");
            assert_eq!(dest, "/c/uv_install.sh");
        },
        _ => panic!("expected a download"),
    }
    match &plan[1] {
        ToolchainAction::Run(c) => {
            assert_eq!(c.program, "sh");
            assert_eq!(strs(&c.args), vec!["/c/uv_install.sh"]);
        },
        _ => panic!("expected a run"),
    }
    assert_eq!(uv_plan(&want, true, "/c").len(), 0);
    assert_eq!(uv_plan(&Uv { install_astral_sh: None }, false, "/c").len(), 0);
}

#[test]
fn cli_cases() {
    assert!(matches!(cli_action(&vec![]), CliAction::UseStoredSource));
    assert!(matches!(cli_action(&vec![String::from("update")]), CliAction::SelfUpdate));
    match cli_action(&vec![String::from("/a/setup.toml")]) {
        CliAction::UseNewSource(s) => assert_eq!(s, "/a/setup.toml"),
        _ => panic!("expected a new source"),
    }
    assert!(matches!(
        cli_action(&vec![String::from("a"), String::from("b")]),
        CliAction::TooManyArguments
    ));
}

#[test]
fn packages_only_document_runs_packages_then_default_ssh() {
    let mut s = empty_setup();
    s.packages = Some(Packages {
        install: Some(vec![String::from("curl")]),
        remove: None,
        install_list: None,
        remove_list: None,
        assume_yes: None,
        install_assume_yes: None,
        remove_assume_yes: None,
    });
    assert_eq!(run_order(&s), vec![Section::Packages, Section::SshKey]);
}

#[test]
fn ssh_can_be_switched_off() {
    let mut s = empty_setup();
    s.ssh = Some(Ssh { setup_ssh_key: Some(false), no_passphrase: None });
    assert_eq!(run_order(&s), Vec::<Section>::new());
}

#[test]
fn full_document_runs_in_the_fixed_order() {
    let mut s = empty_setup();
    s.packages = Some(Packages {
        install: None,
        remove: None,
        install_list: None,
        remove_list: None,
        assume_yes: None,
        install_assume_yes: None,
        remove_assume_yes: None,
    });
    s.ssh = Some(Ssh { setup_ssh_key: Some(true), no_passphrase: None });
    s.git = Some(localsetup::doc::Git { name: None, email: None });
    s.repositories = Some(vec![]);
    s.ubuntu = Some(localsetup::doc::Ubuntu {
        remove_snap_and_install_firefox_ppa: None,
        remove_snap_and_install_firefox_ppa_yes_delete_my_bookmarks_and_everything: None,
    });
    s.rustup = Some(rustup_flags(None, None));
    s.uv = Some(Uv { install_astral_sh: None });
    assert_eq!(
        run_order(&s),
        vec![
            Section::Packages,
            Section::SshKey,
            Section::GitIdentity,
            Section::Repositories,
            Section::OsRemediation,
            Section::RustToolchain,
            Section::PythonTool,
        ]
    );
}

#[test]
fn keygen_call_shape() {
    let c = ssh_keygen_command("/home/me", false);
    assert_eq!(c.program, "ssh-keygen");
    assert_eq!(strs(&c.args), vec!["-t", "ed25519", "-f", "/home/me/.ssh/id_ed25519"]);
    let c = ssh_keygen_command("/home/me", true);
    assert_eq!(strs(&c.args), vec!["-t", "ed25519", "-f", "/home/me/.ssh/id_ed25519", "-N", ""]);
    assert_eq!(ssh_public_key_path("/home/me"), "/home/me/.ssh/id_ed25519.pub");
}

#[test]
fn git_identity_only_sets_unset_declared_fields() {
    let git = localsetup::doc::Git {
        name: Some(String::from("Someone")),
        email: Some(String::from("s@example.org")),
    };
    let cmds = git_identity_commands(&git, true, true);
    assert_eq!(cmds.len(), 2);
    assert_eq!(strs(&cmds[0].args), vec!["config", "--global", "user.name", "Someone"]);
    assert_eq!(strs(&cmds[1].args), vec!["config", "--global", "user.email", "s@example.org"]);
    let cmds = git_identity_commands(&git, false, true);
    assert_eq!(cmds.len(), 1);
    assert_eq!(strs(&cmds[0].args), vec!["config", "--global", "user.email", "s@example.org"]);
    let none = localsetup::doc::Git { name: None, email: None };
    assert_eq!(git_identity_commands(&none, true, true).len(), 0);
}

#[test]
fn git_probe_and_set_shapes() {
    let p = git_probe_command("user.name");
    assert_eq!(p.program, "git");
    assert_eq!(strs(&p.args), vec!["config", "get", "user.name"]);
    let s = git_set_command("user.email", "x@y");
    assert_eq!(strs(&s.args), vec!["config", "--global", "user.email", "x@y"]);
}

#[test]
fn self_update_paths_and_urls() {
    assert_eq!(binary_path("/home/me"), "/home/me/.local/bin/localsetup");
    assert_eq!(backup_path("/home/me"), "/home/me/.local/bin/__localsetup_old");
    assert_eq!(
        release_feed_url(),
        "https://api.github.com/repos/zgtm/localsetup/releases/latest"
    );
    assert_eq!(
        release_download_url(),
        "https://github.com/zgtm/localsetup/releases/latest/download/localsetup"
    );
}
