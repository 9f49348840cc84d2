use localsetup::doc::Ubuntu;
use localsetup::remediation::{
    negative_pins_step, pin_file, positive_pins_step, prompt_answer, purge_command,
    purge_decision, replacement_step, staged_write, ubuntu_specifics, PinKind, PinProbe,
    PromptAnswer, PurgeDecision, StagedWriteError,
};

fn strs(v: &Vec<String>) -> Vec<&str> {
    v.iter().map(|s| s.as_str()).collect()
}

fn converged_probe() -> PinProbe {
    PinProbe {
        nosnap: true,
        firefox_nosnap: true,
        thunderbird_nosnap: true,
        firefox_ppa: true,
        thunderbird_ppa: true,
    }
}

fn fresh_probe() -> PinProbe {
    PinProbe {
        nosnap: false,
        firefox_nosnap: false,
        thunderbird_nosnap: false,
        firefox_ppa: false,
        thunderbird_ppa: false,
    }
}

#[test]
fn gate_requires_both_flags() {
    let off = Ubuntu {
        remove_snap_and_install_firefox_ppa: None,
        remove_snap_and_install_firefox_ppa_yes_delete_my_bookmarks_and_everything: Some(true),
    };
    assert_eq!(ubuntu_specifics(&off), None);
    let on_unconfirmed = Ubuntu {
        remove_snap_and_install_firefox_ppa: Some(true),
        remove_snap_and_install_firefox_ppa_yes_delete_my_bookmarks_and_everything: None,
    };
    assert_eq!(ubuntu_specifics(&on_unconfirmed), Some(false));
    let on_confirmed = Ubuntu {
        remove_snap_and_install_firefox_ppa: Some(true),
        remove_snap_and_install_firefox_ppa_yes_delete_my_bookmarks_and_everything: Some(true),
    };
    assert_eq!(ubuntu_specifics(&on_confirmed), Some(true));
}

#[test]
fn purge_decision_table() {
    assert_eq!(purge_decision(false, false), PurgeDecision::AlreadyRemoved);
    assert_eq!(purge_decision(false, true), PurgeDecision::AlreadyRemoved);
    assert_eq!(purge_decision(true, false), PurgeDecision::AskOperator);
    assert_eq!(purge_decision(true, true), PurgeDecision::DoPurge);
}

#[test]
fn purge_call_is_exact() {
    let c = purge_command();
    assert_eq!(c.program, "sudo");
    assert_eq!(strs(&c.args), vec!["apt", "purge", "--yes", "snapd"]);
    assert!(c.cwd.is_none());
}

#[test]
fn prompt_only_accepts_y_and_n() {
    assert_eq!(prompt_answer("y"), PromptAnswer::Yes);
    assert_eq!(prompt_answer("n"), PromptAnswer::No);
    assert_eq!(prompt_answer("yes"), PromptAnswer::Again);
    assert_eq!(prompt_answer(""), PromptAnswer::Again);
    assert_eq!(prompt_answer("Y"), PromptAnswer::Again);
}

#[test]
fn second_run_reports_everything_already_done() {
    let p = converged_probe();
    assert_eq!(purge_decision(false, false), PurgeDecision::AlreadyRemoved);
    let (neg_safe, neg_writes) = negative_pins_step(&p);
    assert!(neg_safe);
    assert_eq!(neg_writes.len(), 0);
    assert!(replacement_step(true).is_none());
    let (pos_done, pos_writes) = positive_pins_step(&p);
    assert!(pos_done);
    assert_eq!(pos_writes.len(), 0);
}

#[test]
fn first_run_writes_all_pins() {
    let p = fresh_probe();
    let (neg_safe, neg_writes) = negative_pins_step(&p);
    assert!(!neg_safe);
    let paths: Vec<&str> = neg_writes.iter().map(|p| p.path.as_str()).collect();
    assert_eq!(
        paths,
        vec![
            "/etc/apt/preferences.d/nosnap.pref",
            "/etc/apt/preferences.d/firefox-nosnap.pref",
            "/etc/apt/preferences.d/thunderbird-nosnap.pref",
        ]
    );
    let (pos_done, pos_writes) = positive_pins_step(&p);
    assert!(!pos_done);
    let paths: Vec<&str> = pos_writes.iter().map(|p| p.path.as_str()).collect();
    assert_eq!(
        paths,
        vec![
            "/etc/apt/preferences.d/firefox-ppa.pref",
            "/etc/apt/preferences.d/thunderbird-ppa.pref",
        ]
    );
}

#[test]
fn one_missing_pin_rewrites_the_group() {
    let mut p = converged_probe();
    p.firefox_nosnap = false;
    let (safe, writes) = negative_pins_step(&p);
    assert!(!safe);
    assert_eq!(writes.len(), 3);
}

#[test]
fn replacement_channel_commands() {
    let step = replacement_step(false).unwrap();
    assert_eq!(step.commands.len(), 2);
    assert_eq!(step.commands[0].program, "sudo");
    assert_eq!(strs(&step.commands[0].args), vec!["add-apt-repository", "ppa:mozillateam/ppa"]);
    assert_eq!(step.commands[1].program, "sudo");
    assert_eq!(
        strs(&step.commands[1].args),
        vec!["apt", "install", "--yes", "firefox", "thunderbird"]
    );
    assert_eq!(step.pins.len(), 2);
    assert_eq!(step.pins[0].path, "/etc/apt/preferences.d/firefox-ppa.pref");
    assert_eq!(step.pins[1].path, "/etc/apt/preferences.d/thunderbird-ppa.pref");
}

#[test]
fn pin_contents_are_fixed() {
    let nosnap = pin_file(PinKind::NoSnap);
    assert_eq!(nosnap.path, "/etc/apt/preferences.d/nosnap.pref");
    assert!(nosnap.content.contains("Package: snapd"));
    assert!(nosnap.content.contains("Pin-Priority: -10"));
    let ppa = pin_file(PinKind::FirefoxPpa);
    assert!(ppa.content.contains("Package: firefox*"));
    assert!(ppa.content.contains("Pin: release o=LP-PPA-mozillateam"));
    assert!(ppa.content.contains("Pin-Priority: 501"));
    let tb = pin_file(PinKind::ThunderbirdNoSnap);
    assert!(tb.content.contains("Package: thunderbird*"));
    assert!(tb.content.contains("Pin-Priority: -1"));
}

#[test]
fn staged_write_skips_existing_files() {
    let r = staged_write("/etc/apt/preferences.d/nosnap.pref", "content", "/home/me/.cache", true);
    assert!(matches!(r, Ok(None)));
}

#[test]
fn staged_write_plans_the_elevated_copy() {
    let w = staged_write("/etc/apt/preferences.d/nosnap.pref", "the content", "/home/me/.cache", false)
        .unwrap()
        .unwrap();
    assert_eq!(w.stage_dir, "/home/me/.cache/localsetup/");
    assert_eq!(w.staged_path, "/home/me/.cache/localsetup/nosnap.pref");
    assert_eq!(w.content, "the content");
    assert_eq!(w.mkdir.program, "mkdir");
    assert_eq!(strs(&w.mkdir.args), vec!["-p", "/etc/apt/preferences.d"]);
    assert_eq!(w.copy.program, "sudo");
    assert_eq!(
        strs(&w.copy.args),
        vec!["cp", "/home/me/.cache/localsetup/nosnap.pref", "/etc/apt/preferences.d/nosnap.pref"]
    );
}

#[test]
fn staged_write_rejects_bare_names() {
    let r = staged_write("no-directory", "c", "/cache", false);
    assert!(matches!(r, Err(StagedWriteError::NoDirectory)));
}

#[test]
fn path_probe_answers_for_real_paths() {
    assert!(localsetup::probe::path_exists("/"));
    assert!(!localsetup::probe::path_exists("/surely/not/a/real/path/anywhere"));
}
