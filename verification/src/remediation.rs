//! The OS remediation engine: replace the sandbox-packaged browser and
//! mail suite with a repository-channel install, pinned so that system
//! updates keep it. Four idempotent sub-steps: purge the sandbox runtime
//! (gated by an explicit destructive confirmation), install negative pins,
//! install the replacement from the alternate channel, install positive
//! pins. Each step is skipped when its goal state already holds, so the
//! whole operation is safe to run on every invocation.

use vstd::prelude::*;
use crate::cmd::{Command, CommandModel};
use crate::doc::Ubuntu;
use crate::probe::path_exists;
use crate::strutil::{last_index_of, rfind_char, str_concat, str_eq};

verus! {

/// The five pin files the remediation maintains.
#[derive(PartialEq, Eq, Structural, Clone, Copy)]
pub enum PinKind {
    /// Forbid the sandbox runtime from ever being installed by the
    /// package manager again.
    NoSnap,
    /// Keep the distribution's own browser package out.
    FirefoxNoSnap,
    /// Keep the distribution's own mail package out.
    ThunderbirdNoSnap,
    /// Prefer the alternate channel's browser on updates.
    FirefoxPpa,
    /// Prefer the alternate channel's mail client on updates.
    ThunderbirdPpa,
}

/// A pin file: where it lives and what it must hold.
pub struct PinFile {
    pub path: String,
    pub content: String,
}

/// The system path of each pin file.
pub open spec fn spec_pin_path(kind: PinKind) -> Seq<char> {
    match kind {
        PinKind::NoSnap => "/etc/apt/preferences.d/nosnap.pref"@,
        PinKind::FirefoxNoSnap => "/etc/apt/preferences.d/firefox-nosnap.pref"@,
        PinKind::ThunderbirdNoSnap => "/etc/apt/preferences.d/thunderbird-nosnap.pref"@,
        PinKind::FirefoxPpa => "/etc/apt/preferences.d/firefox-ppa.pref"@,
        PinKind::ThunderbirdPpa => "/etc/apt/preferences.d/thunderbird-ppa.pref"@,
    }
}

/// The fixed contents of each pin file.
pub open spec fn spec_pin_content(kind: PinKind) -> Seq<char> {
    match kind {
        PinKind::NoSnap => "\n# To prevent repository packages from triggering the installation of snap,\n# this file forbids snapd from being installed by APT.\n\nPackage: snapd\nPin: release a=*\nPin-Priority: -10\n"@,
        PinKind::FirefoxNoSnap => "\nPackage: firefox*\nPin: release o=Ubuntu*\nPin-Priority: -1\n"@,
        PinKind::ThunderbirdNoSnap => "\nPackage: thunderbird*\nPin: release o=Ubuntu*\nPin-Priority: -1\n"@,
        PinKind::FirefoxPpa => "\nPackage: firefox*\nPin: release o=LP-PPA-mozillateam\nPin-Priority: 501\n"@,
        PinKind::ThunderbirdPpa => "\nPackage: thunderbird*\nPin: release o=LP-PPA-mozillateam\nPin-Priority: 501\n"@,
    }
}

/// Build the pin file value for one kind.
pub fn pin_file(kind: PinKind) -> (r: PinFile)
    ensures
        r.path@ == spec_pin_path(kind),
        r.content@ == spec_pin_content(kind),
{
    match kind {
        PinKind::NoSnap => PinFile {
            path: String::from_str("/etc/apt/preferences.d/nosnap.pref"),
            content: String::from_str(
                "\n# To prevent repository packages from triggering the installation of snap,\n# this file forbids snapd from being installed by APT.\n\nPackage: snapd\nPin: release a=*\nPin-Priority: -10\n",
            ),
        },
        PinKind::FirefoxNoSnap => PinFile {
            path: String::from_str("/etc/apt/preferences.d/firefox-nosnap.pref"),
            content: String::from_str(
                "\nPackage: firefox*\nPin: release o=Ubuntu*\nPin-Priority: -1\n",
            ),
        },
        PinKind::ThunderbirdNoSnap => PinFile {
            path: String::from_str("/etc/apt/preferences.d/thunderbird-nosnap.pref"),
            content: String::from_str(
                "\nPackage: thunderbird*\nPin: release o=Ubuntu*\nPin-Priority: -1\n",
            ),
        },
        PinKind::FirefoxPpa => PinFile {
            path: String::from_str("/etc/apt/preferences.d/firefox-ppa.pref"),
            content: String::from_str(
                "\nPackage: firefox*\nPin: release o=LP-PPA-mozillateam\nPin-Priority: 501\n",
            ),
        },
        PinKind::ThunderbirdPpa => PinFile {
            path: String::from_str("/etc/apt/preferences.d/thunderbird-ppa.pref"),
            content: String::from_str(
                "\nPackage: thunderbird*\nPin: release o=LP-PPA-mozillateam\nPin-Priority: 501\n",
            ),
        },
    }
}

/// Which pin files are present on the machine right now.
pub struct PinProbe {
    pub nosnap: bool,
    pub firefox_nosnap: bool,
    pub thunderbird_nosnap: bool,
    pub firefox_ppa: bool,
    pub thunderbird_ppa: bool,
}

/// Ask the filesystem about every pin file. A probe of live machine
/// state: the fields hold whatever the filesystem answered.
pub fn pin_probe() -> PinProbe {
    let nosnap = pin_file(PinKind::NoSnap);
    let firefox_nosnap = pin_file(PinKind::FirefoxNoSnap);
    let thunderbird_nosnap = pin_file(PinKind::ThunderbirdNoSnap);
    let firefox_ppa = pin_file(PinKind::FirefoxPpa);
    let thunderbird_ppa = pin_file(PinKind::ThunderbirdPpa);
    PinProbe {
        nosnap: path_exists(nosnap.path.as_str()),
        firefox_nosnap: path_exists(firefox_nosnap.path.as_str()),
        thunderbird_nosnap: path_exists(thunderbird_nosnap.path.as_str()),
        firefox_ppa: path_exists(firefox_ppa.path.as_str()),
        thunderbird_ppa: path_exists(thunderbird_ppa.path.as_str()),
    }
}

/// The whole remediation runs only when its first flag asks for it; the
/// returned value is the explicit destructive confirmation from the
/// document.
pub fn ubuntu_specifics(ubuntu: &Ubuntu) -> (r: Option<bool>)
    ensures
        r is Some <==> ubuntu.spec_remediation_enabled(),
        r is Some ==> r->0 == ubuntu.spec_remediation_confirmed(),
{
    if ubuntu.remediation_enabled() {
        Some(ubuntu.remediation_confirmed())
    } else {
        None
    }
}

/// What the purge step decides, before anything runs.
#[derive(PartialEq, Eq, Structural, Debug)]
pub enum PurgeDecision {
    /// The sandbox runtime is gone already: report and move on.
    AlreadyRemoved,
    /// The runtime is present but the document did not confirm the
    /// destruction: the operator must answer first.
    AskOperator,
    /// The runtime is present and the destruction is confirmed: purge.
    DoPurge,
}

/// Decision table of the purge step.
pub open spec fn spec_purge_decision(snapd_installed: bool, confirmed: bool) -> PurgeDecision {
    if !snapd_installed {
        PurgeDecision::AlreadyRemoved
    } else if !confirmed {
        PurgeDecision::AskOperator
    } else {
        PurgeDecision::DoPurge
    }
}

/// See `spec_purge_decision`.
pub fn purge_decision(snapd_installed: bool, confirmed: bool) -> (r: PurgeDecision)
    ensures
        r == spec_purge_decision(snapd_installed, confirmed),
{
    if !snapd_installed {
        PurgeDecision::AlreadyRemoved
    } else if !confirmed {
        PurgeDecision::AskOperator
    } else {
        PurgeDecision::DoPurge
    }
}

/// The purge invocation itself.
pub open spec fn spec_purge_cmd() -> CommandModel {
    CommandModel {
        program: "sudo"@,
        args: seq!["apt"@, "purge"@, "--yes"@, "snapd"@],
        cwd: None,
    }
}

/// See `spec_purge_cmd`.
pub fn purge_command() -> (r: Command)
    ensures
        r@ == spec_purge_cmd(),
{
    let r = Command::new("sudo").arg("apt").arg("purge").arg("--yes").arg("snapd");
    assert(r@ =~= spec_purge_cmd()) by {
        assert(r@.args =~= seq!["apt"@, "purge"@, "--yes"@, "snapd"@]);
    }
    r
}

/// What one line of operator input means at the destructive prompt.
#[derive(PartialEq, Eq, Structural, Debug)]
pub enum PromptAnswer {
    /// Proceed with the purge.
    Yes,
    /// Abort the entire remediation, not just this step.
    No,
    /// Anything else: ask again.
    Again,
}

/// Only a bare `y` proceeds and only a bare `n` aborts; every other line
/// repeats the question.
pub fn prompt_answer(line: &str) -> (r: PromptAnswer)
    ensures
        r is Yes <==> line@ == "y"@,
        r is No <==> line@ == "n"@,
{
    proof {
        reveal_strlit("y");
        reveal_strlit("n");
        assert("y"@.len() == 1 && "y"@[0] == 'y');
        assert("n"@.len() == 1 && "n"@[0] == 'n');
        assert("y"@ != "n"@);
    }
    if str_eq(line, "n") {
        PromptAnswer::No
    } else if str_eq(line, "y") {
        PromptAnswer::Yes
    } else {
        PromptAnswer::Again
    }
}

/// All three negative pins are in place.
pub open spec fn spec_negative_pins_safe(p: PinProbe) -> bool {
    p.nosnap && p.firefox_nosnap && p.thunderbird_nosnap
}

/// Both positive pins are in place.
pub open spec fn spec_positive_pins_ensured(p: PinProbe) -> bool {
    p.firefox_ppa && p.thunderbird_ppa
}

/// The negative-pin step: either everything is already safe, or the three
/// negative pin files are (re)ensured, each one skipping itself if present.
pub fn negative_pins_step(p: &PinProbe) -> (r: (bool, Vec<PinFile>))
    ensures
        r.0 == spec_negative_pins_safe(*p),
        r.0 ==> r.1@.len() == 0,
        !r.0 ==> r.1@.len() == 3 && r.1@[0].path@ == spec_pin_path(PinKind::NoSnap)
            && r.1@[0].content@ == spec_pin_content(PinKind::NoSnap) && r.1@[1].path@
            == spec_pin_path(PinKind::FirefoxNoSnap) && r.1@[1].content@ == spec_pin_content(
            PinKind::FirefoxNoSnap,
        ) && r.1@[2].path@ == spec_pin_path(PinKind::ThunderbirdNoSnap) && r.1@[2].content@
            == spec_pin_content(PinKind::ThunderbirdNoSnap),
{
    if p.nosnap && p.firefox_nosnap && p.thunderbird_nosnap {
        (true, Vec::new())
    } else {
        let mut pins: Vec<PinFile> = Vec::new();
        pins.push(pin_file(PinKind::NoSnap));
        pins.push(pin_file(PinKind::FirefoxNoSnap));
        pins.push(pin_file(PinKind::ThunderbirdNoSnap));
        (false, pins)
    }
}

/// The positive-pin step: either both pins are already ensured, or the two
/// positive pin files are (re)ensured.
pub fn positive_pins_step(p: &PinProbe) -> (r: (bool, Vec<PinFile>))
    ensures
        r.0 == spec_positive_pins_ensured(*p),
        r.0 ==> r.1@.len() == 0,
        !r.0 ==> r.1@.len() == 2 && r.1@[0].path@ == spec_pin_path(PinKind::FirefoxPpa)
            && r.1@[0].content@ == spec_pin_content(PinKind::FirefoxPpa) && r.1@[1].path@
            == spec_pin_path(PinKind::ThunderbirdPpa) && r.1@[1].content@ == spec_pin_content(
            PinKind::ThunderbirdPpa,
        ),
{
    if p.firefox_ppa && p.thunderbird_ppa {
        (true, Vec::new())
    } else {
        let mut pins: Vec<PinFile> = Vec::new();
        pins.push(pin_file(PinKind::FirefoxPpa));
        pins.push(pin_file(PinKind::ThunderbirdPpa));
        (false, pins)
    }
}

/// The alternate-channel step, taken only while the replacement browser is
/// not installed: add the channel, install both packages, then ensure the
/// positive pins.
pub struct ReplacementStep {
    pub commands: Vec<Command>,
    pub pins: Vec<PinFile>,
}

/// The two channel commands.
pub open spec fn spec_channel_cmds() -> Seq<CommandModel> {
    seq![
        CommandModel {
            program: "sudo"@,
            args: seq!["add-apt-repository"@, "ppa:mozillateam/ppa"@],
            cwd: None,
        },
        CommandModel {
            program: "sudo"@,
            args: seq!["apt"@, "install"@, "--yes"@, "firefox"@, "thunderbird"@],
            cwd: None,
        },
    ]
}

/// The replacement install happens exactly while the browser is absent.
pub fn replacement_step(firefox_installed: bool) -> (r: Option<ReplacementStep>)
    ensures
        r is Some <==> !firefox_installed,
        r is Some ==> (r->0).commands.deep_view() == spec_channel_cmds() && (r->0).pins@.len() == 2
            && (r->0).pins@[0].path@ == spec_pin_path(PinKind::FirefoxPpa)
            && (r->0).pins@[0].content@ == spec_pin_content(PinKind::FirefoxPpa)
            && (r->0).pins@[1].path@ == spec_pin_path(PinKind::ThunderbirdPpa)
            && (r->0).pins@[1].content@ == spec_pin_content(PinKind::ThunderbirdPpa),
{
    if firefox_installed {
        None
    } else {
        let add = Command::new("sudo").arg("add-apt-repository").arg("ppa:mozillateam/ppa");
        assert(add@ =~= spec_channel_cmds()[0]) by {
            assert(add@.args =~= seq!["add-apt-repository"@, "ppa:mozillateam/ppa"@]);
        }
        let install = Command::new("sudo").arg("apt").arg("install").arg("--yes").arg(
            "firefox",
        ).arg("thunderbird");
        assert(install@ =~= spec_channel_cmds()[1]) by {
            assert(install@.args =~= seq!["apt"@, "install"@, "--yes"@, "firefox"@, "thunderbird"@]);
        }
        let mut commands: Vec<Command> = Vec::new();
        commands.push(add);
        commands.push(install);
        assert(commands.deep_view() =~= spec_channel_cmds());
        let mut pins: Vec<PinFile> = Vec::new();
        pins.push(pin_file(PinKind::FirefoxPpa));
        pins.push(pin_file(PinKind::ThunderbirdPpa));
        Some(ReplacementStep { commands, pins })
    }
}

/// A staged write of a system file: the content is written under the cache
/// first, and an elevated copy moves it to the final location, whose
/// directory is created first.
pub struct StagedWrite {
    /// The directory to create under the cache before staging.
    pub stage_dir: String,
    /// Where the content is staged.
    pub staged_path: String,
    /// What to write there.
    pub content: String,
    /// Creates the final directory.
    pub mkdir: Command,
    /// The elevated copy from the staged path to the final location.
    pub copy: Command,
}

/// A filename with no separator has no directory to stage into.
#[derive(PartialEq, Eq, Structural, Debug)]
pub enum StagedWriteError {
    NoDirectory,
}

/// Plan the staged write for `filename` with `content`, given whether the
/// file already exists. Nothing to do when it does; everything exact when
/// it does not.
pub fn staged_write(filename: &str, content: &str, cache_path: &str, exists: bool) -> (r: Result<
    Option<StagedWrite>,
    StagedWriteError,
>)
    ensures
        ({
            let i = last_index_of(filename@, '/');
            match r {
                Ok(opt) => match opt {
                    None => exists,
                    Some(w) => !exists && i >= 0 && w.stage_dir@ == cache_path@ + "/localsetup/"@
                        && w.staged_path@ == cache_path@ + "/localsetup/"@ + filename@.skip(i + 1)
                        && w.content@ == content@ && w.mkdir@ == (CommandModel {
                        program: "mkdir"@,
                        args: seq!["-p"@, filename@.take(i)],
                        cwd: None,
                    }) && w.copy@ == (CommandModel {
                        program: "sudo"@,
                        args: seq!["cp"@, cache_path@ + "/localsetup/"@ + filename@.skip(i + 1), filename@],
                        cwd: None,
                    }),
                },
                Err(e) => !exists && i < 0,
            }
        }),
{
    if exists {
        return Ok(None);
    }
    match rfind_char(filename, '/') {
        None => Err(StagedWriteError::NoDirectory),
        Some(i) => {
            proof {
                crate::strutil::lemma_last_index_of(filename@, '/');
            }
            let n = filename.unicode_len();
            let directory = filename.substring_char(0, i);
            let basename = filename.substring_char(i + 1, n);
            assert(directory@ =~= filename@.take(i as int));
            assert(basename@ =~= filename@.skip(i + 1));
            let stage_dir = str_concat(cache_path, "/localsetup/");
            let staged_path = str_concat(stage_dir.as_str(), basename);
            let mkdir = Command::new("mkdir").arg("-p").arg(directory);
            assert(mkdir@.args =~= seq!["-p"@, filename@.take(i as int)]);
            let copy = Command::new("sudo").arg("cp").arg(staged_path.as_str()).arg(filename);
            assert(copy@.args =~= seq![
                "cp"@,
                cache_path@ + "/localsetup/"@ + filename@.skip(i + 1),
                filename@,
            ]);
            Ok(
                Some(
                    StagedWrite {
                        stage_dir,
                        staged_path,
                        content: String::from_str(content),
                        mkdir,
                        copy,
                    },
                ),
            )
        },
    }
}

/// The purge is even considered only while the sandbox runtime is still
/// installed; once a run has purged it, every later run finds it gone and
/// reports so. The destructive step therefore happens at most once.
pub proof fn lemma_purge_at_most_once(snapd_installed: bool, confirmed: bool)
    ensures
        spec_purge_decision(snapd_installed, confirmed) is DoPurge ==> snapd_installed,
        spec_purge_decision(snapd_installed, confirmed) is AskOperator ==> snapd_installed,
        !snapd_installed ==> spec_purge_decision(snapd_installed, confirmed)
            is AlreadyRemoved,
{
}

/// On a machine the remediation has already converged (runtime purged,
/// every pin present, the replacement installed), a second run purges
/// nothing, asks nobody, and reports every step already satisfied.
pub proof fn lemma_remediation_idempotent(p: PinProbe, confirmed: bool)
    requires
        p.nosnap,
        p.firefox_nosnap,
        p.thunderbird_nosnap,
        p.firefox_ppa,
        p.thunderbird_ppa,
    ensures
        spec_purge_decision(false, confirmed) is AlreadyRemoved,
        spec_negative_pins_safe(p),
        spec_positive_pins_ensured(p),
{
}

} // verus!
