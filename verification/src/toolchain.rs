//! Toolchain convergence: the Rust toolchain manager and the Python tool
//! installer. Each routine turns two presence probes and the declared
//! flags into the exact downloads and calls to make. Installing through
//! the vendor script already yields the latest toolchain, so the update
//! call never follows a fresh install in the same run.

use vstd::prelude::*;
use crate::cmd::{Command, CommandModel};
use crate::doc::{Rustup, Uv};
use crate::strutil::str_concat;

verus! {

/// One step of a toolchain plan.
pub enum ToolchainAction {
    /// Fetch `url` and store the body at `dest`.
    Download { url: String, dest: String },
    /// Run an external command.
    Run(Command),
}

/// The mathematical shape of a toolchain step.
#[verifier::ext_equal]
pub enum ToolchainActionModel {
    Download { url: Seq<char>, dest: Seq<char> },
    Run(CommandModel),
}

impl View for ToolchainAction {
    type V = ToolchainActionModel;

    open spec fn view(&self) -> ToolchainActionModel {
        match self {
            ToolchainAction::Download { url, dest } => ToolchainActionModel::Download {
                url: url@,
                dest: dest@,
            },
            ToolchainAction::Run(c) => ToolchainActionModel::Run(c@),
        }
    }
}

impl DeepView for ToolchainAction {
    type V = ToolchainActionModel;

    open spec fn deep_view(&self) -> ToolchainActionModel {
        self.view()
    }
}

/// Run the staged installer script through the shell, non-interactively.
pub open spec fn spec_sh_cmd(args: Seq<Seq<char>>) -> CommandModel {
    CommandModel { program: "sh"@, args, cwd: None }
}

/// A bare call of the toolchain manager.
pub open spec fn spec_rustup_cmd(args: Seq<Seq<char>>) -> CommandModel {
    CommandModel { program: "rustup"@, args, cwd: None }
}

/// The Rust toolchain plan. With the toolchain absent and an install
/// requested: bootstrap through the vendor script when the manager is
/// absent too, else install through the manager. With everything present
/// and an update requested: one update call. A freshly bootstrapped
/// toolchain is already the latest, so nothing more follows it.
pub open spec fn spec_rustup_plan(
    install: bool,
    update: bool,
    manager_installed: bool,
    toolchain_installed: bool,
    cache: Seq<char>,
) -> Seq<ToolchainActionModel> {
    (if !toolchain_installed && install {
        if !manager_installed {
            seq![
                ToolchainActionModel::Download {
                    url: "https://sh.rustup.rs"@,
                    dest: cache + "/rustup.sh"@,
                },
                ToolchainActionModel::Run(spec_sh_cmd(seq![cache + "/rustup.sh"@, "-y"@])),
            ]
        } else {
            seq![
                ToolchainActionModel::Run(
                    spec_rustup_cmd(seq!["toolchain"@, "install"@, "stable"@]),
                ),
            ]
        }
    } else {
        Seq::empty()
    }) + (if manager_installed && toolchain_installed && update {
        seq![ToolchainActionModel::Run(spec_rustup_cmd(seq!["update"@]))]
    } else {
        Seq::empty()
    })
}

/// See `spec_rustup_plan`.
pub fn rustup_plan(
    rustup: &Rustup,
    manager_installed: bool,
    toolchain_installed: bool,
    cache_path: &str,
) -> (r: Vec<ToolchainAction>)
    ensures
        r.deep_view() == spec_rustup_plan(
            rustup.spec_wants_install(),
            rustup.spec_wants_update(),
            manager_installed,
            toolchain_installed,
            cache_path@,
        ),
{
    let mut r: Vec<ToolchainAction> = Vec::new();
    if !toolchain_installed && rustup.wants_install() {
        if !manager_installed {
            let dest = str_concat(cache_path, "/rustup.sh");
            r.push(
                ToolchainAction::Download {
                    url: String::from_str("https://sh.rustup.rs"),
                    dest: dest.clone(),
                },
            );
            let run = Command::new("sh").arg_string(dest).arg("-y");
            assert(run@.args =~= seq![cache_path@ + "/rustup.sh"@, "-y"@]);
            r.push(ToolchainAction::Run(run));
        } else {
            let run = Command::new("rustup").arg("toolchain").arg("install").arg("stable");
            assert(run@.args =~= seq!["toolchain"@, "install"@, "stable"@]);
            r.push(ToolchainAction::Run(run));
        }
    }
    if manager_installed && toolchain_installed && rustup.wants_update() {
        let run = Command::new("rustup").arg("update");
        assert(run@.args =~= seq!["update"@]);
        r.push(ToolchainAction::Run(run));
    }
    assert(r.deep_view() =~~= spec_rustup_plan(
        rustup.spec_wants_install(),
        rustup.spec_wants_update(),
        manager_installed,
        toolchain_installed,
        cache_path@,
    ));
    r
}

/// The Python tool plan: with the tool absent and an install requested,
/// fetch and run the vendor script; nothing otherwise.
pub open spec fn spec_uv_plan(install: bool, uv_installed: bool, cache: Seq<char>) -> Seq<
    ToolchainActionModel,
> {
    if !uv_installed && install {
        seq![
            ToolchainActionModel::Download {
                url: "https://astral.sh/uv/install.sh"@,
                dest: cache + "/uv_install.sh"@,
            },
            ToolchainActionModel::Run(spec_sh_cmd(seq![cache + "/uv_install.sh"@])),
        ]
    } else {
        Seq::empty()
    }
}

/// See `spec_uv_plan`.
pub fn uv_plan(uv: &Uv, uv_installed: bool, cache_path: &str) -> (r: Vec<ToolchainAction>)
    ensures
        r.deep_view() == spec_uv_plan(uv.spec_wants_install(), uv_installed, cache_path@),
{
    let mut r: Vec<ToolchainAction> = Vec::new();
    if !uv_installed && uv.wants_install() {
        let dest = str_concat(cache_path, "/uv_install.sh");
        r.push(
            ToolchainAction::Download {
                url: String::from_str("https://astral.sh/uv/install.sh"),
                dest: dest.clone(),
            },
        );
        let run = Command::new("sh").arg_string(dest);
        assert(run@.args =~= seq![cache_path@ + "/uv_install.sh"@]);
        r.push(ToolchainAction::Run(run));
    }
    assert(r.deep_view() =~~= spec_uv_plan(uv.spec_wants_install(), uv_installed, cache_path@));
    r
}

} // verus!
