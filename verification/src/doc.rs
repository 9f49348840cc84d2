//! The declarative setup document: the typed shape of what the operator
//! declares, with the documented defaults for every absent flag. Every
//! section is optional; an absent section means "do nothing for this
//! concern".

use vstd::prelude::*;

verus! {

/// The one durable pointer: where the setup document was last fetched from.
pub struct Config {
    pub source: Option<String>,
}

/// SSH key policy. The key setup itself defaults to on.
pub struct Ssh {
    pub setup_ssh_key: Option<bool>,
    pub no_passphrase: Option<bool>,
}

/// Git identity; each field is applied only while the machine has none.
pub struct Git {
    pub name: Option<String>,
    pub email: Option<String>,
}

/// One repository to clone, update or synchronise.
///
/// The `run_once` and `run_everytime` hooks are declared but deliberately
/// never executed by the engine.
pub struct Repository {
    pub source: String,
    pub target: String,
    pub update: Option<bool>,
    pub synchronise: Option<bool>,
    pub run_once: Option<String>,
    pub run_everytime: Option<String>,
}

/// Packages to install and remove, inline or from list files.
pub struct Packages {
    pub install: Option<Vec<String>>,
    pub remove: Option<Vec<String>>,
    pub install_list: Option<String>,
    pub remove_list: Option<String>,
    pub assume_yes: Option<bool>,
    pub install_assume_yes: Option<bool>,
    pub remove_assume_yes: Option<bool>,
}

/// A declared symlink. Carried in the document; no engine step consumes it.
pub struct Symlink {
    pub link: String,
    pub target: String,
}

/// The OS remediation gate: the second flag must be explicit because the
/// purge deletes user data.
pub struct Ubuntu {
    pub remove_snap_and_install_firefox_ppa: Option<bool>,
    pub remove_snap_and_install_firefox_ppa_yes_delete_my_bookmarks_and_everything: Option<bool>,
}

/// Rust toolchain convergence flags, independent of each other.
pub struct Rustup {
    pub install_rust: Option<bool>,
    pub update_rust: Option<bool>,
}

/// Python tool installer flag.
pub struct Uv {
    pub install_astral_sh: Option<bool>,
}

/// A whole parsed setup document.
pub struct Setupfile {
    pub packages: Option<Packages>,
    pub ssh: Option<Ssh>,
    pub git: Option<Git>,
    pub repositories: Option<Vec<Repository>>,
    pub symlink: Option<Symlink>,
    pub ubuntu: Option<Ubuntu>,
    pub rustup: Option<Rustup>,
    pub uv: Option<Uv>,
}

/// An absent boolean flag falls back to `default`.
pub open spec fn flag_or(flag: Option<bool>, default: bool) -> bool {
    match flag {
        Some(b) => b,
        None => default,
    }
}

impl Setupfile {
    /// SSH key setup is on unless switched off explicitly.
    pub open spec fn spec_ssh_enabled(&self) -> bool {
        match self.ssh {
            Some(ssh) => flag_or(ssh.setup_ssh_key, true),
            None => true,
        }
    }

    /// See `spec_ssh_enabled`.
    pub fn ssh_enabled(&self) -> (r: bool)
        ensures
            r == self.spec_ssh_enabled(),
    {
        match &self.ssh {
            Some(ssh) => ssh.setup_ssh_key.unwrap_or(true),
            None => true,
        }
    }

    /// A key is generated without a passphrase only on request.
    pub open spec fn spec_ssh_no_passphrase(&self) -> bool {
        match self.ssh {
            Some(ssh) => flag_or(ssh.no_passphrase, false),
            None => false,
        }
    }

    /// See `spec_ssh_no_passphrase`.
    pub fn ssh_no_passphrase(&self) -> (r: bool)
        ensures
            r == self.spec_ssh_no_passphrase(),
    {
        match &self.ssh {
            Some(ssh) => ssh.no_passphrase.unwrap_or(false),
            None => false,
        }
    }
}

impl Repository {
    /// The entry asks to be kept up to date by pulling.
    pub open spec fn spec_wants_update(&self) -> bool {
        flag_or(self.update, false)
    }

    /// See `spec_wants_update`.
    pub fn wants_update(&self) -> (r: bool)
        ensures
            r == self.spec_wants_update(),
    {
        self.update.unwrap_or(false)
    }

    /// The entry asks for the full commit, rebase-pull, push sequence.
    pub open spec fn spec_wants_synchronise(&self) -> bool {
        flag_or(self.synchronise, false)
    }

    /// See `spec_wants_synchronise`.
    pub fn wants_synchronise(&self) -> (r: bool)
        ensures
            r == self.spec_wants_synchronise(),
    {
        self.synchronise.unwrap_or(false)
    }
}

impl Packages {
    /// Non-interactive confirmation for installs: the specific flag wins,
    /// then the shared one, then off.
    pub open spec fn spec_install_yes(&self) -> bool {
        flag_or(self.install_assume_yes, flag_or(self.assume_yes, false))
    }

    /// See `spec_install_yes`.
    pub fn install_yes(&self) -> (r: bool)
        ensures
            r == self.spec_install_yes(),
    {
        self.install_assume_yes.unwrap_or(self.assume_yes.unwrap_or(false))
    }

    /// Non-interactive confirmation for removals, resolved the same way.
    pub open spec fn spec_remove_yes(&self) -> bool {
        flag_or(self.remove_assume_yes, flag_or(self.assume_yes, false))
    }

    /// See `spec_remove_yes`.
    pub fn remove_yes(&self) -> (r: bool)
        ensures
            r == self.spec_remove_yes(),
    {
        self.remove_assume_yes.unwrap_or(self.assume_yes.unwrap_or(false))
    }
}

impl Ubuntu {
    /// The remediation runs at all.
    pub open spec fn spec_remediation_enabled(&self) -> bool {
        flag_or(self.remove_snap_and_install_firefox_ppa, false)
    }

    /// See `spec_remediation_enabled`.
    pub fn remediation_enabled(&self) -> (r: bool)
        ensures
            r == self.spec_remediation_enabled(),
    {
        self.remove_snap_and_install_firefox_ppa.unwrap_or(false)
    }

    /// The destructive purge was confirmed in the document itself.
    pub open spec fn spec_remediation_confirmed(&self) -> bool {
        flag_or(self.remove_snap_and_install_firefox_ppa_yes_delete_my_bookmarks_and_everything, false)
    }

    /// See `spec_remediation_confirmed`.
    pub fn remediation_confirmed(&self) -> (r: bool)
        ensures
            r == self.spec_remediation_confirmed(),
    {
        self.remove_snap_and_install_firefox_ppa_yes_delete_my_bookmarks_and_everything.unwrap_or(
            false,
        )
    }
}

impl Rustup {
    /// Install the Rust toolchain when it is absent.
    pub open spec fn spec_wants_install(&self) -> bool {
        flag_or(self.install_rust, false)
    }

    /// See `spec_wants_install`.
    pub fn wants_install(&self) -> (r: bool)
        ensures
            r == self.spec_wants_install(),
    {
        self.install_rust.unwrap_or(false)
    }

    /// Update the Rust toolchain when it is present.
    pub open spec fn spec_wants_update(&self) -> bool {
        flag_or(self.update_rust, false)
    }

    /// See `spec_wants_update`.
    pub fn wants_update(&self) -> (r: bool)
        ensures
            r == self.spec_wants_update(),
    {
        self.update_rust.unwrap_or(false)
    }
}

impl Uv {
    /// Install the Python tool manager when it is absent.
    pub open spec fn spec_wants_install(&self) -> bool {
        flag_or(self.install_astral_sh, false)
    }

    /// See `spec_wants_install`.
    pub fn wants_install(&self) -> (r: bool)
        ensures
            r == self.spec_wants_install(),
    {
        self.install_astral_sh.unwrap_or(false)
    }
}

} // verus!
