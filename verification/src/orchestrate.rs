//! The fixed running order over one parsed document. The order between
//! sections is itself a contract: packages before the SSH key before the
//! git identity before repositories before the OS remediation before the
//! toolchains, because later steps may depend on earlier ones.

use vstd::prelude::*;
use crate::doc::Setupfile;

verus! {

/// One reconciliation section of a run.
#[derive(PartialEq, Eq, Structural, Clone, Copy, Debug)]
pub enum Section {
    /// Install and remove declared packages.
    Packages,
    /// Provision the SSH key.
    SshKey,
    /// Apply the declared git identity.
    GitIdentity,
    /// Clone, update or synchronise each declared repository.
    Repositories,
    /// The OS-specific package-source remediation.
    OsRemediation,
    /// The Rust toolchain.
    RustToolchain,
    /// The Python tool installer.
    PythonTool,
}

/// Whether a section has anything declared to act on. The SSH key section
/// alone is on by default even with no section declared.
pub open spec fn spec_section_enabled(s: Setupfile, sec: Section) -> bool {
    match sec {
        Section::Packages => s.packages is Some,
        Section::SshKey => s.spec_ssh_enabled(),
        Section::GitIdentity => s.git is Some,
        Section::Repositories => s.repositories is Some,
        Section::OsRemediation => s.ubuntu is Some,
        Section::RustToolchain => s.rustup is Some,
        Section::PythonTool => s.uv is Some,
    }
}

/// The sections of one run, in the fixed declared order, keeping exactly
/// the enabled ones.
pub open spec fn spec_run_order(s: Setupfile) -> Seq<Section> {
    (if spec_section_enabled(s, Section::Packages) {
        seq![Section::Packages]
    } else {
        Seq::empty()
    }) + (if spec_section_enabled(s, Section::SshKey) {
        seq![Section::SshKey]
    } else {
        Seq::empty()
    }) + (if spec_section_enabled(s, Section::GitIdentity) {
        seq![Section::GitIdentity]
    } else {
        Seq::empty()
    }) + (if spec_section_enabled(s, Section::Repositories) {
        seq![Section::Repositories]
    } else {
        Seq::empty()
    }) + (if spec_section_enabled(s, Section::OsRemediation) {
        seq![Section::OsRemediation]
    } else {
        Seq::empty()
    }) + (if spec_section_enabled(s, Section::RustToolchain) {
        seq![Section::RustToolchain]
    } else {
        Seq::empty()
    }) + (if spec_section_enabled(s, Section::PythonTool) {
        seq![Section::PythonTool]
    } else {
        Seq::empty()
    })
}

/// See `spec_run_order`.
pub fn run_order(s: &Setupfile) -> (r: Vec<Section>)
    ensures
        r@ == spec_run_order(*s),
{
    let mut r: Vec<Section> = Vec::new();
    if s.packages.is_some() {
        r.push(Section::Packages);
    }
    if s.ssh_enabled() {
        r.push(Section::SshKey);
    }
    if s.git.is_some() {
        r.push(Section::GitIdentity);
    }
    if s.repositories.is_some() {
        r.push(Section::Repositories);
    }
    if s.ubuntu.is_some() {
        r.push(Section::OsRemediation);
    }
    if s.rustup.is_some() {
        r.push(Section::RustToolchain);
    }
    if s.uv.is_some() {
        r.push(Section::PythonTool);
    }
    assert(r@ =~= spec_run_order(*s));
    r
}

} // verus!
