//! Declarative single-machine provisioner: the verified convergence engine.
//!
//! The library decides, from the declared setup document and from plain
//! values describing the current machine state, which external commands must
//! run and in what order. Running those commands, reading files, and all
//! other I/O stays outside the library.

pub mod cli;
pub mod cmd;
pub mod doc;
pub mod gitid;
pub mod orchestrate;
pub mod packages;
pub mod paths;
pub mod probe;
pub mod remediation;
pub mod repo;
pub mod selfupdate;
pub mod source;
pub mod ssh;
pub mod strutil;
pub mod toolchain;
pub mod version;
