//! The command-line surface: zero or one positional argument. No argument
//! reuses the persisted source; the reserved word runs the self-update
//! instead of reconciliation; any other single argument becomes the new
//! persisted source; more than one argument is an error and nothing runs.

use vstd::prelude::*;
use crate::strutil::str_eq;

verus! {

/// What one invocation asks for. `args` excludes the program name.
pub enum CliAction {
    /// More than one argument: report an error, perform nothing.
    TooManyArguments,
    /// The reserved word: run the self-update, not reconciliation.
    SelfUpdate,
    /// Persist this as the new source, then reconcile.
    UseNewSource(String),
    /// Reconcile with the previously persisted source.
    UseStoredSource,
}

/// See `CliAction`: the four cases are decided by the argument count and
/// the reserved word alone.
pub fn cli_action(args: &Vec<String>) -> (r: CliAction)
    ensures
        match r {
            CliAction::TooManyArguments => args@.len() >= 2,
            CliAction::SelfUpdate => args@.len() == 1 && args@[0]@ == "update"@,
            CliAction::UseNewSource(s) => args@.len() == 1 && s@ == args@[0]@ && args@[0]@
                != "update"@,
            CliAction::UseStoredSource => args@.len() == 0,
        },
{
    if args.len() >= 2 {
        CliAction::TooManyArguments
    } else if args.len() == 1 {
        if str_eq(args[0].as_str(), "update") {
            CliAction::SelfUpdate
        } else {
            CliAction::UseNewSource(args[0].clone())
        }
    } else {
        CliAction::UseStoredSource
    }
}

} // verus!
