//! Decisions the command-line front end acts on.

use vstd::prelude::*;

use crate::errors::SrpkError;

verus! {

/// What a bare `<key>` command-line argument resolves to.
pub enum CliAction {
    /// Look the key up in the active vault at this path.
    Lookup { path: String, key: String },
    /// No active vault: show the help text.
    ShowHelp,
}

/// A command that needs a parameter fails without one.
pub fn param_check(param: &Option<&String>) -> (r: Result<(), SrpkError>)
    ensures
        match r {
            Ok(()) => param is Some,
            Err(e) => param is None && e matches SrpkError::NoParam,
        },
{
    if param.is_none() {
        return Err(SrpkError::NoParam);
    }
    Ok(())
}

/// A command that works on the active vault fails when none is set;
/// otherwise it gets the active vault's path.
pub fn vault_check(active: Option<String>) -> (r: Result<String, SrpkError>)
    ensures
        match r {
            Ok(p) => active matches Some(q) && p@ == q@,
            Err(e) => active is None && e matches SrpkError::NoVault,
        },
{
    match active {
        Some(p) => Ok(p),
        None => Err(SrpkError::NoVault),
    }
}

/// Decide what a bare `<key>` argument does: with an active vault it is a
/// lookup of that key there; with none, the help text is shown.
pub fn all(param: &str, active: Option<String>) -> (r: CliAction)
    ensures
        match r {
            CliAction::Lookup { path, key } => {
                &&& active matches Some(p) && path@ == p@
                &&& key@ == param@
            },
            CliAction::ShowHelp => active is None,
        },
{
    match active {
        Some(path) => CliAction::Lookup { path, key: param.to_owned() },
        None => CliAction::ShowHelp,
    }
}

} // verus!
