//! The request handed to the executor: an action, its interactivity and the
//! targeted manager.

use vstd::prelude::*;
use crate::command::{
    command_to_pacmanager_command, prompted_view, translation, Action, Command, TranslateError,
};
use crate::resolve::PackageManagerKind;

verus! {

/// Everything the executor needs to launch the manager.
#[derive(Debug)]
pub struct ActionRequest {
    pub action: Action,
    /// The manager may ask for confirmation; the executor answers it with
    /// confirmation-skipping flags.
    pub interactive: bool,
    pub manager: PackageManagerKind,
    /// Manager-specific flags, passed through unchanged.
    pub extra_flags: Option<Vec<String>>,
}

/// Translates `command` and bundles it with `manager`, with no extra flags.
pub fn plan_request(
    command: Command,
    package: String,
    prompted: Option<String>,
    manager: PackageManagerKind,
) -> (r: Result<ActionRequest, TranslateError>)
    ensures
        match translation(command, package@, prompted_view(prompted)) {
            Ok((a, i)) => (r matches Ok(q) && q.action@ == a && q.interactive == i && q.manager
                == manager && q.extra_flags is None),
            Err(e) => (r matches Err(x) && x == e),
        },
{
    match command_to_pacmanager_command(command, package, prompted) {
        Ok((action, interactive)) => Ok(
            ActionRequest { action, interactive, manager, extra_flags: None },
        ),
        Err(e) => Err(e),
    }
}

} // verus!
