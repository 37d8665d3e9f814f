//! The Apalache mode: selection and construction.
//!
//! Delegates to an Apalache process over the project; the subcommand's raw
//! trailing tokens become the tool's arguments, split on whitespace with
//! empty pieces dropped.

use vstd::prelude::*;

use crate::args::split_tail_args;
use crate::invocation::Invocation;
use crate::kind::ModeKind;
use crate::mode::{run_built_from, Run};
use crate::outcome::ModeError;

verus! {

/// Constructs the Apalache [`Run`] if the Apalache subcommand is active:
/// `None` when the invocation selects some other mode (or none), the
/// constructed mode when the project path resolved, and an initialization
/// failure naming this mode when it did not.
pub fn check_matches(inv: &Invocation) -> (r: Option<Result<Run, ModeError>>)
    ensures
        r is Some <==> inv.selects(ModeKind::RunApalache),
        inv.selects(ModeKind::RunApalache) ==> (r matches Some(res) && match inv.project_path {
            Some(_) => res matches Ok(run) && run_built_from(run, *inv),
            None => res == Err::<Run, ModeError>(
                ModeError::InitializationFailure { mode: ModeKind::RunApalache },
            ),
        }),
{
    if inv.has_mode(ModeKind::RunApalache) {
        let tail = split_tail_args(&inv.raw_tail);
        let path = match &inv.project_path {
            Some(p) => Some(p.clone()),
            None => None,
        };
        Some(Run::new(ModeKind::RunApalache, tail, inv.show_config, path))
    } else {
        None
    }
}

} // verus!
