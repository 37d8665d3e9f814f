//! Phase outcomes, the error taxonomy, and the mapping from what a child
//! process's `join` observed to a mode's result.

use vstd::prelude::*;

use crate::Origin;
use crate::kind::{delegates, ModeKind};

verus! {

/// Everything that can go wrong while dispatching and running a mode.
#[derive(Clone, Copy, Debug, PartialEq, Eq, Structural)]
pub enum ModeError {
    /// Constructing the matched mode failed; names the mode.
    InitializationFailure { mode: ModeKind },
    /// Running the constructed mode failed; names the mode.
    RunFailure { mode: ModeKind },
    /// The external process could not be spawned.
    SpawnFailure,
    /// The external process exited without a retrievable exit code (for
    /// example, it was killed by a signal).
    ExitCodeUnavailable,
    /// One line of the given stream failed to decode as text; recovered
    /// locally, never fatal.
    StreamDecodeFailure { origin: Origin },
    /// The process handle or a reader thread could not be joined.
    JoinFailure,
}

/// The outcome of trying one phase.
#[derive(Clone, Copy, Debug, PartialEq, Eq)]
pub enum PhaseResult {
    /// No candidate of the phase matched the invocation.
    NoMatch,
    /// The matched mode ran to completion; delegating modes carry the
    /// external tool's real exit code, local modes carry none.
    Completed { exit_code: Option<i32> },
    /// The matched mode failed to initialize or to run.
    Failed { error: ModeError },
}

/// What the caller observed of a spawned child once its output stream ended.
#[derive(Clone, Copy, Debug, PartialEq, Eq)]
pub enum ChildOutcome {
    /// The process could not be spawned at all.
    SpawnFailed,
    /// The process handle or a reader thread could not be joined.
    JoinFailed,
    /// The process exited; `exit_code` is `None` when it was terminated
    /// without a retrievable code.
    Exited { exit_code: Option<i32> },
}

/// Maps what `join` observed to the run's result: the process's real exit
/// code when there is one, never a synthesized default.
pub fn join_outcome(joined: bool, exit_code: Option<i32>) -> (r: Result<i32, ModeError>)
    ensures
        !joined ==> r == Err::<i32, ModeError>(ModeError::JoinFailure),
        joined ==> match exit_code {
            Some(n) => r == Ok::<i32, ModeError>(n),
            None => r == Err::<i32, ModeError>(ModeError::ExitCodeUnavailable),
        },
{
    if !joined {
        Err(ModeError::JoinFailure)
    } else {
        match exit_code {
            Some(n) => Ok(n),
            None => Err(ModeError::ExitCodeUnavailable),
        }
    }
}

/// The phase result of a delegating mode, from what its child run came to.
pub fn delegating_result(k: ModeKind, outcome: ChildOutcome) -> (r: PhaseResult)
    requires
        delegates(k),
    ensures
        match outcome {
            ChildOutcome::SpawnFailed => r == (PhaseResult::Failed {
                error: ModeError::SpawnFailure,
            }),
            ChildOutcome::JoinFailed => r == (PhaseResult::Failed { error: ModeError::JoinFailure }),
            ChildOutcome::Exited { exit_code } => match exit_code {
                Some(n) => r == (PhaseResult::Completed { exit_code: Some(n) }),
                None => r == (PhaseResult::Failed { error: ModeError::ExitCodeUnavailable }),
            },
        },
{
    match outcome {
        ChildOutcome::SpawnFailed => PhaseResult::Failed { error: ModeError::SpawnFailure },
        ChildOutcome::JoinFailed => PhaseResult::Failed { error: ModeError::JoinFailure },
        ChildOutcome::Exited { exit_code } => match join_outcome(true, exit_code) {
            Ok(n) => PhaseResult::Completed { exit_code: Some(n) },
            Err(e) => PhaseResult::Failed { error: e },
        },
    }
}

/// The phase result of a local mode: success carries no exit code.
pub fn local_result(k: ModeKind, succeeded: bool) -> (r: PhaseResult)
    requires
        !delegates(k),
    ensures
        succeeded ==> r == (PhaseResult::Completed { exit_code: None }),
        !succeeded ==> r == (PhaseResult::Failed { error: ModeError::RunFailure { mode: k } }),
{
    if succeeded {
        PhaseResult::Completed { exit_code: None }
    } else {
        PhaseResult::Failed { error: ModeError::RunFailure { mode: k } }
    }
}

/// The process exit status the driver reports for a terminal phase result:
/// the delegated tool's code when there is one, `0` for codeless success,
/// nonzero for every error.
pub fn driver_exit_code(r: &PhaseResult) -> (code: i32)
    requires
        !(r is NoMatch),
    ensures
        match r {
            PhaseResult::Completed { exit_code } => match exit_code {
                Some(n) => code == n,
                None => code == 0,
            },
            PhaseResult::Failed { .. } => code == 1,
            PhaseResult::NoMatch => false,
        },
{
    match r {
        PhaseResult::Completed { exit_code: Some(n) } => *n,
        PhaseResult::Completed { exit_code: None } => 0,
        _ => 1,
    }
}

} // verus!
