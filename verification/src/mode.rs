//! The mode variants and their construction from an invocation.

use vstd::prelude::*;

use crate::args::{split_all, split_tail_args};
use crate::invocation::Invocation;
use crate::kind::{delegates, ModeKind};
use crate::outcome::ModeError;

verus! {

/// The build target of a delegating mode: where the project lives and
/// whether outputs go to the build-artifact directory.
#[derive(Debug, Clone)]
pub struct Target {
    /// Path of the project to load.
    pub project_path: String,
    /// Whether outputs are kept as build artifacts.
    pub build_artifacts: bool,
}

/// A delegating mode, ready to launch an external tool over the project.
#[derive(Debug, Clone)]
pub struct Run {
    /// Build target.
    pub target: Target,
    /// Trailing arguments for the external tool.
    pub tail_args: Vec<String>,
    /// If true, show the resolved configuration before running.
    pub show_config: bool,
}

/// `run` is what construction from `inv` must produce: the target at the
/// resolved project path with artifact outputs, the trailing tokens split on
/// whitespace with empty pieces dropped, and the flag carried over.
pub open spec fn run_built_from(run: Run, inv: Invocation) -> bool {
    &&& inv.project_path matches Some(p) && run.target.project_path@ == p@
    &&& run.target.build_artifacts
    &&& run.tail_args@.map_values(|w: String| w@) == split_all(
        inv.raw_tail@.map_values(|t: String| t@),
    )
    &&& run.show_config == inv.show_config
}

impl Run {
    /// Constructs the mode for kind `k`; fails exactly when the project path
    /// did not resolve, attributing the failure to `k`.
    pub fn new(k: ModeKind, tail_args: Vec<String>, show_config: bool, project_path: Option<String>)
        -> (r: Result<Run, ModeError>)
        requires
            delegates(k),
        ensures
            match project_path {
                Some(p) => r matches Ok(run) && {
                    &&& run.target.project_path == p
                    &&& run.target.build_artifacts
                    &&& run.tail_args == tail_args
                    &&& run.show_config == show_config
                },
                None => r == Err::<Run, ModeError>(ModeError::InitializationFailure { mode: k }),
            },
    {
        match project_path {
            Some(p) => Ok(
                Run {
                    target: Target { project_path: p, build_artifacts: true },
                    tail_args,
                    show_config,
                },
            ),
            None => Err(ModeError::InitializationFailure { mode: k }),
        }
    }
}

/// One constructed, single-use mode instance.
#[derive(Debug)]
pub enum Mode {
    /// Install or refresh the user-level configuration.
    Setup,
    /// Remove the user-level configuration.
    Uninstall,
    /// Create a fresh project skeleton.
    Init,
    /// Update the installed toolchain.
    Update,
    /// Run the project's test suite.
    Test,
    /// Delete build artifacts.
    Clean,
    /// Call TLC directly.
    RunTlc(Run),
    /// Call Apalache directly.
    RunApalache(Run),
    /// Run the specification under the configured checker.
    RunSpec(Run),
}

/// The kind of a constructed mode.
pub open spec fn mode_kind(m: Mode) -> ModeKind {
    match m {
        Mode::Setup => ModeKind::Setup,
        Mode::Uninstall => ModeKind::Uninstall,
        Mode::Init => ModeKind::Init,
        Mode::Update => ModeKind::Update,
        Mode::Test => ModeKind::Test,
        Mode::Clean => ModeKind::Clean,
        Mode::RunTlc(_) => ModeKind::RunTlc,
        Mode::RunApalache(_) => ModeKind::RunApalache,
        Mode::RunSpec(_) => ModeKind::RunSpec,
    }
}

/// The local (non-delegating) mode of a kind; meaningful only for kinds
/// that do not delegate.
pub open spec fn local_mode(k: ModeKind) -> Mode {
    match k {
        ModeKind::Setup => Mode::Setup,
        ModeKind::Uninstall => Mode::Uninstall,
        ModeKind::Init => Mode::Init,
        ModeKind::Update => Mode::Update,
        ModeKind::Test => Mode::Test,
        ModeKind::Clean => Mode::Clean,
        _ => Mode::Setup,
    }
}

/// What constructing the mode of kind `k` from `inv` must come to: local
/// modes always construct; delegating modes construct exactly when the
/// project path resolved, and otherwise fail with the kind named.
pub open spec fn built_for(inv: Invocation, k: ModeKind, r: Result<Mode, ModeError>) -> bool {
    if !delegates(k) {
        r == Ok::<Mode, ModeError>(local_mode(k))
    } else if inv.project_path is Some {
        r matches Ok(m) && mode_kind(m) == k && match m {
            Mode::RunTlc(run) | Mode::RunApalache(run) | Mode::RunSpec(run) => run_built_from(
                run,
                inv,
            ),
            _ => false,
        }
    } else {
        r == Err::<Mode, ModeError>(ModeError::InitializationFailure { mode: k })
    }
}

/// Constructs the mode of kind `k` from the invocation that selected it.
pub fn build_mode(inv: &Invocation, k: ModeKind) -> (r: Result<Mode, ModeError>)
    ensures
        built_for(*inv, k, r),
{
    match k {
        ModeKind::Setup => Ok(Mode::Setup),
        ModeKind::Uninstall => Ok(Mode::Uninstall),
        ModeKind::Init => Ok(Mode::Init),
        ModeKind::Update => Ok(Mode::Update),
        ModeKind::Test => Ok(Mode::Test),
        ModeKind::Clean => Ok(Mode::Clean),
        ModeKind::RunTlc | ModeKind::RunApalache | ModeKind::RunSpec => {
            let tail = split_tail_args(&inv.raw_tail);
            let path = match &inv.project_path {
                Some(p) => Some(p.clone()),
                None => None,
            };
            match Run::new(k, tail, inv.show_config, path) {
                Ok(run) => Ok(
                    match k {
                        ModeKind::RunTlc => Mode::RunTlc(run),
                        ModeKind::RunApalache => Mode::RunApalache(run),
                        _ => Mode::RunSpec(run),
                    },
                ),
                Err(e) => Err(e),
            }
        },
    }
}

} // verus!
