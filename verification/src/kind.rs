//! The closed set of run-modes and the three execution phases.

use vstd::prelude::*;

verus! {

/// One supported action of the front end.
#[derive(Clone, Copy, Debug, PartialEq, Eq, Structural)]
pub enum ModeKind {
    /// Install or refresh the user-level configuration.
    Setup,
    /// Remove the user-level configuration.
    Uninstall,
    /// Create a fresh project skeleton.
    Init,
    /// Update the installed toolchain.
    Update,
    /// Call TLC directly with pass-through arguments.
    RunTlc,
    /// Call Apalache directly with pass-through arguments.
    RunApalache,
    /// Run the project's specification under the configured checker.
    RunSpec,
    /// Run the project's test suite.
    Test,
    /// Delete build artifacts.
    Clean,
}

/// One of the three ordered execution phases.
#[derive(Clone, Copy, Debug, PartialEq, Eq, Structural)]
pub enum Phase {
    /// Before the user-level configuration is loaded.
    PreUserLoad,
    /// After user-level configuration, before the project is loaded.
    PreProjectLoad,
    /// After all loading.
    PostLoading,
}

/// The registered candidates of a phase, in registration order.
pub open spec fn phase_candidates(p: Phase) -> Seq<ModeKind> {
    match p {
        Phase::PreUserLoad => seq![ModeKind::Setup, ModeKind::Uninstall],
        Phase::PreProjectLoad => seq![
            ModeKind::Init,
            ModeKind::Update,
            ModeKind::RunTlc,
            ModeKind::RunApalache,
        ],
        Phase::PostLoading => seq![ModeKind::RunSpec, ModeKind::Test, ModeKind::Clean],
    }
}

/// The phase a kind is registered in.
pub open spec fn phase_of(k: ModeKind) -> Phase {
    match k {
        ModeKind::Setup | ModeKind::Uninstall => Phase::PreUserLoad,
        ModeKind::Init | ModeKind::Update | ModeKind::RunTlc | ModeKind::RunApalache
            => Phase::PreProjectLoad,
        ModeKind::RunSpec | ModeKind::Test | ModeKind::Clean => Phase::PostLoading,
    }
}

/// Whether a kind delegates to an external tool and so yields a numeric exit
/// status.
pub open spec fn delegates(k: ModeKind) -> bool {
    match k {
        ModeKind::RunTlc | ModeKind::RunApalache | ModeKind::RunSpec => true,
        _ => false,
    }
}

/// Runtime test for [`delegates`].
pub fn is_delegating(k: ModeKind) -> (b: bool)
    ensures
        b == delegates(k),
{
    match k {
        ModeKind::RunTlc | ModeKind::RunApalache | ModeKind::RunSpec => true,
        _ => false,
    }
}

/// Each kind is a candidate of exactly its own phase, at a single position.
pub proof fn lemma_registration_consistent(k: ModeKind)
    ensures
        phase_candidates(phase_of(k)).contains(k),
        forall|p: Phase| p != phase_of(k) ==> !phase_candidates(p).contains(k),
{
    let own = phase_candidates(phase_of(k));
    match k {
        ModeKind::Setup => assert(own[0] == k),
        ModeKind::Uninstall => assert(own[1] == k),
        ModeKind::Init => assert(own[0] == k),
        ModeKind::Update => assert(own[1] == k),
        ModeKind::RunTlc => assert(own[2] == k),
        ModeKind::RunApalache => assert(own[3] == k),
        ModeKind::RunSpec => assert(own[0] == k),
        ModeKind::Test => assert(own[1] == k),
        ModeKind::Clean => assert(own[2] == k),
    }
    assert forall|p: Phase| p != phase_of(k) implies !phase_candidates(p).contains(k) by {
        if phase_candidates(p).contains(k) {
            let i = choose|i: int| 0 <= i < phase_candidates(p).len() && phase_candidates(p)[i] == k;
            assert(phase_of(phase_candidates(p)[i]) == p);
        }
    }
}

} // verus!
