//! The three-phase dispatcher: first matching candidate wins, later phases
//! are reached only when every earlier phase found no match.

use vstd::prelude::*;

use crate::invocation::Invocation;
use crate::kind::{phase_candidates, phase_of, ModeKind, Phase};
use crate::mode::{build_mode, built_for, Mode};
use crate::outcome::ModeError;

verus! {

/// The first candidate at or after position `i` that the invocation selects.
pub open spec fn first_match_from(cands: Seq<ModeKind>, inv: Invocation, i: int) -> Option<ModeKind>
    decreases cands.len() - i,
{
    if i < 0 || i >= cands.len() {
        None
    } else if inv.selects(cands[i]) {
        Some(cands[i])
    } else {
        first_match_from(cands, inv, i + 1)
    }
}

/// The candidate a phase resolves to: the first registered one the
/// invocation selects.
pub open spec fn phase_match(inv: Invocation, p: Phase) -> Option<ModeKind> {
    first_match_from(phase_candidates(p), inv, 0)
}

/// The position of a phase in the fixed phase order.
pub open spec fn phase_rank(p: Phase) -> int {
    match p {
        Phase::PreUserLoad => 0,
        Phase::PreProjectLoad => 1,
        Phase::PostLoading => 2,
    }
}

/// The phase the whole dispatch resolves in: the earliest with a match.
pub open spec fn dispatch_phase(inv: Invocation) -> Option<Phase> {
    if phase_match(inv, Phase::PreUserLoad) is Some {
        Some(Phase::PreUserLoad)
    } else if phase_match(inv, Phase::PreProjectLoad) is Some {
        Some(Phase::PreProjectLoad)
    } else if phase_match(inv, Phase::PostLoading) is Some {
        Some(Phase::PostLoading)
    } else {
        None
    }
}

/// What trying one phase must come to: `None` exactly when no candidate of
/// the phase matches, and otherwise the constructed mode (or construction
/// failure) of the first matching candidate.
pub open spec fn phase_outcome_ok(
    inv: Invocation,
    p: Phase,
    r: Option<Result<Mode, ModeError>>,
) -> bool {
    match phase_match(inv, p) {
        None => r is None,
        Some(k) => r matches Some(res) && built_for(inv, k, res),
    }
}

/// Tries one phase: walks the phase's candidates in registration order and
/// constructs the first one the invocation selects.
fn try_phase_candidate(inv: &Invocation, k: ModeKind) -> (r: Option<Result<Mode, ModeError>>)
    ensures
        r is Some <==> inv.selects(k),
        inv.selects(k) ==> (r matches Some(res) && built_for(*inv, k, res)),
{
    if inv.has_mode(k) {
        Some(build_mode(inv, k))
    } else {
        None
    }
}

/// Runs the mode-selection of the phase that precedes user-configuration
/// loading, if the invocation selects one of its candidates.
pub fn try_pre_user_load(inv: &Invocation) -> (r: Option<Result<Mode, ModeError>>)
    ensures
        phase_outcome_ok(*inv, Phase::PreUserLoad, r),
{
    proof {
        reveal_with_fuel(first_match_from, 6);
    }
    if let Some(res) = try_phase_candidate(inv, ModeKind::Setup) {
        Some(res)
    } else if let Some(res) = try_phase_candidate(inv, ModeKind::Uninstall) {
        Some(res)
    } else {
        None
    }
}

/// Runs the mode-selection of the phase that precedes project loading, if
/// the invocation selects one of its candidates.
pub fn try_pre_project_load(inv: &Invocation) -> (r: Option<Result<Mode, ModeError>>)
    ensures
        phase_outcome_ok(*inv, Phase::PreProjectLoad, r),
{
    proof {
        reveal_with_fuel(first_match_from, 6);
    }
    if let Some(res) = try_phase_candidate(inv, ModeKind::Init) {
        Some(res)
    } else if let Some(res) = try_phase_candidate(inv, ModeKind::Update) {
        Some(res)
    } else if let Some(res) = try_phase_candidate(inv, ModeKind::RunTlc) {
        Some(res)
    } else if let Some(res) = try_phase_candidate(inv, ModeKind::RunApalache) {
        Some(res)
    } else {
        None
    }
}

/// Runs the mode-selection of the phase that follows all loading, if the
/// invocation selects one of its candidates.
pub fn try_post_loading(inv: &Invocation) -> (r: Option<Result<Mode, ModeError>>)
    ensures
        phase_outcome_ok(*inv, Phase::PostLoading, r),
{
    proof {
        reveal_with_fuel(first_match_from, 6);
    }
    if let Some(res) = try_phase_candidate(inv, ModeKind::RunSpec) {
        Some(res)
    } else if let Some(res) = try_phase_candidate(inv, ModeKind::Test) {
        Some(res)
    } else if let Some(res) = try_phase_candidate(inv, ModeKind::Clean) {
        Some(res)
    } else {
        None
    }
}

/// Dispatches the whole invocation: tries the three phases strictly in
/// order and stops at the first that finds a match.
pub fn dispatch(inv: &Invocation) -> (r: Option<(Phase, Result<Mode, ModeError>)>)
    ensures
        match dispatch_phase(*inv) {
            None => r is None,
            Some(p) => r matches Some((q, res)) && q == p && phase_outcome_ok(
                *inv,
                p,
                Some(res),
            ),
        },
{
    if let Some(res) = try_pre_user_load(inv) {
        Some((Phase::PreUserLoad, res))
    } else if let Some(res) = try_pre_project_load(inv) {
        Some((Phase::PreProjectLoad, res))
    } else if let Some(res) = try_post_loading(inv) {
        Some((Phase::PostLoading, res))
    } else {
        None
    }
}

/// An invocation that selects the single mode `k` resolves in `k`'s own
/// phase, to `k` itself; every earlier phase finds no match, and the phases
/// after `k`'s are never consulted: the dispatch outcome is fixed at `k`'s
/// phase.
pub proof fn lemma_single_match_dispatch(inv: Invocation, k: ModeKind)
    requires
        inv.selects(k),
    ensures
        phase_match(inv, phase_of(k)) == Some(k),
        dispatch_phase(inv) == Some(phase_of(k)),
        forall|p: Phase|
            phase_rank(p) < phase_rank(phase_of(k)) ==> phase_match(inv, p) is None,
{
    assert forall|p: Phase| p != phase_of(k) implies phase_match(inv, p) is None by {
        lemma_no_match_outside_selection(phase_candidates(p), inv, 0, k);
        crate::kind::lemma_registration_consistent(k);
        assert(!phase_candidates(p).contains(k));
    }
    lemma_selected_candidate_found(phase_candidates(phase_of(k)), inv, 0, k);
    crate::kind::lemma_registration_consistent(k);
}

/// An invocation that selects no mode at all is reported as no-match by
/// every phase, and the dispatch falls through.
pub proof fn lemma_no_match_everywhere(inv: Invocation)
    requires
        forall|k: ModeKind| !inv.selects(k),
    ensures
        phase_match(inv, Phase::PreUserLoad) is None,
        phase_match(inv, Phase::PreProjectLoad) is None,
        phase_match(inv, Phase::PostLoading) is None,
        dispatch_phase(inv) is None,
{
    lemma_none_selected_scan(phase_candidates(Phase::PreUserLoad), inv, 0);
    lemma_none_selected_scan(phase_candidates(Phase::PreProjectLoad), inv, 0);
    lemma_none_selected_scan(phase_candidates(Phase::PostLoading), inv, 0);
}

/// Helper: an invocation that selects nothing matches no candidate list.
proof fn lemma_none_selected_scan(cands: Seq<ModeKind>, inv: Invocation, i: int)
    requires
        forall|k: ModeKind| !inv.selects(k),
    ensures
        first_match_from(cands, inv, i) is None,
    decreases cands.len() - i,
{
    if 0 <= i < cands.len() {
        assert(!inv.selects(cands[i]));
        lemma_none_selected_scan(cands, inv, i + 1);
    }
}

/// Helper: a candidate list without the selected kind yields no match.
proof fn lemma_no_match_outside_selection(cands: Seq<ModeKind>, inv: Invocation, i: int, k: ModeKind)
    requires
        inv.selects(k),
        !cands.contains(k),
    ensures
        first_match_from(cands, inv, i) is None,
    decreases cands.len() - i,
{
    if 0 <= i < cands.len() {
        assert(cands[i] != k);
        lemma_no_match_outside_selection(cands, inv, i + 1, k);
    }
}

/// Helper: a candidate list that contains the selected kind finds it.
proof fn lemma_selected_candidate_found(cands: Seq<ModeKind>, inv: Invocation, i: int, k: ModeKind)
    requires
        inv.selects(k),
        0 <= i,
        exists|j: int| i <= j < cands.len() && cands[j] == k,
    ensures
        first_match_from(cands, inv, i) == Some(k),
    decreases cands.len() - i,
{
    let j = choose|j: int| i <= j < cands.len() && cands[j] == k;
    if cands[i] == k {
    } else if inv.selects(cands[i]) {
        assert(cands[i] == k);
    } else {
        assert(i + 1 <= j < cands.len() && cands[j] == k);
        lemma_selected_candidate_found(cands, inv, i + 1, k);
    }
}

/// A candidate the invocation does not select is transparent to selection:
/// the phase resolves exactly as it would with that candidate absent. A mode
/// whose selection test fails thus has no effect on the dispatch.
pub proof fn lemma_unmatched_candidate_transparent(
    cands: Seq<ModeKind>,
    inv: Invocation,
    i: int,
)
    requires
        0 <= i < cands.len(),
        !inv.selects(cands[i]),
    ensures
        first_match_from(cands, inv, 0) == first_match_from(cands.remove(i), inv, 0),
{
    lemma_removed_prefix(cands, inv, i, 0);
}

/// Helper: removal of an unselected candidate at `i` leaves the scan from
/// any position `j` at or before `i` unchanged.
proof fn lemma_removed_prefix(cands: Seq<ModeKind>, inv: Invocation, i: int, j: int)
    requires
        0 <= i < cands.len(),
        !inv.selects(cands[i]),
        0 <= j <= i,
    ensures
        first_match_from(cands, inv, j) == first_match_from(cands.remove(i), inv, j),
    decreases i - j,
{
    let rest = cands.remove(i);
    if j == i {
        lemma_removed_suffix(cands, inv, i, i + 1);
    } else {
        assert(rest[j] == cands[j]);
        if inv.selects(cands[j]) {
        } else {
            lemma_removed_prefix(cands, inv, i, j + 1);
        }
    }
}

/// Helper: past the removed position the scans coincide, one index apart.
proof fn lemma_removed_suffix(cands: Seq<ModeKind>, inv: Invocation, i: int, j: int)
    requires
        0 <= i < cands.len(),
        i < j <= cands.len(),
    ensures
        first_match_from(cands, inv, j) == first_match_from(cands.remove(i), inv, j - 1),
    decreases cands.len() - j,
{
    let rest = cands.remove(i);
    if j < cands.len() {
        assert(rest[j - 1] == cands[j]);
        lemma_removed_suffix(cands, inv, i, j + 1);
    }
}

} // verus!
