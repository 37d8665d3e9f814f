//! Merge-point behaviour: arrival order, per-stream order, decode failures,
//! exit-status mapping.

use matla_modes::launch::consume_events;
use matla_modes::mux::{LoopAction, MuxEvent, OutputRecord, StreamMux};
use matla_modes::outcome::{
    delegating_result, driver_exit_code, join_outcome, local_result, ChildOutcome, ModeError,
    PhaseResult,
};
use matla_modes::kind::ModeKind;
use matla_modes::Origin;

fn line(text: &str, origin: Origin) -> MuxEvent {
    MuxEvent::Line(OutputRecord { text: String::from(text), origin })
}

#[test]
fn records_keep_arrival_order_across_streams() {
    let events = vec![
        line("a", Origin::Primary),
        line("b", Origin::Secondary),
        line("c", Origin::Primary),
        MuxEvent::Closed,
    ];
    let mux = consume_events(&events);
    let texts: Vec<&str> = mux.records.iter().map(|r| r.text.as_str()).collect();
    assert_eq!(texts, vec!["a", "b", "c"]);
    assert_eq!(mux.records[0].origin, Origin::Primary);
    assert_eq!(mux.records[1].origin, Origin::Secondary);
    assert_eq!(mux.records[2].origin, Origin::Primary);
    assert!(mux.closed);
}

#[test]
fn each_stream_order_survives_the_merge() {
    let events = vec![
        line("p1", Origin::Primary),
        line("s1", Origin::Secondary),
        line("p2", Origin::Primary),
        line("s2", Origin::Secondary),
        line("p3", Origin::Primary),
    ];
    let mux = consume_events(&events);
    let primary: Vec<&str> = mux
        .records
        .iter()
        .filter(|r| r.origin == Origin::Primary)
        .map(|r| r.text.as_str())
        .collect();
    let secondary: Vec<&str> = mux
        .records
        .iter()
        .filter(|r| r.origin == Origin::Secondary)
        .map(|r| r.text.as_str())
        .collect();
    assert_eq!(primary, vec!["p1", "p2", "p3"]);
    assert_eq!(secondary, vec!["s1", "s2"]);
}

#[test]
fn decode_failure_does_not_lose_later_lines() {
    let events = vec![
        line("before", Origin::Primary),
        MuxEvent::DecodeFailure(Origin::Secondary),
        line("after-secondary", Origin::Secondary),
        line("after-primary", Origin::Primary),
        MuxEvent::Closed,
    ];
    let mux = consume_events(&events);
    let texts: Vec<&str> = mux.records.iter().map(|r| r.text.as_str()).collect();
    assert_eq!(texts, vec!["before", "after-secondary", "after-primary"]);
    assert_eq!(mux.failures, vec![Origin::Secondary]);
    assert!(mux.closed);
}

#[test]
fn accept_marks_secondary_lines_and_reports_failures() {
    let mut mux = StreamMux::new();
    match mux.accept(line("oops", Origin::Secondary)) {
        LoopAction::Print { line, mark_secondary } => {
            assert_eq!(line, "oops");
            assert!(mark_secondary);
        },
        other => panic!("expected a print action, got {:?}", other),
    }
    match mux.accept(line("fine", Origin::Primary)) {
        LoopAction::Print { line, mark_secondary } => {
            assert_eq!(line, "fine");
            assert!(!mark_secondary);
        },
        other => panic!("expected a print action, got {:?}", other),
    }
    match mux.accept(MuxEvent::DecodeFailure(Origin::Primary)) {
        LoopAction::Report { origin } => assert_eq!(origin, Origin::Primary),
        other => panic!("expected a report action, got {:?}", other),
    }
    assert!(matches!(mux.accept(MuxEvent::Closed), LoopAction::Stop));
    assert_eq!(mux.records.len(), 2);
}

#[test]
fn join_returns_the_real_exit_code() {
    assert_eq!(join_outcome(true, Some(3)), Ok(3));
    assert_eq!(join_outcome(true, Some(0)), Ok(0));
}

#[test]
fn signal_killed_child_reports_exit_code_unavailable() {
    assert_eq!(join_outcome(true, None), Err(ModeError::ExitCodeUnavailable));
    let r = delegating_result(ModeKind::RunTlc, ChildOutcome::Exited { exit_code: None });
    assert_eq!(r, PhaseResult::Failed { error: ModeError::ExitCodeUnavailable });
}

#[test]
fn join_failure_is_distinct_from_nonzero_exit() {
    assert_eq!(join_outcome(false, Some(2)), Err(ModeError::JoinFailure));
    let r = delegating_result(ModeKind::RunApalache, ChildOutcome::JoinFailed);
    assert_eq!(r, PhaseResult::Failed { error: ModeError::JoinFailure });
}

#[test]
fn spawn_failure_is_surfaced() {
    let r = delegating_result(ModeKind::RunSpec, ChildOutcome::SpawnFailed);
    assert_eq!(r, PhaseResult::Failed { error: ModeError::SpawnFailure });
}

#[test]
fn delegating_completion_carries_the_tool_code() {
    let r = delegating_result(ModeKind::RunTlc, ChildOutcome::Exited { exit_code: Some(12) });
    assert_eq!(r, PhaseResult::Completed { exit_code: Some(12) });
}

#[test]
fn local_modes_complete_without_a_code() {
    assert_eq!(local_result(ModeKind::Clean, true), PhaseResult::Completed { exit_code: None });
    assert_eq!(
        local_result(ModeKind::Init, false),
        PhaseResult::Failed { error: ModeError::RunFailure { mode: ModeKind::Init } },
    );
}

#[test]
fn driver_exit_codes() {
    assert_eq!(driver_exit_code(&PhaseResult::Completed { exit_code: Some(7) }), 7);
    assert_eq!(driver_exit_code(&PhaseResult::Completed { exit_code: None }), 0);
    assert_eq!(
        driver_exit_code(&PhaseResult::Failed { error: ModeError::SpawnFailure }),
        1,
    );
}
