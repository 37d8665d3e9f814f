//! Dispatcher behaviour: phase ordering, first match wins, fall-through.

use matla_modes::dispatch::{dispatch, try_post_loading, try_pre_project_load, try_pre_user_load};
use matla_modes::invocation::Invocation;
use matla_modes::kind::{is_delegating, ModeKind, Phase};
use matla_modes::mode::Mode;
use matla_modes::outcome::ModeError;

fn plain(selected: Option<ModeKind>) -> Invocation {
    Invocation {
        selected,
        raw_tail: Vec::new(),
        show_config: false,
        project_path: Some(String::from("proj")),
    }
}

#[test]
fn setup_resolves_in_first_phase() {
    let inv = plain(Some(ModeKind::Setup));
    let r = try_pre_user_load(&inv);
    assert!(matches!(r, Some(Ok(Mode::Setup))));
    let d = dispatch(&inv).expect("setup must dispatch");
    assert_eq!(d.0, Phase::PreUserLoad);
    assert!(matches!(d.1, Ok(Mode::Setup)));
}

#[test]
fn tlc_resolves_in_second_phase_only() {
    let inv = plain(Some(ModeKind::RunTlc));
    assert!(try_pre_user_load(&inv).is_none());
    let r = try_pre_project_load(&inv);
    assert!(matches!(r, Some(Ok(Mode::RunTlc(_)))));
    assert!(try_post_loading(&inv).is_none());
    let d = dispatch(&inv).expect("tlc must dispatch");
    assert_eq!(d.0, Phase::PreProjectLoad);
}

#[test]
fn clean_resolves_in_last_phase() {
    let inv = plain(Some(ModeKind::Clean));
    assert!(try_pre_user_load(&inv).is_none());
    assert!(try_pre_project_load(&inv).is_none());
    assert!(matches!(try_post_loading(&inv), Some(Ok(Mode::Clean))));
    let d = dispatch(&inv).expect("clean must dispatch");
    assert_eq!(d.0, Phase::PostLoading);
}

#[test]
fn no_selection_falls_through_every_phase() {
    let inv = plain(None);
    assert!(try_pre_user_load(&inv).is_none());
    assert!(try_pre_project_load(&inv).is_none());
    assert!(try_post_loading(&inv).is_none());
    assert!(dispatch(&inv).is_none());
}

#[test]
fn dispatch_is_repeatable() {
    let inv = plain(Some(ModeKind::Update));
    let first = dispatch(&inv).expect("update must dispatch");
    let second = dispatch(&inv).expect("update must dispatch again");
    assert_eq!(first.0, second.0);
    assert!(matches!(first.1, Ok(Mode::Update)));
    assert!(matches!(second.1, Ok(Mode::Update)));
}

#[test]
fn delegating_mode_without_project_fails_initialization() {
    let inv = Invocation {
        selected: Some(ModeKind::RunApalache),
        raw_tail: Vec::new(),
        show_config: false,
        project_path: None,
    };
    let r = try_pre_project_load(&inv).expect("apalache must match its phase");
    match r {
        Err(ModeError::InitializationFailure { mode }) => assert_eq!(mode, ModeKind::RunApalache),
        other => panic!("expected an initialization failure, got {:?}", other),
    }
}

#[test]
fn delegation_split_matches_spec() {
    assert!(is_delegating(ModeKind::RunTlc));
    assert!(is_delegating(ModeKind::RunApalache));
    assert!(is_delegating(ModeKind::RunSpec));
    assert!(!is_delegating(ModeKind::Setup));
    assert!(!is_delegating(ModeKind::Uninstall));
    assert!(!is_delegating(ModeKind::Init));
    assert!(!is_delegating(ModeKind::Update));
    assert!(!is_delegating(ModeKind::Test));
    assert!(!is_delegating(ModeKind::Clean));
}

#[test]
fn has_mode_tests_only_the_selected_kind() {
    let inv = plain(Some(ModeKind::Test));
    assert!(inv.has_mode(ModeKind::Test));
    assert!(!inv.has_mode(ModeKind::Clean));
    assert!(!plain(None).has_mode(ModeKind::Test));
}
