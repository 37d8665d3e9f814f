//! Delegating-mode construction and launch: argument splitting, the
//! configuration display, and the order of launch steps.

use matla_modes::apalache::check_matches;
use matla_modes::args::{split_tail_args, ws_char};
use matla_modes::dispatch::try_post_loading;
use matla_modes::invocation::Invocation;
use matla_modes::kind::ModeKind;
use matla_modes::launch::{config_lines, launch_steps, ExternalCommand, LaunchStep};
use matla_modes::mode::Mode;
use matla_modes::outcome::{delegating_result, ChildOutcome, PhaseResult};

fn strings(items: &[&str]) -> Vec<String> {
    items.iter().map(|s| String::from(*s)).collect()
}

#[test]
fn apalache_trailing_arguments_pass_through_unchanged() {
    let inv = Invocation {
        selected: Some(ModeKind::RunApalache),
        raw_tail: strings(&["--checker=foo"]),
        show_config: false,
        project_path: Some(String::from("proj")),
    };
    let run = check_matches(&inv)
        .expect("apalache subcommand is active")
        .expect("project path resolves");
    assert_eq!(run.tail_args, strings(&["--checker=foo"]));
    assert!(!run.show_config);
    assert_eq!(run.target.project_path, "proj");
    assert!(run.target.build_artifacts);
}

#[test]
fn check_matches_is_none_for_other_modes() {
    let inv = Invocation {
        selected: Some(ModeKind::RunTlc),
        raw_tail: Vec::new(),
        show_config: false,
        project_path: Some(String::from("proj")),
    };
    assert!(check_matches(&inv).is_none());
}

#[test]
fn trailing_tokens_split_on_whitespace_and_drop_empties() {
    assert_eq!(split_tail_args(&strings(&["a  b", " ", "c"])), strings(&["a", "b", "c"]));
    assert_eq!(split_tail_args(&strings(&[])), strings(&[]));
    assert_eq!(split_tail_args(&strings(&["", "  "])), strings(&[]));
    assert_eq!(
        split_tail_args(&strings(&[" lead", "trail ", "--x=1"])),
        strings(&["lead", "trail", "--x=1"]),
    );
    assert_eq!(
        split_tail_args(&strings(&["a\tb\nc", "d\u{3000}e"])),
        strings(&["a", "b", "c", "d", "e"]),
    );
}

#[test]
fn whitespace_set_matches_unicode() {
    assert!(ws_char(' '));
    assert!(ws_char('\t'));
    assert!(ws_char('\n'));
    assert!(ws_char('\u{2003}'));
    assert!(ws_char('\u{3000}'));
    assert!(!ws_char('a'));
    assert!(!ws_char('-'));
    assert!(!ws_char('\u{200B}'));
}

#[test]
fn run_with_show_config_prints_then_spawns_then_returns_the_real_code() {
    let inv = Invocation {
        selected: Some(ModeKind::RunSpec),
        raw_tail: Vec::new(),
        show_config: true,
        project_path: Some(String::from("P")),
    };
    let run = match try_post_loading(&inv) {
        Some(Ok(Mode::RunSpec(run))) => run,
        other => panic!("expected the spec-running mode, got {:?}", other),
    };
    assert!(run.show_config);
    assert_eq!(run.target.project_path, "P");
    let steps = launch_steps(&run);
    assert_eq!(
        steps,
        vec![LaunchStep::ShowConfig, LaunchStep::Spawn, LaunchStep::Drain, LaunchStep::Join],
    );
    let result = delegating_result(ModeKind::RunSpec, ChildOutcome::Exited { exit_code: Some(5) });
    assert_eq!(result, PhaseResult::Completed { exit_code: Some(5) });
}

#[test]
fn launch_without_show_config_skips_the_display() {
    let inv = Invocation {
        selected: Some(ModeKind::RunTlc),
        raw_tail: Vec::new(),
        show_config: false,
        project_path: Some(String::from("proj")),
    };
    let run = match matla_modes::dispatch::try_pre_project_load(&inv) {
        Some(Ok(Mode::RunTlc(run))) => run,
        other => panic!("expected the tlc mode, got {:?}", other),
    };
    assert_eq!(
        launch_steps(&run),
        vec![LaunchStep::Spawn, LaunchStep::Drain, LaunchStep::Join],
    );
}

#[test]
fn config_display_lists_program_arguments_and_directory() {
    let cmd = ExternalCommand {
        program: String::from("java"),
        args: strings(&["-jar", "apalache.jar"]),
        cwd: Some(String::from("/proj/target")),
    };
    let lines = config_lines(&cmd);
    assert_eq!(
        lines,
        strings(&["> java", "    -jar", "    apalache.jar", "| in `/proj/target`"]),
    );
}

#[test]
fn config_display_without_directory() {
    let cmd = ExternalCommand {
        program: String::from("tlc"),
        args: strings(&[]),
        cwd: None,
    };
    assert_eq!(config_lines(&cmd), strings(&["> tlc"]));
}

#[test]
fn append_args_keeps_resolved_arguments_first() {
    let mut cmd = ExternalCommand {
        program: String::from("apalache-mc"),
        args: strings(&["check"]),
        cwd: None,
    };
    cmd.append_args(&strings(&["--checker=foo", "--length=5"]));
    assert_eq!(cmd.args, strings(&["check", "--checker=foo", "--length=5"]));
    assert_eq!(cmd.program, "apalache-mc");
}
