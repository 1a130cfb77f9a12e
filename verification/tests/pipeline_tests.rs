use ffmpeg_setup::cpu::detected_full_plan;
use ffmpeg_setup::cpu::detected_toolkit_build_commands;
use ffmpeg_setup::pipeline::advance;
use ffmpeg_setup::pipeline::exit_code;
use ffmpeg_setup::pipeline::next_stage;
use ffmpeg_setup::pipeline::simulate;
use ffmpeg_setup::pipeline::startup_state;
use ffmpeg_setup::pipeline::Stage;
use ffmpeg_setup::pipeline::State;
use ffmpeg_setup::textscan::contains_subslice;
use ffmpeg_setup::textscan::filter_listed;
use ffmpeg_setup::textscan::verification_ok;

#[test]
fn all_stages_succeed_in_order() {
    let outcomes = vec![true, true, true, true, true];
    let (trace, end) = simulate(&outcomes);
    assert_eq!(
        trace,
        vec![
            Stage::InstallDeps,
            Stage::BuildLibrary,
            Stage::CloneToolkit,
            Stage::BuildToolkit,
            Stage::Verify,
        ]
    );
    assert_eq!(end, State::Verified);
    assert_eq!(exit_code(end), 0);
}

#[test]
fn first_stage_failure_runs_nothing_more() {
    let outcomes = vec![false, true, true, true, true];
    let (trace, end) = simulate(&outcomes);
    assert_eq!(trace, vec![Stage::InstallDeps]);
    assert_eq!(end, State::Aborted);
    assert_eq!(exit_code(end), 1);
}

#[test]
fn mid_pipeline_failure_halts() {
    let outcomes = vec![true, true, false, true, true];
    let (trace, end) = simulate(&outcomes);
    assert_eq!(
        trace,
        vec![Stage::InstallDeps, Stage::BuildLibrary, Stage::CloneToolkit]
    );
    assert_eq!(end, State::Aborted);
    assert_eq!(exit_code(end), 1);
}

#[test]
fn verification_failure_exits_nonzero() {
    let outcomes = vec![true, true, true, true, false];
    let (trace, end) = simulate(&outcomes);
    assert_eq!(trace.len(), 5);
    assert_eq!(end, State::Aborted);
    assert_eq!(exit_code(end), 1);
}

#[test]
fn no_stage_pending_after_terminal_states() {
    assert_eq!(next_stage(State::Verified), None);
    assert_eq!(next_stage(State::Aborted), None);
    assert_eq!(next_stage(State::Start), Some(Stage::InstallDeps));
    assert_eq!(next_stage(State::ToolkitBuilt), Some(Stage::Verify));
}

#[test]
fn advance_moves_through_the_table() {
    assert_eq!(advance(State::Start, true), State::DepsInstalled);
    assert_eq!(advance(State::DepsInstalled, true), State::LibraryBuilt);
    assert_eq!(advance(State::LibraryBuilt, true), State::ToolkitCloned);
    assert_eq!(advance(State::ToolkitCloned, true), State::ToolkitBuilt);
    assert_eq!(advance(State::ToolkitBuilt, true), State::Verified);
    assert_eq!(advance(State::LibraryBuilt, false), State::Aborted);
    assert_eq!(advance(State::Aborted, true), State::Aborted);
}

#[test]
fn non_unix_host_is_fatal_before_any_stage() {
    let state = startup_state(false);
    assert_eq!(state, State::Aborted);
    assert_eq!(next_stage(state), None);
    assert_eq!(exit_code(state), 1);
    assert_eq!(startup_state(true), State::Start);
}

#[test]
fn filter_listing_with_identifier_passes() {
    let output = b"Filters:\n anlmdn  A->A  Reduce broadband noise\n arnndn  A->A  Reduce noise from speech using Recurrent Neural Networks\n";
    assert!(filter_listed(output));
    assert!(verification_ok(true, output));
    let end = advance(State::ToolkitBuilt, verification_ok(true, output));
    assert_eq!(exit_code(end), 0);
}

#[test]
fn filter_listing_without_identifier_fails() {
    let output = b"Filters:\n anlmdn  A->A  Reduce broadband noise\n atempo  A->A  Adjust audio tempo\n";
    assert!(!filter_listed(output));
    assert!(!verification_ok(true, output));
    let end = advance(State::ToolkitBuilt, verification_ok(true, output));
    assert_eq!(exit_code(end), 1);
}

#[test]
fn failed_version_check_fails_verification() {
    let output = b"arnndn";
    assert!(!verification_ok(false, output));
}

#[test]
fn containment_edge_cases() {
    assert!(contains_subslice(b"", b""));
    assert!(contains_subslice(b"abc", b""));
    assert!(!contains_subslice(b"", b"a"));
    assert!(contains_subslice(b"arnndn", b"arnndn"));
    assert!(contains_subslice(b"xxarnndn", b"arnndn"));
    assert!(contains_subslice(b"arnndnxx", b"arnndn"));
    assert!(!contains_subslice(b"arnnd", b"arnndn"));
    assert!(!contains_subslice(b"arnnd narnnd", b"arnndn"));
    assert!(contains_subslice(b"arnnarnndn", b"arnndn"));
}

#[test]
fn detected_parallelism_is_positive_and_used() {
    let (cpus, cs) = detected_toolkit_build_commands();
    assert!(cpus >= 1);
    assert_eq!(cs.len(), 3);
    assert_eq!(cs[1].args[0], format!("-j{}", cpus));
    assert_eq!(cpus, num_cpus::get());
}

#[test]
fn detected_full_plan_is_complete() {
    let (cpus, cs) = detected_full_plan(false, false);
    assert!(cpus >= 1);
    assert_eq!(cs.len(), 13);
    let (_, short) = detected_full_plan(true, true);
    assert_eq!(short.len(), 6);
}
