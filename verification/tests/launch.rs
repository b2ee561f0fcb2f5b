use cargo_fuzz::launch::{
    exit_code, failure_line, mode_for, status_line, stream_plan, Mode, FAILURE,
};
use cargo_fuzz::pool::{ExitOutcome, Finish, PoolError};
use cargo_fuzz::process::{StreamPlan, Wiring};

#[test]
fn one_worker_runs_directly_and_more_under_a_pool() {
    assert_eq!(mode_for(0), Err(PoolError::NoWorkers));
    assert_eq!(mode_for(1), Ok(Mode::Direct));
    assert_eq!(mode_for(2), Ok(Mode::Supervised));
    assert_eq!(mode_for(u16::MAX), Ok(Mode::Supervised));
}

#[test]
fn a_direct_worker_keeps_the_streams_of_the_caller() {
    let plan = stream_plan(Mode::Direct);
    assert_eq!(
        plan,
        StreamPlan { stdin: Wiring::Inherit, stdout: Wiring::Inherit, stderr: Wiring::Inherit }
    );
}

#[test]
fn a_pool_captures_output_and_shares_input() {
    let plan = stream_plan(Mode::Supervised);
    assert_eq!(
        plan,
        StreamPlan { stdin: Wiring::Inherit, stdout: Wiring::Capture, stderr: Wiring::Capture }
    );
}

#[test]
fn single_worker_exit_code_passes_through() {
    let outcome = ExitOutcome { id: 0, finish: Finish::Exited(Some(77)) };
    assert_eq!(mode_for(1), Ok(Mode::Direct));
    assert_eq!(exit_code(Mode::Direct, outcome), 77);
    assert_eq!(status_line(Mode::Direct, outcome), None);
    assert_eq!(stream_plan(Mode::Direct).stdout, Wiring::Inherit);
    assert_eq!(stream_plan(Mode::Direct).stderr, Wiring::Inherit);
}

#[test]
fn every_code_of_a_direct_worker_passes_through() {
    for code in [0, 1, 2, 77, 101, 255, -1, i32::MAX, i32::MIN] {
        let outcome = ExitOutcome { id: 0, finish: Finish::Exited(Some(code)) };
        assert_eq!(exit_code(Mode::Direct, outcome), code);
    }
}

#[test]
fn a_direct_worker_without_a_code_is_a_failure() {
    let outcome = ExitOutcome { id: 0, finish: Finish::Exited(None) };
    assert_eq!(exit_code(Mode::Direct, outcome), FAILURE);
    assert_eq!(FAILURE, 1);
}

#[test]
fn a_pool_that_saw_an_exit_succeeds_whatever_the_code() {
    for code in [Some(0), Some(1), Some(77), None] {
        let outcome = ExitOutcome { id: 3, finish: Finish::Exited(code) };
        assert_eq!(exit_code(Mode::Supervised, outcome), 0);
    }
}

#[test]
fn failures_to_start_or_wait_fail_the_run() {
    for mode in [Mode::Direct, Mode::Supervised] {
        for finish in [Finish::SpawnFailed, Finish::WaitFailed] {
            let outcome = ExitOutcome { id: 1, finish };
            assert_eq!(exit_code(mode, outcome), 1);
            assert_eq!(status_line(mode, outcome), None);
        }
    }
}

#[test]
fn the_status_line_names_the_first_worker() {
    let outcome = ExitOutcome { id: 0, finish: Finish::Exited(Some(0)) };
    assert_eq!(
        status_line(Mode::Supervised, outcome),
        Some(String::from("Worker 0 finished fuzzing"))
    );
    let outcome = ExitOutcome { id: 12, finish: Finish::Exited(None) };
    assert_eq!(
        status_line(Mode::Supervised, outcome),
        Some(String::from("Worker 12 finished fuzzing"))
    );
}

#[test]
fn a_failure_names_its_worker() {
    let outcome = ExitOutcome { id: 1, finish: Finish::SpawnFailed };
    assert_eq!(failure_line(outcome), Some(String::from("worker 1 could not be started")));
    let outcome = ExitOutcome { id: 12, finish: Finish::WaitFailed };
    assert_eq!(failure_line(outcome), Some(String::from("worker 12 could not be waited for")));
    let outcome = ExitOutcome { id: 0, finish: Finish::Exited(Some(1)) };
    assert_eq!(failure_line(outcome), None);
    let outcome = ExitOutcome { id: 0, finish: Finish::Exited(None) };
    assert_eq!(failure_line(outcome), None);
}
