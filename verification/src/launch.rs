//! How a run is carried out, and what the caller is told when it is over.
//!
//! One worker needs no pool: it takes the place of the caller, with the
//! caller's own streams, and its exit code is the caller's. Two or more run
//! under a pool, with their output captured and merged.

use vstd::prelude::*;
use vstd::string::*;
use crate::pool::{ExitOutcome, Finish, PoolError};
use crate::process::{StreamPlan, Wiring};
use crate::text::{decimal, push_decimal};

verus! {

/// The way in which the workers are run.
#[derive(Clone, Copy, Debug, PartialEq, Eq, Structural)]
pub enum Mode {
    /// The one worker stands in for the caller: nothing is captured and
    /// nothing is put in front of its lines.
    Direct,
    /// The workers run under a pool that merges their output and ends them
    /// when the first has ended.
    Supervised,
}

/// The exit code of the caller where the run itself failed.
pub const FAILURE: i32 = 1;

/// The way in which `jobs` workers are run.
pub open spec fn spec_mode_for(jobs: u16) -> Result<Mode, PoolError> {
    if jobs == 0 {
        Err(PoolError::NoWorkers)
    } else if jobs == 1 {
        Ok(Mode::Direct)
    } else {
        Ok(Mode::Supervised)
    }
}

/// The way in which `jobs` workers are run: one directly, more under a
/// pool. No workers at all are refused.
#[verifier::when_used_as_spec(spec_mode_for)]
pub fn mode_for(jobs: u16) -> (r: Result<Mode, PoolError>)
    ensures
        r == spec_mode_for(jobs),
{
    if jobs == 0 {
        Err(PoolError::NoWorkers)
    } else if jobs == 1 {
        Ok(Mode::Direct)
    } else {
        Ok(Mode::Supervised)
    }
}

/// How the streams of a worker are connected.
pub open spec fn spec_stream_plan(mode: Mode) -> StreamPlan {
    match mode {
        Mode::Direct => StreamPlan {
            stdin: Wiring::Inherit,
            stdout: Wiring::Inherit,
            stderr: Wiring::Inherit,
        },
        Mode::Supervised => StreamPlan {
            stdin: Wiring::Inherit,
            stdout: Wiring::Capture,
            stderr: Wiring::Capture,
        },
    }
}

/// How the streams of a worker are connected. Every worker reads what the
/// caller reads. A worker that runs directly writes where the caller
/// writes; under a pool its two output streams are captured.
#[verifier::when_used_as_spec(spec_stream_plan)]
pub fn stream_plan(mode: Mode) -> (r: StreamPlan)
    ensures
        r == spec_stream_plan(mode),
{
    match mode {
        Mode::Direct => StreamPlan {
            stdin: Wiring::Inherit,
            stdout: Wiring::Inherit,
            stderr: Wiring::Inherit,
        },
        Mode::Supervised => StreamPlan {
            stdin: Wiring::Inherit,
            stdout: Wiring::Capture,
            stderr: Wiring::Capture,
        },
    }
}

/// The exit code of the caller after a run.
pub open spec fn spec_exit_code(mode: Mode, outcome: ExitOutcome) -> i32 {
    match (mode, outcome.finish) {
        (Mode::Direct, Finish::Exited(Some(code))) => code,
        (Mode::Direct, Finish::Exited(None)) => FAILURE,
        (Mode::Supervised, Finish::Exited(_)) => 0,
        (_, Finish::SpawnFailed) => FAILURE,
        (_, Finish::WaitFailed) => FAILURE,
    }
}

/// The exit code of the caller after a run. A worker that ran directly
/// hands its own code on; where it ended without one, that is a failure. A
/// pool that saw a worker end has done its work, whatever the worker's code
/// was. A worker that could not be started or waited for is a failure in
/// either mode.
#[verifier::when_used_as_spec(spec_exit_code)]
pub fn exit_code(mode: Mode, outcome: ExitOutcome) -> (r: i32)
    ensures
        r == spec_exit_code(mode, outcome),
{
    match outcome.finish {
        Finish::Exited(code) => match mode {
            Mode::Direct => match code {
                Some(code) => code,
                None => FAILURE,
            },
            Mode::Supervised => 0,
        },
        Finish::SpawnFailed => FAILURE,
        Finish::WaitFailed => FAILURE,
    }
}

/// The line that tells which worker was first.
pub open spec fn finished_line(id: nat) -> Seq<char> {
    "Worker "@ + decimal(id) + " finished fuzzing"@
}

/// The line that the caller prints when the run is over: under a pool, and
/// where the first worker ended as a process does, the line that names it.
/// A run that failed has no such line, and neither has a direct run.
pub fn status_line(mode: Mode, outcome: ExitOutcome) -> (r: Option<String>)
    ensures
        r is Some <==> mode == Mode::Supervised && outcome.finish is Exited,
        r matches Some(line) ==> line@ == finished_line(outcome.id as nat),
{
    match (mode, outcome.finish) {
        (Mode::Supervised, Finish::Exited(_)) => {
            let mut line = String::from_str("Worker ");
            push_decimal(&mut line, outcome.id);
            line.append(" finished fuzzing");
            Some(line)
        },
        _ => None,
    }
}

/// What is said of a run that failed: which worker it was, and whether it
/// could not be started or could not be waited for.
pub open spec fn failure_text(outcome: ExitOutcome) -> Option<Seq<char>> {
    match outcome.finish {
        Finish::Exited(_) => None,
        Finish::SpawnFailed => Some(
            "worker "@ + decimal(outcome.id as nat) + " could not be started"@,
        ),
        Finish::WaitFailed => Some(
            "worker "@ + decimal(outcome.id as nat) + " could not be waited for"@,
        ),
    }
}

/// What is said of a run that failed, with the number of the worker that
/// failed it. A run whose first worker ended as a process does has not
/// failed.
pub fn failure_line(outcome: ExitOutcome) -> (r: Option<String>)
    ensures
        r is Some <==> failure_text(outcome) is Some,
        r matches Some(line) ==> failure_text(outcome) == Some(line@),
{
    match outcome.finish {
        Finish::Exited(_) => None,
        Finish::SpawnFailed => {
            let mut line = String::from_str("worker ");
            push_decimal(&mut line, outcome.id);
            line.append(" could not be started");
            Some(line)
        },
        Finish::WaitFailed => {
            let mut line = String::from_str("worker ");
            push_decimal(&mut line, outcome.id);
            line.append(" could not be waited for");
            Some(line)
        },
    }
}

/// One worker is as good as the program itself: it runs directly, its
/// output streams are the caller's own, so that no line of it is ever read
/// or marked, and the caller exits with the code that the worker exited
/// with.
pub proof fn law_single_worker_is_transparent(code: i32)
    ensures
        mode_for(1) == Ok::<Mode, PoolError>(Mode::Direct),
        stream_plan(Mode::Direct).stdout == Wiring::Inherit,
        stream_plan(Mode::Direct).stderr == Wiring::Inherit,
        exit_code(Mode::Direct, ExitOutcome { id: 0, finish: Finish::Exited(Some(code)) }) == code,
{
}

} // verus!
