//! What it takes to start one worker.

use vstd::prelude::*;

verus! {

/// The description of one process: the program, its arguments in order, the
/// variables that are set on top of the environment that it inherits, and
/// the directory that it is started in. Every worker of a pool is started
/// from the same description.
#[derive(Clone, Debug, PartialEq, Eq)]
pub struct ProcessSpec {
    pub program: String,
    pub args: Vec<String>,
    /// Names and values, in the order in which they are set: where a name
    /// stands twice, the later value holds.
    pub envs: Vec<(String, String)>,
    /// `None` for the directory of the caller.
    pub working_dir: Option<String>,
}

/// How one standard stream of a process is connected.
#[derive(Clone, Copy, Debug, PartialEq, Eq, Structural)]
pub enum Wiring {
    /// The process shares the stream of the caller.
    Inherit,
    /// The stream is a pipe that the caller reads.
    Capture,
}

/// How the three standard streams of a process are connected.
#[derive(Clone, Copy, Debug, PartialEq, Eq, Structural)]
pub struct StreamPlan {
    pub stdin: Wiring,
    pub stdout: Wiring,
    pub stderr: Wiring,
}

} // verus!
