//! Configuration for one supervision run.

use vstd::prelude::*;

verus! {

/// The restart policy and stream/log configuration for one supervision run.
///
/// `restart_interval` is carried as configuration but is not consulted by the
/// supervision loop: resetting the restart counter after a quiet interval is
/// an open question and deliberately unimplemented.
#[derive(Clone, Debug)]
pub struct MonitorOptions {
    /// Upper bound on restart attempts; `None` means unlimited.
    pub max_restarts: Option<i32>,
    /// Restart the target even after a clean (zero) exit.
    pub restart_always: bool,
    /// Intended counter-reset interval in seconds; currently inert.
    pub restart_interval: Option<i32>,
    /// Redirect the child's standard output to this path (append mode).
    pub stdout: Option<String>,
    /// Redirect the child's standard error to this path (append mode).
    pub stderr: Option<String>,
    /// Write timestamped activity lines to this path in addition to the console.
    pub log: Option<String>,
}

impl MonitorOptions {
    /// The default policy: restart only after failures, without any bound,
    /// with no redirection and no log file.
    pub fn new() -> (r: Self)
        ensures
            r.max_restarts is None,
            !r.restart_always,
            r.restart_interval is None,
            r.stdout is None,
            r.stderr is None,
            r.log is None,
    {
        MonitorOptions {
            max_restarts: Option::None,
            restart_always: false,
            restart_interval: Option::None,
            stdout: Option::None,
            stderr: Option::None,
            log: Option::None,
        }
    }
}

/// What to launch: the target executable and the arguments passed through to
/// it verbatim.
#[derive(Clone, Debug)]
pub struct LaunchOptions {
    /// Path or name of the target executable.
    pub exe: String,
    /// Arguments handed to the target unchanged.
    pub args: Vec<String>,
}

/// A fatal mistake in the invocation, detected before supervision starts.
#[derive(Clone, Copy, Debug, PartialEq, Eq, Structural)]
pub enum UsageError {
    /// The value given for the maximum restart count is not a number.
    InvalidMaxRestarts,
    /// The value given for the restart interval is not a number.
    InvalidRestartInterval,
    /// The target is missing, or more than one target was named.
    InvalidTarget,
}

} // verus!
