//! How a supervised child process terminated.

use vstd::prelude::*;

verus! {

/// The way a child process terminated: either with a numeric exit code, or
/// killed by a signal, which yields no code.
///
/// A signal-terminated child is always treated as a failure; only
/// `Exited(0)` counts as a clean run.
#[derive(Clone, Copy, Debug, PartialEq, Eq, Structural)]
pub enum ExitStatus {
    /// The child exited on its own with this exit code.
    Exited(i32),
    /// The child was terminated by a signal and produced no exit code.
    Signaled,
}

/// A termination is clean exactly when the child exited with code zero.
pub open spec fn is_clean(status: ExitStatus) -> bool {
    status == ExitStatus::Exited(0i32)
}

impl ExitStatus {
    /// Whether this termination is a clean (zero) exit.
    pub fn is_success(&self) -> (r: bool)
        ensures
            r == is_clean(*self),
    {
        match self {
            ExitStatus::Exited(code) => *code == 0,
            ExitStatus::Signaled => false,
        }
    }

    /// The numeric exit code, if the child produced one.
    pub fn code(&self) -> (r: Option<i32>)
        ensures
            r == (match *self {
                ExitStatus::Exited(c) => Some(c),
                ExitStatus::Signaled => None,
            }),
    {
        match self {
            ExitStatus::Exited(code) => Some(*code),
            ExitStatus::Signaled => None,
        }
    }
}

} // verus!
