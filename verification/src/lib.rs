//! A process supervisor library: it models the restart policy and the
//! supervision state machine of a tool that launches a target executable,
//! waits for it to exit, and relaunches it according to the policy.
//!
//! The decision core is fully verified: classifying a child's exit status,
//! counting attempts and failures, deciding whether to relaunch, and mapping
//! the final state to an outcome and a process exit code. The host program
//! performs the actual spawning and waiting and feeds the observed exit
//! statuses into this state machine.

pub mod cli;
pub mod laws;
pub mod logline;
pub mod options;
pub mod parse;
pub mod status;
pub mod supervisor;
