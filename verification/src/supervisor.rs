//! The supervision state machine.
//!
//! One supervision run is a sequence of iterations. Each iteration spawns the
//! target, waits for it to terminate, classifies the termination, and decides
//! whether to relaunch. The host program performs the spawning and waiting;
//! it feeds every observed [`ExitStatus`](crate::status::ExitStatus) into a
//! [`SupervisionState`] and obeys the returned [`StepDecision`].
//!
//! The whole run is modelled by the spec function [`run_model`], which
//! consumes a sequence of exit statuses (what the target did on each launch)
//! and yields the final counters. [`supervise_script`] executes that model
//! directly and is proved to agree with it.

use vstd::prelude::*;

use crate::options::MonitorOptions;
use crate::status::ExitStatus;
use crate::status::is_clean;

verus! {

/// Spec-level mirror of [`SupervisionState`] with unbounded integers.
pub ghost struct StateModel {
    /// Spawn attempts so far.
    pub start_count: int,
    /// Attempts that ended in a non-zero exit or a signal.
    pub fail_count: int,
    /// Exit code of the most recent termination; `None` after a signal.
    pub last_exit: Option<int>,
}

impl StateModel {
    /// The state before any spawn attempt.
    pub open spec fn init() -> StateModel {
        StateModel { start_count: 0, fail_count: 0, last_exit: None }
    }

    /// The counters never go negative and failures never outnumber starts.
    pub open spec fn wf(self) -> bool {
        0 <= self.fail_count <= self.start_count
    }
}

/// State change at a spawn attempt: the attempt counter increments exactly
/// once per spawn, before the wait completes.
pub open spec fn spawn_update(st: StateModel) -> StateModel {
    StateModel { start_count: st.start_count + 1, ..st }
}

/// State change once the spawned child has terminated: a non-clean
/// termination counts as a failure, and the exit code (or its absence, for a
/// signal) is recorded, overwriting the previous record.
pub open spec fn exit_update(st: StateModel, status: ExitStatus) -> StateModel {
    StateModel {
        start_count: st.start_count,
        fail_count: if is_clean(status) { st.fail_count } else { st.fail_count + 1 },
        last_exit: match status {
            ExitStatus::Exited(c) => Some(c as int),
            ExitStatus::Signaled => None,
        },
    }
}

/// One whole iteration: a spawn followed by the child's termination.
pub open spec fn step_model(st: StateModel, status: ExitStatus) -> StateModel {
    exit_update(spawn_update(st), status)
}

/// Whether the policy permits one more relaunch when `start_count` attempts
/// have already been made. `None` means unlimited; a bound of `x` permits a
/// relaunch only while `x > start_count - 1`, so a non-positive bound permits
/// none.
pub open spec fn restart_permitted(max_restarts: Option<i32>, start_count: int) -> bool {
    match max_restarts {
        None => true,
        Some(x) => x > start_count - 1,
    }
}

/// What the loop does after one child termination.
#[derive(Clone, Copy, Debug, PartialEq, Eq, Structural)]
pub enum StepDecision {
    /// Launch the target again.
    Restart,
    /// Stop: the child exited cleanly and the policy does not restart after a
    /// clean exit.
    StopCompleted,
    /// Stop: the restart bound has been reached.
    StopLimitReached,
}

/// The decision taken after a termination, given the state with the spawn and
/// the termination already recorded. A clean exit under a policy that does
/// not always restart stops the run before the restart bound is even
/// consulted.
pub open spec fn decision_model(
    policy: MonitorOptions,
    st_after: StateModel,
    status: ExitStatus,
) -> StepDecision {
    if is_clean(status) && !policy.restart_always {
        StepDecision::StopCompleted
    } else if !restart_permitted(policy.max_restarts, st_after.start_count) {
        StepDecision::StopLimitReached
    } else {
        StepDecision::Restart
    }
}

/// An entry for the activity log, emitted at the transition points of one
/// iteration. The host program renders these as console and log-file lines.
#[derive(Clone, Copy, Debug, PartialEq, Eq, Structural)]
pub enum LogEvent {
    /// The child exited with this non-zero code.
    ExitedWithCode(i32),
    /// The child was terminated by a signal.
    ExitedBySignal,
    /// The child exited cleanly.
    ExitedNormally,
    /// Supervision is complete after a clean exit.
    MonitoringComplete,
    /// The restart bound was reached, so supervision stops.
    MaxRestartsExceeded,
}

/// The log entries for one termination, in order: first how the child ended,
/// then, if the run stops, why it stops.
pub open spec fn events_model(status: ExitStatus, decision: StepDecision) -> Seq<LogEvent> {
    let first = match status {
        ExitStatus::Exited(c) => if c == 0 {
            LogEvent::ExitedNormally
        } else {
            LogEvent::ExitedWithCode(c)
        },
        ExitStatus::Signaled => LogEvent::ExitedBySignal,
    };
    match decision {
        StepDecision::Restart => seq![first],
        StepDecision::StopCompleted => seq![first, LogEvent::MonitoringComplete],
        StepDecision::StopLimitReached => seq![first, LogEvent::MaxRestartsExceeded],
    }
}

/// A whole supervision run over `script`, the sequence of exit statuses the
/// target would produce on successive launches, starting from state `st`.
/// Returns the final state and whether the run stopped on its own; `false`
/// means the script ran out while the loop would have relaunched again.
pub open spec fn run_model(
    policy: MonitorOptions,
    script: Seq<ExitStatus>,
    st: StateModel,
) -> (StateModel, bool)
    decreases script.len(),
{
    if script.len() == 0 {
        (st, false)
    } else {
        let st1 = step_model(st, script[0]);
        if decision_model(policy, st1, script[0]) == StepDecision::Restart {
            run_model(policy, script.subrange(1, script.len() as int), st1)
        } else {
            (st1, true)
        }
    }
}

/// Spec-level mirror of [`RelaunchOutcome`].
pub ghost enum OutcomeModel {
    /// Never restarted; the one run exited cleanly.
    Clean,
    /// Restarted after this many failures; the final run exited cleanly.
    CleanAfterRestarts(int),
    /// Stopped with this many failed attempts on record.
    LimitReached(int),
}

/// The terminal outcome derived from the final state. Under `restart_always`
/// the run has no notion of a clean terminal outcome, so the limit-reached
/// variant always reports the failure count, even when it is zero; this is a
/// deliberate design choice of the supervisor, not an accident.
pub open spec fn outcome_model(restart_always: bool, st: StateModel) -> OutcomeModel {
    if restart_always {
        OutcomeModel::LimitReached(st.fail_count)
    } else if st.fail_count == 0 {
        OutcomeModel::Clean
    } else if st.last_exit == Some(0int) {
        OutcomeModel::CleanAfterRestarts(st.fail_count)
    } else {
        OutcomeModel::LimitReached(st.fail_count)
    }
}

/// The terminal result of one supervision run.
#[derive(Clone, Copy, Debug, PartialEq, Eq, Structural)]
pub enum RelaunchOutcome {
    /// Never restarted; the one run exited cleanly. Process exit code 0.
    CleanExit,
    /// Restarted this many times after failures; the final run exited
    /// cleanly. Process exit code 0.
    RestartedThenClean(i32),
    /// Stopped while still failing, or ran under `restart_always`, with this
    /// many failed attempts on record. The failure count doubles as the
    /// process exit code on purpose.
    RestartLimitReached(i32),
}

impl View for RelaunchOutcome {
    type V = OutcomeModel;

    open spec fn view(&self) -> OutcomeModel {
        match *self {
            RelaunchOutcome::CleanExit => OutcomeModel::Clean,
            RelaunchOutcome::RestartedThenClean(x) => OutcomeModel::CleanAfterRestarts(x as int),
            RelaunchOutcome::RestartLimitReached(x) => OutcomeModel::LimitReached(x as int),
        }
    }
}

/// A failure of the supervisor itself. Each aborts the run immediately; none
/// is raised for a child that merely exits badly.
#[derive(Clone, Copy, Debug, PartialEq, Eq, Structural)]
pub enum SupervisionError {
    /// The target executable could not be started.
    LaunchFailed,
    /// The configured stdout redirect file could not be opened.
    StdoutRedirectFailed,
    /// The configured stderr redirect file could not be opened.
    StderrRedirectFailed,
}

/// The mutable, loop-local state of one supervision run.
#[derive(Clone, Copy, Debug)]
pub struct SupervisionState {
    /// Spawn attempts so far.
    pub start_count: i32,
    /// Attempts that ended in a non-zero exit or a signal.
    pub fail_count: i32,
    /// Exit code of the most recent termination; `None` after a signal.
    pub last_exit_code: Option<i32>,
}

impl View for SupervisionState {
    type V = StateModel;

    open spec fn view(&self) -> StateModel {
        StateModel {
            start_count: self.start_count as int,
            fail_count: self.fail_count as int,
            last_exit: match self.last_exit_code {
                Some(c) => Some(c as int),
                None => None,
            },
        }
    }
}

impl SupervisionState {
    /// The state before any spawn attempt.
    pub fn new() -> (r: Self)
        ensures
            r@ == StateModel::init(),
    {
        SupervisionState { start_count: 0, fail_count: 0, last_exit_code: Option::None }
    }

    /// Record one spawn attempt. Call exactly once per spawn, before waiting
    /// for the child.
    pub fn record_spawn(&mut self)
        requires
            old(self)@.start_count < i32::MAX,
        ensures
            final(self)@ == spawn_update(old(self)@),
    {
        self.start_count = self.start_count + 1;
    }

    /// Record the termination of the child of the most recent spawn, and
    /// decide whether to relaunch. Returns the decision and the log entries
    /// to emit, in order.
    pub fn on_child_exit(&mut self, policy: &MonitorOptions, status: &ExitStatus) -> (r: (
        StepDecision,
        Vec<LogEvent>,
    ))
        requires
            old(self)@.start_count >= 1,
            old(self)@.fail_count < i32::MAX,
        ensures
            final(self)@ == exit_update(old(self)@, *status),
            r.0 == decision_model(*policy, final(self)@, *status),
            r.1@ == events_model(*status, r.0),
    {
        let mut events: Vec<LogEvent> = Vec::new();
        let success = status.is_success();
        if !success {
            match status {
                ExitStatus::Exited(code) => events.push(LogEvent::ExitedWithCode(*code)),
                ExitStatus::Signaled => events.push(LogEvent::ExitedBySignal),
            }
            self.fail_count = self.fail_count + 1;
        } else {
            events.push(LogEvent::ExitedNormally);
        }
        self.last_exit_code = status.code();
        let decision: StepDecision;
        if success && !policy.restart_always {
            events.push(LogEvent::MonitoringComplete);
            decision = StepDecision::StopCompleted;
        } else {
            let permitted = match policy.max_restarts {
                Option::None => true,
                Option::Some(x) => x > self.start_count - 1,
            };
            if permitted {
                decision = StepDecision::Restart;
            } else {
                events.push(LogEvent::MaxRestartsExceeded);
                decision = StepDecision::StopLimitReached;
            }
        }
        proof {
            assert(events@ =~= events_model(*status, decision));
        }
        (decision, events)
    }
}

/// Derive the terminal outcome from the final state of a run.
pub fn derive_outcome(restart_always: bool, st: &SupervisionState) -> (r: RelaunchOutcome)
    ensures
        r@ == outcome_model(restart_always, st@),
{
    if restart_always {
        RelaunchOutcome::RestartLimitReached(st.fail_count)
    } else if st.fail_count == 0 {
        RelaunchOutcome::CleanExit
    } else {
        match st.last_exit_code {
            Option::Some(code) => if code == 0 {
                RelaunchOutcome::RestartedThenClean(st.fail_count)
            } else {
                RelaunchOutcome::RestartLimitReached(st.fail_count)
            },
            Option::None => RelaunchOutcome::RestartLimitReached(st.fail_count),
        }
    }
}

/// The process exit code for a finished run: 0 after a clean end, the failure
/// count when the run stopped at the restart bound, and -1 for a supervisor
/// failure.
pub fn process_exit_code(res: &Result<RelaunchOutcome, SupervisionError>) -> (c: i32)
    ensures
        c == (match *res {
            Result::Ok(RelaunchOutcome::CleanExit) => 0i32,
            Result::Ok(RelaunchOutcome::RestartedThenClean(_)) => 0i32,
            Result::Ok(RelaunchOutcome::RestartLimitReached(x)) => x,
            Result::Err(_) => -1i32,
        }),
{
    match res {
        Result::Ok(outcome) => match outcome {
            RelaunchOutcome::CleanExit => 0,
            RelaunchOutcome::RestartedThenClean(_) => 0,
            RelaunchOutcome::RestartLimitReached(x) => *x,
        },
        Result::Err(_) => -1,
    }
}

/// Run the whole supervision loop against a script: the exit status the
/// target would produce on each successive launch. Returns the outcome and
/// the number of spawn attempts, or `None` when the script ran out while the
/// policy would have relaunched again.
pub fn supervise_script(policy: &MonitorOptions, script: &Vec<ExitStatus>) -> (r: Option<
    (RelaunchOutcome, i32),
>)
    requires
        script@.len() <= i32::MAX,
    ensures
        ({
            let m = run_model(*policy, script@, StateModel::init());
            match r {
                Some(p) => m.1 && p.0@ == outcome_model(policy.restart_always, m.0) && p.1
                    == m.0.start_count,
                None => !m.1,
            }
        }),
{
    let mut st = SupervisionState::new();
    let mut i: usize = 0;
    proof {
        assert(script@.subrange(0, script@.len() as int) =~= script@);
    }
    while i < script.len()
        invariant
            i <= script@.len(),
            script@.len() <= i32::MAX,
            st@.start_count == i as int,
            st@.wf(),
            run_model(*policy, script@, StateModel::init()) == run_model(
                *policy,
                script@.subrange(i as int, script@.len() as int),
                st@,
            ),
        decreases script@.len() - i,
    {
        let ghost entry = st@;
        let ghost rest = script@.subrange(i as int, script@.len() as int);
        let status = script[i];
        proof {
            assert(rest.len() > 0);
            assert(rest[0] == script@[i as int]);
        }
        st.record_spawn();
        let (decision, _events) = st.on_child_exit(policy, &status);
        proof {
            assert(st@ == step_model(entry, rest[0]));
            assert(rest.subrange(1, rest.len() as int) =~= script@.subrange(
                i as int + 1,
                script@.len() as int,
            ));
        }
        match decision {
            StepDecision::Restart => {
                i = i + 1;
            },
            _ => {
                let outcome = derive_outcome(policy.restart_always, &st);
                let spawns = st.start_count;
                return Option::Some((outcome, spawns));
            },
        }
    }
    proof {
        assert(script@.subrange(i as int, script@.len() as int) =~= Seq::<ExitStatus>::empty());
    }
    Option::None
}

} // verus!
