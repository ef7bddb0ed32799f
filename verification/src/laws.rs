//! General laws of the supervision loop, stated over [`run_model`] and proved
//! once for all policies and scripts they quantify over.

use vstd::prelude::*;

use crate::options::MonitorOptions;
use crate::status::ExitStatus;
use crate::status::is_clean;
use crate::supervisor::OutcomeModel;
use crate::supervisor::StateModel;
use crate::supervisor::StepDecision;
use crate::supervisor::decision_model;
use crate::supervisor::outcome_model;
use crate::supervisor::restart_permitted;
use crate::supervisor::run_model;
use crate::supervisor::step_model;

verus! {

/// A whole run keeps the counters sound: starting from a well-formed state,
/// the final state is well-formed too, the attempt counter never shrinks,
/// and failures gained never outnumber attempts gained.
pub proof fn lemma_run_preserves_wf(
    policy: MonitorOptions,
    script: Seq<ExitStatus>,
    st: StateModel,
)
    requires
        st.wf(),
    ensures
        ({
            let m = run_model(policy, script, st);
            m.0.wf() && m.0.start_count >= st.start_count && m.0.fail_count - st.fail_count
                <= m.0.start_count - st.start_count
        }),
    decreases script.len(),
{
    if script.len() > 0 {
        let st1 = step_model(st, script[0]);
        if decision_model(policy, st1, script[0]) == StepDecision::Restart {
            lemma_run_preserves_wf(policy, script.subrange(1, script.len() as int), st1);
        }
    }
}

/// Under a policy that does not restart after a clean exit, a target that
/// always exits cleanly is spawned exactly once, records no failure, and the
/// outcome is the clean one.
pub proof fn lemma_clean_target_single_run(policy: MonitorOptions, script: Seq<ExitStatus>)
    requires
        !policy.restart_always,
        script.len() >= 1,
        forall|j: int| 0 <= j < script.len() ==> script[j] == ExitStatus::Exited(0i32),
    ensures
        ({
            let m = run_model(policy, script, StateModel::init());
            m.1 && m.0.start_count == 1 && m.0.fail_count == 0 && outcome_model(
                policy.restart_always,
                m.0,
            ) == OutcomeModel::Clean
        }),
{
    assert(script[0] == ExitStatus::Exited(0i32));
}

/// With a restart bound of zero there is exactly one spawn attempt, whatever
/// the exit status and whatever the rest of the policy says; then the run
/// stops.
pub proof fn lemma_zero_bound_single_attempt(policy: MonitorOptions, script: Seq<ExitStatus>)
    requires
        policy.max_restarts == Some(0i32),
        script.len() >= 1,
    ensures
        ({
            let m = run_model(policy, script, StateModel::init());
            m.1 && m.0.start_count == 1
        }),
{
    let st1 = step_model(StateModel::init(), script[0]);
    assert(!restart_permitted(policy.max_restarts, st1.start_count));
}

/// Helper for runs whose script is all failures under a restart bound: from
/// any mid-run state within the bound, the run goes on until the bound is
/// exhausted, every consumed attempt counts as a failure, and the last
/// recorded exit is not a clean one.
proof fn lemma_bounded_failing_run(
    policy: MonitorOptions,
    script: Seq<ExitStatus>,
    bound: i32,
    st: StateModel,
)
    requires
        policy.max_restarts == Some(bound),
        st.start_count <= bound,
        script.len() >= bound + 1 - st.start_count,
        forall|j: int| 0 <= j < script.len() ==> !is_clean(script[j]),
    ensures
        ({
            let m = run_model(policy, script, st);
            m.1 && m.0.start_count == bound + 1 && m.0.fail_count == st.fail_count + (bound + 1
                - st.start_count) && m.0.last_exit != Some(0int)
        }),
    decreases bound - st.start_count,
{
    assert(!is_clean(script[0]));
    let st1 = step_model(st, script[0]);
    if st.start_count == bound {
        assert(!restart_permitted(policy.max_restarts, st1.start_count));
        assert(st1.last_exit != Some(0int));
    } else {
        let rest = script.subrange(1, script.len() as int);
        assert(forall|j: int| 0 <= j < rest.len() ==> !is_clean(rest[j]));
        lemma_bounded_failing_run(policy, rest, bound, st1);
    }
}

/// With a restart bound of `bound` and a target that never exits cleanly,
/// there are exactly `bound + 1` spawn attempts, all of them failures, and
/// the outcome reports `bound + 1` failed attempts.
pub proof fn lemma_failing_target_exhausts_bound(
    policy: MonitorOptions,
    script: Seq<ExitStatus>,
    bound: i32,
)
    requires
        policy.max_restarts == Some(bound),
        bound >= 1,
        script.len() >= bound + 1,
        forall|j: int| 0 <= j < script.len() ==> !is_clean(script[j]),
    ensures
        ({
            let m = run_model(policy, script, StateModel::init());
            m.1 && m.0.start_count == bound + 1 && m.0.fail_count == bound + 1 && outcome_model(
                policy.restart_always,
                m.0,
            ) == OutcomeModel::LimitReached(bound + 1)
        }),
{
    lemma_bounded_failing_run(policy, script, bound, StateModel::init());
}

/// Under the default policy (no bound, no restart after a clean exit), a
/// target that fails twice and then exits cleanly is spawned three times,
/// records two failures, and the outcome is the restarted-then-clean one.
pub proof fn lemma_two_failures_then_clean(policy: MonitorOptions, script: Seq<ExitStatus>)
    requires
        !policy.restart_always,
        policy.max_restarts is None,
        script.len() >= 3,
        !is_clean(script[0]),
        !is_clean(script[1]),
        script[2] == ExitStatus::Exited(0i32),
    ensures
        ({
            let m = run_model(policy, script, StateModel::init());
            m.1 && m.0.start_count == 3 && m.0.fail_count == 2 && outcome_model(
                policy.restart_always,
                m.0,
            ) == OutcomeModel::CleanAfterRestarts(2)
        }),
{
    let s1 = script.subrange(1, script.len() as int);
    let s2 = s1.subrange(1, s1.len() as int);
    assert(s2 =~= script.subrange(2, script.len() as int));
    assert(s1[0] == script[1]);
    assert(s2[0] == script[2]);
    let st1 = step_model(StateModel::init(), script[0]);
    let st2 = step_model(st1, s1[0]);
    let st3 = step_model(st2, s2[0]);
    assert(run_model(policy, script, StateModel::init()) == run_model(policy, s1, st1));
    assert(run_model(policy, s1, st1) == run_model(policy, s2, st2));
    assert(run_model(policy, s2, st2) == (st3, true));
}

/// Helper for all-clean scripts under `restart_always` with a restart bound:
/// from any mid-run state within the bound, the run goes on until the bound
/// is exhausted and the failure count does not move.
proof fn lemma_bounded_clean_restarting_run(
    policy: MonitorOptions,
    script: Seq<ExitStatus>,
    bound: i32,
    st: StateModel,
)
    requires
        policy.restart_always,
        policy.max_restarts == Some(bound),
        st.start_count <= bound,
        script.len() >= bound + 1 - st.start_count,
        forall|j: int| 0 <= j < script.len() ==> is_clean(script[j]),
    ensures
        ({
            let m = run_model(policy, script, st);
            m.1 && m.0.start_count == bound + 1 && m.0.fail_count == st.fail_count
        }),
    decreases bound - st.start_count,
{
    assert(is_clean(script[0]));
    let st1 = step_model(st, script[0]);
    if st.start_count == bound {
        assert(!restart_permitted(policy.max_restarts, st1.start_count));
    } else {
        let rest = script.subrange(1, script.len() as int);
        assert(forall|j: int| 0 <= j < rest.len() ==> is_clean(rest[j]));
        lemma_bounded_clean_restarting_run(policy, rest, bound, st1);
    }
}

/// Under `restart_always` with a restart bound, a target that always exits
/// cleanly is still relaunched until the bound is exhausted: `bound + 1`
/// spawn attempts, no failures, and the outcome is the limit-reached one
/// reporting zero failed attempts.
pub proof fn lemma_always_restart_clean_target(
    policy: MonitorOptions,
    script: Seq<ExitStatus>,
    bound: i32,
)
    requires
        policy.restart_always,
        policy.max_restarts == Some(bound),
        bound >= 0,
        script.len() >= bound + 1,
        forall|j: int| 0 <= j < script.len() ==> is_clean(script[j]),
    ensures
        ({
            let m = run_model(policy, script, StateModel::init());
            m.1 && m.0.start_count == bound + 1 && m.0.fail_count == 0 && outcome_model(
                policy.restart_always,
                m.0,
            ) == OutcomeModel::LimitReached(0)
        }),
{
    lemma_bounded_clean_restarting_run(policy, script, bound, StateModel::init());
}

} // verus!
