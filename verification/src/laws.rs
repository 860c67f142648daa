//! What holds of every deployment, whatever its requests are answered.
//!
//! A run is given by the answers that a deployment gets, one per step, as
//! far as the order of steps depends on them. The statements below speak of
//! every such run, and through them of every driver that hands the answers
//! of its requests to `Deploy::advance`.

use crate::action::UploadAction;
use crate::deploy::{
    spec_start, spec_step, Abort, Control, DeployView, Event, Phase, Policy, Reply, COPY_RETRIES,
};
use vstd::prelude::*;

verus! {

/// Where a deployment stands after the answers `events`.
pub open spec fn state_after(policy: Policy, events: Seq<Event>) -> Control
    decreases events.len(),
{
    if events.len() == 0 {
        spec_start()
    } else {
        spec_step(policy, state_after(policy, events.drop_last()), events.last())
    }
}

/// The step that the answer at position `i` belongs to.
pub open spec fn phase_at(policy: Policy, events: Seq<Event>, i: int) -> Phase {
    state_after(policy, events.take(i)).phase
}

/// How many times the step `phase` was taken in the run `events`.
pub open spec fn taken(policy: Policy, events: Seq<Event>, phase: Phase) -> nat
    decreases events.len(),
{
    if events.len() == 0 {
        0
    } else {
        let before = taken(policy, events.drop_last(), phase);
        if state_after(policy, events.drop_last()).phase == phase {
            before + 1
        } else {
            before
        }
    }
}

/// Whether the step `phase` was taken in the run `events` and went well.
pub open spec fn succeeded(policy: Policy, events: Seq<Event>, phase: Phase) -> bool {
    exists|i: int|
        0 <= i < events.len() && #[trigger] phase_at(policy, events, i) == phase && !(events[i]
            is Failure)
}

/// Whether `phase` lies behind a build that went well: every step and every
/// end but the first two steps and the ends that they lead to.
pub open spec fn past_build(phase: Phase) -> bool {
    !(phase is Prepare || phase is Build || phase == (Phase::Failed { at: Abort::Prepare })
        || phase == (Phase::Failed { at: Abort::Build }))
}

/// Whether `phase` is a step that runs a command on the host.
pub open spec fn on_host(phase: Phase) -> bool {
    phase is ListGenerations || phase is WriteMarker || phase is ScheduleWatchdog
        || phase is SetProfile || phase is Activate || phase is TriggerRollback
        || phase is RemoveMarker || phase is StopTimer || phase is StopRunTimer
}

/// Whether `phase` lies behind the copy, for a host that the system is
/// copied to: a step on the host, or the good end of an upload.
pub open spec fn past_copy(policy: Policy, phase: Phase) -> bool {
    on_host(phase) || (phase is Done && policy.action is Upload)
}

/// Whether the step `phase` was taken in the run `events` and failed.
pub open spec fn gave_up_at(policy: Policy, events: Seq<Event>, phase: Phase) -> bool {
    exists|i: int|
        0 <= i < events.len() && #[trigger] phase_at(policy, events, i) == phase && events[i]
            is Failure
}

/// The step that a deployment gives up at.
pub open spec fn abort_step(at: Abort) -> Phase {
    match at {
        Abort::Prepare => Phase::Prepare,
        Abort::Build => Phase::Build,
        Abort::Canonicalize => Phase::Canonicalize,
        Abort::Copy => Phase::Copy,
    }
}

/// Whether `phase` is a step that has to do with the rollback: one that
/// reads the generations, writes or removes the marker, or starts, arms or
/// stops the watchdog or one of its timers.
pub open spec fn rollback_step(phase: Phase) -> bool {
    phase is ListGenerations || phase is WriteMarker || phase is ScheduleWatchdog
        || phase is TriggerRollback || phase is RemoveMarker || phase is StopTimer
        || phase is StopRunTimer
}

/// Whether `phase` lies behind the two steps that settle the rollback.
pub open spec fn past_settling(phase: Phase) -> bool {
    phase is StopTimer || phase is StopRunTimer || phase is Done
}

/// What holds wherever a deployment stands: each step is one that the
/// policy calls for, and `failed` is set only where a failure can have been
/// noted.
pub open spec fn consistent(policy: Policy, c: Control) -> bool {
    &&& c.retries <= COPY_RETRIES
    &&& match c.phase {
        Phase::Prepare => !c.failed && c.retries == 0,
        Phase::Build => !c.failed && c.retries == 0,
        Phase::Canonicalize => policy.action is Upload && !c.failed && c.retries == 0,
        Phase::Copy => policy.action is Upload && !policy.local && !c.failed,
        Phase::Pause => policy.action is Upload && !policy.local && !c.failed && c.retries >= 1,
        Phase::ListGenerations => policy.spec_armed() && !c.failed,
        Phase::WriteMarker { .. } => policy.spec_armed() && !c.failed,
        Phase::ScheduleWatchdog => policy.spec_armed()
            && policy.spec_mode()->0.spec_should_schedule_rollback_run(),
        Phase::SetProfile => policy.spec_mode() is Some
            && policy.spec_mode()->0.spec_should_switch_profile() && !c.failed,
        Phase::Activate { mode } => policy.spec_mode() == Some(mode)
            && mode.spec_should_activate() && !c.failed,
        Phase::TriggerRollback => policy.spec_armed() && c.failed,
        Phase::RemoveMarker => policy.spec_armed() && !c.failed,
        Phase::StopTimer => policy.spec_armed(),
        Phase::StopRunTimer => policy.spec_armed()
            && policy.spec_mode()->0.spec_should_schedule_rollback_run(),
        Phase::Done => true,
        Phase::Failed { at } => !c.failed && (at is Copy ==> policy.action is Upload
            && !policy.local && c.retries == COPY_RETRIES) && (at !is Copy ==> c.retries == 0)
            && (at is Canonicalize ==> policy.action is Upload),
    }
}

/// A step leads from one consistent state to another.
pub proof fn lemma_step_consistent(policy: Policy, c: Control, event: Event)
    requires
        consistent(policy, c),
    ensures
        consistent(policy, spec_step(policy, c, event)),
{
}

/// Every state that a run reaches is consistent.
pub proof fn lemma_run_consistent(policy: Policy, events: Seq<Event>)
    ensures
        consistent(policy, state_after(policy, events)),
    decreases events.len(),
{
    if events.len() > 0 {
        lemma_run_consistent(policy, events.drop_last());
        lemma_step_consistent(policy, state_after(policy, events.drop_last()), events.last());
    }
}

/// A step that went well in a run went well in every longer run.
proof fn lemma_succeeded_extends(policy: Policy, events: Seq<Event>, phase: Phase)
    requires
        events.len() > 0,
        succeeded(policy, events.drop_last(), phase),
    ensures
        succeeded(policy, events, phase),
{
    let shorter = events.drop_last();
    let i = choose|i: int|
        0 <= i < shorter.len() && #[trigger] phase_at(policy, shorter, i) == phase && !(shorter[i]
            is Failure);
    assert(shorter.take(i) =~= events.take(i));
    assert(phase_at(policy, events, i) == phase);
}

/// The last step of a run went well if its answer says so.
proof fn lemma_succeeded_last(policy: Policy, events: Seq<Event>, phase: Phase)
    requires
        events.len() > 0,
        state_after(policy, events.drop_last()).phase == phase,
        !(events.last() is Failure),
    ensures
        succeeded(policy, events, phase),
{
    let i = events.len() - 1;
    assert(events.take(i) =~= events.drop_last());
    assert(phase_at(policy, events, i) == phase);
}

/// The build is never skipped, and the host is not touched before the
/// system has been built and, unless the host is this machine, copied to
/// it: wherever a run stands behind the build, the build was run and went
/// well, and wherever it is about to run a command on the host, or has come
/// to the good end of an upload, the copy went well or the host is this
/// machine. So it is for the activation.
pub proof fn law_build_and_upload_first(policy: Policy, events: Seq<Event>)
    ensures
        past_build(state_after(policy, events).phase) ==> succeeded(policy, events, Phase::Build),
        past_copy(policy, state_after(policy, events).phase) ==> policy.local || succeeded(
            policy,
            events,
            Phase::Copy,
        ),
        state_after(policy, events).phase is Activate ==> succeeded(policy, events, Phase::Build)
            && (policy.local || succeeded(policy, events, Phase::Copy)),
    decreases events.len(),
{
    if events.len() > 0 {
        let shorter = events.drop_last();
        let before = state_after(policy, shorter);
        let now = state_after(policy, events);
        law_build_and_upload_first(policy, shorter);
        lemma_run_consistent(policy, shorter);
        if past_build(now.phase) {
            if before.phase is Build {
                lemma_succeeded_last(policy, events, Phase::Build);
            } else {
                lemma_succeeded_extends(policy, events, Phase::Build);
            }
        }
        if past_copy(policy, now.phase) && !policy.local {
            if before.phase is Copy {
                lemma_succeeded_last(policy, events, Phase::Copy);
            } else {
                lemma_succeeded_extends(policy, events, Phase::Copy);
            }
        }
    }
}

/// The system profile is switched only by a run that is to boot the new
/// system or to switch to it.
pub proof fn law_switch_profile_only_for_boot_and_switch(policy: Policy, events: Seq<Event>)
    requires
        state_after(policy, events).phase is SetProfile,
    ensures
        policy.spec_mode() == Some(UploadAction::Boot) || policy.spec_mode() == Some(
            UploadAction::Switch,
        ),
{
    lemma_run_consistent(policy, events);
}

/// The new system is activated only by a run that is to test it or to
/// switch to it, and in the way that the run asks for.
pub proof fn law_activate_only_for_test_and_switch(policy: Policy, events: Seq<Event>)
    requires
        state_after(policy, events).phase is Activate,
    ensures
        policy.spec_mode() == Some(UploadAction::Test) || policy.spec_mode() == Some(
            UploadAction::Switch,
        ),
        policy.spec_mode() == Some(state_after(policy, events).phase->mode),
{
    lemma_run_consistent(policy, events);
}

/// With the rollback disabled, a run takes no step that reads the
/// generations, writes or removes the marker, or starts, arms or stops the
/// watchdog.
pub proof fn law_no_rollback_step_when_disabled(policy: Policy, events: Seq<Event>)
    requires
        policy.disable_rollback,
    ensures
        !rollback_step(state_after(policy, events).phase),
{
    lemma_run_consistent(policy, events);
}

/// Nothing is copied to a host that is this machine.
pub proof fn law_no_copy_to_local_host(policy: Policy, events: Seq<Event>)
    requires
        policy.local,
    ensures
        !(state_after(policy, events).phase is Copy),
        !(state_after(policy, events).phase is Pause),
        taken(policy, events, Phase::Copy) == 0,
    decreases events.len(),
{
    lemma_run_consistent(policy, events);
    if events.len() > 0 {
        law_no_copy_to_local_host(policy, events.drop_last());
    }
}

/// The rollback is settled once and in one way. A run that has prepared a
/// rollback and has come to its end, or as far as the stopping of the
/// timers, has either started the watchdog or removed the marker, never
/// both: it has removed the marker if no step on the host has failed, and
/// started the watchdog if one has. Before that, and in a run that prepares
/// no rollback or gives up before it touches the host, neither has happened.
pub proof fn law_rollback_settled_once(policy: Policy, events: Seq<Event>)
    ensures
        taken(policy, events, Phase::TriggerRollback) + taken(policy, events, Phase::RemoveMarker)
            == if policy.spec_armed() && past_settling(state_after(policy, events).phase) {
            1nat
        } else {
            0nat
        },
        taken(policy, events, Phase::TriggerRollback) == if policy.spec_armed() && past_settling(
            state_after(policy, events).phase,
        ) && state_after(policy, events).failed {
            1nat
        } else {
            0nat
        },
    decreases events.len(),
{
    if events.len() > 0 {
        law_rollback_settled_once(policy, events.drop_last());
        lemma_run_consistent(policy, events.drop_last());
        lemma_run_consistent(policy, events);
    }
}

/// The copy is tried four times at most, and a run gives up on it only
/// after the fourth failure.
pub proof fn law_copy_attempts_bounded(policy: Policy, events: Seq<Event>)
    ensures
        taken(policy, events, Phase::Copy) <= COPY_RETRIES + 1,
        state_after(policy, events).phase == (Phase::Failed { at: Abort::Copy }) ==> taken(
            policy,
            events,
            Phase::Copy,
        ) == COPY_RETRIES + 1,
{
    lemma_copy_attempts(policy, events);
    lemma_run_consistent(policy, events);
}

/// Whether `phase` comes before the first copy.
spec fn before_copy(phase: Phase) -> bool {
    phase is Prepare || phase is Build || phase is Canonicalize || (phase is Failed
        && phase->at !is Copy)
}

proof fn lemma_copy_attempts(policy: Policy, events: Seq<Event>)
    ensures
        ({
            let c = state_after(policy, events);
            let n = taken(policy, events, Phase::Copy);
            &&& before_copy(c.phase) ==> n == 0
            &&& c.phase is Copy || c.phase is Pause ==> n == c.retries
            &&& c.phase == (Phase::Failed { at: Abort::Copy }) ==> n == COPY_RETRIES + 1
            &&& n <= c.retries + 1
        }),
    decreases events.len(),
{
    lemma_run_consistent(policy, events);
    if events.len() > 0 {
        lemma_copy_attempts(policy, events.drop_last());
        lemma_run_consistent(policy, events.drop_last());
    }
}

/// Every copy but the first comes straight after a pause: where a run is
/// about to copy and has copied before, its last step was the pause.
pub proof fn law_pause_before_retry(policy: Policy, events: Seq<Event>)
    requires
        state_after(policy, events).phase is Copy,
        taken(policy, events, Phase::Copy) > 0,
    ensures
        events.len() > 0,
        state_after(policy, events.drop_last()).phase is Pause,
{
    if events.len() > 0 {
        lemma_copy_attempts(policy, events.drop_last());
        lemma_run_consistent(policy, events.drop_last());
    }
}

/// How many steps a deployment that stands at `c` can still take.
pub open spec fn steps_left(c: Control) -> nat {
    match c.phase {
        Phase::Prepare => 18,
        Phase::Build => 17,
        Phase::Canonicalize => 16,
        Phase::Copy => (9 + 2 * (COPY_RETRIES - c.retries)) as nat,
        Phase::Pause => (10 + 2 * (COPY_RETRIES - c.retries)) as nat,
        Phase::ListGenerations => 8,
        Phase::WriteMarker { .. } => 7,
        Phase::ScheduleWatchdog => 6,
        Phase::SetProfile => 5,
        Phase::Activate { .. } => 4,
        Phase::TriggerRollback => 3,
        Phase::RemoveMarker => 3,
        Phase::StopTimer => 2,
        Phase::StopRunTimer => 1,
        Phase::Done => 0,
        Phase::Failed { .. } => 0,
    }
}

/// Every deployment ends: each step leaves fewer steps to take, and none is
/// left after eighteen. Once a deployment has ended, it stays as it is.
pub proof fn law_deployment_ends(policy: Policy, events: Seq<Event>)
    ensures
        steps_left(state_after(policy, events)) + events.len() <= 18 || state_after(
            policy,
            events,
        ).phase.spec_is_terminal(),
        events.len() >= 18 ==> state_after(policy, events).phase.spec_is_terminal(),
        events.len() > 0 && state_after(policy, events.drop_last()).phase.spec_is_terminal()
            ==> state_after(policy, events) == state_after(policy, events.drop_last()),
    decreases events.len(),
{
    if events.len() > 0 {
        law_deployment_ends(policy, events.drop_last());
        lemma_run_consistent(policy, events.drop_last());
    }
}

/// A step that failed in a run failed in every longer run.
proof fn lemma_gave_up_extends(policy: Policy, events: Seq<Event>, phase: Phase)
    requires
        events.len() > 0,
        gave_up_at(policy, events.drop_last(), phase),
    ensures
        gave_up_at(policy, events, phase),
{
    let shorter = events.drop_last();
    let i = choose|i: int|
        0 <= i < shorter.len() && #[trigger] phase_at(policy, shorter, i) == phase && shorter[i]
            is Failure;
    assert(shorter.take(i) =~= events.take(i));
    assert(phase_at(policy, events, i) == phase);
}

/// A deployment gives up only where a step before the host has failed: a
/// run that has ended at `Failed` has taken the step that `Failed` names,
/// and that step has failed. What fails later never ends a deployment; it is
/// noted in `failed`, and what is noted stays.
pub proof fn law_gives_up_only_before_the_host(policy: Policy, events: Seq<Event>)
    ensures
        state_after(policy, events).phase is Failed ==> gave_up_at(
            policy,
            events,
            abort_step(state_after(policy, events).phase->at),
        ),
        state_after(policy, events).phase is Failed ==> !state_after(policy, events).failed,
        events.len() > 0 && state_after(policy, events.drop_last()).failed ==> state_after(
            policy,
            events,
        ).failed,
    decreases events.len(),
{
    lemma_run_consistent(policy, events);
    if events.len() > 0 {
        let shorter = events.drop_last();
        let before = state_after(policy, shorter);
        let now = state_after(policy, events);
        law_gives_up_only_before_the_host(policy, shorter);
        lemma_run_consistent(policy, shorter);
        if now.phase is Failed {
            let step = abort_step(now.phase->at);
            if before.phase is Failed {
                lemma_gave_up_extends(policy, events, step);
            } else {
                let i = events.len() - 1;
                assert(events.take(i) =~= shorter);
                assert(phase_at(policy, events, i) == step);
            }
        }
    }
}

/// The deployment `m` after its requests have been answered by `replies`.
pub open spec fn deploy_after(m: DeployView, replies: Seq<Reply>) -> DeployView
    decreases replies.len(),
{
    if replies.len() == 0 {
        m
    } else {
        deploy_after(m, replies.drop_last()).next(replies.last())
    }
}

/// What the answers `replies` to the requests of `m` mean for the order of
/// steps, one by one.
pub open spec fn events_of(m: DeployView, replies: Seq<Reply>) -> Seq<Event> {
    Seq::new(replies.len(), |i: int| deploy_after(m, replies.take(i)).event(replies[i]))
}

/// A deployment goes the way of its policy: a fresh deployment whose
/// requests are answered one after the other stands where the run of those
/// answers stands, so that what holds of every run holds of it. The answers
/// change neither the policy nor the host.
pub proof fn law_deploy_is_a_run(m: DeployView, replies: Seq<Reply>)
    requires
        m.control == spec_start(),
    ensures
        deploy_after(m, replies).control == state_after(m.policy, events_of(m, replies)),
        deploy_after(m, replies).policy == m.policy,
        deploy_after(m, replies).host == m.host,
    decreases replies.len(),
{
    if replies.len() > 0 {
        let shorter = replies.drop_last();
        law_deploy_is_a_run(m, shorter);
        assert(events_of(m, replies).drop_last() =~= events_of(m, shorter)) by {
            assert forall|i: int| 0 <= i < shorter.len() implies events_of(m, replies)[i]
                == events_of(m, shorter)[i] by {
                assert(replies.take(i) =~= shorter.take(i));
            }
        }
        assert(replies.take(replies.len() - 1) =~= shorter);
    }
}

} // verus!
