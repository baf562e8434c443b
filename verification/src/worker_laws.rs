//! What holds of the background worker whatever it is told: which processes stop
//! it, when it runs the command again, and what it makes of a run.

use crate::ending::{Ending, EndingAsk, EndingEvent, EndingStage, ending_begun, ending_stepped};
use crate::job::{Job, JobStatus, LockingProcess, MatchedProcess, ProcessAction};
use crate::number::decimal_text;
use crate::worker::{
    CommandOutcome, WorkerEffect, backoff, law_retry_delay_is_capped, processes_text, retry_secs,
    with_action,
};
use crate::worker_steps::{Stage, Worker, WorkerAction, WorkerEvent, worker_step};
use vstd::prelude::*;
use vstd::string::*;

verus! {

/// The matches selected by an action are all those of that action and no others,
/// in order; every match is selected by exactly one action.
pub proof fn law_matches_are_selected_by_action(
    matches: Seq<MatchedProcess>,
    action: ProcessAction,
)
    ensures
        with_action(matches, action) == matches.filter(|m: MatchedProcess| m.action == action),
        forall|i: int|
            0 <= i < matches.len() && (#[trigger] matches[i]).action == action ==> with_action(
                matches,
                action,
            ).contains(matches[i]),
        forall|k: int|
            0 <= k < with_action(matches, action).len() ==> (#[trigger] with_action(
                matches,
                action,
            )[k]).action == action && matches.contains(with_action(matches, action)[k]),
        with_action(matches, ProcessAction::Wait).len() + with_action(
            matches,
            ProcessAction::Terminate,
        ).len() + with_action(matches, ProcessAction::Fail).len() == matches.len(),
    decreases matches.len(),
{
    broadcast use vstd::seq_lib::group_filter_ensures;

    let p = |m: MatchedProcess| m.action == action;
    lemma_with_action_is_filter(matches, action);
    assert forall|i: int|
        0 <= i < matches.len() && (#[trigger] matches[i]).action == action implies with_action(
        matches,
        action,
    ).contains(matches[i]) by {
        assert(p(matches[i]));
    }
    assert forall|k: int| 0 <= k < with_action(matches, action).len() implies (
    #[trigger] with_action(matches, action)[k]).action == action && matches.contains(
        with_action(matches, action)[k],
    ) by {
        assert(p(matches.filter(p)[k]));
        matches.lemma_filter_contains_rev(p, matches.filter(p)[k]);
    }
    lemma_actions_part_matches(matches);
}

proof fn lemma_with_action_is_filter(matches: Seq<MatchedProcess>, action: ProcessAction)
    ensures
        with_action(matches, action) == matches.filter(|m: MatchedProcess| m.action == action),
    decreases matches.len(),
{
    reveal(Seq::filter);
    if matches.len() > 0 {
        lemma_with_action_is_filter(matches.drop_last(), action);
    } else {
        assert(matches =~= Seq::empty());
    }
}

proof fn lemma_actions_part_matches(matches: Seq<MatchedProcess>)
    ensures
        with_action(matches, ProcessAction::Wait).len() + with_action(
            matches,
            ProcessAction::Terminate,
        ).len() + with_action(matches, ProcessAction::Fail).len() == matches.len(),
    decreases matches.len(),
{
    if matches.len() > 0 {
        lemma_actions_part_matches(matches.drop_last());
    }
}

proof fn lemma_selected_by(matches: Seq<MatchedProcess>, action: ProcessAction)
    ensures
        with_action(matches, action).len() > 0 <==> exists|i: int|
            0 <= i < matches.len() && (#[trigger] matches[i]).action == action,
        (forall|i: int| 0 <= i < matches.len() ==> (#[trigger] matches[i]).action == action)
            ==> with_action(matches, action) == matches,
    decreases matches.len(),
{
    if matches.len() > 0 {
        let front = matches.drop_last();
        lemma_selected_by(front, action);
        if exists|i: int| 0 <= i < matches.len() && (#[trigger] matches[i]).action == action {
            let i = choose|i: int|
                0 <= i < matches.len() && (#[trigger] matches[i]).action == action;
            if i < front.len() {
                assert(front[i].action == action);
            }
        }
        if with_action(matches, action).len() > 0 {
            if with_action(front, action).len() > 0 {
                let i = choose|i: int|
                    0 <= i < front.len() && (#[trigger] front[i]).action == action;
                assert(matches[i].action == action);
            } else {
                assert(matches[matches.len() - 1].action == action);
            }
        }
        if forall|i: int| 0 <= i < matches.len() ==> (#[trigger] matches[i]).action == action {
            assert forall|i: int| 0 <= i < front.len() implies (#[trigger] front[i]).action
                == action by {
                assert(matches[i].action == action);
            }
            assert(matches[matches.len() - 1].action == action);
            assert(front.push(matches.last()) =~= matches);
        }
    }
}

/// A list of processes names each of them, in order, by its name and number and
/// with a comma between each two.
pub proof fn law_lists_of_processes_name_each(a: Seq<LockingProcess>, b: Seq<LockingProcess>)
    ensures
        a.len() > 0 && b.len() > 0 ==> processes_text(a + b) == processes_text(a) + ", "@
            + processes_text(b),
        a.len() == 1 ==> processes_text(a) == a[0].name@ + " ("@ + decimal_text(a[0].pid as nat)
            + ")"@,
        a.len() == 0 ==> processes_text(a) == Seq::<char>::empty(),
    decreases b.len(),
{
    if a.len() > 0 && b.len() > 0 {
        let front = b.drop_last();
        assert((a + b).drop_last() =~= a + front);
        assert((a + b).last() == b.last());
        if front.len() == 0 {
            assert(a + front =~= a);
        } else {
            law_lists_of_processes_name_each(a, front);
            assert(processes_text(a + b) =~= processes_text(a) + ", "@ + processes_text(b));
        }
    }
}

/// One look at the processes in the way decides by their rules. A job is failed
/// by any process that forbids it, whatever else runs; else all those to be ended
/// are ended, and none of the others; else the job waits for all of them; and it
/// goes on only when there is none.
pub proof fn law_rules_decide_what_is_done(
    old: Worker,
    matches: Vec<MatchedProcess>,
    new: Worker,
    effects: Seq<WorkerEffect>,
    action: WorkerAction,
)
    requires
        old.wf(),
        old.stage is Processes,
        worker_step(old, WorkerEvent::Matches(matches), new, effects, action),
    ensures
        action is Lock || action is RunCommand <==> matches@.len() == 0,
        (exists|i: int| 0 <= i < matches@.len() && (#[trigger] matches@[i]).action
            == ProcessAction::Fail) ==> {
            &&& new.job.status is Failed
            &&& new.job.status->message@ == "process policy rejected the update because "@
                + processes_text(
                matches@.filter(|m: MatchedProcess| m.action == ProcessAction::Fail).map_values(
                    |m: MatchedProcess| m.process,
                ),
            ) + " is running"@
            &&& effects.len() > 0 && effects[0] is Save
            &&& new.stage is Done || new.stage is Unlocking
        },
        action is EndProcesses <==> {
            &&& forall|i: int|
                0 <= i < matches@.len() ==> (#[trigger] matches@[i]).action != ProcessAction::Fail
            &&& exists|i: int|
                0 <= i < matches@.len() && (#[trigger] matches@[i]).action
                    == ProcessAction::Terminate
        },
        action matches WorkerAction::EndProcesses(targets) ==> {
            &&& targets@ == matches@.filter(
                |m: MatchedProcess| m.action == ProcessAction::Terminate,
            )
            &&& new.job.status matches JobStatus::TerminatingProcesses { processes }
            &&& processes@ == targets@.map_values(|m: MatchedProcess| m.process)
        },
        matches@.len() > 0 && (forall|i: int|
            0 <= i < matches@.len() ==> (#[trigger] matches@[i]).action == ProcessAction::Wait)
            ==> {
            &&& action is ReadClock
            &&& new.stage == (Stage::Clock { rest: true })
            &&& new.job == old.job || (new.job.status matches JobStatus::WaitingForLocks {
                processes,
            } && processes@ == matches@.map_values(|m: MatchedProcess| m.process))
            &&& new.job == old.job ==> old.job.status is WaitingForLocks || old.last_pids@
                == matches@.map_values(|m: MatchedProcess| m.process.pid)
            &&& new.last_pids@ == matches@.map_values(|m: MatchedProcess| m.process.pid)
        },
{
    lemma_with_action_is_filter(matches@, ProcessAction::Fail);
    lemma_with_action_is_filter(matches@, ProcessAction::Terminate);
    lemma_selected_by(matches@, ProcessAction::Fail);
    lemma_selected_by(matches@, ProcessAction::Terminate);
    lemma_selected_by(matches@, ProcessAction::Wait);
    if matches@.len() > 0 && (forall|i: int|
        0 <= i < matches@.len() ==> (#[trigger] matches@[i]).action == ProcessAction::Wait) {
        assert(matches@[0].action == ProcessAction::Wait);
    }
}

/// A run that succeeded ends the job as succeeded, and no other run does. One
/// that failed for want of permission alone fails the job at once; else the job
/// is run again as often as its retries allow, after the processes in the way
/// were looked at anew where a file was in use, and then fails.
pub proof fn law_the_outcome_of_a_run_decides(
    old: Worker,
    outcome: CommandOutcome,
    new: Worker,
    effects: Seq<WorkerEffect>,
    action: WorkerAction,
)
    requires
        old.wf(),
        old.stage is Running,
        worker_step(old, WorkerEvent::Ran(Ok(outcome)), new, effects, action),
    ensures
        new.job.status is Succeeded <==> outcome.success || old.job.status is Succeeded && new.job
            == old.job,
        outcome.success ==> {
            &&& new.stage == (Stage::Unlocking { result: Ok(()) })
            &&& new.job.status is Succeeded
            &&& outcome.exit_code is Some ==> new.job.status->Succeeded_exit_code
                == outcome.exit_code->0
            &&& new.job.status->warned == (outcome.lock_failure || outcome.permission_failure)
        },
        !outcome.success && outcome.permission_failure && !outcome.lock_failure ==> action
            !is Rest && new.job.status is Failed,
        !outcome.success && (outcome.lock_failure || !outcome.permission_failure) ==> {
            &&& action is Rest <==> old.attempt <= old.job.retries && old.attempt < u32::MAX
            &&& action is Rest <==> new.stage == (Stage::Pausing { recheck: outcome.lock_failure })
            &&& action is Rest ==> new.job == old.job && new.attempt == old.attempt
            &&& action !is Rest ==> new.job.status is Failed && action is Unlock
        },
        action !is Rest ==> effects.len() > 0 && effects[0] is Save,
        new.job.status is Failed && new.job != old.job ==> new.job.status->Failed_exit_code
            == outcome.exit_code && !outcome.success,
{
}

/// A pause is the base delay doubled for each run after the first, four times at
/// most, and half a minute at most; between two runs the worker rests that long.
pub proof fn law_pauses_double(base_secs: u64, attempt: u32)
    ensures
        attempt <= 1 && base_secs <= 30 ==> retry_secs(base_secs, attempt) == base_secs,
        base_secs >= 30 ==> retry_secs(base_secs, attempt) == 30,
        1 <= attempt < 5 && 2 * retry_secs(base_secs, attempt) <= 30 ==> retry_secs(
            base_secs,
            (attempt + 1) as u32,
        ) == 2 * retry_secs(base_secs, attempt),
        1 <= attempt < 5 && 2 * retry_secs(base_secs, attempt) >= 30 ==> retry_secs(
            base_secs,
            (attempt + 1) as u32,
        ) == 30,
        attempt >= 5 ==> retry_secs(base_secs, attempt) == retry_secs(base_secs, 5),
{
    assert(base_secs >= 30 ==> base_secs * backoff(attempt) >= 30) by (nonlinear_arith)
        requires
            backoff(attempt) >= 1,
    ;
    assert(attempt <= 1 ==> base_secs * backoff(attempt) == base_secs) by (nonlinear_arith)
        requires
            attempt <= 1 ==> backoff(attempt) == 1,
    ;
    if 1 <= attempt < 5 {
        assert(base_secs * backoff((attempt + 1) as u32) == 2 * (base_secs * backoff(attempt)))
            by (nonlinear_arith)
            requires
                backoff((attempt + 1) as u32) == 2 * backoff(attempt),
        ;
    }
}

/// The worker rests between two runs as long as the retry delay of the job says.
pub proof fn law_rests_are_retry_delays(
    old: Worker,
    event: WorkerEvent,
    new: Worker,
    effects: Seq<WorkerEffect>,
    action: WorkerAction,
)
    requires
        old.wf(),
        worker_step(old, event, new, effects, action),
        action is Rest,
    ensures
        old.stage is Running ==> action->secs == retry_secs(
            old.job.retry_delay_secs,
            old.attempt,
        ),
        old.stage !is Running ==> action->secs == 1 && new.stage is Resting,
{
    law_retry_delay_is_capped(old.job.retry_delay_secs, old.attempt, old.attempt);
}

/// A job whose processes are not out of the way in its time fails; before that it
/// looks at them again.
pub proof fn law_waiting_ends_with_the_timeout(
    old: Worker,
    elapsed_ms: u64,
    new: Worker,
    effects: Seq<WorkerEffect>,
    action: WorkerAction,
)
    requires
        old.wf(),
        old.stage is Clock,
        worker_step(old, WorkerEvent::Elapsed(elapsed_ms), new, effects, action),
    ensures
        elapsed_ms < old.job.lock_timeout_secs * 1000 <==> new.stage is Resting || new.stage
            is Rules,
        elapsed_ms < old.job.lock_timeout_secs * 1000 ==> new.job == old.job,
        elapsed_ms >= old.job.lock_timeout_secs * 1000 ==> {
            &&& new.job.status is Failed
            &&& new.job.status->message@ == "timed out after "@ + decimal_text(
                old.job.lock_timeout_secs as nat,
            ) + " seconds applying process policies"@
            &&& effects.len() > 0 && effects[0] is Save
        },
{
}

/// A step changes nothing of a job but its status and, where they were read anew,
/// its rules, or the whole job where it was read anew; and what is changed of the
/// status is saved.
pub proof fn law_steps_keep_the_job(
    old: Worker,
    event: WorkerEvent,
    new: Worker,
    effects: Seq<WorkerEffect>,
    action: WorkerAction,
)
    requires
        old.wf(),
        worker_step(old, event, new, effects, action),
    ensures
        event !is Rules && event !is Loaded ==> new.job == (Job {
            status: new.job.status,
            ..old.job
        }),
        event matches WorkerEvent::Rules(rules) ==> new.job == old.job || new.job == (Job {
            process_rules: rules,
            ..old.job
        }),
        event matches WorkerEvent::Loaded(job) ==> new.job == old.job || new.job == (Job {
            status: new.job.status,
            ..job
        }),
        event !is Loaded && new.job.status != old.job.status ==> exists|k: int|
            0 <= k < effects.len() && #[trigger] effects[k] is Save,
        action is RunCommand ==> new.job.status == (JobStatus::Running { attempt: new.attempt })
            && effects.len() > 0 && effects[0] is Save,
{
    if effects.len() > 0 && effects[0] is Save {
    } else if effects.len() > 1 && effects[1] is Save {
    }
}

/// A process that could not be ended fails the job with the reason; once all are
/// gone, the processes are looked at again.
pub proof fn law_ended_processes_are_looked_for_again(
    old: Worker,
    outcome: Result<(), String>,
    new: Worker,
    effects: Seq<WorkerEffect>,
    action: WorkerAction,
)
    requires
        old.wf(),
        old.stage is Ending,
        worker_step(old, WorkerEvent::Ended(outcome), new, effects, action),
    ensures
        outcome is Ok ==> action is ReadClock && new.job == old.job && new.stage is Clock,
        outcome matches Err(reason) ==> (new.job.status matches JobStatus::Failed {
            message,
            ..
        } && message@ == reason@) && (action is Finish || action is Unlock),
{
}

/// Each process in turn is asked to end and then waited for as long as its rule
/// grants; one that is gone is passed by, one that is left after that is killed,
/// and only one that is still there then is an error. All are ended when the last
/// one is.
pub proof fn law_every_process_is_ended_in_turn(
    old: Ending,
    event: EndingEvent,
    new: Ending,
    ask: EndingAsk,
)
    requires
        old.wf(),
        ending_stepped(old, event, new, ask),
    ensures
        new.targets == old.targets,
        ask matches EndingAsk::Wait { index, secs } ==> index == old.index && secs
            == old.targets@[old.index as int].terminate_grace_secs,
        ask matches EndingAsk::Request { index } ==> index == old.index + 1 && index == new.index
            && index < old.targets@.len(),
        ask matches EndingAsk::Look { index } ==> index == old.index,
        ask matches EndingAsk::Done(Ok(_)) ==> old.index + 1 == old.targets@.len() && (event
            == EndingEvent::Alive(false) || event == EndingEvent::Killed(true)),
        new.index > old.index ==> event == EndingEvent::Alive(false) || event
            == EndingEvent::Killed(true),
        old.stage == EndingStage::Looking && event == EndingEvent::Alive(true) ==> ask is Log
            && new.stage == EndingStage::Logging,
        old.stage == EndingStage::Logging && (event matches EndingEvent::Logged(Ok(_))) ==> ask
            == (EndingAsk::Kill { index: old.index }),
        old.stage == EndingStage::Requesting && event == EndingEvent::Requested(true) ==> ask
            is Wait,
        old.stage == EndingStage::Checking && event == EndingEvent::Alive(true) ==> ask is Done
            && ask->0 is Err,
        (old.stage == EndingStage::Looking || old.stage == EndingStage::Checking) && event
            == EndingEvent::Alive(false) || old.stage == EndingStage::Killing && event
            == EndingEvent::Killed(true) ==> ask is Request || ask == EndingAsk::Done(Ok(())),
{
}

/// Ending processes begins with the first one, and is over at once where there is
/// none.
pub proof fn law_ending_begins_with_the_first(
    targets: Seq<MatchedProcess>,
    new: Ending,
    ask: EndingAsk,
)
    requires
        ending_begun(targets, new, ask),
        targets.len() <= usize::MAX,
    ensures
        new.wf(),
        targets.len() > 0 ==> ask == (EndingAsk::Request { index: 0 }) && new.target()
            == targets[0].process,
        targets.len() == 0 ==> ask == EndingAsk::Done(Ok(())),
{
}

/// A process that was asked to end has its own time to do so.
pub proof fn law_processes_have_their_time_to_end(
    old: Ending,
    event: EndingEvent,
    new: Ending,
    ask: EndingAsk,
)
    requires
        old.wf(),
        ending_stepped(old, event, new, ask),
        ask is Wait,
    ensures
        event == EndingEvent::Requested(true),
        ask == (EndingAsk::Wait {
            index: old.index,
            secs: old.targets@[old.index as int].terminate_grace_secs,
        }),
{
}

} // verus!
