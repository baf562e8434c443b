//! The order in which the background worker takes its steps: it looks at the
//! processes in the way, takes the lock of the resource, looks at the job again
//! and runs it until it succeeds or its attempts are used up.

use crate::job::{Job, JobStatus, MatchedProcess, ProcessAction, ProcessRule};
use crate::text::join3;
use crate::worker::{
    AttemptStep, CommandOutcome, RuleStep, WorkerEffect, attempt_text, attempts_of, begin_attempt,
    ensure_process_timeout, execute_with_retries, exhausted_text, fail_job, failed_with,
    handle_process_rules, is_log, logged_then_saved, permission_text, pids_of, processes_of,
    rejected_text, retry_secs, saved_then_logged, terminating, terminating_text, timed_out_text,
    waiting, waiting_text, with_action,
};
use vstd::prelude::*;

verus! {

/// How far the work on a job has come, by what the worker waits for.
#[derive(Debug)]
pub enum Stage {
    /// The process rules, which may have changed meanwhile.
    Rules,
    /// The processes that match the rules.
    Processes,
    /// The end of the processes to be ended.
    Ending,
    /// The time spent on the processes; behind it the worker rests or not.
    Clock { rest: bool },
    /// The end of a rest between two looks at the processes.
    Resting,
    /// The lock of the resource.
    Locking,
    /// The job as it is under the lock.
    Reading,
    /// The end of a run of the command.
    Running,
    /// The end of the pause between two runs.
    Pausing { recheck: bool },
    /// The release of the lock.
    Unlocking { result: Result<(), String> },
    /// Nothing more.
    Done,
}

/// What the worker is told.
#[derive(Debug)]
pub enum WorkerEvent {
    /// The process rules of the job, as they are recorded now.
    Rules(Vec<ProcessRule>),
    /// The processes that match the rules.
    Matches(Vec<MatchedProcess>),
    /// What came of ending processes.
    Ended(Result<(), String>),
    /// The milliseconds since the clock was started.
    Elapsed(u64),
    /// The rest or the pause is over.
    Rested,
    /// The lock was taken.
    Locked,
    /// The job as it is recorded now.
    Loaded(Job),
    /// What came of a run of the command, whose output is in the log.
    Ran(Result<CommandOutcome, String>),
    /// The lock was released.
    Unlocked,
    /// What the worker asked for could not be done, or not recorded.
    Broke(String),
}

/// What the worker asks for, behind what it has to record.
#[derive(Debug)]
pub enum WorkerAction {
    /// Read the process rules, and start the clock anew if told to.
    ReadRules { restart_clock: bool },
    FindProcesses,
    EndProcesses(Vec<MatchedProcess>),
    ReadClock,
    Rest { secs: u64 },
    Lock,
    ReadJob,
    RunCommand,
    Unlock,
    /// The work is over.
    Finish(Result<(), String>),
    /// What was told does not answer what was asked.
    Nothing,
}

/// The work on one job.
#[derive(Debug)]
pub struct Worker {
    pub job: Job,
    pub stage: Stage,
    /// The number of the last run, zero before the lock is taken.
    pub attempt: u32,
    /// The processes that the job is known to wait for.
    pub last_pids: Vec<u32>,
}

pub open spec fn following(attempt: u32) -> u32 {
    if attempt == u32::MAX {
        attempt
    } else {
        (attempt + 1) as u32
    }
}

impl Worker {
    /// Whether the worker holds the lock of the resource.
    pub open spec fn locked(self) -> bool {
        &&& self.stage !is Done
        &&& self.attempt > 0 || self.stage is Reading || self.stage is Unlocking
    }

    /// Whether the worker looks at the processes in the way.
    pub open spec fn clears_the_way(self) -> bool {
        self.stage is Rules || self.stage is Processes || self.stage is Ending || self.stage is Clock
            || self.stage is Resting
    }

    /// The runs are counted, and the lock is released only from a job that has
    /// ended or has left an error.
    pub open spec fn wf(self) -> bool {
        &&& self.stage is Locking || self.stage is Reading ==> self.attempt == 0
        &&& self.stage is Running ==> 1 <= self.attempt <= attempts_of(self.job)
        &&& self.stage is Pausing ==> 1 <= self.attempt < attempts_of(self.job)
        &&& self.clears_the_way() ==> self.attempt < attempts_of(self.job)
        &&& self.stage matches Stage::Unlocking { result: Ok(_) } ==> self.job.status.terminal()
    }
}

/// Whether the work ends with `error`, once the lock is released if it is held.
pub open spec fn ends_with(old: Worker, new: Worker, action: WorkerAction, error: Seq<char>) -> bool {
    if old.attempt > 0 {
        &&& new.stage matches Stage::Unlocking { result: Err(text) } && text@ == error
        &&& action is Unlock
    } else {
        stops_with(new, action, error)
    }
}

/// Whether the work is over with `error`.
pub open spec fn stops_with(new: Worker, action: WorkerAction, error: Seq<char>) -> bool {
    &&& new.stage is Done
    &&& action matches WorkerAction::Finish(Err(text)) && text@ == error
}

/// Whether the job of `old` is run once more, as it is in `job`.
pub open spec fn runs(
    old: Worker,
    job: Job,
    new: Worker,
    effects: Seq<WorkerEffect>,
    action: WorkerAction,
) -> bool {
    let attempt = following(old.attempt);
    &&& new.job == (Job { status: JobStatus::Running { attempt }, ..job })
    &&& new.stage is Running
    &&& new.attempt == attempt
    &&& new.last_pids == old.last_pids
    &&& saved_then_logged(effects, attempt_text(job, attempt))
    &&& action is RunCommand
}

/// Whether nothing but the stage differs, and nothing is recorded.
pub open spec fn goes_on(old: Worker, new: Worker, effects: Seq<WorkerEffect>, stage: Stage) -> bool {
    &&& new == (Worker { stage, ..old })
    &&& effects.len() == 0
}

/// One look at the processes `matches`.
pub open spec fn looked(
    old: Worker,
    matches: Seq<MatchedProcess>,
    new: Worker,
    effects: Seq<WorkerEffect>,
    action: WorkerAction,
) -> bool {
    let failing = with_action(matches, ProcessAction::Fail);
    let ending = with_action(matches, ProcessAction::Terminate);
    let blocking = with_action(matches, ProcessAction::Wait);
    if matches.len() == 0 {
        if old.attempt == 0 {
            goes_on(old, new, effects, Stage::Locking) && action is Lock
        } else {
            runs(old, old.job, new, effects, action)
        }
    } else {
        &&& new.attempt == old.attempt
        &&& if failing.len() > 0 {
            let message = rejected_text(processes_of(failing));
            &&& failed_with(old.job, new.job, message, None)
            &&& saved_then_logged(effects, "job failed: "@ + message)
            &&& new.last_pids == old.last_pids
            &&& ends_with(old, new, action, message)
        } else if ending.len() > 0 {
            &&& terminating(old.job, new.job, processes_of(ending))
            &&& logged_then_saved(effects, terminating_text(processes_of(ending)))
            &&& new.last_pids == old.last_pids
            &&& new.stage is Ending
            &&& action matches WorkerAction::EndProcesses(targets) && targets@ == ending
        } else {
            &&& new.stage == (Stage::Clock { rest: true })
            &&& action is ReadClock
            &&& if pids_of(blocking) == old.last_pids@ {
                &&& effects.len() == 0
                &&& new.job == old.job
                &&& new.last_pids == old.last_pids
            } else {
                &&& waiting(old.job, new.job, processes_of(blocking))
                &&& logged_then_saved(effects, waiting_text(processes_of(blocking)))
                &&& new.last_pids@ == pids_of(blocking)
            }
        }
    }
}

/// What follows from a run of the command that came to `outcome`.
pub open spec fn ran(
    old: Worker,
    outcome: CommandOutcome,
    new: Worker,
    effects: Seq<WorkerEffect>,
    action: WorkerAction,
) -> bool {
    let delay = retry_secs(old.job.retry_delay_secs, old.attempt);
    &&& new.attempt == old.attempt
    &&& new.last_pids == old.last_pids
    &&& if outcome.success {
        &&& new.job == (Job {
            status: JobStatus::Succeeded {
                exit_code: match outcome.exit_code {
                    Some(code) => code,
                    None => 0,
                },
                warned: outcome.lock_failure || outcome.permission_failure,
            },
            ..old.job
        })
        &&& saved_then_logged(effects, "job succeeded"@)
        &&& new.stage == (Stage::Unlocking { result: Ok(()) })
        &&& action is Unlock
    } else if outcome.permission_failure && !outcome.lock_failure {
        &&& failed_with(old.job, new.job, permission_text(), outcome.exit_code)
        &&& saved_then_logged(effects, "job failed: "@ + permission_text())
        &&& ends_with(old, new, action, permission_text())
    } else if old.attempt >= attempts_of(old.job) {
        let message = exhausted_text(old.job);
        &&& failed_with(old.job, new.job, message, outcome.exit_code)
        &&& saved_then_logged(effects, "job failed: "@ + message)
        &&& ends_with(old, new, action, message)
    } else {
        &&& new.job == old.job
        &&& effects.len() == 1
        &&& is_log(
            effects[0],
            "command failed; retrying in "@ + crate::number::decimal_text(delay as nat)
                + " second(s)"@,
        )
        &&& new.stage == (Stage::Pausing { recheck: outcome.lock_failure })
        &&& action == (WorkerAction::Rest { secs: delay as u64 })
    }
}

/// One step of the work: from `old`, when `event` is told, to `new`, with what
/// is to be recorded and what is asked for then.
pub open spec fn worker_step(
    old: Worker,
    event: WorkerEvent,
    new: Worker,
    effects: Seq<WorkerEffect>,
    action: WorkerAction,
) -> bool {
    match (old.stage, event) {
        (Stage::Done, _) => goes_on(old, new, effects, old.stage) && action is Nothing,
        (Stage::Reading, WorkerEvent::Broke(error)) => {
            &&& goes_on(old, new, effects, new.stage)
            &&& stops_with(new, action, error@)
        },
        (Stage::Unlocking { .. }, WorkerEvent::Broke(error)) => {
            &&& goes_on(old, new, effects, new.stage)
            &&& stops_with(new, action, error@)
        },
        (_, WorkerEvent::Broke(error)) => {
            &&& goes_on(old, new, effects, new.stage)
            &&& ends_with(old, new, action, error@)
        },
        (Stage::Rules, WorkerEvent::Rules(rules)) => {
            &&& new == (Worker {
                job: Job { process_rules: rules, ..old.job },
                stage: Stage::Processes,
                ..old
            })
            &&& effects.len() == 0
            &&& action is FindProcesses
        },
        (Stage::Processes, WorkerEvent::Matches(matches)) => looked(
            old,
            matches@,
            new,
            effects,
            action,
        ),
        (Stage::Ending, WorkerEvent::Ended(Ok(_))) => {
            &&& goes_on(old, new, effects, Stage::Clock { rest: false })
            &&& action is ReadClock
        },
        (Stage::Ending, WorkerEvent::Ended(Err(message))) => {
            &&& failed_with(old.job, new.job, message@, None)
            &&& saved_then_logged(effects, "job failed: "@ + message@)
            &&& new.attempt == old.attempt
            &&& new.last_pids == old.last_pids
            &&& ends_with(old, new, action, message@)
        },
        (Stage::Clock { rest }, WorkerEvent::Elapsed(elapsed_ms)) => if elapsed_ms
            >= old.job.lock_timeout_secs * 1000 {
            let message = timed_out_text(old.job);
            &&& failed_with(old.job, new.job, message, None)
            &&& saved_then_logged(effects, "job failed: "@ + message)
            &&& new.attempt == old.attempt
            &&& new.last_pids == old.last_pids
            &&& ends_with(old, new, action, message)
        } else if rest {
            &&& goes_on(old, new, effects, Stage::Resting)
            &&& action == (WorkerAction::Rest { secs: 1 })
        } else {
            &&& goes_on(old, new, effects, Stage::Rules)
            &&& action == (WorkerAction::ReadRules { restart_clock: false })
        },
        (Stage::Resting, WorkerEvent::Rested) => {
            &&& goes_on(old, new, effects, Stage::Rules)
            &&& action == (WorkerAction::ReadRules { restart_clock: false })
        },
        (Stage::Locking, WorkerEvent::Locked) => {
            &&& goes_on(old, new, effects, Stage::Reading)
            &&& action is ReadJob
        },
        (Stage::Reading, WorkerEvent::Loaded(job)) => if job.status.terminal() {
            &&& new == (Worker { job, stage: Stage::Unlocking { result: Ok(()) }, ..old })
            &&& effects.len() == 0
            &&& action is Unlock
        } else {
            runs(old, job, new, effects, action)
        },
        (Stage::Running, WorkerEvent::Ran(Err(message))) => {
            &&& failed_with(old.job, new.job, message@, None)
            &&& saved_then_logged(effects, "job failed: "@ + message@)
            &&& new.attempt == old.attempt
            &&& new.last_pids == old.last_pids
            &&& ends_with(old, new, action, message@)
        },
        (Stage::Running, WorkerEvent::Ran(Ok(outcome))) => ran(old, outcome, new, effects, action),
        (Stage::Pausing { recheck }, WorkerEvent::Rested) => if recheck {
            &&& new.job == old.job
            &&& new.stage is Rules
            &&& new.attempt == old.attempt
            &&& new.last_pids@.len() == 0
            &&& effects.len() == 0
            &&& action == (WorkerAction::ReadRules { restart_clock: true })
        } else {
            runs(old, old.job, new, effects, action)
        },
        (Stage::Unlocking { result }, WorkerEvent::Unlocked) => {
            &&& goes_on(old, new, effects, Stage::Done)
            &&& action == WorkerAction::Finish(result)
        },
        _ => goes_on(old, new, effects, old.stage) && action is Nothing,
    }
}

/// Starts the work on a job that was read: one that has ended is not worked on
/// again, whoever ended it.
pub fn begin_work(job: Job) -> (r: (Worker, Vec<WorkerEffect>, WorkerAction))
    ensures
        r.0.wf(),
        r.0.job == job,
        r.0.attempt == 0,
        r.0.last_pids@.len() == 0,
        job.status.terminal() ==> {
            &&& r.0.stage is Done
            &&& r.1@.len() == 0
            &&& r.2 == WorkerAction::Finish(Ok(()))
        },
        !job.status.terminal() ==> {
            &&& r.0.stage is Rules
            &&& r.1@.len() == 1
            &&& is_log(r.1@[0], "job "@ + job.id@ + " started"@)
            &&& r.2 == (WorkerAction::ReadRules { restart_clock: true })
        },
{
    if job.status.is_terminal() {
        return (
            Worker { job, stage: Stage::Done, attempt: 0, last_pids: Vec::new() },
            Vec::new(),
            WorkerAction::Finish(Ok(())),
        );
    }
    let line = join3("job ", job.id.as_str(), " started");
    (
        Worker { job, stage: Stage::Rules, attempt: 0, last_pids: Vec::new() },
        vec![WorkerEffect::Log(line)],
        WorkerAction::ReadRules { restart_clock: true },
    )
}

fn end_with(worker: &mut Worker, error: String) -> (r: WorkerAction)
    ensures
        *final(worker) == (Worker { stage: final(worker).stage, ..*old(worker) }),
        ends_with(*old(worker), *final(worker), r, error@),
{
    if worker.attempt > 0 {
        worker.stage = Stage::Unlocking { result: Err(error) };
        WorkerAction::Unlock
    } else {
        worker.stage = Stage::Done;
        WorkerAction::Finish(Err(error))
    }
}

fn run_again(worker: &mut Worker) -> (r: (Vec<WorkerEffect>, WorkerAction))
    ensures
        runs(*old(worker), old(worker).job, *final(worker), r.0@, r.1),
{
    let attempt: u32 = worker.attempt.saturating_add(1);
    let effects = begin_attempt(&mut worker.job, attempt);
    worker.attempt = attempt;
    worker.stage = Stage::Running;
    (effects, WorkerAction::RunCommand)
}

fn look(worker: &mut Worker, matches: &Vec<MatchedProcess>) -> (r: (
    Vec<WorkerEffect>,
    WorkerAction,
))
    ensures
        looked(*old(worker), matches@, *final(worker), r.0@, r.1),
{
    let (step, effects) = handle_process_rules(&mut worker.job, &mut worker.last_pids, matches);
    match step {
        RuleStep::Proceed => {
            if worker.attempt == 0 {
                worker.stage = Stage::Locking;
                (effects, WorkerAction::Lock)
            } else {
                run_again(worker)
            }
        },
        RuleStep::Failed(message) => {
            let action = end_with(worker, message);
            (effects, action)
        },
        RuleStep::Terminate(targets) => {
            worker.stage = Stage::Ending;
            (effects, WorkerAction::EndProcesses(targets))
        },
        RuleStep::Wait => {
            worker.stage = Stage::Clock { rest: true };
            (effects, WorkerAction::ReadClock)
        },
    }
}

fn take_outcome(worker: &mut Worker, outcome: CommandOutcome) -> (r: (
    Vec<WorkerEffect>,
    WorkerAction,
))
    ensures
        ran(*old(worker), outcome, *final(worker), r.0@, r.1),
{
    let attempt: u32 = worker.attempt;
    let (step, effects) = execute_with_retries(&mut worker.job, attempt, outcome);
    match step {
        AttemptStep::Succeeded => {
            worker.stage = Stage::Unlocking { result: Ok(()) };
            (effects, WorkerAction::Unlock)
        },
        AttemptStep::Failed(message) => {
            let action = end_with(worker, message);
            (effects, action)
        },
        AttemptStep::Retry { delay_secs, recheck_processes } => {
            worker.stage = Stage::Pausing { recheck: recheck_processes };
            (effects, WorkerAction::Rest { secs: delay_secs })
        },
    }
}

fn fail_with(worker: &mut Worker, message: String) -> (r: (Vec<WorkerEffect>, WorkerAction))
    ensures
        failed_with(old(worker).job, final(worker).job, message@, None),
        saved_then_logged(r.0@, "job failed: "@ + message@),
        final(worker).attempt == old(worker).attempt,
        final(worker).last_pids == old(worker).last_pids,
        ends_with(*old(worker), *final(worker), r.1, message@),
{
    let effects = fail_job(&mut worker.job, message.as_str(), None);
    let action = end_with(worker, message);
    (effects, action)
}

/// Takes one step of the work on a job. What comes back is to be recorded, in
/// order, and then done; the answer is the next event, and where something
/// fails on the way the event is what broke.
pub fn run_inner(worker: &mut Worker, event: WorkerEvent) -> (r: (Vec<WorkerEffect>, WorkerAction))
    ensures
        worker_step(*old(worker), event, *final(worker), r.0@, r.1),
        old(worker).wf() ==> final(worker).wf(),
{
    let mut stage = Stage::Done;
    std::mem::swap(&mut stage, &mut worker.stage);
    match (stage, event) {
        (Stage::Done, _) => (Vec::new(), WorkerAction::Nothing),
        (Stage::Reading, WorkerEvent::Broke(error)) => (
            Vec::new(),
            WorkerAction::Finish(Err(error)),
        ),
        (Stage::Unlocking { .. }, WorkerEvent::Broke(error)) => (
            Vec::new(),
            WorkerAction::Finish(Err(error)),
        ),
        (_, WorkerEvent::Broke(error)) => {
            let action = end_with(worker, error);
            (Vec::new(), action)
        },
        (Stage::Rules, WorkerEvent::Rules(rules)) => {
            worker.job.process_rules = rules;
            worker.stage = Stage::Processes;
            (Vec::new(), WorkerAction::FindProcesses)
        },
        (Stage::Processes, WorkerEvent::Matches(matches)) => look(worker, &matches),
        (Stage::Ending, WorkerEvent::Ended(Ok(_))) => {
            worker.stage = Stage::Clock { rest: false };
            (Vec::new(), WorkerAction::ReadClock)
        },
        (Stage::Ending, WorkerEvent::Ended(Err(message))) => fail_with(worker, message),
        (Stage::Clock { rest }, WorkerEvent::Elapsed(elapsed_ms)) => {
            let (effects, checked) = ensure_process_timeout(&mut worker.job, elapsed_ms);
            match checked {
                Err(message) => {
                    let action = end_with(worker, message);
                    (effects, action)
                },
                Ok(_) => {
                    if rest {
                        worker.stage = Stage::Resting;
                        (effects, WorkerAction::Rest { secs: 1 })
                    } else {
                        worker.stage = Stage::Rules;
                        (effects, WorkerAction::ReadRules { restart_clock: false })
                    }
                },
            }
        },
        (Stage::Resting, WorkerEvent::Rested) => {
            worker.stage = Stage::Rules;
            (Vec::new(), WorkerAction::ReadRules { restart_clock: false })
        },
        (Stage::Locking, WorkerEvent::Locked) => {
            worker.stage = Stage::Reading;
            (Vec::new(), WorkerAction::ReadJob)
        },
        (Stage::Reading, WorkerEvent::Loaded(job)) => {
            let ended = job.status.is_terminal();
            worker.job = job;
            if ended {
                worker.stage = Stage::Unlocking { result: Ok(()) };
                (Vec::new(), WorkerAction::Unlock)
            } else {
                run_again(worker)
            }
        },
        (Stage::Running, WorkerEvent::Ran(Err(message))) => fail_with(worker, message),
        (Stage::Running, WorkerEvent::Ran(Ok(outcome))) => take_outcome(worker, outcome),
        (Stage::Pausing { recheck }, WorkerEvent::Rested) => {
            if recheck {
                worker.last_pids = Vec::new();
                worker.stage = Stage::Rules;
                (Vec::new(), WorkerAction::ReadRules { restart_clock: true })
            } else {
                run_again(worker)
            }
        },
        (Stage::Unlocking { result }, WorkerEvent::Unlocked) => (
            Vec::new(),
            WorkerAction::Finish(result),
        ),
        (stage, _) => {
            worker.stage = stage;
            (Vec::new(), WorkerAction::Nothing)
        },
    }
}

/// The command of a job is run only while the lock of its resource is held, and
/// the first time only if the job, read again under that lock, has not ended:
/// workers that recover one job at the same time do not run it twice.
pub proof fn law_commands_run_under_the_lock(
    old: Worker,
    event: WorkerEvent,
    new: Worker,
    effects: Seq<WorkerEffect>,
    action: WorkerAction,
)
    requires
        old.wf(),
        worker_step(old, event, new, effects, action),
        action is RunCommand,
    ensures
        old.locked(),
        new.locked(),
        old.attempt == 0 ==> (event matches WorkerEvent::Loaded(job) && !job.status.terminal()),
{
}

/// The lock is taken and released only when the worker is told so, or its work
/// is over.
pub proof fn law_lock_is_held_until_released(
    old: Worker,
    event: WorkerEvent,
    new: Worker,
    effects: Seq<WorkerEffect>,
    action: WorkerAction,
)
    requires
        old.wf(),
        worker_step(old, event, new, effects, action),
    ensures
        !old.locked() && new.locked() ==> event is Locked,
        old.locked() && !new.locked() ==> action is Finish,
{
}

/// The runs of a job are counted one by one, and there are no more of them than
/// the job allows.
pub proof fn law_runs_are_bounded(
    old: Worker,
    event: WorkerEvent,
    new: Worker,
    effects: Seq<WorkerEffect>,
    action: WorkerAction,
)
    requires
        old.wf(),
        worker_step(old, event, new, effects, action),
    ensures
        action is RunCommand ==> new.attempt == old.attempt + 1,
        action !is RunCommand ==> new.attempt == old.attempt,
        action is RunCommand ==> new.attempt <= attempts_of(new.job),
{
}

/// Work that is over without an error has left a job that has ended.
pub proof fn law_finished_jobs_have_ended(
    old: Worker,
    event: WorkerEvent,
    new: Worker,
    effects: Seq<WorkerEffect>,
    action: WorkerAction,
)
    requires
        old.wf(),
        worker_step(old, event, new, effects, action),
        action matches WorkerAction::Finish(Ok(_)),
    ensures
        new.job.status.terminal(),
{
}

} // verus!
