//! Applying the policy to terminate processes to the jobs that wait for them.

use crate::job::{Job, JobStatus, MatchedProcess, ProcessAction, ProcessRule};
use crate::worker::{
    WorkerEffect, apply_terminate_rules, failed_with, finish_terminate_rules, logged_then_saved,
    processes_of, saved_then_logged, terminating, terminating_text, with_action,
};
use vstd::prelude::*;
use vstd::string::*;

verus! {

/// What was done to the jobs that wait.
#[derive(Clone, Copy, Debug, PartialEq, Eq, Structural)]
pub struct WaitSweep {
    pub active_jobs: usize,
    pub changed_rules: usize,
    pub stopped_processes: usize,
    pub restarted_jobs: usize,
    pub skipped_jobs: usize,
}

/// What became of one job that waits.
#[derive(Clone, Copy, Debug, PartialEq, Eq, Structural)]
pub enum JobSweep {
    /// Its rules could not be changed.
    Refused,
    /// Its rules were changed, but the processes could not be stopped.
    Unstopped { changed: usize },
    /// It did not wait any more when the processes were stopped.
    Overtaken { changed: usize, stopped: usize },
    /// It is pending again, and was given a new worker if it had lost its own.
    Requeued { changed: usize, stopped: usize, restarted: bool },
}

/// The sum, at most the largest `usize`.
pub open spec fn plus(a: usize, b: usize) -> usize {
    if a + b > usize::MAX {
        usize::MAX
    } else {
        (a + b) as usize
    }
}

/// The sum, at most the largest `usize`.
pub fn sum_up_to_max(a: usize, b: usize) -> (r: usize)
    ensures
        r == plus(a, b),
{
    if a > usize::MAX - b {
        usize::MAX
    } else {
        a + b
    }
}

/// What the sweep does next with a job.
#[derive(Clone, Copy, Debug, PartialEq, Eq, Structural)]
pub enum SweepStep {
    /// The job does not wait and is left alone.
    Leave,
    /// The rules of the job are changed to terminate; a job that waits for
    /// processes may have lost its worker.
    ChangeRules { recover: bool },
}

pub open spec fn step_for(status: JobStatus) -> SweepStep {
    if status.waits() {
        SweepStep::ChangeRules { recover: !(status is Pending) }
    } else {
        SweepStep::Leave
    }
}

/// What the sweep does with a job in that state.
pub fn sweep_step(status: &JobStatus) -> (r: SweepStep)
    ensures
        r == step_for(*status),
{
    if status.is_waiting() {
        SweepStep::ChangeRules { recover: !matches!(status, JobStatus::Pending) }
    } else {
        SweepStep::Leave
    }
}

impl WaitSweep {
    pub open spec fn none() -> WaitSweep {
        WaitSweep {
            active_jobs: 0,
            changed_rules: 0,
            stopped_processes: 0,
            restarted_jobs: 0,
            skipped_jobs: 0,
        }
    }

    /// The sweep with one job more.
    pub open spec fn with(self, job: JobSweep) -> WaitSweep {
        let counted = WaitSweep { active_jobs: plus(self.active_jobs, 1), ..self };
        match job {
            JobSweep::Refused => WaitSweep {
                skipped_jobs: plus(self.skipped_jobs, 1),
                ..counted
            },
            JobSweep::Unstopped { changed } => WaitSweep {
                changed_rules: plus(self.changed_rules, changed),
                skipped_jobs: plus(self.skipped_jobs, 1),
                ..counted
            },
            JobSweep::Overtaken { changed, stopped } => WaitSweep {
                changed_rules: plus(self.changed_rules, changed),
                stopped_processes: plus(self.stopped_processes, stopped),
                ..counted
            },
            JobSweep::Requeued { changed, stopped, restarted } => WaitSweep {
                changed_rules: plus(self.changed_rules, changed),
                stopped_processes: plus(self.stopped_processes, stopped),
                restarted_jobs: plus(
                    self.restarted_jobs,
                    if restarted {
                        1
                    } else {
                        0
                    },
                ),
                ..counted
            },
        }
    }

    pub fn new() -> (r: WaitSweep)
        ensures
            r == WaitSweep::none(),
    {
        WaitSweep {
            active_jobs: 0,
            changed_rules: 0,
            stopped_processes: 0,
            restarted_jobs: 0,
            skipped_jobs: 0,
        }
    }

    /// Counts a job that waits.
    pub fn record(&mut self, job: JobSweep)
        ensures
            *final(self) == old(self).with(job),
    {
        self.active_jobs = sum_up_to_max(self.active_jobs, 1);
        match job {
            JobSweep::Refused => {
                self.skipped_jobs = sum_up_to_max(self.skipped_jobs, 1);
            },
            JobSweep::Unstopped { changed } => {
                self.changed_rules = sum_up_to_max(self.changed_rules, changed);
                self.skipped_jobs = sum_up_to_max(self.skipped_jobs, 1);
            },
            JobSweep::Overtaken { changed, stopped } => {
                self.changed_rules = sum_up_to_max(self.changed_rules, changed);
                self.stopped_processes = sum_up_to_max(self.stopped_processes, stopped);
            },
            JobSweep::Requeued { changed, stopped, restarted } => {
                self.changed_rules = sum_up_to_max(self.changed_rules, changed);
                self.stopped_processes = sum_up_to_max(self.stopped_processes, stopped);
                if restarted {
                    self.restarted_jobs = sum_up_to_max(self.restarted_jobs, 1);
                }
            },
        }
    }
}

/// The sweep over the first `n` of some jobs.
pub open spec fn swept(jobs: Seq<JobSweep>, n: int) -> WaitSweep
    decreases n,
{
    if n <= 0 {
        WaitSweep::none()
    } else {
        swept(jobs, n - 1).with(jobs[n - 1])
    }
}

/// What was done to the jobs that wait, by what became of each of them.
pub fn terminate_active_job_waits_with(jobs: &Vec<JobSweep>) -> (r: WaitSweep)
    ensures
        r == swept(jobs@, jobs@.len() as int),
{
    let mut sweep = WaitSweep::new();
    let mut i: usize = 0;
    while i < jobs.len()
        invariant
            i <= jobs@.len(),
            sweep == swept(jobs@, i as int),
        decreases jobs@.len() - i,
    {
        sweep.record(jobs[i]);
        i += 1;
    }
    sweep
}

/// No job is both restarted and skipped, and every job that waits is counted.
pub proof fn law_sweep_counts_every_job(jobs: Seq<JobSweep>, n: int)
    requires
        0 <= n <= jobs.len() <= usize::MAX,
    ensures
        swept(jobs, n).active_jobs == n,
        swept(jobs, n).restarted_jobs + swept(jobs, n).skipped_jobs <= n,
    decreases n,
{
    if n > 0 {
        law_sweep_counts_every_job(jobs, n - 1);
    }
}

/// What the sweep of one job waits for.
#[derive(Clone, Copy, Debug, PartialEq, Eq, Structural)]
pub enum SweepStage {
    /// The changed rules.
    Rules,
    /// The processes that match the rules.
    Processes,
    /// The end of that many processes.
    Ending { count: usize },
    /// The job as it is recorded now.
    Reading,
    /// A worker, if one is needed.
    Restarting,
    /// Nothing more.
    Done,
}

/// What the sweep of one job is told.
#[derive(Debug)]
pub enum SweepEvent {
    /// The rules of the job, and how many of them have changed; none if they
    /// cannot be changed.
    Rules(Option<(Vec<ProcessRule>, usize)>),
    /// The processes that match the rules.
    Matches(Vec<MatchedProcess>),
    /// What came of ending processes.
    Ended(Result<(), String>),
    /// The job as it is recorded now.
    Loaded(Job),
    /// Whether a worker was started.
    Restarted(bool),
    /// What was asked for could not be done, or not recorded.
    Broke(String),
}

/// What the sweep of one job asks for, behind what is to be recorded.
#[derive(Debug)]
pub enum SweepAsk {
    ChangeRules,
    FindProcesses,
    EndProcesses(Vec<MatchedProcess>),
    ReadJob,
    /// Give the job a worker if it needs one.
    EnsureWorker { needed: bool },
    /// The sweep of the job is over; none if it does not wait.
    Finish(Option<JobSweep>),
    /// The sweep of all jobs is over with an error.
    Abort(String),
    /// What was told does not answer what was asked.
    Nothing,
}

/// The sweep of one job.
#[derive(Debug)]
pub struct Sweeper {
    pub job: Job,
    /// Whether the job may have lost its worker.
    pub recover: bool,
    pub changed: usize,
    pub stopped: usize,
    pub stage: SweepStage,
}

/// Whether nothing but the stage differs, and nothing is recorded.
pub open spec fn sweep_goes_on(
    old: Sweeper,
    new: Sweeper,
    effects: Seq<WorkerEffect>,
    stage: SweepStage,
) -> bool {
    new == (Sweeper { stage, ..old }) && effects.len() == 0
}

/// One step of the sweep of a job: from `old`, when `event` is told, to `new`,
/// with what is to be recorded and what is asked for then.
pub open spec fn sweep_stepped(
    old: Sweeper,
    event: SweepEvent,
    new: Sweeper,
    effects: Seq<WorkerEffect>,
    ask: SweepAsk,
) -> bool {
    match (old.stage, event) {
        (SweepStage::Done, _) => {
            &&& sweep_goes_on(old, new, effects, old.stage)
            &&& ask is Nothing
        },
        (SweepStage::Ending { .. }, SweepEvent::Broke(_)) => {
            &&& sweep_goes_on(old, new, effects, SweepStage::Done)
            &&& ask == SweepAsk::Finish(Some(JobSweep::Unstopped { changed: old.changed }))
        },
        (_, SweepEvent::Broke(error)) => {
            &&& sweep_goes_on(old, new, effects, SweepStage::Done)
            &&& ask == SweepAsk::Abort(error)
        },
        (SweepStage::Rules, SweepEvent::Rules(None)) => {
            &&& sweep_goes_on(old, new, effects, SweepStage::Done)
            &&& ask == SweepAsk::Finish(Some(JobSweep::Refused))
        },
        (SweepStage::Rules, SweepEvent::Rules(Some((rules, changed)))) => {
            &&& new == (Sweeper {
                job: Job { process_rules: rules, ..old.job },
                changed,
                stage: SweepStage::Processes,
                ..old
            })
            &&& if changed > 0 {
                effects.len() == 1 && effects[0] is Save
            } else {
                effects.len() == 0
            }
            &&& ask is FindProcesses
        },
        (SweepStage::Processes, SweepEvent::Matches(matches)) => {
            let targets = with_action(matches@, ProcessAction::Terminate);
            if targets.len() == 0 {
                &&& new == (Sweeper { stopped: 0, stage: SweepStage::Reading, ..old })
                &&& effects.len() == 0
                &&& ask is ReadJob
            } else {
                &&& terminating(old.job, new.job, processes_of(targets))
                &&& new == (Sweeper {
                    job: new.job,
                    stage: SweepStage::Ending { count: targets.len() as usize },
                    ..old
                })
                &&& logged_then_saved(effects, terminating_text(processes_of(targets)))
                &&& ask matches SweepAsk::EndProcesses(list) && list@ == targets
            }
        },
        (SweepStage::Ending { count }, SweepEvent::Ended(Ok(_))) => {
            &&& new == (Sweeper { stopped: count, stage: SweepStage::Reading, ..old })
            &&& effects.len() == 0
            &&& ask is ReadJob
        },
        (SweepStage::Ending { .. }, SweepEvent::Ended(Err(message))) => {
            &&& failed_with(old.job, new.job, message@, None)
            &&& new == (Sweeper { job: new.job, stage: SweepStage::Done, ..old })
            &&& saved_then_logged(effects, "job failed: "@ + message@)
            &&& ask == SweepAsk::Finish(Some(JobSweep::Unstopped { changed: old.changed }))
        },
        (SweepStage::Reading, SweepEvent::Loaded(latest)) => if latest.status.waits() {
            &&& new == (Sweeper {
                job: Job { status: JobStatus::Pending, ..latest },
                stage: SweepStage::Restarting,
                ..old
            })
            &&& effects.len() == 1 && effects[0] is Save
            &&& ask == (SweepAsk::EnsureWorker { needed: old.recover })
        } else {
            &&& new == (Sweeper { job: latest, stage: SweepStage::Done, ..old })
            &&& effects.len() == 0
            &&& ask == SweepAsk::Finish(
                Some(JobSweep::Overtaken { changed: old.changed, stopped: old.stopped }),
            )
        },
        (SweepStage::Restarting, SweepEvent::Restarted(restarted)) => {
            &&& sweep_goes_on(old, new, effects, SweepStage::Done)
            &&& ask == SweepAsk::Finish(
                Some(
                    JobSweep::Requeued {
                        changed: old.changed,
                        stopped: old.stopped,
                        restarted: old.recover && restarted,
                    },
                ),
            )
        },
        _ => {
            &&& sweep_goes_on(old, new, effects, old.stage)
            &&& ask is Nothing
        },
    }
}

/// Starts the sweep of a job: one that does not wait is left alone.
pub fn begin_sweep(job: Job) -> (r: (Sweeper, SweepAsk))
    ensures
        r.0.job == job,
        r.0.changed == 0 && r.0.stopped == 0,
        step_for(job.status) is Leave ==> r.0.stage is Done && r.1 == SweepAsk::Finish(None),
        step_for(job.status) matches SweepStep::ChangeRules { recover } ==> r.0.stage is Rules
            && r.0.recover == recover && r.1 is ChangeRules,
{
    match sweep_step(&job.status) {
        SweepStep::Leave => (
            Sweeper { job, recover: false, changed: 0, stopped: 0, stage: SweepStage::Done },
            SweepAsk::Finish(None),
        ),
        SweepStep::ChangeRules { recover } => (
            Sweeper { job, recover, changed: 0, stopped: 0, stage: SweepStage::Rules },
            SweepAsk::ChangeRules,
        ),
    }
}

/// Takes one step of the sweep of a job. What comes back is to be recorded, in
/// order, and then done; the answer is the next event, and where something
/// fails on the way the event is what broke.
pub fn sweep_job(sweeper: &mut Sweeper, event: SweepEvent) -> (r: (Vec<WorkerEffect>, SweepAsk))
    ensures
        sweep_stepped(*old(sweeper), event, *final(sweeper), r.0@, r.1),
{
    let changed: usize = sweeper.changed;
    let stage = sweeper.stage;
    match (stage, event) {
        (SweepStage::Done, _) => (Vec::new(), SweepAsk::Nothing),
        (SweepStage::Ending { .. }, SweepEvent::Broke(_)) => {
            sweeper.stage = SweepStage::Done;
            (Vec::new(), SweepAsk::Finish(Some(JobSweep::Unstopped { changed })))
        },
        (_, SweepEvent::Broke(error)) => {
            sweeper.stage = SweepStage::Done;
            (Vec::new(), SweepAsk::Abort(error))
        },
        (SweepStage::Rules, SweepEvent::Rules(None)) => {
            sweeper.stage = SweepStage::Done;
            (Vec::new(), SweepAsk::Finish(Some(JobSweep::Refused)))
        },
        (SweepStage::Rules, SweepEvent::Rules(Some((rules, count)))) => {
            sweeper.job.process_rules = rules;
            sweeper.changed = count;
            sweeper.stage = SweepStage::Processes;
            let mut effects: Vec<WorkerEffect> = Vec::new();
            if count > 0 {
                effects.push(WorkerEffect::Save);
            }
            (effects, SweepAsk::FindProcesses)
        },
        (SweepStage::Processes, SweepEvent::Matches(matches)) => {
            let plan = apply_terminate_rules(&mut sweeper.job, &matches);
            let count: usize = plan.targets.len();
            if count == 0 {
                sweeper.stopped = 0;
                sweeper.stage = SweepStage::Reading;
                (plan.effects, SweepAsk::ReadJob)
            } else {
                sweeper.stage = SweepStage::Ending { count };
                (plan.effects, SweepAsk::EndProcesses(plan.targets))
            }
        },
        (SweepStage::Ending { count }, SweepEvent::Ended(outcome)) => {
            let counted = match outcome {
                Ok(_) => Ok(count),
                Err(message) => Err(message),
            };
            let (effects, stopped) = finish_terminate_rules(&mut sweeper.job, counted);
            match stopped {
                Ok(number) => {
                    sweeper.stopped = number;
                    sweeper.stage = SweepStage::Reading;
                    (effects, SweepAsk::ReadJob)
                },
                Err(_) => {
                    sweeper.stage = SweepStage::Done;
                    (effects, SweepAsk::Finish(Some(JobSweep::Unstopped { changed })))
                },
            }
        },
        (SweepStage::Reading, SweepEvent::Loaded(latest)) => {
            let waits = latest.status.is_waiting();
            sweeper.job = latest;
            if waits {
                sweeper.job.status = JobStatus::Pending;
                sweeper.stage = SweepStage::Restarting;
                (vec![WorkerEffect::Save], SweepAsk::EnsureWorker { needed: sweeper.recover })
            } else {
                sweeper.stage = SweepStage::Done;
                let stopped: usize = sweeper.stopped;
                (Vec::new(), SweepAsk::Finish(Some(JobSweep::Overtaken { changed, stopped })))
            }
        },
        (SweepStage::Restarting, SweepEvent::Restarted(started)) => {
            sweeper.stage = SweepStage::Done;
            let stopped: usize = sweeper.stopped;
            let restarted: bool = sweeper.recover && started;
            (
                Vec::new(),
                SweepAsk::Finish(Some(JobSweep::Requeued { changed, stopped, restarted })),
            )
        },
        _ => (Vec::new(), SweepAsk::Nothing),
    }
}

/// Before a process is signaled, the job is recorded as terminating it: an
/// interrupted sweep leaves no job that claims to wait still.
pub proof fn law_sweep_records_before_it_signals(
    old: Sweeper,
    event: SweepEvent,
    new: Sweeper,
    effects: Seq<WorkerEffect>,
    ask: SweepAsk,
)
    requires
        sweep_stepped(old, event, new, effects, ask),
        ask is EndProcesses,
    ensures
        new.job.status is TerminatingProcesses,
        effects.len() > 0 && effects.last() is Save,
{
}

/// A job is put back only if it still waits when its processes are gone, and a
/// worker is started only for a job that may have lost its own.
pub proof fn law_sweep_restarts_only_waiting_jobs(
    old: Sweeper,
    event: SweepEvent,
    new: Sweeper,
    effects: Seq<WorkerEffect>,
    ask: SweepAsk,
)
    requires
        sweep_stepped(old, event, new, effects, ask),
    ensures
        ask is EnsureWorker ==> (event matches SweepEvent::Loaded(job) && job.status.waits()),
        ask == (SweepAsk::EnsureWorker { needed: true }) ==> old.recover,
{
}

} // verus!
