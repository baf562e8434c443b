//! What the background worker decides: which processes it waits for or ends,
//! how often it runs a job, and what it records.

use crate::command_line::{join_spaced, spaced};
use crate::job::{Job, JobStatus, LockingProcess, MatchedProcess, ProcessAction};
use crate::number::{decimal, decimal_text};
use crate::search::texts;
use crate::text::{join2, join3, join4, join5, join8};
use vstd::prelude::*;
use vstd::string::*;

verus! {

/// Something that the worker has to do to the record of a job.
#[derive(Debug)]
pub enum WorkerEffect {
    /// Save the job as it is.
    Save,
    /// Add a line to the log of the job.
    Log(String),
}

pub open spec fn is_log(effect: WorkerEffect, line: Seq<char>) -> bool {
    effect matches WorkerEffect::Log(text) && text@ == line
}

/// Whether the effects are a save, and behind it the line `line` in the log.
pub open spec fn saved_then_logged(effects: Seq<WorkerEffect>, line: Seq<char>) -> bool {
    effects.len() == 2 && effects[0] is Save && is_log(effects[1], line)
}

/// Whether the effects are the line `line` in the log, and behind it a save.
pub open spec fn logged_then_saved(effects: Seq<WorkerEffect>, line: Seq<char>) -> bool {
    effects.len() == 2 && is_log(effects[0], line) && effects[1] is Save
}

/// A line for the log, behind the time at which it was written.
pub open spec fn log_text(timestamp: Seq<char>, line: Seq<char>) -> Seq<char> {
    "["@ + timestamp + "] "@ + line + "\n"@
}

/// A line for the log of a job.
pub fn log_line(timestamp: &str, line: &str) -> (r: String)
    ensures
        r@ == log_text(timestamp@, line@),
{
    join5("[", timestamp, "] ", line, "\n")
}

/// What came of running a job, by what came of its work and, where that
/// failed, of recording the failure.
pub fn run(work: Result<(), String>, recorded: Result<(), String>) -> (r: Result<(), String>)
    ensures
        work is Ok ==> r is Ok,
        work matches Err(error) ==> match recorded {
            Ok(_) => r == Err::<(), String>(error),
            Err(state_error) => r matches Err(message) && message@ == error@
                + "; also failed to persist the worker failure: "@ + state_error@,
        },
{
    match work {
        Ok(_) => Ok(()),
        Err(error) => match recorded {
            Ok(_) => Err(error),
            Err(state_error) => Err(
                join3(
                    error.as_str(),
                    "; also failed to persist the worker failure: ",
                    state_error.as_str(),
                ),
            ),
        },
    }
}

/// Marks a job as failed.
pub fn fail_job(job: &mut Job, message: &str, exit_code: Option<i32>) -> (r: Vec<WorkerEffect>)
    ensures
        failed_with(*old(job), *final(job), message@, exit_code),
        saved_then_logged(r@, "job failed: "@ + message@),
{
    job.status = JobStatus::Failed { message: message.to_owned(), exit_code };
    vec![WorkerEffect::Save, WorkerEffect::Log(join2("job failed: ", message))]
}

/// Whether `new` is the job `old`, failed with `message`.
pub open spec fn failed_with(old: Job, new: Job, message: Seq<char>, exit_code: Option<i32>) -> bool {
    &&& new == (Job { status: new.status, ..old })
    &&& new.status matches JobStatus::Failed { message: text, exit_code: code } && text@ == message
        && code == exit_code
}

/// What is recorded of a worker that stopped with an error: the job fails,
/// unless it has ended already.
pub fn record_unexpected_worker_failure(job: &mut Job, error: &str) -> (r: Vec<WorkerEffect>)
    ensures
        final(job).status.terminal(),
        old(job).status.terminal() ==> *final(job) == *old(job) && r@.len() == 0,
        !old(job).status.terminal() ==> {
            let message = "background worker stopped unexpectedly: "@ + error@;
            &&& failed_with(*old(job), *final(job), message, None)
            &&& saved_then_logged(r@, "job failed: "@ + message)
        },
{
    if job.status.is_terminal() {
        return Vec::new();
    }
    let message = join2("background worker stopped unexpectedly: ", error);
    fail_job(job, message.as_str(), None)
}

/// The matches whose rule says `action`, in order.
pub open spec fn with_action(matches: Seq<MatchedProcess>, action: ProcessAction) -> Seq<
    MatchedProcess,
>
    decreases matches.len(),
{
    if matches.len() == 0 {
        Seq::empty()
    } else {
        let before = with_action(matches.drop_last(), action);
        if matches.last().action == action {
            before.push(matches.last())
        } else {
            before
        }
    }
}

/// The processes of matches.
pub open spec fn processes_of(matches: Seq<MatchedProcess>) -> Seq<LockingProcess> {
    matches.map_values(|m: MatchedProcess| m.process)
}

/// A process by name and number.
pub open spec fn process_text(process: LockingProcess) -> Seq<char> {
    process.name@ + " ("@ + decimal_text(process.pid as nat) + ")"@
}

/// Processes by name and number, with commas between them.
pub open spec fn processes_text(processes: Seq<LockingProcess>) -> Seq<char>
    decreases processes.len(),
{
    if processes.len() == 0 {
        Seq::empty()
    } else if processes.len() == 1 {
        process_text(processes[0])
    } else {
        processes_text(processes.drop_last()) + ", "@ + process_text(processes.last())
    }
}

fn describe_process(process: &LockingProcess) -> (r: String)
    ensures
        r@ == process_text(*process),
{
    join4(process.name.as_str(), " (", decimal(process.pid as u64).as_str(), ")")
}

/// Processes by name and number.
pub fn describe_processes(processes: &[LockingProcess]) -> (r: String)
    ensures
        r@ == processes_text(processes@),
{
    let mut result = String::new();
    let mut i: usize = 0;
    assert(processes@.take(0) =~= Seq::<LockingProcess>::empty());
    assert(result@ =~= Seq::<char>::empty());
    while i < processes.len()
        invariant
            i <= processes@.len(),
            result@ == processes_text(processes@.take(i as int)),
        decreases processes@.len() - i,
    {
        let ghost before = result@;
        assert(processes@.take(i + 1).drop_last() =~= processes@.take(i as int));
        if i > 0 {
            result.append(", ");
        }
        result.append(describe_process(&processes[i]).as_str());
        proof {
            if i == 0 {
                assert(before =~= Seq::<char>::empty());
                assert(result@ =~= process_text(processes@[0]));
            }
            assert(result@ =~= processes_text(processes@.take(i + 1)));
        }
        i += 1;
    }
    assert(processes@.take(i as int) =~= processes@);
    result
}

/// The matches whose rule says `action`, in order.
fn select(matches: &Vec<MatchedProcess>, action: ProcessAction) -> (r: Vec<MatchedProcess>)
    ensures
        r@ == with_action(matches@, action),
{
    let mut selected: Vec<MatchedProcess> = Vec::new();
    let mut i: usize = 0;
    assert(matches@.take(0) =~= Seq::<MatchedProcess>::empty());
    while i < matches.len()
        invariant
            i <= matches@.len(),
            selected@ == with_action(matches@.take(i as int), action),
        decreases matches@.len() - i,
    {
        assert(matches@.take(i + 1).drop_last() =~= matches@.take(i as int));
        if matches[i].action == action {
            selected.push(matches[i].copy());
        }
        i += 1;
    }
    assert(matches@.take(i as int) =~= matches@);
    selected
}

/// The processes of matches.
fn processes(matches: &Vec<MatchedProcess>) -> (r: Vec<LockingProcess>)
    ensures
        r@ == processes_of(matches@),
{
    let mut list: Vec<LockingProcess> = Vec::new();
    let mut i: usize = 0;
    while i < matches.len()
        invariant
            i <= matches@.len(),
            list@ == processes_of(matches@).take(i as int),
        decreases matches@.len() - i,
    {
        list.push(matches[i].process.copy());
        i += 1;
        assert(list@ =~= processes_of(matches@).take(i as int));
    }
    assert(processes_of(matches@).take(i as int) =~= processes_of(matches@));
    list
}

/// Whether `new` is the job `old` with `processes` being ended.
pub open spec fn terminating(old: Job, new: Job, processes: Seq<LockingProcess>) -> bool {
    &&& new == (Job { status: new.status, ..old })
    &&& new.status matches JobStatus::TerminatingProcesses { processes: list } && list@ == processes
}

/// Whether `new` is the job `old` waiting for `processes`.
pub open spec fn waiting(old: Job, new: Job, processes: Seq<LockingProcess>) -> bool {
    &&& new == (Job { status: new.status, ..old })
    &&& new.status matches JobStatus::WaitingForLocks { processes: list } && list@ == processes
}

pub open spec fn terminating_text(processes: Seq<LockingProcess>) -> Seq<char> {
    "terminating matching processes: "@ + processes_text(processes)
}

/// Processes to end, and what is to be recorded before that.
#[derive(Debug)]
pub struct TerminationPlan {
    pub targets: Vec<MatchedProcess>,
    pub effects: Vec<WorkerEffect>,
}

/// Applies the terminate rules of a job that waits, without running it: the
/// state of the job is recorded before any process is signaled.
pub fn apply_terminate_rules(job: &mut Job, matches: &Vec<MatchedProcess>) -> (r: TerminationPlan)
    ensures
        r.targets@ == with_action(matches@, ProcessAction::Terminate),
        r.targets@.len() == 0 ==> *final(job) == *old(job) && r.effects@.len() == 0,
        r.targets@.len() > 0 ==> {
            &&& terminating(*old(job), *final(job), processes_of(r.targets@))
            &&& logged_then_saved(r.effects@, terminating_text(processes_of(r.targets@)))
        },
{
    let targets = select(matches, ProcessAction::Terminate);
    if targets.len() == 0 {
        return TerminationPlan { targets, effects: Vec::new() };
    }
    let list = processes(&targets);
    let line = join2(
        "terminating matching processes: ",
        describe_processes(list.as_slice()).as_str(),
    );
    job.status = JobStatus::TerminatingProcesses { processes: list };
    TerminationPlan { targets, effects: vec![WorkerEffect::Log(line), WorkerEffect::Save] }
}

/// What came of ending processes: how many were ended, or the failure of the
/// job where one could not be.
pub fn finish_terminate_rules(job: &mut Job, outcome: Result<usize, String>) -> (r: (
    Vec<WorkerEffect>,
    Result<usize, String>,
))
    ensures
        r.1 == outcome,
        outcome is Ok ==> *final(job) == *old(job) && r.0@.len() == 0,
        outcome matches Err(message) ==> {
            &&& failed_with(*old(job), *final(job), message@, None)
            &&& saved_then_logged(r.0@, "job failed: "@ + message@)
        },
{
    match outcome {
        Ok(count) => (Vec::new(), Ok(count)),
        Err(message) => {
            let effects = fail_job(job, message.as_str(), None);
            (effects, Err(message))
        },
    }
}

/// What the worker does next about the processes in its way.
#[derive(Debug)]
pub enum RuleStep {
    /// Nothing stands in the way.
    Proceed,
    /// The job has failed with this message.
    Failed(String),
    /// End these processes, then look at the time and again at the processes.
    Terminate(Vec<MatchedProcess>),
    /// Look at the time, wait, and look at the processes again.
    Wait,
}

pub open spec fn rejected_text(processes: Seq<LockingProcess>) -> Seq<char> {
    "process policy rejected the update because "@ + processes_text(processes) + " is running"@
}

pub open spec fn waiting_text(processes: Seq<LockingProcess>) -> Seq<char> {
    "waiting for matching processes: "@ + processes_text(processes)
}

pub open spec fn pids_of(matches: Seq<MatchedProcess>) -> Seq<u32> {
    matches.map_values(|m: MatchedProcess| m.process.pid)
}

fn pids(matches: &Vec<MatchedProcess>) -> (r: Vec<u32>)
    ensures
        r@ == pids_of(matches@),
{
    let mut list: Vec<u32> = Vec::new();
    let mut i: usize = 0;
    while i < matches.len()
        invariant
            i <= matches@.len(),
            list@ == pids_of(matches@).take(i as int),
        decreases matches@.len() - i,
    {
        list.push(matches[i].process.pid);
        i += 1;
        assert(list@ =~= pids_of(matches@).take(i as int));
    }
    assert(pids_of(matches@).take(i as int) =~= pids_of(matches@));
    list
}

fn same_pids(a: &Vec<u32>, b: &Vec<u32>) -> (r: bool)
    ensures
        r == (a@ == b@),
{
    if a.len() != b.len() {
        return false;
    }
    let mut i: usize = 0;
    while i < a.len()
        invariant
            a@.len() == b@.len(),
            i <= a@.len(),
            forall|k: int| 0 <= k < i ==> a@[k] == b@[k],
        decreases a@.len() - i,
    {
        if a[i] != b[i] {
            return false;
        }
        i += 1;
    }
    assert(a@ =~= b@);
    true
}

/// One look at the processes in the way of a job. A process that forbids the
/// update fails the job; else those to be ended are ended; else the job waits,
/// and says so where the processes are not those it waited for before.
pub fn handle_process_rules(
    job: &mut Job,
    last_pids: &mut Vec<u32>,
    matches: &Vec<MatchedProcess>,
) -> (r: (RuleStep, Vec<WorkerEffect>))
    ensures
        ({
            let failing = with_action(matches@, ProcessAction::Fail);
            let ending = with_action(matches@, ProcessAction::Terminate);
            let blocking = with_action(matches@, ProcessAction::Wait);
            if matches@.len() == 0 {
                &&& r.0 is Proceed
                &&& r.1@.len() == 0
                &&& *final(job) == *old(job)
                &&& *final(last_pids) == *old(last_pids)
            } else if failing.len() > 0 {
                let message = rejected_text(processes_of(failing));
                &&& r.0 matches RuleStep::Failed(text) && text@ == message
                &&& failed_with(*old(job), *final(job), message, None)
                &&& saved_then_logged(r.1@, "job failed: "@ + message)
                &&& *final(last_pids) == *old(last_pids)
            } else if ending.len() > 0 {
                &&& r.0 matches RuleStep::Terminate(targets) && targets@ == ending
                &&& terminating(*old(job), *final(job), processes_of(ending))
                &&& logged_then_saved(r.1@, terminating_text(processes_of(ending)))
                &&& *final(last_pids) == *old(last_pids)
            } else if pids_of(blocking) == old(last_pids)@ {
                &&& r.0 is Wait
                &&& r.1@.len() == 0
                &&& *final(job) == *old(job)
                &&& *final(last_pids) == *old(last_pids)
            } else {
                &&& r.0 is Wait
                &&& waiting(*old(job), *final(job), processes_of(blocking))
                &&& logged_then_saved(r.1@, waiting_text(processes_of(blocking)))
                &&& final(last_pids)@ == pids_of(blocking)
            }
        }),
{
    if matches.len() == 0 {
        return (RuleStep::Proceed, Vec::new());
    }
    let failing = select(matches, ProcessAction::Fail);
    if failing.len() > 0 {
        let message = join3(
            "process policy rejected the update because ",
            describe_processes(processes(&failing).as_slice()).as_str(),
            " is running",
        );
        let effects = fail_job(job, message.as_str(), None);
        return (RuleStep::Failed(message), effects);
    }
    let plan = apply_terminate_rules(job, matches);
    if plan.targets.len() > 0 {
        return (RuleStep::Terminate(plan.targets), plan.effects);
    }
    let blocking = select(matches, ProcessAction::Wait);
    let current = pids(&blocking);
    if same_pids(&current, last_pids) {
        return (RuleStep::Wait, Vec::new());
    }
    let list = processes(&blocking);
    let line = join2(
        "waiting for matching processes: ",
        describe_processes(list.as_slice()).as_str(),
    );
    job.status = JobStatus::WaitingForLocks { processes: list };
    *last_pids = current;
    (RuleStep::Wait, vec![WorkerEffect::Log(line), WorkerEffect::Save])
}

/// What the worker does next about a process that it asked to end.
#[derive(Debug)]
pub enum TerminationStep {
    /// The process is gone.
    Gone,
    /// Add this line to the log and kill the process.
    Force(String),
}

/// What to do about a process after its time to end by itself.
pub fn terminate_process(target: &LockingProcess, alive: bool) -> (r: TerminationStep)
    ensures
        !alive ==> r is Gone,
        alive ==> (r matches TerminationStep::Force(line) && line@ == "process "@ + process_text(
            *target,
        ) + " did not exit gracefully; forcing termination"@),
{
    if alive {
        TerminationStep::Force(
            join3(
                "process ",
                describe_process(target).as_str(),
                " did not exit gracefully; forcing termination",
            ),
        )
    } else {
        TerminationStep::Gone
    }
}

/// What came of killing a process: an error where that was not done and the
/// process is still there.
pub fn termination_result(target: &LockingProcess, killed: bool, alive: bool) -> (r: Result<
    (),
    String,
>)
    ensures
        r is Ok <==> killed || !alive,
        r matches Err(message) ==> message@ == "failed to terminate "@ + process_text(*target),
{
    if !killed && alive {
        Err(join2("failed to terminate ", describe_process(target).as_str()))
    } else {
        Ok(())
    }
}

pub open spec fn timed_out_text(job: Job) -> Seq<char> {
    "timed out after "@ + decimal_text(job.lock_timeout_secs as nat)
        + " seconds applying process policies"@
}

/// Whether a job may go on applying its process rules after `elapsed_ms`; it
/// fails once its time is up.
pub fn ensure_process_timeout(job: &mut Job, elapsed_ms: u64) -> (r: (
    Vec<WorkerEffect>,
    Result<(), String>,
))
    ensures
        elapsed_ms < old(job).lock_timeout_secs * 1000 ==> {
            &&& r.1 is Ok
            &&& r.0@.len() == 0
            &&& *final(job) == *old(job)
        },
        elapsed_ms >= old(job).lock_timeout_secs * 1000 ==> {
            let message = timed_out_text(*old(job));
            &&& r.1 matches Err(text) && text@ == message
            &&& failed_with(*old(job), *final(job), message, None)
            &&& saved_then_logged(r.0@, "job failed: "@ + message)
        },
{
    if (elapsed_ms as u128) < job.lock_timeout_secs as u128 * 1000 {
        return (Vec::new(), Ok(()));
    }
    let message = join3(
        "timed out after ",
        decimal(job.lock_timeout_secs).as_str(),
        " seconds applying process policies",
    );
    let effects = fail_job(job, message.as_str(), None);
    (effects, Err(message))
}

/// How often a job is run before it fails.
pub open spec fn attempts_of(job: Job) -> u32 {
    if job.retries == u32::MAX {
        u32::MAX
    } else {
        (job.retries + 1) as u32
    }
}

/// How often a job is run before it fails.
pub fn attempts(job: &Job) -> (r: u32)
    ensures
        r == attempts_of(*job),
        r > 0,
{
    job.retries.saturating_add(1)
}

pub open spec fn attempt_text(job: Job, attempt: u32) -> Seq<char> {
    "attempt "@ + decimal_text(attempt as nat) + "/"@ + decimal_text(attempts_of(job) as nat)
        + ": "@ + job.command.program@ + " "@ + spaced(texts(job.command.args@))
}

/// Starts one run of a job.
pub fn begin_attempt(job: &mut Job, attempt: u32) -> (r: Vec<WorkerEffect>)
    ensures
        final(job).status == (JobStatus::Running { attempt }),
        *final(job) == (Job { status: final(job).status, ..*old(job) }),
        saved_then_logged(r@, attempt_text(*old(job), attempt)),
{
    let line = join8(
        "attempt ",
        decimal(attempt as u64).as_str(),
        "/",
        decimal(attempts(job) as u64).as_str(),
        ": ",
        job.command.program.as_str(),
        " ",
        join_spaced(&job.command.args).as_str(),
    );
    job.status = JobStatus::Running { attempt };
    vec![WorkerEffect::Save, WorkerEffect::Log(line)]
}

/// What came of one run of the command of a job.
#[derive(Clone, Copy, Debug)]
pub struct CommandOutcome {
    pub success: bool,
    pub exit_code: Option<i32>,
    pub permission_failure: bool,
    pub lock_failure: bool,
}

/// What the worker does after one run of a job.
#[derive(Debug)]
pub enum AttemptStep {
    /// The job has succeeded.
    Succeeded,
    /// The job has failed with this message.
    Failed(String),
    /// Wait this many seconds, look at the processes in the way if told to,
    /// and run the job again.
    Retry { delay_secs: u64, recheck_processes: bool },
}

pub open spec fn permission_text() -> Seq<char> {
    "update failed because the package manager lacks permission; configure a user-owned global prefix or run dvup from an elevated terminal"@
}

pub open spec fn exhausted_text(job: Job) -> Seq<char> {
    "command failed after "@ + decimal_text(attempts_of(job) as nat) + " attempt(s)"@
}

/// What follows from one run of a job: success ends it, with a warning where
/// the output told of a file in use or of a lack of permission; a lack of
/// permission fails a run that did not succeed at once, and so does the last
/// run; else it is run again.
pub fn execute_with_retries(job: &mut Job, attempt: u32, outcome: CommandOutcome) -> (r: (
    AttemptStep,
    Vec<WorkerEffect>,
))
    ensures
        *final(job) == (Job { status: final(job).status, ..*old(job) }),
        ({
            let delay = retry_secs(old(job).retry_delay_secs, attempt);
            if outcome.success {
                &&& r.0 is Succeeded
                &&& final(job).status == (JobStatus::Succeeded {
                    exit_code: match outcome.exit_code {
                        Some(code) => code,
                        None => 0,
                    },
                    warned: outcome.lock_failure || outcome.permission_failure,
                })
                &&& saved_then_logged(r.1@, "job succeeded"@)
            } else if outcome.permission_failure && !outcome.lock_failure {
                &&& r.0 matches AttemptStep::Failed(text) && text@ == permission_text()
                &&& failed_with(*old(job), *final(job), permission_text(), outcome.exit_code)
                &&& saved_then_logged(r.1@, "job failed: "@ + permission_text())
            } else if attempt >= attempts_of(*old(job)) {
                let message = exhausted_text(*old(job));
                &&& r.0 matches AttemptStep::Failed(text) && text@ == message
                &&& failed_with(*old(job), *final(job), message, outcome.exit_code)
                &&& saved_then_logged(r.1@, "job failed: "@ + message)
            } else {
                &&& r.0 == (AttemptStep::Retry {
                    delay_secs: delay as u64,
                    recheck_processes: outcome.lock_failure,
                })
                &&& *final(job) == *old(job)
                &&& r.1@.len() == 1
                &&& is_log(
                    r.1@[0],
                    "command failed; retrying in "@ + decimal_text(delay as nat) + " second(s)"@,
                )
            }
        }),
{
    if outcome.success {
        let exit_code: i32 = match outcome.exit_code {
            Some(code) => code,
            None => 0,
        };
        job.status = JobStatus::Succeeded {
            exit_code,
            warned: outcome.lock_failure || outcome.permission_failure,
        };
        return (
            AttemptStep::Succeeded,
            vec![WorkerEffect::Save, WorkerEffect::Log("job succeeded".to_owned())],
        );
    }
    if outcome.permission_failure && !outcome.lock_failure {
        let message = "update failed because the package manager lacks permission; configure a user-owned global prefix or run dvup from an elevated terminal".to_owned();
        let effects = fail_job(job, message.as_str(), outcome.exit_code);
        return (AttemptStep::Failed(message), effects);
    }
    let limit: u32 = attempts(job);
    if attempt >= limit {
        let message = join3("command failed after ", decimal(limit as u64).as_str(), " attempt(s)");
        let effects = fail_job(job, message.as_str(), outcome.exit_code);
        return (AttemptStep::Failed(message), effects);
    }
    let delay: u64 = retry_delay(job.retry_delay_secs, attempt);
    let line = join3("command failed; retrying in ", decimal(delay).as_str(), " second(s)");
    (
        AttemptStep::Retry { delay_secs: delay, recheck_processes: outcome.lock_failure },
        vec![WorkerEffect::Log(line)],
    )
}

/// Two to the number of runs before this one, at most sixteen.
pub open spec fn backoff(completed_attempt: u32) -> int {
    if completed_attempt <= 1 {
        1
    } else if completed_attempt == 2 {
        2
    } else if completed_attempt == 3 {
        4
    } else if completed_attempt == 4 {
        8
    } else {
        16
    }
}

/// Seconds before a job is run again.
pub open spec fn retry_secs(base_secs: u64, completed_attempt: u32) -> int {
    let delay = base_secs * backoff(completed_attempt);
    if delay < 30 {
        delay
    } else {
        30
    }
}

/// Seconds before a job is run again.
pub fn retry_delay(base_secs: u64, completed_attempt: u32) -> (r: u64)
    ensures
        r == retry_secs(base_secs, completed_attempt),
{
    let multiplier: u64 = if completed_attempt <= 1 {
        1
    } else if completed_attempt == 2 {
        2
    } else if completed_attempt == 3 {
        4
    } else if completed_attempt == 4 {
        8
    } else {
        16
    };
    assert(base_secs >= 30 ==> base_secs * multiplier >= 30) by (nonlinear_arith)
        requires
            multiplier >= 1,
    ;
    if base_secs >= 30 {
        return 30;
    }
    assert(base_secs * multiplier <= 480) by (nonlinear_arith)
        requires
            base_secs < 30,
            multiplier <= 16,
    ;
    let delay: u64 = base_secs * multiplier;
    if delay < 30 {
        delay
    } else {
        30
    }
}

/// The wait grows from run to run and never exceeds half a minute.
pub proof fn law_retry_delay_is_capped(base_secs: u64, a: u32, b: u32)
    requires
        a <= b,
    ensures
        retry_secs(base_secs, a) <= retry_secs(base_secs, b),
        0 <= retry_secs(base_secs, b) <= 30,
{
    assert(0 <= base_secs * backoff(a) <= base_secs * backoff(b)) by (nonlinear_arith)
        requires
            0 < backoff(a) <= backoff(b),
    ;
}

} // verus!
