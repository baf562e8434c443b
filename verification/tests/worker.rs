use dvup::ending::{EndingAsk, EndingEvent, EndingStage, begin_ending, end_step};
use dvup::job::{
    CommandSpec, Job, JobStatus, LockingProcess, MatchedProcess, ProcessAction, ProcessRule,
};
use dvup::language::Language;
use dvup::tui::activity::strip_timestamp_prefix;
use dvup::tui::model::{NetworkSettings, ProxyMode};
use dvup::worker::{
    AttemptStep, CommandOutcome, RuleStep, WorkerEffect, begin_attempt, ensure_process_timeout,
    execute_with_retries, handle_process_rules, log_line, record_unexpected_worker_failure,
    retry_delay, run,
};
use dvup::worker_steps::{Stage, Worker, WorkerAction, WorkerEvent, begin_work, run_inner};

#[test]
fn retry_delay_is_capped() {
    let cases = [(1, 2), (2, 4), (3, 8), (4, 16), (5, 30), (20, 30)];
    for (attempt, expected_secs) in cases {
        assert_eq!(retry_delay(2, attempt), expected_secs);
    }
}

#[test]
fn worker_log_lines_include_a_datetime() {
    let log = log_line("2026-07-12 10:20:30", "worker event");
    assert_eq!(log, "[2026-07-12 10:20:30] worker event\n");
    assert_eq!(strip_timestamp_prefix(&log), "worker event\n");
}

#[test]
fn an_unexpected_failure_ends_the_job() {
    let mut job = example(JobStatus::Pending);
    let effects = record_unexpected_worker_failure(&mut job, "no lock directory");
    assert!(matches!(
        &job.status,
        JobStatus::Failed { message, exit_code: None }
            if message == "background worker stopped unexpectedly: no lock directory"
    ));
    assert!(matches!(effects[0], WorkerEffect::Save));
    assert_eq!(
        run(Err("no lock directory".to_owned()), Ok(())),
        Err("no lock directory".to_owned())
    );
    assert_eq!(
        run(Err("first".to_owned()), Err("second".to_owned())),
        Err("first; also failed to persist the worker failure: second".to_owned())
    );
    assert_eq!(run(Ok(()), Ok(())), Ok(()));
}

#[test]
fn infrastructure_errors_do_not_leave_jobs_non_terminal() {
    let (mut worker, _, _) = begin_work(example(JobStatus::Pending));
    clear_the_way(&mut worker);

    let (_, action) = run_inner(&mut worker, WorkerEvent::Broke("not a directory".to_owned()));

    let work = match action {
        WorkerAction::Finish(work) => work,
        other => panic!("unexpected {other:?}"),
    };
    let mut updated = example(JobStatus::Pending);
    record_unexpected_worker_failure(&mut updated, work.as_ref().expect_err("an error"));
    assert!(run(work, Ok(())).is_err());
    assert!(matches!(updated.status, JobStatus::Failed { .. }));
}

#[test]
fn recovery_worker_skips_job_completed_while_waiting_for_resource_lock() {
    let (mut worker, effects, _) = begin_work(example(JobStatus::Pending));
    assert!(matches!(&effects[0], WorkerEffect::Log(line) if line == "job job-1 started"));
    clear_the_way(&mut worker);
    let (_, action) = run_inner(&mut worker, WorkerEvent::Locked);
    assert!(matches!(action, WorkerAction::ReadJob));

    let completed = example(JobStatus::Succeeded { exit_code: 0, warned: false });
    let (effects, action) = run_inner(&mut worker, WorkerEvent::Loaded(completed));
    assert!(effects.is_empty());
    assert!(matches!(action, WorkerAction::Unlock));
    let (_, action) = run_inner(&mut worker, WorkerEvent::Unlocked);

    assert!(matches!(action, WorkerAction::Finish(Ok(()))));
    assert!(matches!(worker.job.status, JobStatus::Succeeded { exit_code: 0, warned: false }));
}

#[test]
fn a_job_that_has_ended_is_not_worked_on() {
    let mut job = example(JobStatus::Succeeded { exit_code: 0, warned: false });
    assert!(record_unexpected_worker_failure(&mut job, "late").is_empty());
    let (worker, effects, action) = begin_work(job);
    assert!(effects.is_empty());
    assert!(matches!(action, WorkerAction::Finish(Ok(()))));
    assert!(matches!(worker.job.status, JobStatus::Succeeded { exit_code: 0, warned: false }));
}

#[test]
fn a_job_runs_until_it_succeeds() {
    let (mut worker, _, _) = begin_work(example(JobStatus::Pending));
    clear_the_way(&mut worker);
    run_inner(&mut worker, WorkerEvent::Locked);
    let (_, action) = run_inner(&mut worker, WorkerEvent::Loaded(example(JobStatus::Pending)));
    assert!(matches!(action, WorkerAction::RunCommand));
    assert_eq!(worker.attempt, 1);

    let locked = CommandOutcome {
        success: false,
        exit_code: Some(1),
        permission_failure: false,
        lock_failure: true,
    };
    let (_, action) = run_inner(&mut worker, WorkerEvent::Ran(Ok(locked)));
    assert!(matches!(action, WorkerAction::Rest { secs: 2 }));
    let (_, action) = run_inner(&mut worker, WorkerEvent::Rested);
    assert!(matches!(action, WorkerAction::ReadRules { restart_clock: true }));
    run_inner(&mut worker, WorkerEvent::Rules(Vec::new()));
    let (_, action) = run_inner(&mut worker, WorkerEvent::Matches(Vec::new()));
    assert!(matches!(action, WorkerAction::RunCommand));
    assert_eq!(worker.attempt, 2);

    let done = CommandOutcome {
        success: true,
        exit_code: Some(0),
        permission_failure: false,
        lock_failure: false,
    };
    let (_, action) = run_inner(&mut worker, WorkerEvent::Ran(Ok(done)));
    assert!(matches!(action, WorkerAction::Unlock));
    assert!(matches!(worker.job.status, JobStatus::Succeeded { exit_code: 0, warned: false }));
}

#[test]
fn an_answer_to_another_question_changes_nothing() {
    let (mut worker, _, _) = begin_work(example(JobStatus::Pending));
    let (effects, action) = run_inner(&mut worker, WorkerEvent::Locked);
    assert!(effects.is_empty());
    assert!(matches!(action, WorkerAction::Nothing));
    assert!(matches!(worker.stage, Stage::Rules));
}

fn clear_the_way(worker: &mut Worker) {
    let (_, action) = run_inner(worker, WorkerEvent::Rules(Vec::new()));
    assert!(matches!(action, WorkerAction::FindProcesses));
    let (_, action) = run_inner(worker, WorkerEvent::Matches(Vec::new()));
    assert!(matches!(action, WorkerAction::Lock));
}

#[test]
fn a_blocked_job_waits_terminates_or_fails_by_its_rules() {
    let mut pids = Vec::new();
    let mut job = example(JobStatus::Pending);
    let (step, _) = handle_process_rules(&mut job, &mut pids, &vec![matched(ProcessAction::Wait)]);
    assert!(matches!(step, RuleStep::Wait));
    assert!(matches!(&job.status, JobStatus::WaitingForLocks { processes } if processes.len() == 1));

    let mut job = example(JobStatus::Pending);
    let (step, _) =
        handle_process_rules(&mut job, &mut Vec::new(), &vec![matched(ProcessAction::Fail)]);
    assert!(matches!(step, RuleStep::Failed(_)));
    assert!(matches!(job.status, JobStatus::Failed { .. }));

    let mut job = example(JobStatus::Pending);
    let (step, _) =
        handle_process_rules(&mut job, &mut Vec::new(), &vec![matched(ProcessAction::Terminate)]);
    assert!(matches!(step, RuleStep::Terminate(targets) if targets.len() == 1));

    let mut job = example(JobStatus::Pending);
    let (step, _) = handle_process_rules(&mut job, &mut Vec::new(), &Vec::new());
    assert!(matches!(step, RuleStep::Proceed));
}

#[test]
fn commands_are_retried_until_the_attempts_are_used_up() {
    let mut job = example(JobStatus::Pending);
    let failed = CommandOutcome {
        success: false,
        exit_code: Some(5),
        permission_failure: false,
        lock_failure: true,
    };
    begin_attempt(&mut job, 1);
    assert!(matches!(job.status, JobStatus::Running { attempt: 1 }));
    let (step, _) = execute_with_retries(&mut job, 1, failed);
    assert!(matches!(step, AttemptStep::Retry { delay_secs: 2, .. }));
    let (step, _) = execute_with_retries(&mut job, 3, failed);
    assert!(matches!(step, AttemptStep::Failed(_)));
    assert!(matches!(job.status, JobStatus::Failed { exit_code: Some(5), .. }));

    let done = CommandOutcome {
        success: true,
        exit_code: Some(0),
        permission_failure: false,
        lock_failure: false,
    };
    let mut job = example(JobStatus::Pending);
    let (step, _) = execute_with_retries(&mut job, 1, done);
    assert!(matches!(step, AttemptStep::Succeeded));
    assert!(matches!(job.status, JobStatus::Succeeded { exit_code: 0, warned: false }));
}

#[test]
fn waiting_ends_when_the_time_is_up() {
    let mut job = example(JobStatus::Pending);
    assert!(ensure_process_timeout(&mut job, 59_999).1.is_ok());
    assert!(ensure_process_timeout(&mut job, 60_000).1.is_err());
    assert!(matches!(job.status, JobStatus::Failed { .. }));
}

fn example(status: JobStatus) -> Job {
    Job {
        id: "job-1".to_owned(),
        name: "example".to_owned(),
        status,
        process_rules: vec![ProcessRule {
            name: "example.exe".to_owned(),
            action: ProcessAction::Wait,
            terminate_grace_secs: 5,
        }],
        resource_group: "example".to_owned(),
        command: CommandSpec {
            program: "example".to_owned(),
            args: vec!["update".to_owned()],
            working_directory: ".".to_owned(),
        },
        network: NetworkSettings {
            proxy_mode: ProxyMode::Environment,
            proxy_url: None,
            no_proxy: Vec::new(),
        },
        lock_timeout_secs: 60,
        retries: 2,
        retry_delay_secs: 2,
    }
}

#[test]
fn a_success_that_told_of_a_file_in_use_is_marked() {
    for (permission_failure, lock_failure) in [(false, true), (true, false), (true, true)] {
        let outcome =
            CommandOutcome { success: true, exit_code: Some(0), permission_failure, lock_failure };
        let mut job = example(JobStatus::Pending);
        let (step, _) = execute_with_retries(&mut job, 1, outcome);
        assert!(matches!(step, AttemptStep::Succeeded));
        assert!(matches!(job.status, JobStatus::Succeeded { exit_code: 0, warned: true }));
        assert!(job.status.is_terminal());
        assert_eq!(Language::English.job_status(&job.status), "succeeded (warned)");
        assert_eq!(Language::Chinese.job_status(&job.status), "成功（有告警）");
    }
    let clean = JobStatus::Succeeded { exit_code: 0, warned: false };
    assert_eq!(Language::English.job_status(&clean), "succeeded");
    assert_eq!(Language::Chinese.job_status(&clean), "成功");
}

#[test]
fn a_marked_success_ends_the_work_well() {
    let (mut worker, _, _) = begin_work(example(JobStatus::Pending));
    clear_the_way(&mut worker);
    run_inner(&mut worker, WorkerEvent::Locked);
    run_inner(&mut worker, WorkerEvent::Loaded(example(JobStatus::Pending)));
    let outcome = CommandOutcome {
        success: true,
        exit_code: Some(0),
        permission_failure: false,
        lock_failure: true,
    };
    run_inner(&mut worker, WorkerEvent::Ran(Ok(outcome)));
    assert!(matches!(worker.job.status, JobStatus::Succeeded { exit_code: 0, warned: true }));
    let (_, action) = run_inner(&mut worker, WorkerEvent::Unlocked);
    assert!(matches!(action, WorkerAction::Finish(Ok(()))));
}

#[test]
fn processes_are_asked_before_they_are_killed() {
    let targets = vec![matched(ProcessAction::Terminate), matched(ProcessAction::Terminate)];
    let grace = targets[0].terminate_grace_secs;
    let (mut ending, ask) = begin_ending(targets);
    assert!(matches!(ask, EndingAsk::Request { index: 0 }));
    let ask = end_step(&mut ending, EndingEvent::Requested(true));
    assert!(matches!(ask, EndingAsk::Wait { index: 0, secs } if secs == grace));
    let ask = end_step(&mut ending, EndingEvent::Waited);
    assert!(matches!(ask, EndingAsk::Look { index: 0 }));
    let ask = end_step(&mut ending, EndingEvent::Alive(false));
    assert!(matches!(ask, EndingAsk::Request { index: 1 }));

    let ask = end_step(&mut ending, EndingEvent::Requested(false));
    assert!(matches!(ask, EndingAsk::Look { index: 1 }));
    let ask = end_step(&mut ending, EndingEvent::Alive(true));
    assert!(matches!(
        ask,
        EndingAsk::Log { line } if line.ends_with("did not exit gracefully; forcing termination")
    ));
    let ask = end_step(&mut ending, EndingEvent::Logged(Ok(())));
    assert!(matches!(ask, EndingAsk::Kill { index: 1 }));
    let ask = end_step(&mut ending, EndingEvent::Killed(true));
    assert!(matches!(ask, EndingAsk::Done(Ok(()))));
    assert!(matches!(end_step(&mut ending, EndingEvent::Waited), EndingAsk::Nothing));
}

#[test]
fn the_first_process_that_cannot_be_ended_stops_the_rest() {
    let targets = vec![matched(ProcessAction::Terminate), matched(ProcessAction::Terminate)];
    let (mut ending, _) = begin_ending(targets);
    end_step(&mut ending, EndingEvent::Requested(false));
    end_step(&mut ending, EndingEvent::Alive(true));
    end_step(&mut ending, EndingEvent::Logged(Ok(())));
    let ask = end_step(&mut ending, EndingEvent::Killed(false));
    assert!(matches!(ask, EndingAsk::Look { index: 0 }));
    let ask = end_step(&mut ending, EndingEvent::Alive(true));
    assert!(matches!(
        ask,
        EndingAsk::Done(Err(message)) if message.starts_with("failed to terminate ")
    ));
    assert_eq!(ending.stage, EndingStage::Over);

    let (mut ending, _) = begin_ending(vec![matched(ProcessAction::Terminate)]);
    end_step(&mut ending, EndingEvent::Requested(false));
    end_step(&mut ending, EndingEvent::Alive(true));
    let ask = end_step(&mut ending, EndingEvent::Logged(Err("disk full".to_owned())));
    assert!(matches!(ask, EndingAsk::Done(Err(message)) if message == "disk full"));

    let (_, ask) = begin_ending(Vec::new());
    assert!(matches!(ask, EndingAsk::Done(Ok(()))));
}

fn matched(action: ProcessAction) -> MatchedProcess {
    MatchedProcess {
        action,
        process: LockingProcess { pid: 7, name: "example.exe".to_owned(), start_time: 1 },
        terminate_grace_secs: 5,
    }
}
