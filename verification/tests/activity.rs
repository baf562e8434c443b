use dvup::job::{
    CommandSpec, Job, JobStatus, LockingProcess, MatchedProcess, ProcessAction, ProcessRule,
};
use dvup::language::Language;
use dvup::tui::activity::{
    ActivityTone, MAX_ACTIVITY_LINES, activity_outcome_label, activity_style, activity_tone,
};
use dvup::tui::app::{App, InitialLoadData};
use dvup::tui::content::{StyledLine, blank_line, line_of};
use dvup::tui::dispatch::{handle_key, handle_mouse};
use dvup::tui::geometry::Rect;
use dvup::tui::jobs::JobsRead;
use dvup::tui::keys::{Key, KeyCode, Mouse, MouseKind};
use dvup::tui::labels::{Availability, ProcessStrategy, RunState, Tab, ToolKind, VersionState};
use dvup::tui::layout::{Layout, Share, parts, shares};
use dvup::tui::list_keys::handle_jobs_key;
use dvup::tui::log_view::activity_render_lines;
use dvup::tui::modal::Effect;
use dvup::tui::model::{AppSettings, GithubSettings, JobItem, NetworkSettings, ProxyMode, ToolItem};
use dvup::tui::style::{Color, Style};
use dvup::tui::sweep::{
    JobSweep, SweepAsk, SweepEvent, SweepStep, WaitSweep, begin_sweep, sweep_job, sweep_step,
    terminate_active_job_waits_with,
};
use dvup::tui::views::draw_activity;
use dvup::tui::wrapping::{line_height, line_of_row};
use dvup::version::LatestVersionSource;
use dvup::worker::WorkerEffect;

fn settings() -> AppSettings {
    AppSettings {
        language: Language::English,
        auto_diagnose_on_startup: false,
        hide_unsupported_and_missing_tools: false,
        network: NetworkSettings {
            proxy_mode: ProxyMode::Environment,
            proxy_url: None,
            no_proxy: Vec::new(),
        },
        github: GithubSettings { encrypted_api_key: None, poll_interval_secs: 900 },
    }
}

fn empty_app() -> App {
    App::empty(settings(), None, 0, "2026-07-12 10:20:30".to_owned())
}

fn version_command(name: &str) -> CommandSpec {
    CommandSpec {
        program: name.to_owned(),
        args: vec!["--version".to_owned()],
        working_directory: ".".to_owned(),
    }
}

fn tool(name: &str, availability: Availability) -> ToolItem {
    ToolItem {
        name: name.to_owned(),
        command: format!("{name} update"),
        version: VersionState::Loading,
        version_command: version_command(name),
        version_probe_id: 0,
        latest_version: VersionState::Loading,
        latest_source: Some(LatestVersionSource::Npm { package: name.to_owned() }),
        latest_probe_id: 0,
        supports_target_version: false,
        uninstall: None,
        availability,
        kind: ToolKind::BuiltIn,
        selected: false,
        run_state: RunState::Idle,
        elapsed: None,
    }
}

fn loaded_app() -> App {
    let mut app = empty_app();
    app.tools.agent_ready = true;
    app.apply_initial_load(InitialLoadData {
        tools: vec![
            tool("dvup", Availability::Installed),
            tool("uv", Availability::Installed),
            tool("rustup", Availability::Installed),
            tool("absent", Availability::Missing),
            tool("skipped", Availability::Unsupported),
        ],
        github_monitors: Vec::new(),
        jobs: Vec::new(),
    });
    app.effects.clear();
    app
}

fn press(app: &mut App, code: KeyCode) {
    handle_key(app, Key::plain(code));
}

fn mouse(app: &mut App, kind: MouseKind, column: u16, row: u16) {
    handle_mouse(app, Mouse { kind, column, row });
}

fn line_text(line: &StyledLine) -> String {
    line.pieces.iter().map(|piece| piece.text.as_str()).collect()
}

fn no_jobs() -> JobsRead {
    JobsRead { jobs: Ok(Vec::new()), log: Ok(Vec::new()) }
}

fn job(id: &str, status: JobStatus) -> JobItem {
    JobItem { id: id.to_owned(), name: id.to_owned(), status, updated_at_unix_ms: 0 }
}

#[test]
fn activity_executions_are_collapsed_until_their_header_is_activated() {
    let mut app = loaded_app();
    write_log(
        &mut app,
        &[
            "Welcome",
            "\n=== update bun: OK ===",
            "downloaded package",
            "updated bun",
            "\n=== Complete: 1 updated, 0 queued, 0 failed (1 total) in 1.0s ===",
        ],
    );

    let collapsed = activity_render_lines(&app);
    assert!(collapsed.iter().any(|line| line.target == Some(1)));
    assert!(!collapsed.iter().any(|line| line_text(&line.line).contains("downloaded package")));

    app.hits.activity = vec![(Rect::new(2, 3, 30, 1), 1)];
    app.tab = Tab::Activity;
    mouse(&mut app, MouseKind::LeftDown, 4, 3);

    let expanded = activity_render_lines(&app);
    assert!(app.activity.expanded.contains(&1));
    assert!(expanded.iter().any(|line| line_text(&line.line).contains("downloaded package")));
}

#[test]
fn activity_lines_render_their_recorded_datetime() {
    let mut app = loaded_app();
    app.activity.lines = vec!["recorded event".to_owned()];
    app.activity.timestamps = vec!["2026-07-12 10:20:30".to_owned()];

    let rendered = activity_render_lines(&app);
    assert_eq!(
        line_text(&rendered[0].line),
        "[2026-07-12 10:20:30] recorded event"
    );
}

#[test]
fn renders_two_expanded_activity_executions_in_the_same_frame() {
    let mut app = loaded_app();
    app.tab = Tab::Activity;
    let first = "first output ".repeat(50);
    let second = "second output ".repeat(50);
    write_log(
        &mut app,
        &[
            "Welcome",
            "\n=== update first: OK ===",
            &first,
            "\n=== update second: FAILED ===",
            &second,
            "\n=== Complete: 1 updated, 0 queued, 1 failed (2 total) in 1.0s ===",
        ],
    );
    app.activity.expanded.extend([1, 3]);

    draw_activity(&mut app, Rect::new(0, 4, 42, 8));

    assert_eq!(app.activity.expanded.len(), 2);
    assert_eq!(app.hits.activity.len(), 1);
}

#[test]
fn activity_end_scroll_reaches_the_last_word_wrapped_line() {
    let mut app = loaded_app();
    app.tab = Tab::Activity;
    let line = "abcdefghijk ".repeat(5);
    let mut lines = vec![line.as_str(); 8];
    lines.push("BOTTOM_MARKER");
    write_log(&mut app, &lines);
    app.activity.scroll = usize::MAX;

    let scene = draw_activity(&mut app, Rect::new(0, 4, 32, 8));

    assert_eq!(scene.scroll + 6, scene.height);
    assert!(line_text(scene.lines.last().expect("last line")).contains("BOTTOM_MARKER"));
    assert!(scene.height > scene.lines.len());
}

#[test]
fn words_are_wrapped_at_the_inner_width() {
    let mut app = loaded_app();
    app.activity.lines = vec!["abcdefghijk ".repeat(5)];
    app.activity.timestamps = vec!["2026-07-12 10:20:30".to_owned()];
    let lines = activity_render_lines(&app);
    assert_eq!(line_height(&lines[0].line, 30), 4);
    assert_eq!(line_height(&lines[0].line, 200), 1);
    assert_eq!(line_height(&blank_line(), 30), 1);
}

#[test]
fn colors_activity_lines_by_outcome() {
    assert_eq!(activity_tone(">>> starting bun"), ActivityTone::Start);
    assert_eq!(activity_tone("=== update codex: QUEUED ==="), ActivityTone::Queued);
    assert_eq!(
        activity_tone("queued codex: waiting on process policy: codex.exe"),
        ActivityTone::Queued
    );
    assert_eq!(activity_tone("=== update bun: FAILED ==="), ActivityTone::Error);
    assert_eq!(
        activity_tone("Bun upgrade failed with error: HTTPForbidden"),
        ActivityTone::Error
    );
    assert_eq!(activity_tone("error: bun failed (exit code 1)"), ActivityTone::Error);
    assert_eq!(activity_tone("Please upgrade manually:"), ActivityTone::Hint);
    assert_eq!(activity_tone("job: 123"), ActivityTone::Metadata);
    assert_eq!(activity_tone("inspect: dvup jobs 123 --log"), ActivityTone::Metadata);
    assert_eq!(activity_tone("=== update rustup: OK ==="), ActivityTone::Success);
    assert_eq!(activity_outcome_label(true, true, Language::English), "QUEUED");
    assert_eq!(activity_outcome_label(true, false, Language::English), "OK");
    assert_eq!(activity_outcome_label(false, false, Language::English), "FAILED");
    assert_eq!(activity_style("=== update bun: FAILED ===").fg, Some(Color::Error));
    assert_eq!(activity_style("=== update codex: QUEUED ===").fg, Some(Color::Warning));
    assert_eq!(activity_style("=== update rustup: OK ===").fg, Some(Color::Success));
    assert_eq!(activity_tone("=== 更新 codex: 已排队 ==="), ActivityTone::Queued);
    assert_eq!(activity_tone("=== 更新 bun: 失败 ==="), ActivityTone::Error);
    assert_eq!(activity_tone("=== 更新 rustup: 成功 ==="), ActivityTone::Success);
    assert_eq!(activity_tone("进程策略：等待"), ActivityTone::Hint);
    assert_eq!(activity_tone("任务：123"), ActivityTone::Metadata);
    assert_eq!(
        activity_tone("=== 完成：2 项已更新，0 项已排队，0 项失败 ==="),
        ActivityTone::Success
    );
    assert_eq!(
        activity_tone("=== 完成：1 项已更新，0 项已排队，1 项失败 ==="),
        ActivityTone::Error
    );
    assert_eq!(activity_outcome_label(true, true, Language::Chinese), "已排队");
}

#[test]
fn job_results_expand_in_jobs_without_switching_to_activity() {
    let mut app = loaded_app();
    app.jobs.items = vec![job("result-test", JobStatus::Pending)];
    app.tab = Tab::Jobs;
    app.jobs.index = 0;
    app.hits.jobs = vec![(Rect::new(1, 4, 50, 1), 0)];

    mouse(&mut app, MouseKind::LeftDown, 3, 4);
    let mut asked = false;
    for effect in std::mem::take(&mut app.effects) {
        if let Effect::ReadJobLog { id } = effect {
            asked = true;
            app.show_job_log(id, Ok(b"job output\n".to_vec()));
        }
    }
    assert!(asked);

    assert_eq!(app.tab, Tab::Jobs);
    assert_eq!(app.jobs.expanded.as_deref(), Some("result-test"));
    assert_eq!(app.jobs.log, ["job output"]);

    handle_jobs_key(&mut app, Key::plain(KeyCode::Enter));
    assert_eq!(app.tab, Tab::Jobs);
    assert!(app.jobs.expanded.is_none());
}

#[test]
fn terminate_restarts_waiting_job_even_when_rules_are_already_terminate() {
    let status = JobStatus::WaitingForLocks { processes: vec![blocker("policy-test.exe")] };
    let mut ensured = Vec::new();

    let (summary, job) = sweep(waiting_job("policy-test", status), &mut ensured);

    assert_eq!(counts(summary), (1, 0, 0, 1, 0));
    assert_eq!(ensured, ["policy-test"]);
    assert!(matches!(job.status, JobStatus::Pending));
}

#[test]
fn terminate_restarts_job_left_in_terminating_state() {
    let status = JobStatus::TerminatingProcesses { processes: vec![blocker("terminating-test.exe")] };
    let mut ensured = Vec::new();

    let (summary, job) = sweep(waiting_job("terminating-test", status), &mut ensured);

    assert_eq!(counts(summary), (1, 0, 0, 1, 0));
    assert_eq!(ensured, ["terminating-test"]);
    assert!(matches!(job.status, JobStatus::Pending));
}

#[test]
fn terminate_toggle_updates_existing_pending_jobs() {
    let mut app = loaded_app();
    let pending = waiting_job("policy-test", JobStatus::Pending);
    let running = waiting_job("running-test", JobStatus::Running { attempt: 1 });

    app.toggle_process_strategy();
    assert_eq!(app.process_strategy, ProcessStrategy::Terminate);
    assert!(app.effects.iter().any(|effect| matches!(effect, Effect::TerminateWaits)));

    let mut outcomes = Vec::new();
    let mut jobs = Vec::new();
    for mut job in [pending, running] {
        job.process_rules[0].action = ProcessAction::Wait;
        let (mut sweeper, mut ask) = begin_sweep(job);
        loop {
            let event = match ask {
                SweepAsk::ChangeRules => {
                    let mut rules = std::mem::take(&mut sweeper.job.process_rules);
                    rules[0].action = ProcessAction::Terminate;
                    SweepEvent::Rules(Some((rules, 1)))
                }
                SweepAsk::FindProcesses => SweepEvent::Matches(Vec::new()),
                SweepAsk::ReadJob => {
                    let mut recorded = waiting_job("policy-test", JobStatus::Pending);
                    recorded.process_rules = std::mem::take(&mut sweeper.job.process_rules);
                    SweepEvent::Loaded(recorded)
                }
                SweepAsk::EnsureWorker { needed } => {
                    assert!(!needed);
                    SweepEvent::Restarted(false)
                }
                SweepAsk::Finish(outcome) => {
                    outcomes.extend(outcome);
                    break;
                }
                other => panic!("unexpected {other:?}"),
            };
            let changed = matches!(event, SweepEvent::Rules(_));
            let (effects, next) = sweep_job(&mut sweeper, event);
            if changed {
                assert!(matches!(effects.as_slice(), [WorkerEffect::Save]));
            }
            ask = next;
        }
        jobs.push(sweeper.job);
    }
    assert_eq!(jobs[0].process_rules[0].action, ProcessAction::Terminate);
    assert_eq!(jobs[1].process_rules[0].action, ProcessAction::Wait);

    app.process_policy_applied(Ok(terminate_active_job_waits_with(&outcomes)), no_jobs());
    assert!(app.message.contains("1 active job(s)"), "message: {}", app.message);
}

#[test]
fn switching_to_terminate_reports_the_swept_jobs() {
    let mut app = loaded_app();
    app.toggle_process_strategy();
    assert_eq!(app.process_strategy, ProcessStrategy::Terminate);
    assert!(app.effects.iter().any(|effect| matches!(effect, Effect::TerminateWaits)));
    let sweep = WaitSweep {
        active_jobs: 1,
        changed_rules: 1,
        stopped_processes: 0,
        restarted_jobs: 0,
        skipped_jobs: 0,
    };
    app.process_policy_applied(Ok(sweep), no_jobs());
    assert!(app.message.contains("1 active job(s)"), "message: {}", app.message);
}

#[test]
fn a_running_job_is_left_alone_by_a_sweep() {
    assert_eq!(sweep_step(&JobStatus::Running { attempt: 1 }), SweepStep::Leave);
    assert_eq!(
        sweep_step(&JobStatus::Pending),
        SweepStep::ChangeRules { recover: false }
    );
    let summary = terminate_active_job_waits_with(&vec![
        JobSweep::Refused,
        JobSweep::Unstopped { changed: 2 },
        JobSweep::Overtaken { changed: 1, stopped: 3 },
    ]);
    assert_eq!(counts(summary), (3, 3, 3, 0, 2));
}

#[test]
fn a_sweep_records_the_job_before_it_ends_processes() {
    let status = JobStatus::WaitingForLocks { processes: vec![blocker("policy-test.exe")] };
    let (mut sweeper, _) = begin_sweep(waiting_job("policy-test", status));
    let (effects, _) = sweep_job(&mut sweeper, SweepEvent::Rules(Some((Vec::new(), 1))));
    assert!(matches!(effects[0], WorkerEffect::Save));
    let target = MatchedProcess {
        action: ProcessAction::Terminate,
        process: blocker("policy-test.exe"),
        terminate_grace_secs: 5,
    };
    let (effects, ask) = sweep_job(&mut sweeper, SweepEvent::Matches(vec![target]));
    assert!(matches!(sweeper.job.status, JobStatus::TerminatingProcesses { .. }));
    assert!(matches!(effects.last(), Some(WorkerEffect::Save)));
    assert!(matches!(ask, SweepAsk::EndProcesses(targets) if targets.len() == 1));
    let (_, ask) = sweep_job(&mut sweeper, SweepEvent::Ended(Err("still there".to_owned())));
    assert!(matches!(ask, SweepAsk::Finish(Some(JobSweep::Unstopped { changed: 1 }))));
    assert!(matches!(sweeper.job.status, JobStatus::Failed { .. }));
}

#[test]
fn a_sweep_that_cannot_be_recorded_is_given_up() {
    let (mut sweeper, _) = begin_sweep(waiting_job("policy-test", JobStatus::Pending));
    let (_, ask) = sweep_job(&mut sweeper, SweepEvent::Broke("disk full".to_owned()));
    assert!(matches!(ask, SweepAsk::Abort(error) if error == "disk full"));
    let (_, ask) = begin_sweep(waiting_job("done", JobStatus::Succeeded { exit_code: 0, warned: false }));
    assert!(matches!(ask, SweepAsk::Finish(None)));
}

#[test]
fn the_log_keeps_its_newest_lines() {
    let mut app = loaded_app();
    for index in 0..MAX_ACTIVITY_LINES + 5 {
        app.push_activity(format!("line {index}"));
    }
    assert_eq!(app.activity.lines.len(), MAX_ACTIVITY_LINES);
    assert_eq!(app.activity.timestamps.len(), MAX_ACTIVITY_LINES);
    assert_eq!(
        app.activity.lines.last().map(String::as_str),
        Some("line 1004")
    );
}

fn write_log(app: &mut App, lines: &[&str]) {
    app.activity.lines = lines.iter().map(|line| (*line).to_owned()).collect();
    app.activity.timestamps = lines.iter().map(|_| "2026-07-12 10:20:30".to_owned()).collect();
}

fn blocker(name: &str) -> LockingProcess {
    LockingProcess { pid: u32::MAX, name: name.to_owned(), start_time: 1 }
}

fn waiting_job(name: &str, status: JobStatus) -> Job {
    Job {
        id: name.to_owned(),
        name: name.to_owned(),
        status,
        process_rules: vec![ProcessRule {
            name: name.to_owned(),
            action: ProcessAction::Terminate,
            terminate_grace_secs: 5,
        }],
        resource_group: name.to_owned(),
        command: CommandSpec {
            program: "Write-Output".to_owned(),
            args: vec!["done".to_owned()],
            working_directory: ".".to_owned(),
        },
        network: NetworkSettings {
            proxy_mode: ProxyMode::Environment,
            proxy_url: None,
            no_proxy: Vec::new(),
        },
        lock_timeout_secs: 60,
        retries: 0,
        retry_delay_secs: 1,
    }
}

fn sweep(job: Job, ensured: &mut Vec<String>) -> (WaitSweep, Job) {
    let (mut sweeper, ask) = begin_sweep(job);
    assert!(matches!(ask, SweepAsk::ChangeRules));
    let rules = std::mem::take(&mut sweeper.job.process_rules);
    let (effects, ask) = sweep_job(&mut sweeper, SweepEvent::Rules(Some((rules, 0))));
    assert!(effects.is_empty());
    assert!(matches!(ask, SweepAsk::FindProcesses));
    let (_, ask) = sweep_job(&mut sweeper, SweepEvent::Matches(Vec::new()));
    assert!(matches!(ask, SweepAsk::ReadJob));
    let status = std::mem::replace(&mut sweeper.job.status, JobStatus::Pending);
    let recorded = waiting_job(&sweeper.job.id, status);
    let (effects, ask) = sweep_job(&mut sweeper, SweepEvent::Loaded(recorded));
    assert!(matches!(effects[0], WorkerEffect::Save));
    if matches!(ask, SweepAsk::EnsureWorker { needed: true }) {
        ensured.push(sweeper.job.id.clone());
    }
    let (_, ask) = sweep_job(&mut sweeper, SweepEvent::Restarted(true));
    match ask {
        SweepAsk::Finish(Some(outcome)) => {
            (terminate_active_job_waits_with(&vec![outcome]), sweeper.job)
        },
        other => panic!("unexpected {other:?}"),
    }
}

fn counts(sweep: WaitSweep) -> (usize, usize, usize, usize, usize) {
    (
        sweep.active_jobs,
        sweep.changed_rules,
        sweep.stopped_processes,
        sweep.restarted_jobs,
        sweep.skipped_jobs,
    )
}

#[test]
fn a_word_wider_than_any_screen_is_wrapped() {
    let line = line_of(&"x".repeat(70_000), Style::plain());
    assert_eq!(line_height(&line, 65_533), 2);
    assert_eq!(line_height(&line, 40_000), 2);
    assert_eq!(line_height(&line, 16_383), 5);
    assert_eq!(line_height(&line, 10_000), 7);
    let wide = line_of(&"é".repeat(21_845), Style::plain());
    assert_eq!(line_height(&wide, 65_535), 1);
    assert_eq!(line_height(&wide, 20_000), 2);
}

#[test]
fn dragging_over_the_log_of_a_job_selects_lines_to_copy() {
    let mut app = loaded_app();
    app.tab = Tab::Jobs;
    app.jobs.items = vec![job("job-1", JobStatus::Pending)];
    app.show_job_log("job-1".to_owned(), Ok(b"one\ntwo\nthree\nfour\n".to_vec()));
    app.hits.job_detail = Some(Rect::new(0, 10, 40, 8));

    press(&mut app, KeyCode::Char('y'));
    assert!(app.effects.is_empty());

    mouse(&mut app, MouseKind::LeftDown, 5, 13);
    assert_eq!(app.jobs.log_selection, None);
    mouse(&mut app, MouseKind::LeftDrag, 5, 12);
    mouse(&mut app, MouseKind::LeftUp, 5, 12);
    assert_eq!(app.jobs.log_selection, Some((1, 2)));
    mouse(&mut app, MouseKind::LeftDrag, 5, 11);
    assert_eq!(app.jobs.log_selection, Some((1, 2)));
    let lines = app.job_details();
    assert_eq!(lines[1].pieces[0].style.bg, Some(Color::SelectionBg));
    assert_ne!(lines[0].pieces[0].style.bg, Some(Color::SelectionBg));

    press(&mut app, KeyCode::Char('y'));
    assert!(matches!(app.effects.as_slice(), [Effect::CopyText { text }] if text == "two\nthree"));
    press(&mut app, KeyCode::Esc);
    assert_eq!(app.jobs.log_selection, None);
    app.effects.clear();
    press(&mut app, KeyCode::Char('y'));
    assert!(app.effects.is_empty());
}

#[test]
fn wrapped_and_scrolled_lines_are_found_under_the_mouse() {
    let lines = vec![
        line_of(&"x".repeat(25), Style::plain()),
        line_of("short", Style::plain()),
        line_of("last", Style::plain()),
    ];
    let found: Vec<usize> = (0..6).map(|row| line_of_row(&lines, 10, row)).collect();
    assert_eq!(found, [0, 0, 0, 1, 2, 2]);
}

#[test]
fn the_list_of_the_jobs_leaves_room_for_a_log() {
    assert_eq!(shares(Layout::Jobs), [Share::Percent(45), Share::Percent(55)]);
    assert_eq!(
        shares(Layout::Screen),
        [Share::Exactly(4), Share::AtLeast(5), Share::Exactly(4)]
    );
    assert_eq!(
        shares(Layout::EditorText { gutter: 6 }),
        [Share::Exactly(6), Share::AtLeast(1)]
    );
}

#[test]
fn the_parts_of_the_screen_share_its_rows_and_columns() {
    assert_eq!(
        parts(Rect::new(0, 0, 80, 24), Layout::Screen),
        [Rect::new(0, 0, 80, 4), Rect::new(0, 4, 80, 16), Rect::new(0, 20, 80, 4)]
    );
    assert_eq!(
        parts(Rect::new(0, 0, 80, 4), Layout::Header),
        [Rect::new(0, 0, 80, 3), Rect::new(0, 3, 80, 1)]
    );
    assert_eq!(
        parts(Rect::new(2, 3, 40, 10), Layout::EditorText { gutter: 6 }),
        [Rect::new(2, 3, 6, 10), Rect::new(8, 3, 34, 10)]
    );
    assert_eq!(
        parts(Rect::new(0, 4, 80, 20), Layout::Jobs),
        [Rect::new(0, 4, 80, 9), Rect::new(0, 13, 80, 11)]
    );
    assert_eq!(
        parts(Rect::new(0, 0, 70, 9), Layout::Loading),
        [
            Rect::new(0, 0, 70, 1),
            Rect::new(0, 1, 70, 1),
            Rect::new(0, 2, 70, 1),
            Rect::new(0, 3, 70, 1),
            Rect::new(0, 4, 70, 5),
        ]
    );
    for layout in [Layout::Screen, Layout::Tools, Layout::Settings, Layout::Editor] {
        for height in 0..16 {
            let area = Rect::new(5, 7, 30, height);
            for part in parts(area, layout) {
                assert_eq!((part.x, part.width), (5, 30));
                assert!(part.y >= 7 && part.bottom() <= area.bottom());
            }
        }
    }
}
