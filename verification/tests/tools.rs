use dvup::job::{CommandSpec, JobStatus};
use dvup::language::Language;
use dvup::tui::app::{App, InitialLoadData};
use dvup::tui::content::StyledLine;
use dvup::tui::dispatch::{handle_key, handle_mouse};
use dvup::tui::events::{AppEvent, FinishedOperation};
use dvup::tui::geometry::Rect;
use dvup::tui::jobs::JobsRead;
use dvup::tui::keys::{Key, KeyCode, Mouse, MouseKind};
use dvup::tui::labels::{
    Availability, Operation, RunState, Tab, ToolKind, ToolView, VersionState,
    latest_version_error_message, latest_version_label,
};
use dvup::tui::log_view::activity_render_lines;
use dvup::tui::modal::{Effect, Modal};
use dvup::tui::model::{AppSettings, GithubSettings, JobItem, NetworkSettings, ProxyMode, ToolItem};
use dvup::tui::screen::footer_lines;
use dvup::tui::style::Color;
use dvup::tui::tool_keys::handle_tools_key;
use dvup::tui::views::{ListScene, draw_command_tools};
use dvup::version::{LatestVersionError, LatestVersionErrorKind, LatestVersionSource};

fn settings() -> AppSettings {
    AppSettings {
        language: Language::English,
        auto_diagnose_on_startup: false,
        hide_unsupported_and_missing_tools: false,
        network: NetworkSettings {
            proxy_mode: ProxyMode::Environment,
            proxy_url: None,
            no_proxy: Vec::new(),
        },
        github: GithubSettings { encrypted_api_key: None, poll_interval_secs: 900 },
    }
}

fn empty_app() -> App {
    App::empty(settings(), None, 0, "2026-07-12 10:20:30".to_owned())
}

fn version_command(name: &str) -> CommandSpec {
    CommandSpec {
        program: name.to_owned(),
        args: vec!["--version".to_owned()],
        working_directory: ".".to_owned(),
    }
}

fn tool(name: &str, availability: Availability) -> ToolItem {
    ToolItem {
        name: name.to_owned(),
        command: format!("{name} update"),
        version: VersionState::Loading,
        version_command: version_command(name),
        version_probe_id: 0,
        latest_version: VersionState::Loading,
        latest_source: Some(LatestVersionSource::Npm { package: name.to_owned() }),
        latest_probe_id: 0,
        supports_target_version: false,
        uninstall: None,
        availability,
        kind: ToolKind::BuiltIn,
        selected: false,
        run_state: RunState::Idle,
        elapsed: None,
    }
}

fn loaded_app() -> App {
    let mut app = empty_app();
    app.tools.agent_ready = true;
    app.apply_initial_load(InitialLoadData {
        tools: vec![
            tool("dvup", Availability::Installed),
            tool("uv", Availability::Installed),
            tool("rustup", Availability::Installed),
            tool("absent", Availability::Missing),
            tool("skipped", Availability::Unsupported),
        ],
        github_monitors: Vec::new(),
        jobs: Vec::new(),
    });
    app.effects.clear();
    app
}

fn press(app: &mut App, code: KeyCode) {
    handle_key(app, Key::plain(code));
}

fn mouse(app: &mut App, kind: MouseKind, column: u16, row: u16) {
    handle_mouse(app, Mouse { kind, column, row });
}

fn line_text(line: &StyledLine) -> String {
    line.pieces.iter().map(|piece| piece.text.as_str()).collect()
}

fn lines_text(lines: &[StyledLine]) -> String {
    lines.iter().map(|line| line_text(line) + "\n").collect()
}

fn list_text(scene: &ListScene) -> String {
    let mut text = line_text(&scene.title) + "\n" + &scene.header.join(" ") + "\n";
    for row in &scene.rows {
        for piece in &row.pieces {
            text.push_str(&piece.text);
            text.push(' ');
        }
        text.push('\n');
    }
    text
}

fn no_jobs() -> JobsRead {
    JobsRead { jobs: Ok(Vec::new()), log: Ok(Vec::new()) }
}

fn job(id: &str, status: JobStatus) -> JobItem {
    JobItem { id: id.to_owned(), name: id.to_owned(), status, updated_at_unix_ms: 0 }
}

#[test]
fn ignores_stale_version_probe_results() {
    let mut app = loaded_app();
    let name = app.tools.items[0].name.clone();
    let current_probe = app.tools.items[0].version_probe_id;
    app.tools.items[0].version = VersionState::Loading;

    app.process_events(vec![AppEvent::VersionResolved {
        name: name.clone(),
        probe_id: current_probe.wrapping_sub(1),
        version: Some("stale 0.0.1".to_owned()),
    }]);
    assert!(matches!(app.tools.items[0].version, VersionState::Loading));

    app.process_events(vec![AppEvent::VersionResolved {
        name,
        probe_id: current_probe,
        version: Some("current 1.0.0".to_owned()),
    }]);
    assert!(matches!(
        &app.tools.items[0].version,
        VersionState::Available(version) if version == "current 1.0.0"
    ));
}

#[test]
fn ignores_stale_latest_version_results() {
    let mut app = loaded_app();
    let name = app.tools.items[0].name.clone();
    let current_probe = app.tools.items[0].latest_probe_id;
    app.tools.items[0].latest_version = VersionState::Loading;

    app.process_events(vec![AppEvent::LatestVersionResolved {
        name: name.clone(),
        probe_id: current_probe.wrapping_sub(1),
        result: Ok("0.0.1".to_owned()),
    }]);
    assert!(matches!(app.tools.items[0].latest_version, VersionState::Loading));

    app.process_events(vec![AppEvent::LatestVersionResolved {
        name,
        probe_id: current_probe,
        result: Ok("1.2.3".to_owned()),
    }]);
    assert!(matches!(
        &app.tools.items[0].latest_version,
        VersionState::Available(version) if version == "1.2.3"
    ));
}

#[test]
fn github_latest_version_rate_limit_is_visible_in_the_tool_row_and_footer() {
    let mut app = loaded_app();
    app.language = Language::Chinese;
    app.tools.items[1].latest_source =
        Some(LatestVersionSource::GithubRelease { repository: "astral-sh/uv".to_owned() });
    let name = app.tools.items[1].name.clone();
    let probe_id = app.tools.items[1].latest_probe_id;
    app.tools.items[1].latest_version = VersionState::Loading;
    app.process_events(vec![AppEvent::LatestVersionResolved {
        name,
        probe_id,
        result: Err(LatestVersionError::new(
            LatestVersionErrorKind::RateLimited,
            "http status: 403",
        )),
    }]);

    assert!(matches!(
        &app.tools.items[1].latest_version,
        VersionState::Failed(error) if error.kind == LatestVersionErrorKind::RateLimited
    ));
    assert!(app.message.contains("已被限流"), "message: {}", app.message);
    let screen = list_text(&draw_command_tools(&app)) + &lines_text(&footer_lines(&app));
    let compact = screen.replace(' ', "");
    assert!(compact.contains("已限流"), "screen: {screen}");
    assert!(compact.contains("GitHubToken"), "screen: {screen}");
}

#[test]
fn latest_version_network_failure_has_a_retry_prompt() {
    let error = LatestVersionError::new(LatestVersionErrorKind::RequestFailed, "timeout");

    assert_eq!(
        latest_version_label(&VersionState::Failed(error.copy()), Language::English),
        "fetch failed"
    );
    let message = latest_version_error_message("example", &error, Language::English);
    assert!(message.contains("network/proxy"));
    assert!(message.contains("press r to retry"));
}

#[test]
fn target_version_shortcut_collects_one_exact_version() {
    let mut app = loaded_app();
    let index = app.tools.focused_tool_index().expect("focused tool");
    let name = app.tools.items[index].name.clone();
    app.tools.items[index].availability = Availability::Installed;
    app.tools.items[index].supports_target_version = true;

    handle_tools_key(&mut app, Key::plain(KeyCode::Char('v')));
    assert!(matches!(
        &app.modal,
        Modal::TargetVersion { name: modal_name, .. } if modal_name == &name
    ));

    for character in "1.2.3".chars() {
        press(&mut app, KeyCode::Char(character));
    }
    press(&mut app, KeyCode::Enter);
    assert!(matches!(
        &app.modal,
        Modal::ConfirmUpdate { tools, target_version: Some(version), .. }
            if tools == &[name] && version == "1.2.3"
    ));
}

#[test]
fn enter_skips_a_tool_that_is_already_at_the_latest_version() {
    let mut app = loaded_app();
    let index = app.tools.focused_tool_index().expect("focused tool");
    app.tools.items[index].availability = Availability::Installed;
    app.tools.items[index].version = VersionState::Available("1.2.3".to_owned());
    app.tools.items[index].latest_version = VersionState::Available("1.2.3".to_owned());
    app.tools.items[index].selected = true;

    handle_tools_key(&mut app, Key::plain(KeyCode::Enter));

    assert!(matches!(app.modal, Modal::Closed));
    assert_eq!(app.running, 0);
    assert!(app.message.contains("latest"));
}

#[test]
fn enter_confirms_only_tools_that_differ_from_the_latest_version() {
    let mut app = loaded_app();
    let current = app.tools.items[0].name.clone();
    let outdated = app.tools.items[1].name.clone();
    for tool in &mut app.tools.items[0..=1] {
        tool.availability = Availability::Installed;
        tool.selected = true;
    }
    app.tools.items[0].version = VersionState::Available("1.2.3".to_owned());
    app.tools.items[0].latest_version = VersionState::Available("1.2.3".to_owned());
    app.tools.items[1].version = VersionState::Available("1.2.2".to_owned());
    app.tools.items[1].latest_version = VersionState::Available("1.2.3".to_owned());

    handle_tools_key(&mut app, Key::plain(KeyCode::Enter));

    assert!(matches!(
        &app.modal,
        Modal::ConfirmUpdate { tools, current_tools, target_version: None }
            if tools == &[outdated] && current_tools == &[current]
    ));
}

#[test]
fn queued_self_update_tells_the_user_to_exit() {
    let mut app = loaded_app();
    app.tools.items[0].run_state = RunState::Queued;
    app.update_batch = Some(1);

    app.finish_update_batch("1.0");

    assert!(app.message.contains("exit dvup"));
    assert!(app.update_batch.is_none());
}

#[test]
fn clicking_tool_rows_toggles_only_available_tools() {
    let mut app = loaded_app();
    app.tools.items = vec![
        tool("available", Availability::Installed),
        tool("missing", Availability::Missing),
    ];
    app.tools.items[0].version = VersionState::Available("1.2.3".to_owned());
    app.tools.items[0].latest_version = VersionState::Unavailable;
    app.tools.rebuild_visible_tool_indices(false, None);
    app.tab = Tab::Tools;
    let screen = list_text(&draw_command_tools(&app));
    assert!(screen.contains("INSTALLED"), "screen: {screen}");
    assert!(screen.contains("LATEST"), "screen: {screen}");
    assert!(screen.contains("1.2.3"), "screen: {screen}");
    app.tools_drawn(Rect::new(0, 7, 100, 9), 0);

    let available_area = app.hits.tools[0].0;
    mouse(&mut app, MouseKind::LeftDown, available_area.x, available_area.y);
    assert_eq!(app.tools.index, 0);
    assert!(app.tools.items[0].selected);

    let missing_area = app.hits.tools[1].0;
    mouse(&mut app, MouseKind::LeftDown, missing_area.x, missing_area.y);
    assert_eq!(app.tools.index, 1);
    assert!(!app.tools.items[1].selected);
    assert_eq!(app.message, "missing is not available");
}

#[test]
fn filtered_tool_rows_map_to_the_canonical_tool_without_reprobing() {
    let mut app = loaded_app();
    app.tools.items = vec![
        tool("missing", Availability::Missing),
        tool("installed", Availability::Installed),
    ];
    app.tools.items[0].version_probe_id = 11;
    app.tools.items[1].version = VersionState::Available("1.2.3".to_owned());
    app.tools.items[1].version_probe_id = 12;
    app.tools.next_version_probe_id = 12;
    app.settings.hide_unsupported_and_missing_tools = true;
    app.tools.rebuild_visible_tool_indices(true, Some("installed"));
    app.tab = Tab::Tools;

    let screen = list_text(&draw_command_tools(&app));
    assert!(!screen.contains("missing update"), "screen: {screen}");
    assert!(screen.contains("installed update"), "screen: {screen}");
    assert_eq!(app.tools.visible, [1]);
    assert_eq!(app.tools.index, 0);
    assert_eq!(app.tools.focused_tool().map(|tool| tool.name.as_str()), Some("installed"));
    app.tools_drawn(Rect::new(0, 7, 100, 9), 0);

    let area = app.hits.tools[0].0;
    mouse(&mut app, MouseKind::LeftDown, area.x, area.y);

    assert!(!app.tools.items[0].selected);
    assert!(app.tools.items[1].selected);
    assert_eq!(app.tools.selected_for_update(), ["installed"]);
    assert_eq!(app.tools.next_version_probe_id, 12);
    assert_eq!(app.tools.items[1].version_probe_id, 12);
    assert!(matches!(
        &app.tools.items[1].version,
        VersionState::Available(version) if version == "1.2.3"
    ));
}

#[test]
fn mouse_movement_follows_focus_without_activating_items() {
    let mut app = loaded_app();
    app.tools.items = vec![
        tool("first", Availability::Installed),
        tool("second", Availability::Installed),
    ];
    app.tools.rebuild_visible_tool_indices(false, None);
    app.hits.tools = vec![(Rect::new(1, 4, 50, 1), 0), (Rect::new(1, 5, 50, 1), 1)];
    app.hits.tabs = vec![(Rect::new(10, 1, 8, 1), Tab::Jobs.index())];

    mouse(&mut app, MouseKind::Moved, 2, 5);
    assert_eq!(app.tools.index, 1);
    assert!(app.tools.items.iter().all(|tool| !tool.selected));

    mouse(&mut app, MouseKind::Moved, 11, 1);
    assert_eq!(app.hovered_tab, Some(Tab::Jobs.index()));
    assert_eq!(app.tab, Tab::Tools);

    app.tab = Tab::Activity;
    app.activity.lines = vec!["\n=== update example: OK ===".to_owned()];
    app.activity.timestamps = vec!["2026-07-12 10:20:30".to_owned()];
    app.hits.activity = vec![(Rect::new(1, 4, 50, 1), 0)];
    mouse(&mut app, MouseKind::Moved, 2, 4);
    assert_eq!(app.hovered_activity, Some(0));
    assert!(app.activity.expanded.is_empty());
    assert_eq!(
        activity_render_lines(&app)[1].line.style.bg,
        Some(Color::SelectionBg)
    );

    app.jobs.items = vec![job("job-1", JobStatus::Pending), job("job-2", JobStatus::Pending)];
    app.tab = Tab::Jobs;
    app.hits.jobs = vec![(Rect::new(1, 4, 50, 1), 0), (Rect::new(1, 5, 50, 1), 1)];
    mouse(&mut app, MouseKind::Moved, 2, 5);
    assert_eq!(app.jobs.index, 1);
    assert!(app.jobs.expanded.is_none());
}

#[test]
fn completed_background_job_reprobes_the_tool_version() {
    let mut app = loaded_app();
    let mut pending = job("job-1", JobStatus::Pending);
    pending.name = "rustup".to_owned();
    app.jobs.items = vec![pending];
    let index = app.tools.items.iter().position(|tool| tool.name == "rustup").expect("rustup row");
    let previous_probe = app.tools.items[index].version_probe_id;
    app.tools.items[index].version = VersionState::Available("1.0.0".to_owned());

    let mut done = job("job-1", JobStatus::Succeeded { exit_code: 0, warned: false });
    done.name = "rustup".to_owned();
    app.refresh_jobs(JobsRead { jobs: Ok(vec![done]), log: Ok(Vec::new()) })
        .expect("refresh completed job");

    assert!(app.tools.items[index].version_probe_id > previous_probe);
    assert!(matches!(app.tools.items[index].version, VersionState::Loading));
    assert!(app.jobs.items.iter().any(|job| job.id == "job-1"));
}

#[test]
fn clicking_tab_titles_switches_views() {
    let mut app = loaded_app();
    app.tabs_drawn(Rect::new(0, 0, 100, 3));
    assert_eq!(app.hits.tabs.len(), 5);

    for (index, expected) in [Tab::Tools, Tab::Activity, Tab::Jobs, Tab::Doctor, Tab::Settings]
        .into_iter()
        .enumerate()
    {
        let area = app.hits.tabs[index].0;
        mouse(&mut app, MouseKind::LeftDown, area.x, area.y);
        assert_eq!(app.tab, expected);
    }
}

#[test]
fn clicking_tool_view_titles_switches_command_and_github_tables() {
    let mut app = loaded_app();
    app.tool_views_drawn(Rect::new(0, 4, 100, 3));
    assert_eq!(app.hits.tool_views.len(), 2);

    for (index, expected) in [ToolView::Commands, ToolView::Github].into_iter().enumerate() {
        let area = app.hits.tool_views[index].0;
        mouse(&mut app, MouseKind::LeftDown, area.x, area.y);
        assert_eq!(app.tools.view, expected);
    }
}

#[test]
fn updates_are_started_once_per_tool_and_counted() {
    let mut app = loaded_app();
    app.start_updates(vec!["uv".to_owned(), "rustup".to_owned()], None, Vec::new());
    assert_eq!(app.running, 2);
    assert_eq!(app.update_batch, Some(2));
    let started: Vec<String> = app
        .effects
        .iter()
        .filter_map(|effect| match effect {
            Effect::Spawn { name, operation: Operation::Update, .. } => Some(name.clone()),
            _ => None,
        })
        .collect();
    assert_eq!(started, ["uv", "rustup"]);
    assert_eq!(app.tools.items[1].run_state, RunState::Running);

    for (name, left) in [("uv", 1), ("rustup", 0)] {
        app.process_event(AppEvent::Finished(FinishedOperation {
            name: name.to_owned(),
            success: true,
            output: format!("updated {name}: done\n"),
            operation: Operation::Update,
            elapsed: "1.0".to_owned(),
            batch_elapsed: "2.0".to_owned(),
            tools: Err("not read".to_owned()),
            jobs: no_jobs(),
        }));
        assert_eq!(app.running, left);
    }
    assert!(app.update_batch.is_none());
    assert_eq!(app.tools.items[1].run_state, RunState::Updated);
}

#[test]
fn a_second_update_waits_for_the_first() {
    let mut app = loaded_app();
    app.running = 1;
    handle_tools_key(&mut app, Key::plain(KeyCode::Enter));
    assert!(matches!(app.modal, Modal::Closed));
    assert!(app.effects.is_empty());
}
