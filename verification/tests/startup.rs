use dvup::job::{CommandSpec, JobStatus};
use dvup::language::Language;
use dvup::tui::app::{App, InitialLoadData};
use dvup::tui::dispatch::dispatch_event;
use dvup::tui::events::AppEvent;
use dvup::tui::jobs::{ACTIVE_JOB_REFRESH_INTERVAL, IDLE_JOB_REFRESH_INTERVAL};
use dvup::tui::keys::{Input, Key, KeyCode, Mouse, MouseKind};
use dvup::tui::labels::{
    Availability, InitialLoadPhase, InitialLoadProgress, RunState, ToolKind, VersionState,
};
use dvup::tui::loading::{
    ToolDefinition, ToolReadiness, build_tool_item, configuration_progress, probe_spec,
    subprocess_output, system_text_editor_command, tools_progress, truncate_version,
    version_from_output,
};
use dvup::tui::modal::Effect;
use dvup::tui::model::{
    AppSettings, GithubSettings, JobItem, NetworkSettings, ProxyMode, ToolItem, UninstallCommand,
};
use dvup::tui::screen::{initial_load_percentage, initial_load_text};
use dvup::version::LatestVersionSource;

fn settings() -> AppSettings {
    AppSettings {
        language: Language::English,
        auto_diagnose_on_startup: false,
        hide_unsupported_and_missing_tools: false,
        network: NetworkSettings {
            proxy_mode: ProxyMode::Environment,
            proxy_url: None,
            no_proxy: Vec::new(),
        },
        github: GithubSettings { encrypted_api_key: None, poll_interval_secs: 900 },
    }
}

fn empty_app() -> App {
    App::empty(settings(), None, 0, "2026-07-12 10:20:30".to_owned())
}

fn version_command(name: &str) -> CommandSpec {
    CommandSpec {
        program: name.to_owned(),
        args: vec!["--version".to_owned()],
        working_directory: ".".to_owned(),
    }
}

fn tool(name: &str, availability: Availability) -> ToolItem {
    ToolItem {
        name: name.to_owned(),
        command: format!("{name} update"),
        version: VersionState::Loading,
        version_command: version_command(name),
        version_probe_id: 0,
        latest_version: VersionState::Loading,
        latest_source: Some(LatestVersionSource::Npm { package: name.to_owned() }),
        latest_probe_id: 0,
        supports_target_version: false,
        uninstall: None,
        availability,
        kind: ToolKind::BuiltIn,
        selected: false,
        run_state: RunState::Idle,
        elapsed: None,
    }
}

#[test]
fn startup_loading_screen_renders_progress_before_tools_are_ready() {
    let mut app = empty_app();
    let progress = InitialLoadProgress { phase: InitialLoadPhase::Tools, completed: 3, total: 8 };
    app.initial_load = Some(progress);

    let text = initial_load_text(progress, app.frame, app.language);
    assert!(text.contains("Checking installed tools"), "text: {text}");
    assert_eq!(initial_load_percentage(progress), "37%");
    assert_eq!(app.language.text(" Starting dvup ", " 正在启动 dvup "), " Starting dvup ");
    assert!(app.tools.items.is_empty());
}

#[test]
fn q_does_not_exit_during_initial_loading() {
    let mut app = empty_app();
    app.initial_load = Some(InitialLoadProgress {
        phase: InitialLoadPhase::Configuration,
        completed: 0,
        total: 1,
    });

    dispatch_event(&mut app, Input::Key(Key::plain(KeyCode::Char('q'))));

    assert!(!app.should_quit);
}

#[test]
fn initial_loading_requires_two_consecutive_ctrl_c_presses_to_exit() {
    let mut app = empty_app();
    app.initial_load = Some(InitialLoadProgress {
        phase: InitialLoadPhase::Configuration,
        completed: 0,
        total: 1,
    });
    let ctrl_c = Key::with_control(KeyCode::Char('c'));

    dispatch_event(&mut app, Input::Key(ctrl_c));

    assert!(!app.should_quit);
    assert!(app.ctrl_c_armed);
    assert_eq!(app.message, "Press Ctrl+C again to quit");

    dispatch_event(&mut app, Input::Key(Key::plain(KeyCode::Char('q'))));
    assert!(!app.ctrl_c_armed);

    dispatch_event(&mut app, Input::Key(ctrl_c));
    assert!(!app.should_quit);
    assert!(app.ctrl_c_armed);

    dispatch_event(&mut app, Input::Key(ctrl_c));

    assert!(app.should_quit);
}

#[test]
fn idle_job_polling_is_slower_until_a_job_becomes_active() {
    let mut app = empty_app();

    assert_eq!(app.jobs.job_refresh_interval(), IDLE_JOB_REFRESH_INTERVAL);

    app.jobs.items.push(JobItem {
        id: "pending".to_owned(),
        name: "example".to_owned(),
        status: JobStatus::Pending,
        updated_at_unix_ms: 0,
    });
    assert_eq!(app.jobs.job_refresh_interval(), ACTIVE_JOB_REFRESH_INTERVAL);
}

#[test]
fn initial_load_skips_version_checks_for_missing_and_unsupported_tools() {
    let mut app = empty_app();
    app.tools.agent_ready = true;

    app.apply_initial_load(InitialLoadData {
        tools: vec![
            tool("installed", Availability::Installed),
            tool("updater-missing", Availability::UpdaterMissing),
            tool("missing", Availability::Missing),
            tool("unsupported", Availability::Unsupported),
        ],
        github_monitors: Vec::new(),
        jobs: Vec::new(),
    });

    assert_eq!(app.tools.next_version_probe_id, 2);
    assert_eq!(app.tools.next_latest_probe_id, 2);
    for tool in &app.tools.items[..2] {
        assert!(matches!(tool.version, VersionState::Loading));
        assert!(matches!(tool.latest_version, VersionState::Loading));
        assert_ne!(tool.version_probe_id, 0);
        assert_ne!(tool.latest_probe_id, 0);
    }
    for tool in &app.tools.items[2..] {
        assert!(matches!(tool.version, VersionState::Unavailable));
        assert!(matches!(tool.latest_version, VersionState::Unavailable));
        assert_eq!(tool.version_probe_id, 0);
        assert_eq!(tool.latest_probe_id, 0);
    }
}

#[test]
fn extracts_concise_versions_from_command_output() {
    assert_eq!(
        version_from_output(b"\x1b[32muv 0.8.0\x1b[0m\n", b""),
        Some("0.8.0".to_owned())
    );
    assert_eq!(
        version_from_output(b"Current Scoop version:\n0.5.2 - released\n", b""),
        Some("0.5.2".to_owned())
    );
    assert_eq!(version_from_output(b"\n", b"\n"), None);
    assert_eq!(
        version_from_output(b"Hermes Agent v0.18.2 (2026.7.7.2) - upstream 7b5ba205\n", b""),
        Some("0.18.2".to_owned())
    );
}

#[test]
fn builds_version_commands_from_explicit_probes() {
    let working_directory = "workspace";
    let uv = ToolDefinition {
        name: "uv".to_owned(),
        program: "uv".to_owned(),
        args: vec!["self".to_owned(), "update".to_owned()],
        probe_program: "uv".to_owned(),
        probe_args: vec!["--version".to_owned()],
        latest: None,
        has_version_update: false,
        uninstall: None,
    };
    let uv_version = probe_spec(&uv, working_directory);
    assert_eq!(uv_version.program, "uv");
    assert_eq!(uv_version.args, ["--version"]);
    assert_eq!(uv_version.working_directory, "workspace");

    let ripgrep = ToolDefinition::custom(
        "ripgrep",
        "/opt/homebrew/bin/brew".to_owned(),
        vec!["upgrade".to_owned(), "ripgrep".to_owned()],
    );
    let ripgrep_version = probe_spec(&ripgrep, working_directory);
    assert_eq!(ripgrep_version.program, "ripgrep");
    assert_eq!(ripgrep_version.args, ["--version"]);

    let codex = ToolDefinition::custom("codex-custom", "codex".to_owned(), vec!["install".to_owned()]);
    let codex_version = probe_spec(&codex, working_directory);
    assert_eq!(codex_version.program, "codex-custom");
    assert_eq!(codex_version.args, ["--version"]);
}

#[test]
fn a_failed_load_is_reported_and_opens_the_screen() {
    let mut app = empty_app();
    app.begin_loading();
    assert!(app.initial_load.is_some());
    assert!(app.effects.iter().any(|effect| matches!(effect, Effect::LoadInitial)));

    app.process_event(AppEvent::InitialLoadFinished(Err("no home directory".to_owned())));

    assert_eq!(app.initial_load_error.as_deref(), Some("no home directory"));
}

#[test]
fn no_input_but_ctrl_c_counts_while_loading() {
    let mut app = empty_app();
    app.initial_load = Some(configuration_progress());
    let tab = app.tab;
    for code in [KeyCode::Right, KeyCode::Char('l'), KeyCode::Enter, KeyCode::Esc] {
        dispatch_event(&mut app, Input::Key(Key::plain(code)));
    }
    dispatch_event(&mut app, Input::Mouse(Mouse { kind: MouseKind::LeftDown, column: 1, row: 1 }));
    dispatch_event(&mut app, Input::Paste("text".to_owned()));
    assert_eq!(app.tab, tab);
    assert_eq!(app.language, Language::English);
    assert!(!app.should_quit);
}

#[test]
fn load_progress_is_counted_per_phase() {
    assert_eq!(initial_load_percentage(configuration_progress()), "0%");
    assert_eq!(tools_progress(2, 4).completed, 2);
    assert_eq!(
        InitialLoadProgress { phase: InitialLoadPhase::Jobs, completed: 0, total: 0 }.percentage(),
        0
    );
    assert_eq!(
        InitialLoadProgress { phase: InitialLoadPhase::Jobs, completed: 9, total: 4 }.percentage(),
        100
    );
}

#[test]
fn invalid_bytes_in_program_output_are_replaced() {
    assert_eq!(subprocess_output(b"caf\xff\n", b""), "caf\u{fffd}\n");
    assert_eq!(version_from_output(b"\xffuv 1.2.3\n", b""), Some("1.2.3".to_owned()));
}

#[test]
fn long_versions_are_cut() {
    let long = "x".repeat(60);
    let cut = truncate_version(&long, 48);
    assert_eq!(cut.chars().count(), 48);
    assert!(cut.ends_with('…'));
    assert_eq!(truncate_version("1.2.3", 48), "1.2.3");
}

#[test]
fn system_text_editor_command_uses_the_platform_editor_and_exact_path() {
    let path = "folder with spaces/dvup_custom.toml";
    let (program, arguments) = system_text_editor_command(path, "windows");
    assert_eq!(program, "notepad.exe");
    assert_eq!(arguments, [path]);
    let (program, arguments) = system_text_editor_command(path, "macos");
    assert_eq!(program, "open");
    assert_eq!(arguments, ["-t", path]);
    let (program, arguments) = system_text_editor_command(path, "linux");
    assert_eq!(program, "xdg-open");
    assert_eq!(arguments, [path]);
}

#[test]
fn a_tool_keeps_the_command_that_uninstalls_it() {
    let mut definition =
        ToolDefinition::custom("ripgrep", "brew".to_owned(), vec!["upgrade".to_owned()]);
    definition.uninstall =
        Some(UninstallCommand { text: "brew uninstall ripgrep".to_owned(), derived: true });
    let item = build_tool_item(
        definition,
        ToolReadiness::Installed,
        "workspace",
        "brew upgrade".to_owned(),
        true,
    );
    let uninstall = item.uninstall.expect("uninstall command");
    assert_eq!(uninstall.text, "brew uninstall ripgrep");
    assert!(uninstall.derived);
}

#[test]
fn an_empty_interface_has_nothing_pointed_at_or_dragged() {
    let app = empty_app();
    assert_eq!((app.settings_index, app.frame), (0, 0));
    assert_eq!((app.hovered_tab, app.hovered_activity), (None, None));
    assert_eq!((app.modal_drag, app.toml_editor_drag), (None, None));
    assert!(app.toml_editor_area.is_none());
    assert!(app.network_test.results.is_empty() && !app.network_test.loading);
}
