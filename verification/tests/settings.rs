use dvup::job::CommandSpec;
use dvup::language::Language;
use dvup::tui::app::{App, InitialLoadData};
use dvup::tui::content::StyledLine;
use dvup::tui::dispatch::{dispatch_event, handle_key, handle_mouse};
use dvup::tui::events::AppEvent;
use dvup::tui::geometry::{Rect, centered_rect};
use dvup::tui::keys::{Input, Key, KeyCode, Mouse, MouseKind, is_ctrl_c, is_shift_tab};
use dvup::tui::labels::{Availability, ProcessStrategy, RunState, Tab, ToolKind, VersionState};
use dvup::tui::list_keys::{handle_settings_key, navigated_tab};
use dvup::tui::modal::{Effect, Modal, SettingsChange};
use dvup::tui::model::{AppSettings, GithubSettings, NetworkSettings, ProxyMode, ToolItem};
use dvup::tui::screen::{footer_lines, github_rate_limit_color, quota_gauge};
use dvup::tui::settings::{SETTINGS_ROW_COUNT, SaveError, apply_change};
use dvup::tui::style::Color;
use dvup::tui::views::{ListScene, draw_settings};
use dvup::version::{GithubRateLimit, LatestVersionSource, NetworkTestResult};

fn settings() -> AppSettings {
    AppSettings {
        language: Language::English,
        auto_diagnose_on_startup: false,
        hide_unsupported_and_missing_tools: false,
        network: NetworkSettings {
            proxy_mode: ProxyMode::Environment,
            proxy_url: None,
            no_proxy: Vec::new(),
        },
        github: GithubSettings { encrypted_api_key: None, poll_interval_secs: 900 },
    }
}

fn empty_app() -> App {
    App::empty(settings(), None, 0, "2026-07-12 10:20:30".to_owned())
}

fn version_command(name: &str) -> CommandSpec {
    CommandSpec {
        program: name.to_owned(),
        args: vec!["--version".to_owned()],
        working_directory: ".".to_owned(),
    }
}

fn tool(name: &str, availability: Availability) -> ToolItem {
    ToolItem {
        name: name.to_owned(),
        command: format!("{name} update"),
        version: VersionState::Loading,
        version_command: version_command(name),
        version_probe_id: 0,
        latest_version: VersionState::Loading,
        latest_source: Some(LatestVersionSource::Npm { package: name.to_owned() }),
        latest_probe_id: 0,
        supports_target_version: false,
        uninstall: None,
        availability,
        kind: ToolKind::BuiltIn,
        selected: false,
        run_state: RunState::Idle,
        elapsed: None,
    }
}

fn loaded_app() -> App {
    let mut app = empty_app();
    app.tools.agent_ready = true;
    app.apply_initial_load(InitialLoadData {
        tools: vec![
            tool("dvup", Availability::Installed),
            tool("uv", Availability::Installed),
            tool("rustup", Availability::Installed),
            tool("absent", Availability::Missing),
            tool("skipped", Availability::Unsupported),
        ],
        github_monitors: Vec::new(),
        jobs: Vec::new(),
    });
    app.effects.clear();
    app
}

fn press(app: &mut App, code: KeyCode) {
    handle_key(app, Key::plain(code));
}

fn press_control(app: &mut App, character: char) {
    handle_key(app, Key::with_control(KeyCode::Char(character)));
}

fn mouse(app: &mut App, kind: MouseKind, column: u16, row: u16) {
    handle_mouse(app, Mouse { kind, column, row });
}

fn line_text(line: &StyledLine) -> String {
    line.pieces.iter().map(|piece| piece.text.as_str()).collect()
}

fn lines_text(lines: &[StyledLine]) -> String {
    lines.iter().map(|line| line_text(line) + "\n").collect()
}

fn list_text(scene: &ListScene) -> String {
    let mut text = line_text(&scene.title) + "\n" + &scene.header.join(" ") + "\n";
    for row in &scene.rows {
        for piece in &row.pieces {
            text.push_str(&piece.text);
            text.push(' ');
        }
        text.push('\n');
    }
    text
}

fn save_settings(app: &mut App, saved: &mut AppSettings) {
    for effect in std::mem::take(&mut app.effects) {
        if let Effect::SaveSettings(change) = effect {
            apply_change(saved, copied_change(&change));
            app.settings_saved(change, Ok(()));
        }
    }
}

fn copied_change(change: &SettingsChange) -> SettingsChange {
    match change {
        SettingsChange::AutoDiagnose(on) => SettingsChange::AutoDiagnose(*on),
        SettingsChange::HideUnavailable(on) => SettingsChange::HideUnavailable(*on),
        SettingsChange::Language(language) => SettingsChange::Language(*language),
        SettingsChange::Network(network) => SettingsChange::Network(NetworkSettings {
            proxy_mode: network.proxy_mode,
            proxy_url: network.proxy_url.clone(),
            no_proxy: network.no_proxy.clone(),
        }),
        SettingsChange::PollInterval(seconds) => SettingsChange::PollInterval(*seconds),
    }
}

#[test]
fn settings_toggle_persists_and_enables_diagnostics_on_the_next_tui_start() {
    let mut app = loaded_app();
    let mut saved = settings();
    app.tab = Tab::Settings;

    assert!(!app.settings.auto_diagnose_on_startup);
    assert_eq!(app.doctor.probe_id, 0);
    handle_settings_key(&mut app, Key::plain(KeyCode::Char(' ')));
    save_settings(&mut app, &mut saved);

    assert!(app.settings.auto_diagnose_on_startup);
    assert_eq!(app.doctor.probe_id, 0);
    assert!(app.message.contains("next time TUI starts"));
    assert!(saved.auto_diagnose_on_startup);

    let mut restarted = App::empty(saved, None, 0, "2026-07-12 10:20:30".to_owned());
    restarted.apply_initial_load(InitialLoadData {
        tools: Vec::new(),
        github_monitors: Vec::new(),
        jobs: Vec::new(),
    });
    for effect in std::mem::take(&mut restarted.effects) {
        if let Effect::LoadManifest { quiet } = effect {
            restarted.refresh_doctor(quiet, None);
        }
    }
    assert!(restarted.settings.auto_diagnose_on_startup);
    assert!(restarted.doctor.loading);
    assert_eq!(restarted.doctor.probe_id, 1);
    assert!(restarted.message.contains("Scanning installation conflicts"));
}

#[test]
fn settings_view_supports_mouse_focus_and_click_toggle() {
    let mut app = loaded_app();
    let mut saved = settings();
    let unfiltered_count = app.tools.items.len();
    let original_names = names(&app);
    let original_probe_ids = probe_ids(&app);
    let original_versions = versions(&app);
    let next_probe_id = app.tools.next_version_probe_id;
    assert!(app.tools.items.iter().any(|tool| matches!(
        tool.availability,
        Availability::Unsupported | Availability::Missing
    )));
    app.tab = Tab::Settings;
    let scene = draw_settings(&mut app, Rect::new(0, 4, 100, 12), "settings.toml");
    let screen = list_text(&scene.list);
    assert!(screen.contains("Settings"), "screen: {screen}");
    assert!(screen.contains("Run Doctor diagnostics when TUI starts"), "screen: {screen}");
    assert!(screen.contains("Hide unsupported or uninstalled tools"), "screen: {screen}");
    assert_eq!(app.hits.settings.len(), SETTINGS_ROW_COUNT);
    let area = app.hits.settings[0].0;

    mouse(&mut app, MouseKind::Moved, area.x, area.y);
    assert_eq!(app.settings_index, 0);
    mouse(&mut app, MouseKind::LeftDown, area.x, area.y);
    save_settings(&mut app, &mut saved);

    assert!(app.settings.auto_diagnose_on_startup);
    assert!(saved.auto_diagnose_on_startup);

    let filter_area = app.hits.settings[1].0;
    mouse(&mut app, MouseKind::Moved, filter_area.x, filter_area.y);
    assert_eq!(app.settings_index, 1);
    mouse(&mut app, MouseKind::LeftDown, filter_area.x, filter_area.y);
    save_settings(&mut app, &mut saved);

    assert!(app.settings.hide_unsupported_and_missing_tools);
    assert_eq!(app.tools.items.len(), unfiltered_count);
    assert_eq!(names(&app), original_names);
    assert_eq!(probe_ids(&app), original_probe_ids);
    assert_eq!(app.tools.next_version_probe_id, next_probe_id);
    assert!(app.tools.visible.len() < unfiltered_count);
    assert!(app.tools.visible.iter().all(|&index| !matches!(
        app.tools.items[index].availability,
        Availability::Unsupported | Availability::Missing
    )));
    assert_eq!(versions(&app), original_versions);
    assert!(saved.hide_unsupported_and_missing_tools);

    app.toggle_setting(1);
    save_settings(&mut app, &mut saved);
    assert!(!app.settings.hide_unsupported_and_missing_tools);
    assert_eq!(app.tools.visible, (0..app.tools.items.len()).collect::<Vec<_>>());
    assert_eq!(app.tools.next_version_probe_id, next_probe_id);
    assert_eq!(probe_ids(&app), original_probe_ids);
}

#[test]
fn recognizes_ctrl_c_and_navigation_keys() {
    let ctrl_c = Key::with_control(KeyCode::Char('c'));
    let plain_c = Key::plain(KeyCode::Char('c'));
    let shift_backtab = Key::with_shift(KeyCode::BackTab);
    let shifted_tab = Key::with_shift(KeyCode::Tab);
    let ctrl_tab = Key::with_control(KeyCode::Tab);

    assert!(is_ctrl_c(&ctrl_c));
    assert!(!is_ctrl_c(&plain_c));
    assert!(is_shift_tab(&shift_backtab));
    assert!(is_shift_tab(&shifted_tab));
    assert!(!is_shift_tab(&ctrl_tab));
    assert_eq!(ProcessStrategy::Wait.toggle(), ProcessStrategy::Terminate);
    assert_eq!(ProcessStrategy::Terminate.toggle(), ProcessStrategy::Wait);
    assert_eq!(navigated_tab(Tab::Tools, &KeyCode::Right), Some(Tab::Activity));
    assert_eq!(navigated_tab(Tab::Tools, &KeyCode::Left), Some(Tab::Settings));
    for code in [
        KeyCode::Tab,
        KeyCode::BackTab,
        KeyCode::Char('h'),
        KeyCode::Char('H'),
        KeyCode::Char('l'),
        KeyCode::Char('L'),
        KeyCode::Char('1'),
        KeyCode::Char('2'),
        KeyCode::Char('3'),
    ] {
        assert_eq!(navigated_tab(Tab::Tools, &code), None);
    }
}

#[test]
fn ctrl_c_requires_two_consecutive_presses_to_quit() {
    let mut app = loaded_app();

    press_control(&mut app, 'c');

    assert!(!app.should_quit);
    assert!(app.ctrl_c_armed);
    assert_eq!(app.message, "Press Ctrl+C again to quit");

    press_control(&mut app, 'c');

    assert!(app.should_quit);
}

#[test]
fn q_is_not_an_exit_shortcut() {
    let mut app = loaded_app();

    for code in [KeyCode::Char('q'), KeyCode::Char('Q')] {
        press(&mut app, code);
        assert!(!app.should_quit);
    }
}

#[test]
fn non_ctrl_c_key_cancels_the_quit_confirmation() {
    let mut app = loaded_app();

    press_control(&mut app, 'c');
    press(&mut app, KeyCode::Char('x'));
    press_control(&mut app, 'c');

    assert!(!app.should_quit);
    assert!(app.ctrl_c_armed);
    assert_eq!(app.message, "Press Ctrl+C again to quit");
}

#[test]
fn ctrl_c_confirmation_is_localized_and_second_press_forces_exit() {
    let mut app = loaded_app();
    app.language = Language::Chinese;
    app.running = 1;

    press_control(&mut app, 'c');

    assert!(!app.should_quit);
    assert_eq!(app.message, "再次按 Ctrl+C 退出");

    press_control(&mut app, 'c');

    assert!(app.should_quit);
}

#[test]
fn footer_shows_ctrl_c_as_the_only_quit_shortcut_in_both_languages() {
    let mut app = loaded_app();

    let english = lines_text(&footer_lines(&app));
    assert!(english.contains("Ctrl+C quit"), "screen: {english}");
    assert!(!english.contains("q / Ctrl+C"), "screen: {english}");
    assert!(english.contains("t TOML"), "screen: {english}");

    app.language = Language::Chinese;
    let chinese = lines_text(&footer_lines(&app));
    assert!(chinese.contains("Ctrl+C"), "screen: {chinese}");
    assert!(!chinese.contains("q / Ctrl+C"), "screen: {chinese}");
    assert!(chinese.contains("t "), "screen: {chinese}");
    assert!(chinese.contains("TOML"), "screen: {chinese}");
    assert!(chinese.contains("退出"), "screen: {chinese}");
}

#[test]
fn stale_network_test_results_are_ignored() {
    let mut app = loaded_app();
    app.network_test.probe_id = 2;
    app.network_test.loading = true;

    app.process_events(vec![
        AppEvent::NetworkTestResolved {
            probe_id: 1,
            results: Ok(vec![NetworkTestResult { name: "stale", elapsed_ms: 1, error: None }]),
        },
        AppEvent::NetworkTestResolved {
            probe_id: 2,
            results: Ok(vec![NetworkTestResult { name: "current", elapsed_ms: 2, error: None }]),
        },
    ]);

    assert!(!app.network_test.loading);
    assert_eq!(app.network_test.results.len(), 1);
    assert_eq!(app.network_test.results[0].name, "current");
}

#[test]
fn stale_github_credential_status_cannot_override_a_newer_result() {
    let mut app = loaded_app();
    app.quota.credential_probe_id = 2;

    app.process_events(vec![
        AppEvent::GithubCredentialResolved { probe_id: 1, result: Ok(false) },
        AppEvent::GithubCredentialResolved { probe_id: 2, result: Ok(true) },
    ]);

    assert!(app.quota.key_configured);
    assert!(app.quota.credential_error.is_none());
}

#[test]
fn stale_github_rate_limit_status_cannot_override_a_newer_result() {
    let mut app = loaded_app();
    app.quota.probe_id = 2;
    app.quota.loading = true;

    app.process_events(vec![
        AppEvent::GithubRateLimitResolved { probe_id: 1, result: Ok(quota("stale", 5_000, 4_999)) },
        AppEvent::GithubRateLimitResolved { probe_id: 2, result: Ok(quota("current", 5_000, 4_999)) },
    ]);

    assert!(!app.quota.loading);
    assert_eq!(
        app.quota.rate_limit.as_ref().map(|status| status.owner.as_str()),
        Some("current")
    );
}

#[test]
fn github_rate_limit_bar_renders_token_owner_used_and_remaining() {
    let mut app = loaded_app();
    app.quota.key_configured = true;
    app.quota.rate_limit = Some(quota("octocat", 5_000, 4_875));

    let gauge = quota_gauge(&app.quota, app.language);
    assert!(gauge.label.contains("@octocat"), "label: {}", gauge.label);
    assert!(gauge.label.contains("used 125 / 5000"), "label: {}", gauge.label);
    assert!(gauge.label.contains("remaining 4875"), "label: {}", gauge.label);
    assert_eq!((gauge.used, gauge.limit), (125, 5_000));
}

#[test]
fn github_rate_limit_color_warns_before_quota_is_exhausted() {
    assert_eq!(github_rate_limit_color(&quota("octocat", 100, 26)), Color::Success);
    assert_eq!(github_rate_limit_color(&quota("octocat", 100, 25)), Color::Warning);
    assert_eq!(github_rate_limit_color(&quota("octocat", 100, 10)), Color::Error);
}

#[test]
fn unknown_settings_rows_change_nothing() {
    let mut app = loaded_app();
    app.toggle_setting(SETTINGS_ROW_COUNT);
    assert!(app.effects.is_empty());
    assert!(matches!(app.modal, Modal::Closed));
}

#[test]
fn a_settings_file_that_cannot_be_written_changes_nothing() {
    let mut app = loaded_app();
    app.toggle_setting(0);
    for effect in std::mem::take(&mut app.effects) {
        if let Effect::SaveSettings(change) = effect {
            app.settings_saved(change, Err(SaveError::Failed("disk full".to_owned())));
        }
    }
    assert!(!app.settings.auto_diagnose_on_startup);
    assert!(app.message.contains("disk full"));
}

#[test]
fn released_keys_have_no_effect() {
    let mut app = loaded_app();
    let mut key = Key::plain(KeyCode::Right);
    key.released = true;
    dispatch_event(&mut app, Input::Key(key));
    assert_eq!(app.tab, Tab::Tools);
    key.released = false;
    dispatch_event(&mut app, Input::Key(key));
    assert_eq!(app.tab, Tab::Activity);
}

#[test]
fn a_dialog_is_centred_in_its_area() {
    assert_eq!(centered_rect(62, 9, Rect::new(0, 0, 100, 24)), Rect::new(19, 7, 62, 9));
    let small = centered_rect(62, 9, Rect::new(0, 0, 20, 6));
    assert!(small.width <= 20 && small.height <= 6);
}

fn quota(owner: &str, limit: u64, remaining: u64) -> GithubRateLimit {
    GithubRateLimit {
        owner: owner.to_owned(),
        limit,
        used: limit - remaining,
        remaining,
        reset_unix: 1,
    }
}

fn names(app: &App) -> Vec<String> {
    app.tools.items.iter().map(|tool| tool.name.clone()).collect()
}

fn probe_ids(app: &App) -> Vec<u64> {
    app.tools.items.iter().map(|tool| tool.version_probe_id).collect()
}

fn versions(app: &App) -> Vec<String> {
    app.tools.items.iter().map(|tool| tool.version.label().to_owned()).collect()
}

#[test]
fn a_dialog_takes_ctrl_c_for_itself() {
    let mut app = loaded_app();
    press_control(&mut app, 'c');
    assert!(app.ctrl_c_armed);
    press(&mut app, KeyCode::Char('c'));
    assert!(matches!(app.modal, Modal::AddCommand { .. }));
    assert!(!app.ctrl_c_armed);
    press_control(&mut app, 'c');
    assert!(matches!(app.modal, Modal::Closed));
    assert!(!app.ctrl_c_armed && !app.should_quit);
    press_control(&mut app, 'c');
    assert!(!app.should_quit);
    assert_eq!(app.message, "Press Ctrl+C again to quit");
    app.running = 2;
    press_control(&mut app, 'c');
    assert!(app.should_quit);
}
