use dvup::job::CommandSpec;
use dvup::language::Language;
use dvup::tui::app::{App, InitialLoadData, LoadedTools};
use dvup::tui::content::StyledLine;
use dvup::tui::dispatch::handle_mouse;
use dvup::tui::events::AppEvent;
use dvup::tui::geometry::{ListViewport, Rect, hitbox_target};
use dvup::tui::keys::{Key, KeyCode, Mouse, MouseKind};
use dvup::tui::labels::{Availability, RunState, Tab, ToolKind, VersionState};
use dvup::tui::list_keys::{handle_doctor_key, handle_normal_key};
use dvup::tui::modal::{Effect, SettingsChange};
use dvup::tui::model::{
    AppSettings, DoctorStatus, ExecutableCandidate, ExecutableDiagnosis, GithubSettings,
    NetworkSettings, ProxyMode, ToolDiagnosis, ToolItem, doctor_status,
};
use dvup::tui::settings::apply_change;
use dvup::tui::views::{ListScene, doctor_split, draw_doctor};
use dvup::version::LatestVersionSource;

fn settings() -> AppSettings {
    AppSettings {
        language: Language::English,
        auto_diagnose_on_startup: false,
        hide_unsupported_and_missing_tools: false,
        network: NetworkSettings {
            proxy_mode: ProxyMode::Environment,
            proxy_url: None,
            no_proxy: Vec::new(),
        },
        github: GithubSettings { encrypted_api_key: None, poll_interval_secs: 900 },
    }
}

fn empty_app() -> App {
    App::empty(settings(), None, 0, "2026-07-12 10:20:30".to_owned())
}

fn version_command(name: &str) -> CommandSpec {
    CommandSpec {
        program: name.to_owned(),
        args: vec!["--version".to_owned()],
        working_directory: ".".to_owned(),
    }
}

fn tool(name: &str, availability: Availability) -> ToolItem {
    ToolItem {
        name: name.to_owned(),
        command: format!("{name} update"),
        version: VersionState::Loading,
        version_command: version_command(name),
        version_probe_id: 0,
        latest_version: VersionState::Loading,
        latest_source: Some(LatestVersionSource::Npm { package: name.to_owned() }),
        latest_probe_id: 0,
        supports_target_version: false,
        uninstall: None,
        availability,
        kind: ToolKind::BuiltIn,
        selected: false,
        run_state: RunState::Idle,
        elapsed: None,
    }
}

fn loaded_app() -> App {
    let mut app = empty_app();
    app.tools.agent_ready = true;
    app.apply_initial_load(InitialLoadData {
        tools: vec![
            tool("dvup", Availability::Installed),
            tool("uv", Availability::Installed),
            tool("rustup", Availability::Installed),
            tool("absent", Availability::Missing),
            tool("skipped", Availability::Unsupported),
        ],
        github_monitors: Vec::new(),
        jobs: Vec::new(),
    });
    app.effects.clear();
    app
}

fn mouse(app: &mut App, kind: MouseKind, column: u16, row: u16) {
    handle_mouse(app, Mouse { kind, column, row });
}

fn line_text(line: &StyledLine) -> String {
    line.pieces.iter().map(|piece| piece.text.as_str()).collect()
}

fn lines_text(lines: &[StyledLine]) -> String {
    lines.iter().map(|line| line_text(line) + "\n").collect()
}

fn list_text(scene: &ListScene) -> String {
    let mut text = line_text(&scene.title) + "\n" + &scene.header.join(" ") + "\n";
    for row in &scene.rows {
        for piece in &row.pieces {
            text.push_str(&piece.text);
            text.push(' ');
        }
        text.push('\n');
    }
    text
}

fn candidate(path: &str, version: Option<&str>) -> ExecutableCandidate {
    ExecutableCandidate {
        path: path.to_owned(),
        source: "PATH".to_owned(),
        version: version.map(str::to_owned),
    }
}

fn diagnosis(name: &str, paths: &[(&str, Option<&str>)]) -> ToolDiagnosis {
    ToolDiagnosis {
        name: name.to_owned(),
        supported: true,
        has_conflict: paths.len() > 1,
        target: ExecutableDiagnosis {
            program: name.to_owned(),
            candidates: paths.iter().map(|(path, version)| candidate(path, *version)).collect(),
            versions_differ: paths.len() > 1,
        },
        updater: None,
    }
}

fn save_settings(app: &mut App, saved: &mut AppSettings) {
    for effect in std::mem::take(&mut app.effects) {
        if let Effect::SaveSettings(change) = effect {
            apply_change(saved, copied_change(&change));
            app.settings_saved(change, Ok(()));
        }
    }
}

fn copied_change(change: &SettingsChange) -> SettingsChange {
    match change {
        SettingsChange::AutoDiagnose(on) => SettingsChange::AutoDiagnose(*on),
        SettingsChange::HideUnavailable(on) => SettingsChange::HideUnavailable(*on),
        SettingsChange::Language(language) => SettingsChange::Language(*language),
        SettingsChange::Network(network) => SettingsChange::Network(NetworkSettings {
            proxy_mode: network.proxy_mode,
            proxy_url: network.proxy_url.clone(),
            no_proxy: network.no_proxy.clone(),
        }),
        SettingsChange::PollInterval(seconds) => SettingsChange::PollInterval(*seconds),
    }
}

#[test]
fn ignores_stale_doctor_results_and_accepts_the_current_scan() {
    let mut app = loaded_app();
    app.doctor.probe_id = 2;
    app.doctor.loading = true;

    app.process_events(vec![AppEvent::DoctorResolved {
        probe_id: 1,
        diagnoses: vec![diagnosis("stale", &[("stale/tool", Some("0.1.0"))])],
        error: None,
    }]);
    assert!(app.doctor.diagnoses.is_empty());
    assert!(app.doctor.loading);

    app.process_events(vec![AppEvent::DoctorResolved {
        probe_id: 2,
        diagnoses: vec![diagnosis(
            "uv",
            &[("first/uv", Some("1.0.0")), ("second/uv", Some("0.9.0"))],
        )],
        error: None,
    }]);

    assert!(!app.doctor.loading);
    assert_eq!(app.doctor.diagnoses.len(), 1);
    assert!(app.doctor.diagnoses[0].has_conflict);
    assert!(app.doctor.checked_at.is_some());
    assert!(app.message.contains("1 conflict"));
}

#[test]
fn entering_doctor_waits_for_an_explicit_scan() {
    let mut app = loaded_app();

    app.select_tab(Tab::Doctor);

    assert_eq!(app.tab, Tab::Doctor);
    assert_eq!(app.doctor.probe_id, 0);
    assert!(!app.doctor.loading);
    assert!(app.doctor.checked_at.is_none());
    assert!(app.message.contains("Enter"));
}

#[test]
fn doctor_enter_starts_the_first_scan_and_busy_keys_do_not_duplicate_it() {
    let mut app = loaded_app();
    app.tab = Tab::Doctor;

    handle_doctor_key(&mut app, Key::plain(KeyCode::Enter));
    read_manifest(&mut app);
    assert!(app.doctor.loading);
    assert_eq!(app.doctor.probe_id, 1);
    assert_eq!(app.doctor.next_probe_id, 1);

    handle_doctor_key(&mut app, Key::plain(KeyCode::Enter));
    read_manifest(&mut app);
    handle_normal_key(&mut app, Key::plain(KeyCode::Char('R')));
    reload_tools(&mut app);
    read_manifest(&mut app);
    assert_eq!(app.doctor.probe_id, 1);
    assert_eq!(app.doctor.next_probe_id, 1);
    assert!(app.message.contains("already running"));
}

#[test]
fn doctor_r_starts_the_first_scan_and_rescans_existing_results() {
    let mut app = loaded_app();
    app.tab = Tab::Doctor;

    handle_normal_key(&mut app, Key::plain(KeyCode::Char('r')));
    reload_tools(&mut app);
    read_manifest(&mut app);
    assert!(app.doctor.loading);
    assert_eq!(app.doctor.probe_id, 1);
    assert!(app.message.contains("Scanning installation conflicts"));

    app.doctor.loading = false;
    app.doctor.checked_at = Some("2026-07-12 20:00:00".to_owned());
    app.doctor.diagnoses = vec![diagnosis("uv", &[("first/uv", Some("1.0.0"))])];
    handle_normal_key(&mut app, Key::plain(KeyCode::Char('R')));
    reload_tools(&mut app);
    read_manifest(&mut app);
    assert!(app.doctor.loading);
    assert_eq!(app.doctor.probe_id, 2);
    assert_eq!(app.doctor.diagnoses.len(), 1);
}

#[test]
fn doctor_view_prompts_before_the_first_scan_in_both_languages() {
    let mut app = loaded_app();
    app.tab = Tab::Doctor;

    let english = doctor_screen(&mut app);
    assert!(english.contains("not scanned"), "screen: {english}");
    assert!(english.contains("Press Enter to scan"), "screen: {english}");

    app.language = Language::Chinese;
    let chinese = doctor_screen(&mut app);
    let compact_chinese = chinese.replace(' ', "");
    assert!(compact_chinese.contains("尚未诊断"), "screen: {chinese}");
    assert!(compact_chinese.contains("按Enter开始扫描"), "screen: {chinese}");
}

#[test]
fn doctor_rows_follow_mouse_focus_and_expand_without_switching_tabs() {
    let mut app = loaded_app();
    app.tab = Tab::Doctor;
    app.doctor.diagnoses = vec![
        diagnosis("codex", &[("first/codex", Some("1.0.0"))]),
        diagnosis("uv", &[("first/uv", Some("1.0.0"))]),
    ];
    app.hits.doctor = vec![(Rect::new(1, 4, 50, 1), 0), (Rect::new(1, 5, 50, 1), 1)];

    mouse(&mut app, MouseKind::Moved, 2, 5);
    assert_eq!(app.doctor.index, 1);
    assert!(app.doctor.expanded.is_none());

    mouse(&mut app, MouseKind::LeftDown, 2, 5);
    assert_eq!(app.tab, Tab::Doctor);
    assert_eq!(app.doctor.expanded.as_deref(), Some("uv"));

    handle_doctor_key(&mut app, Key::plain(KeyCode::Enter));
    assert!(app.doctor.expanded.is_none());
}

#[test]
fn doctor_view_renders_shadowed_installations_and_checked_time() {
    let mut app = loaded_app();
    app.tab = Tab::Doctor;
    app.doctor.diagnoses = vec![diagnosis(
        "uv",
        &[("first/uv", Some("1.0.0")), ("second/uv", Some("0.9.0"))],
    )];
    app.doctor.expanded = Some("uv".to_owned());
    app.doctor.checked_at = Some("2026-07-12 14:30:00".to_owned());

    let screen = doctor_screen(&mut app);
    assert!(screen.contains("1 tools · 1 warn"), "screen: {screen}");
    assert!(screen.contains("shadowed:"), "screen: {screen}");
    assert!(screen.contains("2026-07-12 14:30:00"), "screen: {screen}");
}

#[test]
fn tool_filter_hides_unavailable_doctor_rows_without_discarding_diagnoses() {
    let mut app = loaded_app();
    let mut saved = settings();
    let mut unsupported = diagnosis("skip", &[("path/skip", Some("1.0.0"))]);
    unsupported.supported = false;
    app.doctor.diagnoses = vec![
        unsupported,
        diagnosis("missing", &[]),
        diagnosis("ready", &[("path/ready", Some("1.0.0"))]),
    ];
    app.doctor.checked_at = Some("2026-07-13 12:00:00".to_owned());
    app.doctor.index = 1;
    app.doctor.expanded = Some("missing".to_owned());

    app.toggle_setting(1);
    save_settings(&mut app, &mut saved);

    assert!(app.settings.hide_unsupported_and_missing_tools);
    assert_eq!(app.doctor.diagnoses.len(), 3);
    assert_eq!(app.doctor.visible_count(true), 1);
    assert_eq!(
        app.doctor.focused_diagnosis(true).map(|diagnosis| diagnosis.name.as_str()),
        Some("ready")
    );
    assert!(app.doctor.expanded.is_none());

    app.tab = Tab::Doctor;
    let filtered_screen = doctor_screen(&mut app);
    assert!(!filtered_screen.contains("skip"), "screen: {filtered_screen}");
    assert!(!filtered_screen.contains("missing"), "screen: {filtered_screen}");
    assert!(filtered_screen.contains("ready"), "screen: {filtered_screen}");
    assert!(filtered_screen.contains("1 tools · 0 warn"), "screen: {filtered_screen}");
    assert_eq!(app.hits.doctor.len(), 1);

    let ready_area = app.hits.doctor[0].0;
    mouse(&mut app, MouseKind::LeftDown, ready_area.x, ready_area.y);
    assert_eq!(app.doctor.expanded.as_deref(), Some("ready"));

    app.toggle_setting(1);
    save_settings(&mut app, &mut saved);
    assert!(!app.settings.hide_unsupported_and_missing_tools);
    assert_eq!(app.doctor.visible_count(false), 3);
    assert_eq!(app.doctor.diagnoses.len(), 3);
}

#[test]
fn doctor_refresh_reloads_tool_configuration_from_disk() {
    let mut app = loaded_app();
    app.tab = Tab::Doctor;
    app.doctor.loading = true;
    assert!(!app.tools.items.iter().any(|tool| tool.name == "reloaded"));

    handle_normal_key(&mut app, Key::plain(KeyCode::Char('r')));
    let mut asked = false;
    for effect in std::mem::take(&mut app.effects) {
        if let Effect::ReloadTools(purpose) = effect {
            asked = true;
            app.tools_reloaded(
                purpose,
                Ok(LoadedTools {
                    tools: vec![tool("reloaded", Availability::Missing)],
                    github_monitors: Vec::new(),
                }),
            );
        }
    }

    assert!(asked);
    assert!(app.tools.items.iter().any(|tool| tool.name == "reloaded"));
}

#[test]
fn doctor_table_wheel_scrolls_after_the_terminal_height_shrinks() {
    let mut app = loaded_app();
    app.tab = Tab::Doctor;
    app.doctor.checked_at = Some("2026-07-12 22:00:00".to_owned());
    app.doctor.diagnoses = (0..20)
        .map(|index| diagnosis(&format!("tool{index:02}"), &[("path/tool", Some("1.0.0"))]))
        .collect();

    draw_list(&mut app, Rect::new(0, 4, 100, 22));
    draw_list(&mut app, Rect::new(0, 4, 100, 8));
    let table_row = app.hits.doctor.get(1).expect("second Doctor row").0;
    mouse(&mut app, MouseKind::Moved, table_row.x, table_row.y);
    assert_eq!(app.doctor.index, 1);

    for expected in [2, 3] {
        mouse(&mut app, MouseKind::ScrollDown, table_row.x, table_row.y);
        draw_list(&mut app, Rect::new(0, 4, 100, 8));
        assert_eq!(app.doctor.index, expected);
        assert_eq!(
            hitbox_target(&app.hits.doctor, table_row.x, table_row.y),
            Some(expected)
        );
    }
}

#[test]
fn list_scroll_keeps_focus_on_the_mouse_screen_row() {
    let mut viewport = ListViewport::empty();
    viewport.update(Rect::new(10, 20, 30, 4), 10, 3);

    assert_eq!(viewport.scroll_at(12, 21, 1), Some(5));
    assert_eq!(viewport.offset(), 4);
    assert_eq!(viewport.scroll_at(12, 21, -1), Some(4));
    assert_eq!(viewport.offset(), 3);
}

#[test]
fn a_point_outside_the_list_does_not_scroll_it() {
    let mut viewport = ListViewport::empty();
    viewport.update(Rect::new(10, 20, 30, 4), 10, 3);
    assert_eq!(viewport.scroll_at(9, 21, 1), None);
    assert_eq!(viewport.offset(), 3);
}

#[test]
fn a_failed_scan_is_told_and_keeps_the_last_results() {
    let mut app = loaded_app();
    app.doctor.probe_id = 1;
    app.doctor.loading = true;
    app.doctor.diagnoses = vec![diagnosis("uv", &[("first/uv", Some("1.0.0"))])];
    app.process_event(AppEvent::DoctorResolved {
        probe_id: 1,
        diagnoses: Vec::new(),
        error: Some("PATH is not set".to_owned()),
    });
    assert!(!app.doctor.loading);
    assert!(app.message.contains("PATH is not set"));
    assert_eq!(app.doctor.diagnoses.len(), 1);
}

#[test]
fn diagnoses_are_ranked_by_what_is_wrong() {
    let mut unsupported = diagnosis("a", &[("p", None)]);
    unsupported.supported = false;
    assert_eq!(doctor_status(&unsupported), DoctorStatus::Unsupported);
    assert_eq!(doctor_status(&diagnosis("a", &[])), DoctorStatus::Missing);
    assert_eq!(doctor_status(&diagnosis("a", &[("p", None), ("q", None)])), DoctorStatus::Conflict);
    assert_eq!(doctor_status(&diagnosis("a", &[("p", None)])), DoctorStatus::Fine);
}

fn read_manifest(app: &mut App) {
    for effect in std::mem::take(&mut app.effects) {
        if let Effect::LoadManifest { quiet } = effect {
            app.refresh_doctor(quiet, None);
        } else {
            app.effects.push(effect);
        }
    }
}

fn reload_tools(app: &mut App) {
    for effect in std::mem::take(&mut app.effects) {
        match effect {
            Effect::ReloadTools(purpose) => {
                let tools = vec![tool("dvup", Availability::Installed), tool("uv", Availability::Installed)];
                app.tools_reloaded(purpose, Ok(LoadedTools { tools, github_monitors: Vec::new() }));
            },
            other => app.effects.push(other),
        }
    }
}

fn draw_list(app: &mut App, area: Rect) {
    let scene = draw_doctor(app, area, None, "linux");
    app.diagnoses_drawn(area, scene.list.offset, None);
}

fn doctor_screen(app: &mut App) -> String {
    let area = Rect::new(0, 4, 100, 12);
    let detail = if doctor_split(app, area) { Some(Rect::new(0, 12, 100, 8)) } else { None };
    let scene = draw_doctor(app, area, detail, "linux");
    let mut text = list_text(&scene.list);
    if let Some((_, lines)) = &scene.prompt {
        text.push_str(&lines_text(lines));
    }
    if let Some(detail) = &scene.detail {
        text.push_str(&line_text(&detail.title));
        text.push_str(&lines_text(&detail.lines));
    }
    app.diagnoses_drawn(area, scene.list.offset, detail);
    text
}
