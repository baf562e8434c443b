use dvup::job::CommandSpec;
use dvup::language::Language;
use dvup::tui::app::{App, InitialLoadData, LoadedTools};
use dvup::tui::content::StyledLine;
use dvup::tui::editor::TomlEditor;
use dvup::tui::events::AppEvent;
use dvup::tui::form::{
    GITHUB_MONITOR_FORM_FIELD_COUNT, MonitorForm, MonitorFormMode, github_monitor_from_form,
};
use dvup::tui::input::TextInput;
use dvup::tui::keys::{Key, KeyCode};
use dvup::tui::labels::{Availability, RunState, ToolKind, ToolView, VersionState};
use dvup::tui::list_keys::handle_normal_key;
use dvup::tui::modal::{Effect, Modal};
use dvup::tui::modal_keys::handle_modal_key;
use dvup::tui::model::{
    AppSettings, GithubReleaseMonitor, GithubSettings, MonitorOutcome, MonitorStatus,
    NetworkSettings, ProxyMode, ReleaseAssetFormat, ReleaseUpdatePolicy, ToolItem,
    automatic_release_update_names,
};
use dvup::tui::screen::footer_lines;
use dvup::tui::settings::{place_monitor, take_monitor};
use dvup::tui::tool_keys::{handle_github_tools_key, handle_tools_key};
use dvup::tui::views::{ListScene, draw_github_tools};
use dvup::version::LatestVersionSource;

fn settings() -> AppSettings {
    AppSettings {
        language: Language::English,
        auto_diagnose_on_startup: false,
        hide_unsupported_and_missing_tools: false,
        network: NetworkSettings {
            proxy_mode: ProxyMode::Environment,
            proxy_url: None,
            no_proxy: Vec::new(),
        },
        github: GithubSettings { encrypted_api_key: None, poll_interval_secs: 900 },
    }
}

fn empty_app() -> App {
    App::empty(settings(), None, 0, "2026-07-12 10:20:30".to_owned())
}

fn version_command(name: &str) -> CommandSpec {
    CommandSpec {
        program: name.to_owned(),
        args: vec!["--version".to_owned()],
        working_directory: ".".to_owned(),
    }
}

fn tool(name: &str, availability: Availability) -> ToolItem {
    ToolItem {
        name: name.to_owned(),
        command: format!("{name} update"),
        version: VersionState::Loading,
        version_command: version_command(name),
        version_probe_id: 0,
        latest_version: VersionState::Loading,
        latest_source: Some(LatestVersionSource::Npm { package: name.to_owned() }),
        latest_probe_id: 0,
        supports_target_version: false,
        uninstall: None,
        availability,
        kind: ToolKind::BuiltIn,
        selected: false,
        run_state: RunState::Idle,
        elapsed: None,
    }
}

fn loaded_app() -> App {
    let mut app = empty_app();
    app.tools.agent_ready = true;
    app.apply_initial_load(InitialLoadData {
        tools: vec![
            tool("dvup", Availability::Installed),
            tool("uv", Availability::Installed),
            tool("rustup", Availability::Installed),
            tool("absent", Availability::Missing),
            tool("skipped", Availability::Unsupported),
        ],
        github_monitors: Vec::new(),
        jobs: Vec::new(),
    });
    app.effects.clear();
    app
}

fn editor_of(app: &App) -> &TomlEditor {
    match &app.modal {
        Modal::TomlEditor { editor } => editor,
        _ => panic!("TOML editor"),
    }
}

fn line_text(line: &StyledLine) -> String {
    line.pieces.iter().map(|piece| piece.text.as_str()).collect()
}

fn lines_text(lines: &[StyledLine]) -> String {
    lines.iter().map(|line| line_text(line) + "\n").collect()
}

fn list_text(scene: &ListScene) -> String {
    let mut text = line_text(&scene.title) + "\n" + &scene.header.join(" ") + "\n";
    for row in &scene.rows {
        for piece in &row.pieces {
            text.push_str(&piece.text);
            text.push(' ');
        }
        text.push('\n');
    }
    text
}

fn monitor(name: &str, policy: ReleaseUpdatePolicy, enabled: bool) -> GithubReleaseMonitor {
    GithubReleaseMonitor {
        name: name.to_owned(),
        repository: "owner/repository".to_owned(),
        asset_regex: "^example\\.zip$".to_owned(),
        target_directory: format!("/opt/{name}"),
        format: ReleaseAssetFormat::Zip,
        update_policy: policy,
        cleanup_installer: true,
        max_download_bytes: 1024,
        max_extracted_bytes: 2048,
        max_extracted_files: 10,
        strip_components: 0,
        enabled,
    }
}

fn status(name: &str, installed: Option<&str>, latest: Option<&str>, error: Option<&str>) -> MonitorStatus {
    MonitorStatus {
        name: name.to_owned(),
        installed_tag: installed.map(str::to_owned),
        latest_tag: latest.map(str::to_owned),
        asset: Some("example.zip".to_owned()),
        error: error.map(str::to_owned),
    }
}

#[test]
fn github_monitor_form_preserves_exact_byte_limits() {
    let monitor = github_monitor_from_form(&form("/opt/example", "^example-.*\\.zip$"))
        .expect("valid monitor form");

    assert_eq!(monitor.max_download_bytes, 104_857_601);
    assert_eq!(monitor.max_extracted_bytes, 314_572_803);
    assert_eq!(monitor.max_extracted_files, 1_001);
    assert_eq!(monitor.strip_components, 1);
    assert_eq!(monitor.update_policy, ReleaseUpdatePolicy::Automatic);
}

#[test]
fn tools_tab_switches_between_command_tools_and_github_repositories() {
    let mut app = loaded_app();

    handle_tools_key(&mut app, Key::plain(KeyCode::Tab));
    assert_eq!(app.tools.view, ToolView::Github);
    handle_tools_key(&mut app, Key::plain(KeyCode::Tab));
    assert_eq!(app.tools.view, ToolView::Commands);
}

#[test]
fn github_refresh_reloads_repository_configuration_from_disk() {
    let mut app = loaded_app();
    app.tools.view = ToolView::Github;
    app.github.install_running = true;
    assert!(app.github.monitors.is_empty());

    handle_normal_key(&mut app, Key::plain(KeyCode::Char('r')));
    let mut asked = false;
    for effect in std::mem::take(&mut app.effects) {
        if let Effect::ReloadTools(purpose) = effect {
            asked = true;
            app.tools_reloaded(
                purpose,
                Ok(LoadedTools {
                    tools: Vec::new(),
                    github_monitors: vec![monitor("reloaded", ReleaseUpdatePolicy::Manual, false)],
                }),
            );
        }
    }

    assert!(asked);
    assert_eq!(app.github.monitors.len(), 1);
    assert_eq!(app.github.monitors[0].name, "reloaded");
}

#[test]
fn github_tool_a_toggles_all_enabled_repository_selections() {
    let mut app = loaded_app();
    app.github.monitors = vec![
        monitor("first", ReleaseUpdatePolicy::Manual, true),
        monitor("disabled", ReleaseUpdatePolicy::Manual, false),
        monitor("second", ReleaseUpdatePolicy::Manual, true),
    ];

    handle_github_tools_key(&mut app, Key::plain(KeyCode::Char('a')));

    let mut selected = app.github.selected.clone();
    selected.sort();
    assert_eq!(selected, ["first", "second"]);

    handle_github_tools_key(&mut app, Key::plain(KeyCode::Char('A')));

    assert!(app.github.selected.is_empty());
}

#[test]
fn github_tool_c_opens_the_add_repository_form() {
    let mut app = loaded_app();

    handle_github_tools_key(&mut app, Key::plain(KeyCode::Char('c')));

    assert!(matches!(
        &app.modal,
        Modal::GithubMonitorForm { form } if form.mode == MonitorFormMode::Add
    ));
}

#[test]
fn github_tool_t_opens_the_toml_editor() {
    let mut app = loaded_app();
    let custom_config_path = "/state/dvup_custom.toml".to_owned();

    handle_github_tools_key(&mut app, Key::plain(KeyCode::Char('t')));
    let mut asked = false;
    for effect in std::mem::take(&mut app.effects) {
        if matches!(effect, Effect::OpenToml) {
            asked = true;
            let path = app.toml_editor_path(&custom_config_path);
            app.toml_opened(Ok((path, "[tools]\n".to_owned())));
        }
    }

    assert!(asked);
    assert_eq!(editor_of(&app).path, custom_config_path);
    assert_eq!(editor_of(&app).text, "[tools]\n");
}

#[test]
fn github_tool_o_uses_the_system_toml_editor_action() {
    let mut app = loaded_app();
    app.running = 1;
    app.message.clear();

    handle_github_tools_key(&mut app, Key::plain(KeyCode::Char('o')));

    assert_eq!(
        app.message,
        "Wait for the current operation before editing TOML"
    );
    assert!(app.effects.is_empty());
}

#[test]
fn github_tool_enter_requires_an_explicit_repository_selection() {
    let mut app = loaded_app();
    app.github.monitors.push(monitor("example", ReleaseUpdatePolicy::Manual, true));

    handle_github_tools_key(&mut app, Key::plain(KeyCode::Enter));

    assert!(matches!(app.modal, Modal::Closed));
    assert_eq!(app.message, "Select an enabled GitHub repository first");
}

#[test]
fn github_tool_enter_confirms_available_update_and_skips_current_release() {
    let mut app = loaded_app();
    app.tools.view = ToolView::Github;
    app.github.monitors.push(monitor("example", ReleaseUpdatePolicy::Manual, true));
    app.github.statuses.push(status("example", Some("v1.0.0"), Some("v1.1.0"), None));

    assert_eq!(
        app.github.focused_github_monitor().map(|monitor| monitor.name.as_str()),
        Some("example")
    );
    handle_github_tools_key(&mut app, Key::plain(KeyCode::Char(' ')));
    handle_github_tools_key(&mut app, Key::plain(KeyCode::Enter));
    assert!(matches!(
        &app.modal,
        Modal::ConfirmGithubMonitorUpdate { monitors } if monitors == &["example".to_owned()]
    ));

    app.modal = Modal::Closed;
    app.github.statuses[0].installed_tag = Some("v1.1.0".to_owned());
    handle_github_tools_key(&mut app, Key::plain(KeyCode::Enter));
    assert!(matches!(app.modal, Modal::Closed));
    assert!(app.message.contains("Already at the latest"));
}

#[test]
fn github_probe_event_updates_versions_without_creating_install_state() {
    let mut app = loaded_app();
    app.github.probe_running = true;

    app.process_events(vec![AppEvent::ReleaseMonitorsProbed(Ok(vec![status(
        "example",
        Some("v1.0.0"),
        Some("v1.1.0"),
        None,
    )]))]);

    assert!(!app.github.probe_running);
    assert_eq!(app.github.statuses[0].latest_tag.as_deref(), Some("v1.1.0"));
    assert!(app.message.contains("1 update"));
    assert!(!app
        .effects
        .iter()
        .any(|effect| matches!(effect, Effect::InstallReleases { .. })));
}

#[test]
fn only_available_automatic_monitors_are_selected_after_a_probe() {
    let monitors = vec![
        monitor("automatic", ReleaseUpdatePolicy::Automatic, true),
        monitor("manual", ReleaseUpdatePolicy::Manual, true),
        monitor("current", ReleaseUpdatePolicy::Automatic, true),
        monitor("failed", ReleaseUpdatePolicy::Automatic, true),
        monitor("disabled", ReleaseUpdatePolicy::Automatic, false),
    ];
    let statuses = vec![
        status("automatic", Some("v1"), Some("v2"), None),
        status("manual", Some("v1"), Some("v2"), None),
        status("current", Some("2"), Some("v2"), None),
        status("failed", Some("v1"), None, Some("release failed")),
        status("disabled", Some("v1"), Some("v2"), None),
    ];

    assert_eq!(
        automatic_release_update_names(&monitors, &statuses),
        ["automatic".to_owned()]
    );
}

#[test]
fn github_monitor_form_enter_saves_from_any_field_and_keeps_strict_fields() {
    let mut app = loaded_app();
    let mut saved: Vec<GithubReleaseMonitor> = Vec::new();
    let mut filled = form("/opt/installed", "^example-.*\\.zip$");
    filled.cleanup_installer = false;
    app.modal = Modal::GithubMonitorForm { form: filled };

    handle_modal_key(&mut app, Key::plain(KeyCode::Enter));
    save_monitor(&mut app, &mut saved);

    assert!(matches!(app.modal, Modal::Closed));
    assert_eq!(app.tools.view, ToolView::Github);
    assert_eq!(app.github.index, 0);
    let monitor = saved.first().expect("saved monitor");
    assert_eq!(monitor.repository, "owner/repository");
    assert_eq!(monitor.asset_regex, "^example-.*\\.zip$");
    assert_eq!(monitor.max_download_bytes, 104_857_601);
    assert_eq!(monitor.max_extracted_bytes, 314_572_803);
    assert_eq!(monitor.update_policy, ReleaseUpdatePolicy::Automatic);
    assert!(!monitor.cleanup_installer);
    assert!(monitor.enabled);
}

#[test]
fn invalid_github_monitor_form_keeps_all_input_for_correction() {
    let mut app = loaded_app();
    let mut filled = form("relative/path", "^example-.*\\.zip$");
    filled.field = GITHUB_MONITOR_FORM_FIELD_COUNT - 1;
    app.modal = Modal::GithubMonitorForm { form: filled };

    handle_modal_key(&mut app, Key::plain(KeyCode::Enter));
    for effect in std::mem::take(&mut app.effects) {
        if let Effect::SaveMonitor { monitor, .. } = effect {
            assert_eq!(monitor.target_directory, "relative/path");
            app.github_monitor_saved(
                MonitorFormMode::Add,
                Err("target_directory must be an absolute path".to_owned()),
            );
        }
    }

    assert!(matches!(
        &app.modal,
        Modal::GithubMonitorForm { form }
            if form.repository.value == "owner/repository"
                && form.target_directory.value == "relative/path"
                && form.asset_regex.value == "^example-.*\\.zip$"
    ));
    assert!(app.message.contains("absolute path"), "{}", app.message);
    assert!(app.github.monitors.is_empty());
}

#[test]
fn github_monitor_edit_and_delete_actions_are_persisted() {
    let mut app = loaded_app();
    let mut saved: Vec<GithubReleaseMonitor> = Vec::new();
    let mut filled = form("/opt/installed", r"^example\.zip$");
    filled.update_policy = ReleaseUpdatePolicy::Manual;
    filled.max_download_bytes = TextInput::new("100");
    filled.max_extracted_bytes = TextInput::new("200");
    filled.max_extracted_files = TextInput::new("10");
    filled.strip_components = TextInput::new("0");
    app.modal = Modal::GithubMonitorForm { form: filled };
    handle_modal_key(&mut app, Key::plain(KeyCode::Enter));
    save_monitor(&mut app, &mut saved);
    assert_eq!(saved.len(), 1);
    assert!(saved[0].enabled);

    app.open_github_monitor_form(MonitorFormMode::Edit, Some(0));
    match &mut app.modal {
        Modal::GithubMonitorForm { form } => form.enabled = false,
        other => panic!("unexpected {other:?}"),
    }
    handle_modal_key(&mut app, Key::plain(KeyCode::Enter));
    save_monitor(&mut app, &mut saved);
    assert_eq!(saved.len(), 1);
    assert_eq!(saved[0].name, "example");
    assert_eq!(saved[0].repository, "owner/repository");
    assert_eq!(saved[0].asset_regex, r"^example\.zip$");
    assert_eq!(saved[0].max_download_bytes, 100);
    assert_eq!(saved[0].max_extracted_bytes, 200);
    assert_eq!(saved[0].max_extracted_files, 10);
    assert_eq!(saved[0].strip_components, 0);
    assert!(!saved[0].enabled);
    assert!(!app.github.monitors[0].enabled);

    app.modal = Modal::ConfirmDeleteGithubMonitor { index: 0 };
    handle_modal_key(&mut app, Key::plain(KeyCode::Enter));
    let asked = std::mem::take(&mut app.effects);
    assert!(matches!(asked.as_slice(), [Effect::DeleteMonitor { index: 0 }]));
    let name = take_monitor(&mut saved, 0).expect("saved monitor");
    assert!(saved.is_empty());
    app.github_monitor_deleted(0, Ok((saved, name)));
    assert!(app.github.monitors.is_empty());
    assert_eq!(app.github.index, 0);
    assert_eq!(app.message, "Removed GitHub monitor example");
    assert!(app.effects.is_empty());
}

#[test]
fn monitors_are_replaced_and_deleted_in_place() {
    let mut app = loaded_app();
    let mut saved = Vec::new();
    assert_eq!(
        place_monitor(&mut saved, None, monitor("first", ReleaseUpdatePolicy::Manual, true)),
        Ok(0)
    );
    assert_eq!(
        place_monitor(&mut saved, None, monitor("second", ReleaseUpdatePolicy::Manual, true)),
        Ok(1)
    );
    assert_eq!(
        place_monitor(&mut saved, Some(0), monitor("first", ReleaseUpdatePolicy::Manual, false)),
        Ok(0)
    );
    assert!(!saved[0].enabled);
    assert!(place_monitor(
        &mut saved,
        Some(7),
        monitor("third", ReleaseUpdatePolicy::Manual, true)
    )
    .is_err());

    let name = take_monitor(&mut saved, 0).expect("first monitor");
    assert_eq!(name, "first");
    assert_eq!(saved.len(), 1);
    assert_eq!(saved[0].name, "second");
    assert!(take_monitor(&mut saved, 3).is_err());

    app.github.selected = vec!["first".to_owned(), "second".to_owned()];
    app.github_monitor_deleted(0, Ok((saved, name)));
    assert_eq!(app.github.monitors.len(), 1);
    assert_eq!(app.github.selected, ["second"]);
}

#[test]
fn explicit_config_loads_github_monitors_but_disables_form_writes() {
    let mut app = App::empty(
        settings(),
        Some("/work/explicit.toml".to_owned()),
        0,
        "2026-07-12 10:20:30".to_owned(),
    );
    app.apply_initial_load(InitialLoadData {
        tools: Vec::new(),
        github_monitors: vec![monitor("explicit", ReleaseUpdatePolicy::Manual, true)],
        jobs: Vec::new(),
    });
    app.effects.clear();
    app.tools.view = ToolView::Github;
    assert_eq!(app.github.monitors.len(), 1);

    handle_github_tools_key(&mut app, Key::plain(KeyCode::Char('c')));

    assert!(matches!(app.modal, Modal::Closed));
    assert!(app.message.contains("--config"));
    assert!(app.effects.is_empty());
}

#[test]
fn github_tool_view_renders_repository_versions_status_and_target() {
    let mut app = loaded_app();
    app.github.monitors.push(monitor("example", ReleaseUpdatePolicy::Manual, true));
    app.github.statuses.push(status("example", Some("v1.2.3"), Some("v1.2.3"), None));
    app.tools.view = ToolView::Github;

    let screen = list_text(&draw_github_tools(&app)) + &lines_text(&footer_lines(&app));

    assert!(screen.contains("owner/repository"), "screen: {screen}");
    assert!(screen.contains("v1.2.3"), "screen: {screen}");
    assert!(screen.contains("up to date"), "screen: {screen}");
    assert!(screen.contains("INSTALLED"), "screen: {screen}");
    assert!(screen.contains("manual"), "screen: {screen}");
    assert!(screen.contains("a all"), "screen: {screen}");
    assert!(screen.contains("c add"), "screen: {screen}");
    assert!(screen.contains("t TOML"), "screen: {screen}");
    assert!(screen.contains("o editor"), "screen: {screen}");
    assert!(screen.contains("Enter install"), "screen: {screen}");
}

#[test]
fn numbers_in_the_monitor_form_are_checked() {
    let mut filled = form("/opt/example", "^example\\.zip$");
    filled.max_download_bytes = TextInput::new("many");
    assert!(github_monitor_from_form(&filled).is_err());
    filled.max_download_bytes = TextInput::new("18446744073709551616");
    assert!(github_monitor_from_form(&filled).is_err());
    filled.max_download_bytes = TextInput::new("18446744073709551615");
    assert_eq!(
        github_monitor_from_form(&filled).map(|monitor| monitor.max_download_bytes),
        Ok(u64::MAX)
    );
}

#[test]
fn installed_releases_are_noted_by_outcome() {
    let mut app = loaded_app();
    app.github.monitors = vec![
        monitor("first", ReleaseUpdatePolicy::Manual, true),
        monitor("second", ReleaseUpdatePolicy::Manual, true),
    ];
    app.github.install_running = true;
    app.process_event(AppEvent::ReleaseMonitorsResolved(Ok(vec![
        MonitorOutcome::Updated {
            name: "first".to_owned(),
            tag: "v2".to_owned(),
            asset: "first.zip".to_owned(),
        },
        MonitorOutcome::Failed { name: "second".to_owned(), error: "no asset".to_owned() },
    ])));
    assert!(!app.github.install_running);
    assert_eq!(app.github.statuses[0].installed_tag.as_deref(), Some("v2"));
    assert_eq!(app.github.statuses[1].error.as_deref(), Some("no asset"));
}

fn form(target_directory: &str, asset_regex: &str) -> MonitorForm {
    MonitorForm {
        mode: MonitorFormMode::Add,
        original_index: None,
        field: 2,
        name: TextInput::new("example"),
        repository: TextInput::new("owner/repository"),
        asset_regex: TextInput::new(asset_regex),
        target_directory: TextInput::new(target_directory),
        format: ReleaseAssetFormat::Zip,
        update_policy: ReleaseUpdatePolicy::Automatic,
        cleanup_installer: true,
        max_download_bytes: TextInput::new("104857601"),
        max_extracted_bytes: TextInput::new("314572803"),
        max_extracted_files: TextInput::new("1001"),
        strip_components: TextInput::new("1"),
        enabled: true,
    }
}

fn save_monitor(app: &mut App, saved: &mut Vec<GithubReleaseMonitor>) {
    for effect in std::mem::take(&mut app.effects) {
        if let Effect::SaveMonitor { original_index, monitor } = effect {
            let index = place_monitor(saved, original_index, monitor).expect("placed monitor");
            let shown = saved.iter().map(copied).collect();
            app.github_monitor_saved(MonitorFormMode::Add, Ok((index, shown)));
        }
    }
}

fn copied(source: &GithubReleaseMonitor) -> GithubReleaseMonitor {
    GithubReleaseMonitor {
        name: source.name.clone(),
        repository: source.repository.clone(),
        asset_regex: source.asset_regex.clone(),
        target_directory: source.target_directory.clone(),
        format: source.format,
        update_policy: source.update_policy,
        cleanup_installer: source.cleanup_installer,
        max_download_bytes: source.max_download_bytes,
        max_extracted_bytes: source.max_extracted_bytes,
        max_extracted_files: source.max_extracted_files,
        strip_components: source.strip_components,
        enabled: source.enabled,
    }
}
