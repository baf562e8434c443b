use dvup::job::{CommandSpec, JobStatus};
use dvup::language::Language;
use dvup::tui::app::{App, InitialLoadData};
use dvup::tui::arguments::{add_arguments, edit_arguments, remove_arguments, update_arguments};
use dvup::tui::content::StyledLine;
use dvup::tui::dialogs::draw_modal;
use dvup::tui::dispatch::{handle_key, handle_mouse, handle_paste};
use dvup::tui::form::{CommandForm, CommandFormMode, github_api_key_submission};
use dvup::tui::geometry::{Rect, centered_rect};
use dvup::tui::input::TextInput;
use dvup::tui::input_line::mask;
use dvup::tui::keys::{Key, KeyCode, Mouse, MouseKind};
use dvup::tui::labels::{Availability, Operation, RunState, Tab, ToolKind, VersionState};
use dvup::tui::modal::{Effect, Modal, ModalInputHitbox, SettingsChange};
use dvup::tui::modal_keys::handle_modal_key;
use dvup::tui::modal_mouse::modal_cursor_at;
use dvup::tui::model::{AppSettings, GithubSettings, NetworkSettings, ProxyMode, ToolItem};
use dvup::tui::settings::{KeyError, SaveError, apply_change};
use dvup::tui::tool_keys::handle_tools_key;
use dvup::version::LatestVersionSource;

fn settings() -> AppSettings {
    AppSettings {
        language: Language::English,
        auto_diagnose_on_startup: false,
        hide_unsupported_and_missing_tools: false,
        network: NetworkSettings {
            proxy_mode: ProxyMode::Environment,
            proxy_url: None,
            no_proxy: Vec::new(),
        },
        github: GithubSettings { encrypted_api_key: None, poll_interval_secs: 900 },
    }
}

fn empty_app() -> App {
    App::empty(settings(), None, 0, "2026-07-12 10:20:30".to_owned())
}

fn version_command(name: &str) -> CommandSpec {
    CommandSpec {
        program: name.to_owned(),
        args: vec!["--version".to_owned()],
        working_directory: ".".to_owned(),
    }
}

fn tool(name: &str, availability: Availability) -> ToolItem {
    ToolItem {
        name: name.to_owned(),
        command: format!("{name} update"),
        version: VersionState::Loading,
        version_command: version_command(name),
        version_probe_id: 0,
        latest_version: VersionState::Loading,
        latest_source: Some(LatestVersionSource::Npm { package: name.to_owned() }),
        latest_probe_id: 0,
        supports_target_version: false,
        uninstall: None,
        availability,
        kind: ToolKind::BuiltIn,
        selected: false,
        run_state: RunState::Idle,
        elapsed: None,
    }
}

fn loaded_app() -> App {
    let mut app = empty_app();
    app.tools.agent_ready = true;
    app.apply_initial_load(InitialLoadData {
        tools: vec![
            tool("dvup", Availability::Installed),
            tool("uv", Availability::Installed),
            tool("rustup", Availability::Installed),
            tool("absent", Availability::Missing),
            tool("skipped", Availability::Unsupported),
        ],
        github_monitors: Vec::new(),
        jobs: Vec::new(),
    });
    app.effects.clear();
    app
}

fn press_control(app: &mut App, character: char) {
    handle_key(app, Key::with_control(KeyCode::Char(character)));
}

fn mouse(app: &mut App, kind: MouseKind, column: u16, row: u16) {
    handle_mouse(app, Mouse { kind, column, row });
}

fn line_text(line: &StyledLine) -> String {
    line.pieces.iter().map(|piece| piece.text.as_str()).collect()
}

fn lines_text(lines: &[StyledLine]) -> String {
    lines.iter().map(|line| line_text(line) + "\n").collect()
}

fn command_form(name: &str, command: &str, field: usize) -> Modal {
    Modal::AddCommand {
        form: CommandForm {
            mode: CommandFormMode::Add,
            original_name: None,
            field,
            name: TextInput::new(name),
            command: TextInput::new(command),
        },
    }
}

fn command_of(app: &App) -> &str {
    match &app.modal {
        Modal::AddCommand { form } => form.command.value.as_str(),
        _ => panic!("command form"),
    }
}

fn save_settings(app: &mut App, saved: &mut AppSettings) {
    for effect in std::mem::take(&mut app.effects) {
        if let Effect::SaveSettings(change) = effect {
            apply_change(saved, copied_change(&change));
            app.settings_saved(change, Ok(()));
        }
    }
}

fn copied_change(change: &SettingsChange) -> SettingsChange {
    match change {
        SettingsChange::AutoDiagnose(on) => SettingsChange::AutoDiagnose(*on),
        SettingsChange::HideUnavailable(on) => SettingsChange::HideUnavailable(*on),
        SettingsChange::Language(language) => SettingsChange::Language(*language),
        SettingsChange::Network(network) => SettingsChange::Network(NetworkSettings {
            proxy_mode: network.proxy_mode,
            proxy_url: network.proxy_url.clone(),
            no_proxy: network.no_proxy.clone(),
        }),
        SettingsChange::PollInterval(seconds) => SettingsChange::PollInterval(*seconds),
    }
}

#[test]
fn github_api_key_submission_ignores_clipboard_edge_whitespace() {
    assert_eq!(
        github_api_key_submission("  github_pat_example_123\r\n"),
        Some("github_pat_example_123")
    );
    assert_eq!(github_api_key_submission(" \r\n\t"), None);
}

#[test]
fn github_api_key_save_failure_keeps_masked_input_and_reports_settings_path() {
    let settings_path = "/home/user/.dvup/settings.toml";
    let token = "github_pat_tui_retry_test";
    let mut app = loaded_app();
    app.language = Language::Chinese;
    app.modal = Modal::GithubApiKey { api_key: TextInput::new(token) };

    handle_modal_key(&mut app, Key::plain(KeyCode::Enter));
    assert!(app
        .effects
        .iter()
        .any(|effect| matches!(effect, Effect::SaveApiKey { key: Some(key) } if key == token)));
    app.api_key_saved(Err(KeyError::SettingsWrite(settings_path.to_owned())));

    assert!(matches!(
        &app.modal,
        Modal::GithubApiKey { api_key } if api_key.value == token
    ));
    assert!(app.settings.github.encrypted_api_key.is_none());
    assert!(!app.quota.key_configured);
    assert!(app.quota.credential_error.is_none());
    assert!(app.message.contains(settings_path), "message: {}", app.message);
    assert!(app.message.contains("Enter 重试"), "message: {}", app.message);
    assert!(!app.message.contains(token));
}

#[test]
fn a_saved_api_key_leaves_no_trace_in_the_dialog() {
    let mut app = loaded_app();
    app.modal = Modal::GithubApiKey { api_key: TextInput::new("github_pat_example") };
    handle_modal_key(&mut app, Key::plain(KeyCode::Enter));
    app.api_key_saved(Ok(Some("sealed".to_owned())));
    assert!(matches!(app.modal, Modal::Closed));
    assert!(app.quota.key_configured);
    assert_eq!(app.settings.github.encrypted_api_key.as_deref(), Some("sealed"));
}

#[test]
fn l_switches_languages_but_remains_text_in_the_add_form() {
    let mut app = loaded_app();
    let mut saved = settings();
    let lower_l = Key::plain(KeyCode::Char('l'));

    handle_key(&mut app, lower_l);
    save_settings(&mut app, &mut saved);
    assert_eq!(app.language, Language::Chinese);
    assert_eq!(app.settings.language, Language::Chinese);
    assert_eq!(saved.language, Language::Chinese);
    assert_eq!(app.message, "语言已切换为中文");
    assert_eq!(app.activity.lines[0], "欢迎使用 dvup。");
    assert_eq!(Availability::Installed.label(app.language), "已安装");
    assert_eq!(RunState::Updated.label(0, app.language), "已更新");
    assert_eq!(app.language.job_status(&JobStatus::Pending), "等待执行");

    app.modal = command_form("", "", 0);
    handle_key(&mut app, lower_l);
    assert_eq!(app.language, Language::Chinese);
    assert!(matches!(
        &app.modal,
        Modal::AddCommand { form } if form.name.value == "l"
    ));

    let mut restarted = App::empty(saved, None, 0, "2026-07-12 10:20:30".to_owned());
    restarted.apply_initial_load(InitialLoadData {
        tools: Vec::new(),
        github_monitors: Vec::new(),
        jobs: Vec::new(),
    });
    assert_eq!(restarted.language, Language::Chinese);
    assert_eq!(restarted.activity.lines[0], "欢迎使用 dvup。");
    assert_eq!(restarted.activity.lines[1], "按 Space 选择工具，然后按 Enter 更新。");
    assert_eq!(restarted.message, "就绪");
}

#[test]
fn modal_keyboard_input_never_reaches_the_underlying_view() {
    let mut app = loaded_app();
    app.modal = Modal::ConfirmUpdate {
        tools: vec!["example".to_owned()],
        target_version: None,
        current_tools: Vec::new(),
    };
    let original_tab = app.tab;
    let original_language = app.language;
    let original_strategy = app.process_strategy;

    for key in [
        Key::plain(KeyCode::Right),
        Key::plain(KeyCode::Char('l')),
        Key::with_shift(KeyCode::BackTab),
        Key::plain(KeyCode::Char('q')),
    ] {
        handle_key(&mut app, key);
    }

    assert_eq!(app.tab, original_tab);
    assert_eq!(app.language, original_language);
    assert_eq!(app.process_strategy, original_strategy);
    assert!(!app.should_quit);
    assert!(matches!(app.modal, Modal::ConfirmUpdate { .. }));

    press_control(&mut app, 'c');
    assert!(matches!(app.modal, Modal::Closed));
    assert!(!app.ctrl_c_armed);
    assert!(!app.should_quit);
}

#[test]
fn modal_mouse_input_never_reaches_the_underlying_view() {
    let mut app = loaded_app();
    app.tools.items = vec![tool("available", Availability::Installed)];
    app.tools.rebuild_visible_tool_indices(false, None);
    app.hits.tools = vec![(Rect::new(1, 4, 50, 1), 0)];
    app.hits.tabs = vec![(Rect::new(10, 1, 8, 1), Tab::Jobs.index())];
    app.modal = Modal::ConfirmDelete { name: "available".to_owned() };

    for (column, row) in [(2, 4), (11, 1)] {
        mouse(&mut app, MouseKind::LeftDown, column, row);
    }

    assert_eq!(app.tab, Tab::Tools);
    assert!(!app.tools.items[0].selected);

    app.tab = Tab::Activity;
    app.activity.scroll = 10;
    app.hits.activity = vec![(Rect::new(1, 4, 50, 1), 0)];
    for kind in [MouseKind::Moved, MouseKind::LeftDown, MouseKind::ScrollDown] {
        mouse(&mut app, kind, 2, 4);
    }
    assert_eq!(app.activity.scroll, 10);
    assert!(app.activity.expanded.is_empty());
    assert!(app.hovered_activity.is_none());
    assert!(matches!(app.modal, Modal::ConfirmDelete { .. }));
}

#[test]
fn add_command_input_supports_mouse_selection_and_replacement() {
    let mut app = loaded_app();
    app.modal = command_form("example", "abcd", 1);
    app.hits.modal_inputs = vec![ModalInputHitbox {
        area: Rect::new(10, 5, 10, 1),
        field: 1,
        visible_start: 0,
        visible_end: 4,
    }];

    for (kind, column) in [
        (MouseKind::LeftDown, 11),
        (MouseKind::LeftDrag, 13),
        (MouseKind::LeftUp, 13),
    ] {
        mouse(&mut app, kind, column, 5);
    }
    handle_modal_key(&mut app, Key::plain(KeyCode::Char('X')));

    assert_eq!(command_of(&app), "aXd");
}

#[test]
fn the_delete_dialog_is_a_centred_panel_with_its_keys() {
    let mut app = loaded_app();
    app.modal = Modal::ConfirmDelete { name: "example".to_owned() };
    let area = Rect::new(0, 0, 100, 24);

    let dialog = draw_modal(&mut app, area, "").expect("dialog");

    assert_eq!(dialog.frame, centered_rect(62, 9, area));
    assert_eq!(dialog.frame, Rect::new(19, 7, 62, 9));
    assert!(dialog.title.contains("Confirm delete"));
    assert!(lines_text(&dialog.lines).contains("[Enter/y]"));
}

#[test]
fn add_command_modal_remains_renderable_in_a_small_terminal() {
    let mut app = loaded_app();
    app.modal = command_form("example", "example update", 1);

    let dialog = draw_modal(&mut app, Rect::new(0, 0, 20, 6), "").expect("dialog");

    assert!(dialog.frame.width <= 20);
    assert!(dialog.frame.height <= 6);
}

#[test]
fn add_command_input_inserts_at_the_moved_cursor() {
    let mut app = loaded_app();
    app.modal = command_form("example", "abcd", 1);

    handle_modal_key(&mut app, Key::plain(KeyCode::Left));
    handle_modal_key(&mut app, Key::plain(KeyCode::Char('X')));

    assert_eq!(command_of(&app), "abcXd");
}

#[test]
fn add_command_input_replaces_a_keyboard_selection() {
    let mut app = loaded_app();
    app.modal = command_form("example", "old command", 1);

    handle_modal_key(&mut app, Key::with_control(KeyCode::Char('a')));
    handle_modal_key(&mut app, Key::plain(KeyCode::Char('X')));

    assert_eq!(command_of(&app), "X");
}

#[test]
fn add_command_input_replaces_a_shift_arrow_selection() {
    let mut app = loaded_app();
    app.modal = command_form("example", "abcd", 1);

    for key in [
        Key::plain(KeyCode::Left),
        Key::with_shift(KeyCode::Left),
        Key::with_shift(KeyCode::Left),
        Key::plain(KeyCode::Char('X')),
    ] {
        handle_modal_key(&mut app, key);
    }

    assert_eq!(command_of(&app), "aXd");
}

#[test]
fn edit_key_opens_the_selected_custom_command() {
    let mut app = loaded_app();
    let mut custom = tool("example", Availability::Installed);
    custom.kind = ToolKind::Custom;
    app.tools.items.push(custom);
    app.tools.rebuild_visible_tool_indices(false, None);
    app.tools.focus_tool_named("example");
    assert_eq!(
        app.tools.focused_tool().expect("global custom tool").kind,
        ToolKind::Custom
    );

    handle_tools_key(&mut app, Key::plain(KeyCode::Char('e')));
    let mut asked = false;
    for effect in std::mem::take(&mut app.effects) {
        if let Effect::LoadCustomCommand { name } = effect {
            asked = true;
            app.edit_command(
                name,
                Ok(Some(vec![
                    "example-cli".to_owned(),
                    "update".to_owned(),
                    "two words".to_owned(),
                ])),
            );
        }
    }
    assert!(asked);

    assert!(matches!(
        &app.modal,
        Modal::AddCommand {
            form: CommandForm {
                mode: CommandFormMode::Edit,
                original_name: Some(original_name),
                field: 1,
                name,
                command,
            },
        } if original_name == "example"
            && name.value == "example"
            && command.value == r#"example-cli update "two words""#
    ));

    handle_modal_key(&mut app, Key::plain(KeyCode::Up));
    assert_eq!(command_field(&app), 0);
    handle_modal_key(&mut app, Key::plain(KeyCode::Down));
    assert_eq!(command_field(&app), 1);

    handle_modal_key(&mut app, Key::plain(KeyCode::Tab));
    assert_eq!(command_field(&app), 0);

    handle_modal_key(&mut app, Key::with_control(KeyCode::Char('a')));
    for character in "renamed".chars() {
        handle_modal_key(&mut app, Key::plain(KeyCode::Char(character)));
    }
    handle_modal_key(&mut app, Key::plain(KeyCode::Enter));
    handle_modal_key(&mut app, Key::plain(KeyCode::Enter));
    assert!(matches!(
        &app.modal,
        Modal::ConfirmAdd {
            mode: CommandFormMode::Edit,
            original_name: Some(original_name),
            name,
            ..
        } if original_name == "example" && name == "renamed"
    ));
}

fn command_field(app: &App) -> usize {
    match &app.modal {
        Modal::AddCommand { form } => form.field,
        _ => panic!("command form"),
    }
}

#[test]
fn builds_update_subprocess_arguments() {
    assert_eq!(
        update_arguments("codex", Some("dvup_custom.toml"), false, None),
        ["update", "--background", "auto", "--config", "dvup_custom.toml", "codex"]
    );
    assert_eq!(
        update_arguments("codex", None, true, None),
        ["update", "--background", "auto", "--terminate-locking-processes", "codex"]
    );
    assert_eq!(
        update_arguments("codex", None, false, Some("2.1.207")),
        ["update", "--background", "auto", "--to", "2.1.207", "codex"]
    );
}

#[test]
fn adding_a_command_only_builds_a_save_operation() {
    let arguments = add_arguments(
        "sentinel",
        vec!["Write-Output".to_owned(), "must-not-run".to_owned()],
        false,
    );

    assert_eq!(arguments, ["add", "sentinel", "Write-Output", "must-not-run"]);
    assert!(!arguments.iter().any(|argument| argument == "update"));
    assert!(Operation::Add
        .completion_message("sentinel", true, "0.0", 0, Language::English)
        .contains("has not been run"));
    assert!(Operation::Add
        .completion_message("sentinel", true, "0.0", 0, Language::Chinese)
        .contains("尚未执行"));

    assert_eq!(
        add_arguments(
            "sentinel",
            vec!["Write-Output".to_owned(), "replacement".to_owned()],
            true,
        ),
        ["add", "--force", "sentinel", "Write-Output", "replacement"]
    );
    assert!(Operation::Edit
        .completion_message("sentinel", true, "0.0", 0, Language::English)
        .contains("Updated"));
    assert_eq!(
        edit_arguments(
            "sentinel",
            "renamed",
            vec!["Write-Output".to_owned(), "replacement".to_owned()],
        ),
        ["edit", "sentinel", "renamed", "Write-Output", "replacement"]
    );
    assert_eq!(remove_arguments("sentinel"), ["remove", "sentinel"]);
}

#[test]
fn proxy_editor_saves_strict_explicit_settings() {
    let mut app = loaded_app();
    let mut saved = settings();

    app.toggle_setting(2);
    assert!(matches!(app.modal, Modal::NetworkProxy { .. }));
    handle_modal_key(&mut app, Key::plain(KeyCode::Right));
    handle_modal_key(&mut app, Key::plain(KeyCode::Enter));
    handle_paste(&mut app, "http://127.0.0.1:7890");
    handle_modal_key(&mut app, Key::plain(KeyCode::Enter));
    handle_paste(&mut app, "localhost, .example.com");
    handle_modal_key(&mut app, Key::plain(KeyCode::Enter));
    save_settings(&mut app, &mut saved);
    assert!(matches!(app.modal, Modal::Closed));

    assert_eq!(saved.network.proxy_mode, ProxyMode::Explicit);
    assert_eq!(saved.network.proxy_url.as_deref(), Some("http://127.0.0.1:7890"));
    assert_eq!(saved.network.no_proxy, ["localhost", ".example.com"]);

    app.modal = Modal::Closed;
    app.toggle_setting(2);
    handle_modal_key(&mut app, Key::plain(KeyCode::Right));
    handle_modal_key(&mut app, Key::plain(KeyCode::Enter));
    save_settings(&mut app, &mut saved);
    assert_eq!(saved.network.proxy_mode, ProxyMode::Direct);
    assert!(saved.network.proxy_url.is_none());
    assert!(saved.network.no_proxy.is_empty());
}

#[test]
fn proxy_modal_can_select_and_save_direct_mode() {
    let mut app = loaded_app();
    let mut saved = settings();

    app.toggle_setting(2);
    handle_modal_key(&mut app, Key::plain(KeyCode::Right));
    handle_modal_key(&mut app, Key::plain(KeyCode::Right));
    handle_modal_key(&mut app, Key::plain(KeyCode::Enter));
    save_settings(&mut app, &mut saved);

    assert!(matches!(app.modal, Modal::Closed));
    assert_eq!(app.settings.network.proxy_mode, ProxyMode::Direct);
    assert_eq!(saved.network.proxy_mode, ProxyMode::Direct);
}

#[test]
fn proxy_modal_renders_complete_chinese_controls_at_common_width() {
    let mut app = loaded_app();
    app.language = Language::Chinese;
    app.toggle_setting(2);

    let dialog = draw_modal(&mut app, Rect::new(0, 0, 92, 26), "").expect("dialog");
    let screen = dialog.title.to_owned() + &lines_text(&dialog.lines);
    let compact = screen.replace(' ', "");

    assert!(compact.contains("代理模式"), "screen: {screen}");
    assert!(compact.contains("[Esc]取消"), "screen: {screen}");
}

#[test]
fn a_refused_proxy_keeps_the_form_open() {
    let mut app = loaded_app();
    app.toggle_setting(2);
    handle_modal_key(&mut app, Key::plain(KeyCode::Right));
    handle_modal_key(&mut app, Key::plain(KeyCode::Enter));
    handle_modal_key(&mut app, Key::plain(KeyCode::Enter));
    handle_modal_key(&mut app, Key::plain(KeyCode::Enter));
    for effect in std::mem::take(&mut app.effects) {
        if let Effect::SaveSettings(change) = effect {
            app.settings_saved(change, Err(SaveError::Invalid("proxy_url is required".to_owned())));
        }
    }
    assert!(matches!(app.modal, Modal::NetworkProxy { .. }));
    assert_eq!(app.message, "Invalid proxy settings: proxy_url is required");
    assert_eq!(app.settings.network.proxy_mode, ProxyMode::Environment);
}

#[test]
fn hidden_text_is_drawn_as_dots() {
    let secret = TextInput::new("github_pat_abc");
    let dots = mask(&secret, 40);
    assert_eq!(dots, "•".repeat(14));
}

#[test]
fn clicks_land_on_the_drawn_text() {
    let mut app = loaded_app();
    app.modal = command_form("example", "abcd", 1);
    let dialog = draw_modal(&mut app, Rect::new(0, 0, 100, 24), "").expect("dialog");
    assert_eq!(dialog.cursor.expect("cursor").1, app.hits.modal_inputs[1].area.y);
    let hitbox = app.hits.modal_inputs[1];
    assert_eq!(modal_cursor_at(&app, hitbox, hitbox.area.x), Some(0));
    assert_eq!(modal_cursor_at(&app, hitbox, hitbox.area.x + 2), Some(2));
}

#[test]
fn declining_an_update_starts_nothing() {
    let mut app = loaded_app();
    for code in [KeyCode::Esc, KeyCode::Char('n'), KeyCode::Char('N')] {
        app.modal = Modal::ConfirmUpdate {
            tools: vec!["uv".to_owned()],
            target_version: None,
            current_tools: Vec::new(),
        };
        handle_modal_key(&mut app, Key::plain(code));
        assert!(matches!(app.modal, Modal::Closed));
        assert!(app.effects.is_empty());
        assert_eq!(app.running, 0);
    }
}

#[test]
fn unclosed_quotes_keep_the_command_form_open() {
    let mut app = loaded_app();
    app.modal = command_form("example", "codex 'install", 1);
    handle_modal_key(&mut app, Key::plain(KeyCode::Enter));
    assert_eq!(command_of(&app), "codex 'install");
    assert!(app.effects.is_empty());
}
