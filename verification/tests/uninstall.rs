use dvup::job::CommandSpec;
use dvup::language::Language;
use dvup::tui::app::{App, InitialLoadData};
use dvup::tui::arguments::uninstall_arguments;
use dvup::tui::content::StyledLine;
use dvup::tui::dialogs::draw_modal;
use dvup::tui::dispatch::handle_key;
use dvup::tui::events::{AppEvent, FinishedOperation};
use dvup::tui::geometry::Rect;
use dvup::tui::jobs::JobsRead;
use dvup::tui::keys::{Key, KeyCode};
use dvup::tui::labels::{Availability, Operation, RunState, ToolKind, VersionState};
use dvup::tui::modal::{Effect, Modal};
use dvup::tui::model::{
    AppSettings, GithubSettings, NetworkSettings, ProxyMode, ToolItem, UninstallCommand,
};
use dvup::version::LatestVersionSource;

fn settings() -> AppSettings {
    AppSettings {
        language: Language::English,
        auto_diagnose_on_startup: false,
        hide_unsupported_and_missing_tools: false,
        network: NetworkSettings {
            proxy_mode: ProxyMode::Environment,
            proxy_url: None,
            no_proxy: Vec::new(),
        },
        github: GithubSettings { encrypted_api_key: None, poll_interval_secs: 900 },
    }
}

fn empty_app() -> App {
    App::empty(settings(), None, 0, "2026-07-12 10:20:30".to_owned())
}

fn version_command(name: &str) -> CommandSpec {
    CommandSpec {
        program: name.to_owned(),
        args: vec!["--version".to_owned()],
        working_directory: ".".to_owned(),
    }
}

fn tool(name: &str, availability: Availability) -> ToolItem {
    ToolItem {
        name: name.to_owned(),
        command: format!("{name} update"),
        version: VersionState::Loading,
        version_command: version_command(name),
        version_probe_id: 0,
        latest_version: VersionState::Loading,
        latest_source: Some(LatestVersionSource::Npm { package: name.to_owned() }),
        latest_probe_id: 0,
        supports_target_version: false,
        uninstall: None,
        availability,
        kind: ToolKind::BuiltIn,
        selected: false,
        run_state: RunState::Idle,
        elapsed: None,
    }
}

fn loaded_app() -> App {
    let mut app = empty_app();
    app.tools.agent_ready = true;
    app.apply_initial_load(InitialLoadData {
        tools: vec![
            tool("dvup", Availability::Installed),
            tool("uv", Availability::Installed),
            tool("rustup", Availability::Installed),
            tool("absent", Availability::Missing),
            tool("skipped", Availability::Unsupported),
        ],
        github_monitors: Vec::new(),
        jobs: Vec::new(),
    });
    app.effects.clear();
    app
}

fn press(app: &mut App, code: KeyCode) {
    handle_key(app, Key::plain(code));
}

fn line_text(line: &StyledLine) -> String {
    line.pieces.iter().map(|piece| piece.text.as_str()).collect()
}

fn lines_text(lines: &[StyledLine]) -> String {
    lines.iter().map(|line| line_text(line) + "\n").collect()
}

fn no_jobs() -> JobsRead {
    JobsRead { jobs: Ok(Vec::new()), log: Ok(Vec::new()) }
}

#[test]
fn u_asks_before_it_uninstalls_the_tool_in_focus() {
    let mut app = removable_app(true);
    press(&mut app, KeyCode::Char('u'));

    assert!(matches!(
        &app.modal,
        Modal::ConfirmUninstall { name, command, derived: true }
            if name == "uv" && command == "uv self uninstall"
    ));
    assert!(app.effects.is_empty());
    assert_eq!(app.running, 0);

    let dialog = draw_modal(&mut app, Rect::new(0, 0, 100, 30), "").expect("dialog");
    assert_eq!(dialog.title, "Confirm uninstall");
    let text = lines_text(&dialog.lines);
    assert!(text.contains("uv self uninstall"));
    assert!(text.contains("Derived from the update command"));
}

#[test]
fn a_declared_uninstall_command_is_not_marked() {
    let mut app = removable_app(false);
    press(&mut app, KeyCode::Char('U'));
    let dialog = draw_modal(&mut app, Rect::new(0, 0, 100, 30), "").expect("dialog");
    assert!(!lines_text(&dialog.lines).contains("Derived"));
}

#[test]
fn only_a_yes_uninstalls() {
    let mut app = removable_app(true);
    for code in [KeyCode::Esc, KeyCode::Char('n')] {
        press(&mut app, KeyCode::Char('u'));
        press(&mut app, code);
        assert!(matches!(app.modal, Modal::Closed));
        assert!(app.effects.is_empty());
    }

    press(&mut app, KeyCode::Char('u'));
    press(&mut app, KeyCode::Char('x'));
    assert!(matches!(app.modal, Modal::ConfirmUninstall { .. }));
    press(&mut app, KeyCode::Char('y'));

    assert!(matches!(app.modal, Modal::Closed));
    assert_eq!(app.running, 1);
    assert!(matches!(
        app.effects.as_slice(),
        [Effect::Spawn { arguments, name, operation: Operation::Uninstall }]
            if name == "uv" && arguments == &["uninstall", "--background", "auto", "uv"]
    ));
}

#[test]
fn uninstalling_keeps_to_the_policy_and_the_manifest() {
    assert_eq!(
        uninstall_arguments("uv", Some("tools.toml"), true),
        [
            "uninstall",
            "--background",
            "auto",
            "--terminate-locking-processes",
            "--config",
            "tools.toml",
            "uv"
        ]
    );
}

#[test]
fn what_cannot_be_uninstalled_is_told() {
    let mut app = removable_app(true);
    app.tools.items[1].uninstall = None;
    press(&mut app, KeyCode::Char('u'));
    assert!(matches!(app.modal, Modal::Closed));
    assert_eq!(
        app.message,
        "uv has no uninstall command; add an uninstall field to its declaration (t)"
    );

    let mut app = removable_app(true);
    app.tools.items[1].availability = Availability::Missing;
    press(&mut app, KeyCode::Char('u'));
    assert!(matches!(app.modal, Modal::Closed));

    let mut app = removable_app(true);
    app.running = 1;
    press(&mut app, KeyCode::Char('u'));
    assert!(matches!(app.modal, Modal::Closed));
    assert_eq!(app.message, "Wait for the current operation to finish");
}

#[test]
fn the_end_of_an_uninstall_is_told() {
    for (output, message) in [
        ("removed uv\n", "Uninstalled uv; its declaration is kept"),
        ("queued uv: waiting on process policy: uv\n", "uv will be uninstalled once nothing uses it"),
    ] {
        let mut app = removable_app(true);
        app.start_uninstall("uv".to_owned());
        app.process_event(AppEvent::Finished(FinishedOperation {
            name: "uv".to_owned(),
            success: true,
            output: output.to_owned(),
            operation: Operation::Uninstall,
            elapsed: "1.0".to_owned(),
            batch_elapsed: "1.0".to_owned(),
            tools: Err("not read".to_owned()),
            jobs: no_jobs(),
        }));
        assert_eq!(app.message, message);
        assert_eq!(app.running, 0);
    }
    assert_eq!(
        Operation::Uninstall.completion_message("uv", false, "1.0", 0, Language::Chinese),
        "无法卸载 uv；请在活动页查看错误"
    );
}

fn removable_app(derived: bool) -> App {
    let mut app = loaded_app();
    app.tools.index = 1;
    app.tools.items[1].uninstall =
        Some(UninstallCommand { text: "uv self uninstall".to_owned(), derived });
    app
}
