use ratatui::buffer::Buffer;
use ratatui::widgets::{Scrollbar, ScrollbarOrientation, ScrollbarState, StatefulWidget};
use dvup::job::CommandSpec;
use dvup::language::Language;
use dvup::tui::app::{App, InitialLoadData};
use dvup::tui::comment::TomlCommentAction;
use dvup::tui::content::StyledLine;
use dvup::tui::dispatch::{
    event_fits, flush_toml_editor_input, handle_key, handle_mouse, handle_paste, take_event,
};
use dvup::tui::editor::{TomlEditor, TomlEditorMode};
use dvup::tui::editor_view::{editor_title, gutter_width, toml_editor_line};
use dvup::tui::geometry::Rect;
use dvup::tui::highlight::NESTING_LIMIT;
use dvup::tui::history::{TOML_HISTORY_BYTE_LIMIT, TOML_HISTORY_LIMIT};
use dvup::tui::keys::{Input, Key, KeyCode, Mouse, MouseKind};
use dvup::tui::labels::{Availability, RunState, ToolKind, VersionState};
use dvup::tui::lines::vim_word_class;
use dvup::tui::modal::{Effect, Modal};
use dvup::tui::model::{AppSettings, GithubSettings, NetworkSettings, ProxyMode, ToolItem};
use dvup::tui::nesting::nesting_depth;
use dvup::tui::style::{Color, Style, TOML_COMMENT, TOML_KEY};
use dvup::tui::views::{EditorScene, draw_toml_editor, editor_frame};
use dvup::tui::width::display_width;
use dvup::version::LatestVersionSource;

fn settings() -> AppSettings {
    AppSettings {
        language: Language::English,
        auto_diagnose_on_startup: false,
        hide_unsupported_and_missing_tools: false,
        network: NetworkSettings {
            proxy_mode: ProxyMode::Environment,
            proxy_url: None,
            no_proxy: Vec::new(),
        },
        github: GithubSettings { encrypted_api_key: None, poll_interval_secs: 900 },
    }
}

fn empty_app() -> App {
    App::empty(settings(), None, 0, "2026-07-12 10:20:30".to_owned())
}

fn version_command(name: &str) -> CommandSpec {
    CommandSpec {
        program: name.to_owned(),
        args: vec!["--version".to_owned()],
        working_directory: ".".to_owned(),
    }
}

fn tool(name: &str, availability: Availability) -> ToolItem {
    ToolItem {
        name: name.to_owned(),
        command: format!("{name} update"),
        version: VersionState::Loading,
        version_command: version_command(name),
        version_probe_id: 0,
        latest_version: VersionState::Loading,
        latest_source: Some(LatestVersionSource::Npm { package: name.to_owned() }),
        latest_probe_id: 0,
        supports_target_version: false,
        uninstall: None,
        availability,
        kind: ToolKind::BuiltIn,
        selected: false,
        run_state: RunState::Idle,
        elapsed: None,
    }
}

fn loaded_app() -> App {
    let mut app = empty_app();
    app.tools.agent_ready = true;
    app.apply_initial_load(InitialLoadData {
        tools: vec![
            tool("dvup", Availability::Installed),
            tool("uv", Availability::Installed),
            tool("rustup", Availability::Installed),
            tool("absent", Availability::Missing),
            tool("skipped", Availability::Unsupported),
        ],
        github_monitors: Vec::new(),
        jobs: Vec::new(),
    });
    app.effects.clear();
    app
}

fn editing_app(text: &str) -> App {
    let mut app = loaded_app();
    app.modal = Modal::TomlEditor {
        editor: TomlEditor::new("dvup_custom.toml".to_owned(), text.to_owned()),
    };
    app
}

fn editor_of(app: &App) -> &TomlEditor {
    match &app.modal {
        Modal::TomlEditor { editor } => editor,
        _ => panic!("TOML editor"),
    }
}

fn press(app: &mut App, code: KeyCode) {
    handle_key(app, Key::plain(code));
}

fn press_control(app: &mut App, character: char) {
    handle_key(app, Key::with_control(KeyCode::Char(character)));
}

fn mouse(app: &mut App, kind: MouseKind, column: u16, row: u16) {
    handle_mouse(app, Mouse { kind, column, row });
}

fn handle_event_batch(app: &mut App, events: Vec<Input>) {
    let mut pending = String::new();
    for event in events {
        assert!(event_fits(app, &event));
        take_event(app, &mut pending, event);
    }
    flush_toml_editor_input(app, &mut pending);
}

fn line_text(line: &StyledLine) -> String {
    line.pieces.iter().map(|piece| piece.text.as_str()).collect()
}

fn lines_text(lines: &[StyledLine]) -> String {
    lines.iter().map(|line| line_text(line) + "\n").collect()
}

#[test]
fn toml_editor_moves_across_lines_and_replaces_the_selection() {
    let mut editor = TomlEditor::new("dvup_custom.toml".to_owned(), "abc\nde\nfghi".to_owned());

    editor.move_right(false);
    editor.move_right(false);
    editor.move_vertical(1, false);
    assert_eq!(editor.cursor, 6);

    editor.move_vertical(1, true);
    assert_eq!(editor.selected_text(), Some("\nfg"));

    editor.insert_text("中\r\n文");
    assert_eq!(editor.text, "abc\nde中\n文hi");
    assert!(editor.dirty);
    assert!(editor.selection().is_none());
}

#[test]
fn toml_editor_toggles_selected_line_comments_and_undoes_as_one_action() {
    let source = "[tools.example]\nupdate = [\"example\", \"update\"]\nprobe = [\"example\", \"--version\"]\n";
    let mut editor = TomlEditor::new("dvup_custom.toml".to_owned(), source.to_owned());
    let original_anchor = source.find("tools").expect("selection start");
    let original_cursor = source.find("probe").expect("selection end");
    editor.selection_anchor = Some(original_anchor);
    editor.cursor = original_cursor;

    assert_eq!(editor.toggle_line_comments(), Some(TomlCommentAction::Commented));
    assert_eq!(
        editor.text,
        "# [tools.example]\n# update = [\"example\", \"update\"]\nprobe = [\"example\", \"--version\"]\n"
    );
    assert_eq!(editor.revision, 1);
    assert!(editor.dirty);
    assert_eq!(editor.undo_stack.len(), 1);

    assert!(editor.undo());
    assert_eq!(editor.text, source);
    assert_eq!(editor.selection_anchor, Some(original_anchor));
    assert_eq!(editor.cursor, original_cursor);
    assert!(!editor.dirty);

    assert!(editor.redo());
    assert!(editor.text.contains("# [tools.example]"));
    assert!(editor.text.contains("# update ="));
    assert_eq!(editor.revision, 3);
    assert!(editor.dirty);
}

#[test]
fn toml_editor_uncomments_indented_lines_and_excludes_selection_end_line() {
    let source = "  # first = 1\n  #second = 2\nthird = 3";
    let mut editor = TomlEditor::new("dvup_custom.toml".to_owned(), source.to_owned());
    editor.selection_anchor = Some(2);
    editor.cursor = source.find("third").expect("third line start");

    assert_eq!(editor.toggle_line_comments(), Some(TomlCommentAction::Uncommented));

    assert_eq!(editor.text, "  first = 1\n  second = 2\nthird = 3");
    assert!(!editor.text.contains("# third"));
}

#[test]
fn toml_editor_undo_tracks_saved_text_and_new_edits_clear_redo() {
    let mut editor = TomlEditor::new("dvup_custom.toml".to_owned(), "a".to_owned());
    editor.move_end(true, false);
    editor.insert_text("b");
    editor.mark_saved();
    assert!(!editor.dirty);

    assert!(editor.undo());
    assert_eq!(editor.text, "a");
    assert!(editor.dirty);
    assert!(editor.redo());
    assert_eq!(editor.text, "ab");
    assert!(!editor.dirty);

    assert!(editor.undo());
    editor.insert_text("c");
    assert_eq!(editor.text, "ac");
    assert!(!editor.redo());
}

#[test]
fn queued_toml_paste_is_undone_in_one_step() {
    let mut app = editing_app("");
    let events = (0..1_000).map(|_| Input::Key(Key::plain(KeyCode::Char('x')))).collect();
    handle_event_batch(&mut app, events);

    press_control(&mut app, 'z');

    let editor = editor_of(&app);
    assert!(editor.text.is_empty() && editor.revision == 2 && !editor.dirty);
    assert_eq!(app.message, "Undid TOML edit");
}

#[test]
fn toml_editor_comment_and_redo_shortcuts_dispatch_to_the_editor() {
    let mut app = editing_app("value = 1");

    press_control(&mut app, '7');
    assert_eq!(editor_of(&app).text, "# value = 1");
    assert_eq!(app.message, "Commented TOML line(s)");

    press_control(&mut app, 'z');
    assert_eq!(editor_of(&app).text, "value = 1");

    let mut redo = Key::with_control(KeyCode::Char('Z'));
    redo.shift = true;
    handle_key(&mut app, redo);
    assert_eq!(editor_of(&app).text, "# value = 1");
    assert_eq!(app.message, "Redid TOML edit");

    press_control(&mut app, '/');
    assert_eq!(editor_of(&app).text, "value = 1");
    assert_eq!(app.message, "Uncommented TOML line(s)");
}

#[test]
fn toml_editor_vim_mode_supports_modal_keyboard_editing() {
    let mut app = editing_app("alpha beta\nsecond");

    press(&mut app, KeyCode::F(2));
    assert_eq!(editor_of(&app).mode, TomlEditorMode::VimNormal);
    assert_eq!(editor_of(&app).text, "alpha beta\nsecond");

    for code in [
        KeyCode::Char('l'),
        KeyCode::Char('i'),
        KeyCode::Char('X'),
        KeyCode::Esc,
        KeyCode::Char('0'),
        KeyCode::Char('v'),
        KeyCode::Char('w'),
        KeyCode::Char('y'),
    ] {
        press(&mut app, code);
    }
    assert_eq!(editor_of(&app).mode, TomlEditorMode::VimNormal);
    assert_eq!(editor_of(&app).text, "aXlpha beta\nsecond");
    assert_eq!(editor_of(&app).vim_register, "aXlpha ");

    for code in [KeyCode::Char('0'), KeyCode::Char('d'), KeyCode::Char('d')] {
        press(&mut app, code);
    }
    assert_eq!(editor_of(&app).text, "second");

    for code in [KeyCode::Char('y'), KeyCode::Char('y'), KeyCode::Char('p')] {
        press(&mut app, code);
    }
    assert_eq!(editor_of(&app).text, "second\nsecond");
    press(&mut app, KeyCode::Char('u'));

    press(&mut app, KeyCode::Char('u'));
    assert_eq!(editor_of(&app).text, "aXlpha beta\nsecond");
    press_control(&mut app, 'r');
    assert_eq!(editor_of(&app).text, "second");

    press(&mut app, KeyCode::F(2));
    assert_eq!(editor_of(&app).mode, TomlEditorMode::Standard);
}

#[test]
fn toml_editor_history_is_bounded() {
    let mut editor = TomlEditor::new("dvup_custom.toml".to_owned(), String::new());

    for _ in 0..(TOML_HISTORY_LIMIT + 25) {
        editor.insert_text("x");
    }

    assert_eq!(editor.undo_stack.len(), TOML_HISTORY_LIMIT);
    assert!(
        editor.undo_stack.iter().map(|snapshot| snapshot.text.len()).sum::<usize>()
            <= TOML_HISTORY_BYTE_LIMIT
    );
}

#[test]
fn tools_t_opens_the_explicit_toml_file() {
    let path = "/work/manifest.toml";
    let expected = "[tools.example]\nupdate = [\"example\", \"update\"]\n";
    let mut app = App::empty(settings(), Some(path.to_owned()), 0, "2026-07-12 10:20:30".to_owned());
    let mut example = tool("example", Availability::Installed);
    example.kind = ToolKind::Custom;
    app.apply_initial_load(InitialLoadData {
        tools: vec![tool("dvup", Availability::Installed), example],
        github_monitors: Vec::new(),
        jobs: Vec::new(),
    });
    app.effects.clear();

    press(&mut app, KeyCode::Char('t'));
    let mut asked = false;
    for effect in std::mem::take(&mut app.effects) {
        if matches!(effect, Effect::OpenToml) {
            asked = true;
            let opened = app.toml_editor_path(&"/state/dvup_custom.toml".to_owned());
            assert_eq!(opened, path);
            app.toml_opened(Ok((opened, expected.to_owned())));
        }
    }

    assert!(asked);
    let editor = editor_of(&app);
    assert!(editor.path == path && editor.text == expected && !editor.dirty);
}

#[test]
fn direct_toml_file_opens_even_when_the_source_is_invalid() {
    let mut app = loaded_app();

    app.open_toml_file("/work/broken.toml".to_owned(), "invalid =".to_owned());

    assert_eq!(app.config_path.as_deref(), Some("/work/broken.toml"));
    let editor = editor_of(&app);
    assert!(editor.path == "/work/broken.toml" && editor.text == "invalid =" && !editor.dirty);
}

#[test]
fn ctrl_c_inside_toml_editor_never_arms_or_exits_the_tui() {
    let mut app = editing_app("[tools.example]");

    press_control(&mut app, 'c');

    assert!(matches!(app.modal, Modal::TomlEditor { .. }));
    assert!(!app.ctrl_c_armed);
    assert!(!app.should_quit);
    assert_eq!(app.message, "Select TOML text before copying");
}

#[test]
fn bracketed_paste_replaces_the_toml_editor_selection() {
    let mut app = loaded_app();
    let mut editor = TomlEditor::new("dvup_custom.toml".to_owned(), "old value".to_owned());
    editor.selection_anchor = Some(0);
    editor.cursor = 3;
    app.modal = Modal::TomlEditor { editor };

    handle_paste(&mut app, "new\r\nline");

    let editor = editor_of(&app);
    assert!(editor.text == "new\nline value" && editor.dirty);
    assert!(!app.should_quit);
}

#[test]
fn queued_toml_character_events_are_inserted_as_one_batch() {
    let mut app = editing_app("");
    let initial_message = app.message.clone();
    let events = (0..1_000).map(|_| Input::Key(Key::plain(KeyCode::Char('x')))).collect();

    handle_event_batch(&mut app, events);

    assert_eq!(editor_of(&app).text, "x".repeat(1_000));
    assert_eq!(editor_of(&app).revision, 1);
    assert_eq!(app.message, initial_message);
}

#[test]
fn queued_toml_multiline_input_is_inserted_as_one_batch() {
    let mut app = editing_app("");

    handle_event_batch(
        &mut app,
        vec![
            Input::Key(Key::plain(KeyCode::Char('a'))),
            Input::Key(Key::plain(KeyCode::Enter)),
            Input::Key(Key::plain(KeyCode::Tab)),
            Input::Key(Key::plain(KeyCode::Char('b'))),
        ],
    );

    assert_eq!(editor_of(&app).text, "a\n\tb");
    assert_eq!(editor_of(&app).revision, 1);
}

#[test]
fn queued_toml_input_flushes_before_navigation() {
    let mut app = editing_app("");

    handle_event_batch(
        &mut app,
        vec![
            Input::Key(Key::plain(KeyCode::Char('a'))),
            Input::Key(Key::plain(KeyCode::Char('b'))),
            Input::Key(Key::plain(KeyCode::Left)),
            Input::Key(Key::plain(KeyCode::Char('x'))),
        ],
    );

    assert_eq!(editor_of(&app).text, "axb");
    assert_eq!(editor_of(&app).cursor, 2);
    assert_eq!(editor_of(&app).revision, 2);
}

#[test]
fn toml_highlights_preserve_source_and_distinguish_token_kinds() {
    let source = "# comment\nenabled = true\ncount = 42\nratio = 1.5\nname = \"dvup\"\nreleased = 2026-07-12T12:30:00Z\n\n[tools.codex]\n";
    let mut editor = TomlEditor::new("dvup_custom.toml".to_owned(), source.to_owned());

    editor.refresh_highlights();

    assert_eq!(colored_text(&editor), source);

    let color_at = |needle: &str| {
        let index = source.find(needle).expect("highlighted token");
        editor
            .highlights
            .iter()
            .find(|highlight| highlight.start <= index && index < highlight.end)
            .expect("style at source offset")
            .style
            .fg
    };
    assert_eq!(color_at("# comment"), Some(TOML_COMMENT));
    assert_eq!(color_at("enabled"), Some(TOML_KEY));
    assert_eq!(color_at("true"), Some(Color::TomlBoolean));
    assert_eq!(color_at("42"), Some(Color::TomlNumber));
    assert_eq!(color_at("1.5"), Some(Color::TomlNumber));
    assert_eq!(color_at("\"dvup\""), Some(Color::TomlString));
    assert_eq!(color_at("2026-07-12T12:30:00Z"), Some(Color::TomlDateTime));
    assert_eq!(color_at("tools"), Some(TOML_KEY));
}

#[test]
fn toml_highlighting_handles_incomplete_source_without_losing_text() {
    let source = "[tools.codex]\nprogram =";
    let mut editor = TomlEditor::new("dvup_custom.toml".to_owned(), source.to_owned());

    editor.refresh_highlights();

    assert_eq!(colored_text(&editor), source);
    assert_eq!(editor.highlighted_revision, editor.revision);
}

#[test]
fn toml_selection_style_overrides_syntax_highlighting() {
    let source = "enabled = true # note";
    let mut editor = TomlEditor::new("dvup_custom.toml".to_owned(), source.to_owned());
    editor.selection_anchor = Some(source.find("true").expect("boolean"));
    editor.cursor = editor.selection_anchor.expect("anchor") + "true".len();
    editor.refresh_highlights();

    let line = toml_editor_line(&editor, 0, source.len());
    let selected = line
        .pieces
        .iter()
        .find(|piece| piece.text == "true")
        .expect("selected boolean span");
    let key = line
        .pieces
        .iter()
        .find(|piece| piece.text == "enabled")
        .expect("syntax-highlighted key span");

    assert_eq!(selected.style.bg, Some(Color::Accent));
    assert_eq!(selected.style.fg, Some(Color::Black));
    assert_eq!(key.style.fg, Some(TOML_KEY));
    assert_eq!(key.style.bg, Some(Color::Surface));
}

#[test]
fn toml_editor_renders_syntax_colors() {
    let mut app = editing_app("# comment\nname = \"dvup\"\ncount = 42");

    let scene = draw_editor(&mut app, Rect::new(0, 0, 100, 24));

    assert_eq!(color_of(&scene.lines[0], 0), Some(TOML_COMMENT));
    assert_eq!(color_of(&scene.lines[1], 0), Some(TOML_KEY));
    assert_eq!(color_of(&scene.lines[1], 7), Some(Color::TomlString));
    assert_eq!(color_of(&scene.lines[2], 8), Some(Color::TomlNumber));
}

#[test]
fn toml_editor_saves_valid_source_text_and_rejects_invalid_toml() {
    let path = "/work/manifest.toml".to_owned();
    let mut app = loaded_app();
    app.open_toml_file(path, "[tools.example]\nupdate = [\"example\"]\n".to_owned());
    match &mut app.modal {
        Modal::TomlEditor { editor } => {
            editor.text.insert_str(0, "# preserved comment\n");
            editor.dirty = true;
        },
        _ => panic!("TOML editor"),
    }

    press_control(&mut app, 's');
    let saved = answer_save(&mut app, Ok(())).expect("a save");
    assert!(saved.starts_with("# preserved comment\n"));
    assert!(!editor_of(&app).dirty);

    match &mut app.modal {
        Modal::TomlEditor { editor } => {
            editor.text = "invalid =".to_owned();
            editor.cursor = editor.text.len();
            editor.dirty = true;
        },
        _ => panic!("TOML editor"),
    }
    press_control(&mut app, 's');
    let refused = answer_save(&mut app, Err("invalid TOML".to_owned())).expect("a save");

    assert_eq!(refused, "invalid =");
    assert!(app.message.starts_with("TOML was not saved:"));
    assert!(editor_of(&app).dirty);
}

#[test]
fn toml_editor_mouse_wheel_scrolls_and_drag_selects_source_text() {
    let text = (0..30).map(|index| format!("line{index:02}")).collect::<Vec<_>>().join("\n");
    let mut app = editing_app(&text);
    let screen = Rect::new(0, 0, 90, 24);
    draw_editor(&mut app, screen);
    let area = app.toml_editor_area.expect("editor hitbox");

    mouse(&mut app, MouseKind::ScrollDown, area.x, area.y);
    assert_eq!(editor_of(&app).scroll_y, 1);

    draw_editor(&mut app, screen);
    assert_eq!(editor_of(&app).scroll_y, 1);

    for (kind, expected) in [(MouseKind::ScrollDown, 2), (MouseKind::ScrollUp, 1)] {
        mouse(&mut app, kind, area.x, area.y);
        draw_editor(&mut app, screen);
        assert_eq!(editor_of(&app).scroll_y, expected);
    }

    mouse(&mut app, MouseKind::LeftDown, area.x, area.y);
    mouse(&mut app, MouseKind::LeftDrag, area.x.saturating_add(4), area.y.saturating_add(1));

    assert!(editor_of(&app)
        .selected_text()
        .is_some_and(|text| text.contains("line01\nline")));
}

#[test]
fn toml_editor_renders_copy_paste_and_mouse_help() {
    let mut app = editing_app("[tools.example]");
    let area = Rect::new(0, 0, 100, 24);

    let screen = editor_screen(&mut app, area);

    assert!(screen.contains("TOML editor"), "screen: {screen}");
    assert!(screen.contains("Ctrl+C"), "screen: {screen}");
    assert!(screen.contains("Ctrl+V"), "screen: {screen}");
    assert!(screen.contains("Ctrl+/"), "screen: {screen}");
    assert!(screen.contains("Ctrl+Z/Y"), "screen: {screen}");
    assert!(screen.contains("STANDARD"), "screen: {screen}");
    assert!(screen.contains("F2"), "screen: {screen}");
    assert!(screen.contains("mouse drag selects"), "screen: {screen}");

    press(&mut app, KeyCode::F(2));
    let vim_screen = editor_screen(&mut app, area);
    assert!(vim_screen.contains("VIM NORMAL"), "screen: {vim_screen}");
    assert!(vim_screen.contains("h/j/k/l"), "screen: {vim_screen}");
    assert!(vim_screen.contains("Ctrl+Q"), "screen: {vim_screen}");
}

#[test]
fn toml_editor_scrollbar_reaches_the_bottom_at_the_last_viewport() {
    let text = (0..40).map(|index| format!("line{index:02}")).collect::<Vec<_>>().join("\n");
    let mut app = editing_app(&text);
    let screen = Rect::new(0, 0, 90, 24);
    draw_editor(&mut app, screen);
    let area = app.toml_editor_area.expect("editor hitbox");
    match &mut app.modal {
        Modal::TomlEditor { editor } => {
            editor.scroll_y =
                editor.line_ranges().len().saturating_sub(usize::from(area.height));
            editor.follow_cursor = false;
        },
        _ => panic!("TOML editor"),
    }

    let scene = draw_editor(&mut app, screen);

    let bar = scene.bar.expect("scrollbar");
    let bar_area = ratatui::layout::Rect::new(bar.area.x, bar.area.y, bar.area.width, bar.area.height);
    let mut buffer = Buffer::empty(bar_area);
    let mut state = ScrollbarState::new(bar.positions)
        .position(bar.position)
        .viewport_content_length(bar.shown);
    Scrollbar::new(ScrollbarOrientation::VerticalRight)
        .thumb_symbol("█")
        .track_symbol(Some("│"))
        .begin_symbol(None)
        .end_symbol(None)
        .render(bar_area, &mut buffer, &mut state);
    let bottom = buffer
        .cell((area.right(), area.bottom().saturating_sub(1)))
        .expect("scrollbar bottom cell");
    assert_eq!(bottom.symbol(), "█");
}

#[test]
fn unchanged_text_after_undo_and_redo_is_the_same_text() {
    let mut editor = TomlEditor::new("dvup_custom.toml".to_owned(), "a = 1\n".to_owned());
    editor.move_end(true, false);
    editor.insert_text("b = 2\n");
    let edited = editor.text.clone();
    assert!(editor.undo());
    assert_eq!(editor.text, "a = 1\n");
    assert!(editor.redo());
    assert_eq!(editor.text, edited);
    assert!(!editor.redo());
}

#[test]
fn copying_and_pasting_go_through_the_clipboard() {
    let mut app = editing_app("name = 1");
    press_control(&mut app, 'a');
    press_control(&mut app, 'c');
    assert!(app
        .effects
        .iter()
        .any(|effect| matches!(effect, Effect::CopyText { text } if text == "name = 1")));
    app.text_copied(Err("no display".to_owned()));
    assert!(app.message.contains("no display"));

    app.effects.clear();
    press_control(&mut app, 'v');
    assert!(app.effects.iter().any(|effect| matches!(effect, Effect::PasteClipboard)));
    app.clipboard_pasted(Ok("x = 2".to_owned()));
    assert_eq!(editor_of(&app).text, "x = 2");
}

#[test]
fn wide_characters_take_two_columns() {
    assert_eq!(display_width("abc"), 3);
    assert_eq!(display_width("工具"), 4);
    let editor = TomlEditor::new("dvup_custom.toml".to_owned(), "工具 = 1".to_owned());
    assert_eq!(editor.byte_at_column(0, 4), 6);
    assert_eq!(editor.byte_at_column(0, 99), 10);
}

fn colored_text(editor: &TomlEditor) -> String {
    editor
        .highlights
        .iter()
        .map(|highlight| &editor.text[highlight.start..highlight.end])
        .collect()
}

fn draw_editor(app: &mut App, area: Rect) -> EditorScene {
    app.color_editor();
    let (_, inner) = editor_frame(area);
    let block = Rect::new(inner.x, inner.y + 1, inner.width, inner.height - 4);
    let gutter = u16::try_from(gutter_width(editor_of(app))).expect("gutter width");
    let content = Rect::new(
        block.x + 1 + gutter,
        block.y + 1,
        block.width - 2 - gutter,
        block.height - 2,
    );
    draw_toml_editor(app, block, content).expect("editor scene")
}

fn editor_screen(app: &mut App, area: Rect) -> String {
    let title = editor_title(editor_of(app), app.language);
    let scene = draw_editor(app, area);
    title + &line_text(&scene.file) + &lines_text(&scene.lines) + &lines_text(&scene.help)
}

fn color_of(line: &StyledLine, column: usize) -> Option<Color> {
    let mut seen = 0;
    for piece in &line.pieces {
        seen += piece.text.chars().count();
        if column < seen {
            return piece.style.fg;
        }
    }
    None
}

fn answer_save(app: &mut App, answer: Result<(), String>) -> Option<String> {
    let mut saved = None;
    for effect in std::mem::take(&mut app.effects) {
        if let Effect::SaveToml { text, .. } = effect {
            saved = Some(text);
        }
    }
    app.toml_saved(answer);
    saved
}

#[test]
fn letters_of_every_script_are_parts_of_words() {
    assert_eq!(vim_word_class('中'), vim_word_class('a'));
    assert_eq!(vim_word_class('é'), vim_word_class('_'));
    assert_ne!(vim_word_class('-'), vim_word_class('a'));
    assert_ne!(vim_word_class(' '), vim_word_class('-'));
}

#[test]
fn vim_commands_that_arrive_together_are_commands() {
    let mut app = editing_app("a\nb");
    press(&mut app, KeyCode::F(2));
    assert_eq!(editor_of(&app).mode, TomlEditorMode::VimNormal);

    let d = || Input::Key(Key::plain(KeyCode::Char('d')));
    handle_event_batch(&mut app, vec![d(), d()]);
    assert_eq!(editor_of(&app).text, "b");
    assert_eq!(editor_of(&app).mode, TomlEditorMode::VimNormal);

    let typed = |c: char| Input::Key(Key::plain(KeyCode::Char(c)));
    handle_event_batch(&mut app, vec![typed('i'), typed('x'), typed('y')]);
    assert_eq!(editor_of(&app).text, "xyb");
    assert_eq!(editor_of(&app).mode, TomlEditorMode::VimInsert);
}

#[test]
fn toggling_comments_twice_gives_the_text_back() {
    for (text, anchor, cursor) in [
        ("  a = 1\nb", None, 3),
        ("a\n\nb", Some(0), 3),
        ("a\n  b\n\n", Some(6), 0),
        ("", None, 0),
    ] {
        let mut editor = TomlEditor::new("dvup_custom.toml".to_owned(), text.to_owned());
        editor.cursor = cursor;
        editor.selection_anchor = anchor;
        assert_eq!(editor.toggle_line_comments(), Some(TomlCommentAction::Commented));
        assert_ne!(editor.text, text);
        assert_eq!(editor.toggle_line_comments(), Some(TomlCommentAction::Uncommented));
        assert_eq!(editor.text, text);
    }
}

#[test]
fn an_edit_is_undone_and_redone_exactly() {
    let mut editor = TomlEditor::new("dvup_custom.toml".to_owned(), "name = 1".to_owned());
    assert!(!editor.undo());
    assert_eq!(editor.text, "name = 1");
    editor.cursor = 4;
    editor.insert_text("d");
    assert!(editor.undo());
    assert_eq!((editor.text.as_str(), editor.cursor, editor.dirty), ("name = 1", 4, false));
    assert!(editor.redo());
    assert_eq!((editor.text.as_str(), editor.cursor, editor.dirty), ("named = 1", 5, true));
    assert!(editor.undo());
    editor.delete();
    assert!(!editor.redo());
    assert_eq!(editor.text, "name= 1");
}

#[test]
fn deeply_nested_text_is_coloured_up_to_a_limit() {
    for nested in [
        format!("a = {}{}", "[".repeat(NESTING_LIMIT), "]".repeat(NESTING_LIMIT)),
        format!("a = {}1{}", "{ b = ".repeat(NESTING_LIMIT), " }".repeat(NESTING_LIMIT)),
        format!("a = {}", "[".repeat(NESTING_LIMIT)),
        "[a]\nb = [ 1, { c = [ 2 ] } ]\n".repeat(500),
    ] {
        assert!(nesting_depth(&nested) <= NESTING_LIMIT);
        let mut editor = TomlEditor::new("dvup_custom.toml".to_owned(), nested.clone());
        editor.refresh_highlights();
        assert!(editor.highlights.len() > 1);
        assert_eq!(colored_text(&editor), nested);
    }
}

#[test]
fn text_that_nests_too_deep_is_drawn_without_colours() {
    for source in ["[".repeat(100_000), format!("a = {}", "{ b = ".repeat(NESTING_LIMIT + 1))] {
        assert!(nesting_depth(&source) > NESTING_LIMIT);
        let mut editor = TomlEditor::new("dvup_custom.toml".to_owned(), source.clone());
        editor.refresh_highlights();
        assert_eq!(editor.highlights.len(), 1);
        assert_eq!(editor.highlights[0].style, Style::on(Color::White, Color::Surface));
        assert_eq!(colored_text(&editor), source);
    }
}

#[test]
fn brackets_in_strings_and_comments_do_not_nest() {
    assert_eq!(nesting_depth(""), 0);
    assert_eq!(nesting_depth("a = 1"), 0);
    assert_eq!(nesting_depth("[a]\n[b]\n"), 1);
    assert_eq!(nesting_depth("a = [[1], {b = [2]}]"), 3);
    assert_eq!(nesting_depth("a = [\"[[\", '[[', \"\"\"[[\"\"\", '''[['''] # [["), 1);
    assert_eq!(nesting_depth("# [[[\n[a]"), 1);
    assert_eq!(nesting_depth("a = \"\\\"[\""), 0);
    assert_eq!(nesting_depth("]]]]["), 1);
}

#[test]
fn a_selection_at_the_cursor_stays_inside_the_text_when_a_character_is_rubbed_out() {
    let mut editor = TomlEditor::new("dvup_custom.toml".to_owned(), "abc".to_owned());
    editor.cursor = 3;
    editor.selection_anchor = Some(3);
    editor.backspace();
    assert_eq!(editor.text, "ab");
    assert_eq!((editor.cursor, editor.selection_anchor), (2, None));

    let mut editor = TomlEditor::new("dvup_custom.toml".to_owned(), "abc".to_owned());
    editor.cursor = 1;
    editor.selection_anchor = Some(1);
    editor.backspace();
    assert_eq!(editor.text, "bc");
    assert_eq!((editor.cursor, editor.selection_anchor), (0, Some(1)));

    let mut editor = TomlEditor::new("dvup_custom.toml".to_owned(), "a€".to_owned());
    editor.cursor = 1;
    editor.selection_anchor = Some(1);
    editor.backspace();
    assert_eq!(editor.text, "€");
    assert_eq!((editor.cursor, editor.selection_anchor), (0, None));
    editor.backspace();
    assert_eq!(editor.text, "€");
}

#[test]
fn a_drag_that_began_outside_the_text_selects_nothing() {
    let mut app = loaded_app();
    app.modal = Modal::TomlEditor {
        editor: TomlEditor::new("dvup_custom.toml".to_owned(), "abc".to_owned()),
    };
    app.toml_editor_area = Some(Rect::new(0, 0, 10, 3));
    app.toml_editor_drag = Some(7);
    mouse(&mut app, MouseKind::LeftDrag, 2, 0);
    match &app.modal {
        Modal::TomlEditor { editor } => {
            assert_eq!((editor.cursor, editor.selection_anchor), (2, None));
        }
        other => panic!("unexpected {other:?}"),
    }
    app.toml_editor_drag = Some(0);
    mouse(&mut app, MouseKind::LeftDrag, 2, 0);
    match &app.modal {
        Modal::TomlEditor { editor } => {
            assert_eq!((editor.cursor, editor.selection_anchor), (2, Some(0)));
        }
        other => panic!("unexpected {other:?}"),
    }
}

#[test]
fn typed_text_is_put_in_before_the_next_command() {
    let mut app = loaded_app();
    let mut editor = TomlEditor::new("dvup_custom.toml".to_owned(), String::new());
    editor.mode = TomlEditorMode::Standard;
    app.modal = Modal::TomlEditor { editor };
    let mut pending = String::new();
    take_event(&mut app, &mut pending, Input::Key(Key::plain(KeyCode::Char('x'))));
    take_event(&mut app, &mut pending, Input::Key(Key::plain(KeyCode::Char('y'))));
    assert_eq!(pending, "xy");
    take_event(&mut app, &mut pending, Input::Key(Key::plain(KeyCode::Left)));
    assert_eq!(pending, "");
    match &app.modal {
        Modal::TomlEditor { editor } => {
            assert_eq!(editor.text, "xy");
            assert_eq!(editor.cursor, 1);
        }
        other => panic!("unexpected {other:?}"),
    }
}
