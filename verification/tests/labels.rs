use dvup::language::Language;
use dvup::terminal::{output_was_queued, sanitize_terminal_output};
use dvup::tui::geometry::{next_index, previous_index};
use dvup::tui::labels::{Tab, ToolKind};

#[test]
fn tool_kinds_have_one_custom_category() {
    assert_eq!(ToolKind::BuiltIn.label(Language::English), "built-in");
    assert_eq!(ToolKind::BuiltIn.label(Language::Chinese), "内置");
    assert_eq!(ToolKind::Custom.label(Language::English), "custom");
    assert_eq!(ToolKind::Custom.label(Language::Chinese), "自定义");
}

#[test]
fn wraps_navigation_indices() {
    assert_eq!(previous_index(0, 3), 2);
    assert_eq!(next_index(2, 3), 0);
    assert_eq!(next_index(0, 0), 0);
}

#[test]
fn tabs_move_in_both_directions() {
    assert_eq!(Tab::Tools.next(), Tab::Activity);
    assert_eq!(Tab::Tools.previous(), Tab::Settings);
    assert_eq!(Tab::Jobs.next(), Tab::Doctor);
    assert_eq!(Tab::Jobs.previous(), Tab::Activity);
    assert_eq!(Tab::Doctor.next(), Tab::Settings);
    assert_eq!(Tab::Doctor.previous(), Tab::Jobs);
    assert_eq!(Tab::Settings.next(), Tab::Tools);
    assert_eq!(Tab::Settings.previous(), Tab::Doctor);
}

#[test]
fn sanitizes_dynamic_terminal_output_before_rendering_activity() {
    let output = [
        "\u{1b}[?25l#=#=#\r##O#-#\r 79.0%\u{1b}[?25h\n",
        "\u{1b}[32mBun 1.3.14 was installed successfully!\u{1b}[0m\n",
        "coverage: 100% complete\n",
        "updated bun: Bun official installer\n",
    ]
    .concat();

    assert_eq!(
        sanitize_terminal_output(&output),
        [
            "Bun 1.3.14 was installed successfully!",
            "coverage: 100% complete",
            "updated bun: Bun official installer",
        ]
    );
}

#[test]
fn classifies_only_the_final_cli_status_as_queued() {
    assert!(output_was_queued(
        "example",
        "some output\nqueued example: waiting\njob: 123"
    ));
    assert!(!output_was_queued(
        "example",
        "queued example: text from the tool\nupdated example: command"
    ));
    assert!(!output_was_queued(
        "example",
        "the word queued in ordinary output\nupdated example: command"
    ));
}

#[test]
fn sanitizing_again_changes_nothing() {
    let output = "\u{1b}[31mone\t \r\n###  50%\nold\rnew  \nlast\u{8}";
    let lines = sanitize_terminal_output(output);
    assert_eq!(lines, ["one", "new", "las"]);
    let again: String = lines.iter().map(|line| line.clone() + "\n").collect();
    assert_eq!(sanitize_terminal_output(&again), lines);
}
