//! What becomes of the manifest and of what commands print.

use crate::command_line::{command_words, format_command, spaced};
use crate::job::CommandSpec;
use crate::language::Language;
use crate::search::{ends_with, finishes_with, lemma_texts_push, lines, texts, trim, trimmed};
use crate::terminal::{sanitize_terminal_output, sanitized};
use crate::text::{char_count, join2, join3, push_char, same};
use crate::tui::labels::{
    Availability, InitialLoadPhase, InitialLoadProgress, RunState, ToolKind, VersionState,
};
use crate::tui::model::{ToolItem, UninstallCommand, text_of};
use crate::version::{
    LatestVersionSource, combined_output, command_output, lossy_text, shown, split_words,
    text_from_bytes, version_in, version_token, words_of,
};
use vstd::prelude::*;
use vstd::string::*;

verus! {

/// Most characters of a version that is not understood.
pub const VERSION_TEXT_LIMIT: usize = 48;

/// The lines that are not blank, without the blanks around them.
pub open spec fn nonblank(lines: Seq<Seq<char>>) -> Seq<Seq<char>>
    decreases lines.len(),
{
    if lines.len() == 0 {
        Seq::empty()
    } else {
        let before = nonblank(lines.drop_last());
        if trimmed(lines.last()).len() > 0 {
            before.push(trimmed(lines.last()))
        } else {
            before
        }
    }
}

/// The first version in the lines from `i` on.
pub open spec fn first_version(lines: Seq<Seq<char>>, i: int) -> Option<Seq<char>>
    decreases lines.len() - i,
{
    if i >= lines.len() {
        None
    } else {
        match first_of(words_of(lines[i]), 0) {
            Some(version) => Some(version),
            None => first_version(lines, i + 1),
        }
    }
}

/// The first version among the words from `k` on.
pub open spec fn first_of(words: Seq<Seq<char>>, k: int) -> Option<Seq<char>>
    decreases words.len() - k,
{
    if k >= words.len() {
        None
    } else {
        match version_in(words[k]) {
            Some(version) => Some(version),
            None => first_of(words, k + 1),
        }
    }
}

/// `text`, or its begin and an ellipsis where it has more than `limit`
/// characters.
pub open spec fn truncated(text: Seq<char>, limit: int) -> Seq<char> {
    if text.len() <= limit {
        text
    } else {
        text.take(
            if limit > 0 {
                limit - 1
            } else {
                0
            },
        ).push('…')
    }
}

/// What stands for a version where none is found in the lines.
pub open spec fn first_words(lines: Seq<Seq<char>>) -> Seq<char> {
    if finishes_with(lines[0], ":"@) && lines.len() > 1 {
        lines[0] + " "@ + lines[1]
    } else {
        lines[0]
    }
}

/// The version that a command has printed: the first one in its output, or else
/// the begin of the output, where there is any.
pub open spec fn version_of_text(output: Seq<char>) -> Option<Seq<char>> {
    let lines = nonblank(sanitized(output));
    match first_version(lines, 0) {
        Some(version) => Some(version),
        None => if lines.len() == 0 {
            None
        } else {
            Some(truncated(first_words(lines), VERSION_TEXT_LIMIT as int))
        },
    }
}

fn find_version(words: &Vec<String>) -> (r: Option<String>)
    ensures
        text_of(r) == first_of(texts(words@), 0),
{
    let mut k: usize = 0;
    while k < words.len()
        invariant
            k <= words@.len(),
            first_of(texts(words@), 0) == first_of(texts(words@), k as int),
        decreases words@.len() - k,
    {
        assert(texts(words@)[k as int] == words@[k as int]@);
        if let Some(version) = version_token(words[k].as_str()) {
            return Some(version);
        }
        k += 1;
    }
    None
}

/// The lines of what a command has printed that are not blank.
fn reported_lines(output: &str) -> (r: Vec<String>)
    ensures
        texts(r@) == nonblank(sanitized(output@)),
{
    let plain = sanitize_terminal_output(output);
    let ghost all = texts(plain@);
    let mut lines: Vec<String> = Vec::new();
    let mut i: usize = 0;
    assert(all.take(0) =~= Seq::<Seq<char>>::empty());
    assert(texts(lines@) =~= Seq::<Seq<char>>::empty());
    while i < plain.len()
        invariant
            i <= plain@.len(),
            all == texts(plain@),
            texts(lines@) == nonblank(all.take(i as int)),
        decreases plain@.len() - i,
    {
        assert(all.take(i + 1).drop_last() =~= all.take(i as int));
        assert(all[i as int] == plain@[i as int]@);
        let line = trim(plain[i].as_str());
        if !line.is_empty() {
            let line = line.to_owned();
            proof {
                lemma_texts_push(lines@, line);
            }
            lines.push(line);
        }
        i += 1;
    }
    assert(all.take(i as int) =~= all);
    lines
}

/// `version`, or its begin and an ellipsis where it has too many characters.
pub fn truncate_version(version: &str, max_characters: usize) -> (r: String)
    ensures
        r@ == truncated(version@, max_characters as int),
{
    if char_count(version) <= max_characters {
        return version.to_owned();
    }
    let kept: usize = max_characters.saturating_sub(1);
    let begin = version.substring_char(0, kept);
    assert(begin@ =~= version@.take(kept as int));
    let mut text = begin.to_owned();
    push_char(&mut text, '…');
    text
}

/// The version in what a command has printed.
pub fn version_from_text(output: &str) -> (r: Option<String>)
    ensures
        text_of(r) == version_of_text(output@),
{
    let lines = reported_lines(output);
    let ghost all = texts(lines@);
    let mut i: usize = 0;
    while i < lines.len()
        invariant
            i <= lines@.len(),
            all == texts(lines@),
            all == nonblank(sanitized(output@)),
            first_version(all, 0) == first_version(all, i as int),
        decreases lines@.len() - i,
    {
        assert(all[i as int] == lines@[i as int]@);
        let words = split_words(lines[i].as_str());
        if let Some(version) = find_version(&words) {
            assert(text_of(Some(version)) == first_of(words_of(all[i as int]), 0));
            return Some(version);
        }
        i += 1;
    }
    if lines.len() == 0 {
        return None;
    }
    assert(all[0] == lines@[0]@);
    let first = lines[0].as_str();
    if ends_with(first, ":") && lines.len() > 1 {
        assert(all[1] == lines@[1]@);
        let both = join3(first, " ", lines[1].as_str());
        Some(truncate_version(both.as_str(), VERSION_TEXT_LIMIT))
    } else {
        Some(truncate_version(first, VERSION_TEXT_LIMIT))
    }
}

/// The version in what a command has written.
pub fn version_from_output(stdout: &[u8], stderr: &[u8]) -> (r: Option<String>)
    ensures
        text_of(r) == version_of_text(combined_output(stdout@, stderr@)),
{
    version_from_text(command_output(stdout, stderr).as_str())
}

/// What a subprocess has written: its output, and its errors in lines of their
/// own behind it.
pub open spec fn process_output(stdout: Seq<char>, stderr: Seq<char>) -> Seq<char> {
    if stderr.len() == 0 {
        stdout
    } else if stdout.len() == 0 || finishes_with(stdout, "\n"@) {
        stdout + stderr
    } else {
        stdout + "\n"@ + stderr
    }
}

/// What a subprocess has written.
pub fn merge_output(stdout: &str, stderr: &str) -> (r: String)
    ensures
        r@ == process_output(stdout@, stderr@),
{
    if stderr.is_empty() {
        stdout.to_owned()
    } else if stdout.is_empty() || ends_with(stdout, "\n") {
        join2(stdout, stderr)
    } else {
        join3(stdout, "\n", stderr)
    }
}

/// What a subprocess has written, as bytes.
pub fn subprocess_output(stdout: &[u8], stderr: &[u8]) -> (r: String)
    ensures
        r@ == process_output(lossy_text(stdout@), lossy_text(stderr@)),
{
    merge_output(text_from_bytes(stdout).as_str(), text_from_bytes(stderr).as_str())
}

/// What is said of a subprocess that could not be started.
pub fn start_failure(error: &str, language: Language) -> (r: String)
    ensures
        r@ == language.pick(
            "failed to start dvup subprocess: "@,
            "无法启动 dvup 子进程："@,
        ) + error@,
{
    join2(language.text("failed to start dvup subprocess: ", "无法启动 dvup 子进程："), error)
}

/// Whether a tool and what updates it are there.
#[derive(Clone, Copy, Debug, PartialEq, Eq, Structural)]
pub enum ToolReadiness {
    Unsupported,
    TargetMissing,
    UpdaterMissing,
    Installed,
}

/// A tool of the manifest.
#[derive(Debug)]
pub struct ToolDefinition {
    pub name: String,
    pub program: String,
    pub args: Vec<String>,
    pub probe_program: String,
    pub probe_args: Vec<String>,
    pub latest: Option<LatestVersionSource>,
    pub has_version_update: bool,
    pub uninstall: Option<UninstallCommand>,
}

impl ToolDefinition {
    /// A tool that the user has added: its version is asked for by its name.
    pub fn custom(name: &str, program: String, args: Vec<String>) -> (r: ToolDefinition)
        ensures
            r.name@ == name@,
            r.program == program,
            r.args == args,
            r.probe_program@ == name@,
            texts(r.probe_args@) == seq!["--version"@],
            r.latest is None,
            !r.has_version_update,
            r.uninstall is None,
    {
        let mut probe_args: Vec<String> = Vec::new();
        probe_args.push("--version".to_owned());
        assert(texts(probe_args@) =~= seq!["--version"@]);
        ToolDefinition {
            name: name.to_owned(),
            program,
            args,
            probe_program: name.to_owned(),
            probe_args,
            latest: None,
            has_version_update: false,
            uninstall: None,
        }
    }
}

/// A copy of some texts.
fn copy_texts(list: &Vec<String>) -> (r: Vec<String>)
    ensures
        texts(r@) == texts(list@),
{
    let mut result: Vec<String> = Vec::new();
    let ghost all = texts(list@);
    let mut i: usize = 0;
    assert(texts(result@) =~= all.take(0));
    while i < list.len()
        invariant
            i <= list@.len(),
            all == texts(list@),
            texts(result@) == all.take(i as int),
        decreases list@.len() - i,
    {
        let text = list[i].clone();
        proof {
            lemma_texts_push(result@, text);
        }
        assert(all.take(i + 1) =~= all.take(i as int).push(text@));
        result.push(text);
        i += 1;
    }
    assert(all.take(i as int) =~= all);
    result
}

/// The command that prints the version of a tool.
pub fn probe_spec(tool: &ToolDefinition, working_directory: &str) -> (r: CommandSpec)
    ensures
        r.program@ == tool.probe_program@,
        texts(r.args@) == texts(tool.probe_args@),
        r.working_directory@ == working_directory@,
{
    CommandSpec {
        program: tool.probe_program.clone(),
        args: copy_texts(&tool.probe_args),
        working_directory: working_directory.to_owned(),
    }
}

/// Whether a tool and what updates it are there, as the list shows it.
pub open spec fn availability_of(readiness: ToolReadiness) -> Availability {
    match readiness {
        ToolReadiness::Unsupported => Availability::Unsupported,
        ToolReadiness::TargetMissing => Availability::Missing,
        ToolReadiness::UpdaterMissing => Availability::UpdaterMissing,
        ToolReadiness::Installed => Availability::Installed,
    }
}

/// Whether `item` is what the list holds of a tool of the manifest before
/// anything was asked about it; `shown` is the command as it is shown.
pub open spec fn is_fresh_item(
    item: ToolItem,
    tool: ToolDefinition,
    readiness: ToolReadiness,
    working_directory: Seq<char>,
    shown: Seq<char>,
    custom: bool,
) -> bool {
    let availability = availability_of(readiness);
    &&& item.name@ == tool.name@
    &&& item.command@ == shown
    &&& item.availability == availability
    &&& item.version == if availability.checkable() {
        VersionState::Loading
    } else {
        VersionState::Unavailable
    }
    &&& item.latest_version == if availability.checkable() && tool.latest is Some {
        VersionState::Loading
    } else {
        VersionState::Unavailable
    }
    &&& item.version_command.program@ == tool.probe_program@
    &&& texts(item.version_command.args@) == texts(tool.probe_args@)
    &&& item.version_command.working_directory@ == working_directory
    &&& item.version_probe_id == 0
    &&& item.latest_probe_id == 0
    &&& item.latest_source == tool.latest
    &&& item.supports_target_version == tool.has_version_update
    &&& item.uninstall == tool.uninstall
    &&& item.kind == if custom {
        ToolKind::Custom
    } else {
        ToolKind::BuiltIn
    }
    &&& !item.selected
    &&& item.run_state == RunState::Idle
    &&& item.elapsed is None
}

/// What the list holds of a tool of the manifest; `custom` where the user has
/// added it, and `shown` the command as it is shown.
pub fn build_tool_item(
    tool: ToolDefinition,
    readiness: ToolReadiness,
    working_directory: &str,
    shown: String,
    custom: bool,
) -> (r: ToolItem)
    ensures
        is_fresh_item(r, tool, readiness, working_directory@, shown@, custom),
{
    let version_command = probe_spec(&tool, working_directory);
    let availability = match readiness {
        ToolReadiness::Unsupported => Availability::Unsupported,
        ToolReadiness::TargetMissing => Availability::Missing,
        ToolReadiness::UpdaterMissing => Availability::UpdaterMissing,
        ToolReadiness::Installed => Availability::Installed,
    };
    let checkable = availability.allows_version_checks();
    let version = if checkable {
        VersionState::Loading
    } else {
        VersionState::Unavailable
    };
    let latest_version = if checkable && tool.latest.is_some() {
        VersionState::Loading
    } else {
        VersionState::Unavailable
    };
    let kind = if custom {
        ToolKind::Custom
    } else {
        ToolKind::BuiltIn
    };
    ToolItem {
        name: tool.name,
        command: shown,
        version,
        version_command,
        version_probe_id: 0,
        latest_version,
        latest_source: tool.latest,
        latest_probe_id: 0,
        supports_target_version: tool.has_version_update,
        uninstall: tool.uninstall,
        availability,
        kind,
        selected: false,
        run_state: RunState::Idle,
        elapsed: None,
    }
}

/// The program that opens a text on the system `os`, and what it is given
/// before the path.
pub open spec fn text_opener(os: Seq<char>) -> (Seq<char>, Seq<Seq<char>>) {
    if os == "windows"@ {
        ("notepad.exe"@, Seq::empty())
    } else if os == "macos"@ {
        ("open"@, seq!["-t"@])
    } else {
        ("xdg-open"@, Seq::empty())
    }
}

/// The command that opens the text at `path` on the system `os`.
pub fn system_text_editor_command(path: &str, os: &str) -> (r: (String, Vec<String>))
    ensures
        r.0@ == text_opener(os@).0,
        texts(r.1@) == text_opener(os@).1.push(path@),
{
    let mut arguments: Vec<String> = Vec::new();
    let program = if same(os, "windows") {
        "notepad.exe"
    } else if same(os, "macos") {
        arguments.push("-t".to_owned());
        "open"
    } else {
        "xdg-open"
    };
    arguments.push(path.to_owned());
    assert(texts(arguments@) =~= text_opener(os@).1.push(path@));
    (program.to_owned(), arguments)
}

/// The command of a tool, in words.
pub fn actual_command(tool: &ToolDefinition) -> (r: String)
    ensures
        r@ == spaced(command_words(tool.program@, texts(tool.args@))),
{
    format_command(tool.program.as_str(), tool.args.as_slice())
}

/// How far loading is once `completed` of `count` tools are loaded.
pub fn tools_progress(completed: usize, count: usize) -> (r: InitialLoadProgress)
    ensures
        r == (InitialLoadProgress {
            phase: InitialLoadPhase::Tools,
            completed,
            total: if count == usize::MAX {
                usize::MAX
            } else {
                (count + 1) as usize
            },
        }),
{
    InitialLoadProgress {
        phase: InitialLoadPhase::Tools,
        completed,
        total: count.saturating_add(1),
    }
}

/// How far loading is when it begins.
pub fn configuration_progress() -> (r: InitialLoadProgress)
    ensures
        r == (InitialLoadProgress {
            phase: InitialLoadPhase::Configuration,
            completed: 0,
            total: 1,
        }),
{
    InitialLoadProgress { phase: InitialLoadPhase::Configuration, completed: 0, total: 1 }
}

/// How far loading is once `count` tools are loaded and only the jobs are left.
pub fn jobs_progress(count: usize) -> (r: InitialLoadProgress)
    ensures
        r == (InitialLoadProgress {
            phase: InitialLoadPhase::Jobs,
            completed: count,
            total: if count == usize::MAX {
                usize::MAX
            } else {
                (count + 1) as usize
            },
        }),
{
    InitialLoadProgress {
        phase: InitialLoadPhase::Jobs,
        completed: count,
        total: count.saturating_add(1),
    }
}

} // verus!
