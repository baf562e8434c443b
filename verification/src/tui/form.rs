//! Forms: fields of text and choices, and what the keys do in them.

use crate::command_line::{arguments_of, open_quote, split_command_line, unclosed_text};
use crate::language::Language;
use crate::number::{
    count_text, decimal, decimal_text, lemma_decimal_digits, lemma_decimal_round_trip, number_of,
    parse_number, without_plus,
};
use crate::search::{
    drop_leading, is_digit_char, is_white, lemma_texts_push, split, split_on, texts, trim,
    trimmed,
};
use crate::text::join2;
use crate::tui::input::{InputView, TextInput};
use crate::tui::keys::{Key, KeyCode};
use crate::tui::labels::{Operation, Tab};
use crate::tui::model::{
    GithubReleaseMonitor, MonitorView, NetworkSettings, NetworkView, ProxyMode,
    ReleaseAssetFormat, ReleaseUpdatePolicy, format_after, format_before, next_release_format,
    next_release_update_policy, policy_after, previous_release_format, text_of,
};
use vstd::prelude::*;
use vstd::string::*;

verus! {

/// Number of fields of the form of a repository.
pub const GITHUB_MONITOR_FORM_FIELD_COUNT: usize = 12;

pub const DEFAULT_MONITOR_MAX_DOWNLOAD_BYTES: u64 = 536870912;

pub const DEFAULT_MONITOR_MAX_EXTRACTED_BYTES: u64 = 2147483648;

pub const DEFAULT_MONITOR_MAX_EXTRACTED_FILES: usize = 10000;

impl InputView {
    /// The input after a key.
    pub open spec fn pressed(self, key: Key) -> InputView {
        match key.code {
            KeyCode::Left => self.left(key.shift),
            KeyCode::Right => self.right(key.shift),
            KeyCode::Home => self.moved(0, key.shift),
            KeyCode::End => self.moved(self.chars.len() as int, key.shift),
            KeyCode::Backspace => self.erased_before(),
            KeyCode::Delete => self.erased_after(),
            KeyCode::Char(c) => if key.control && (c == 'a' || c == 'A') {
                self.everything_selected()
            } else if !key.control && !key.alt {
                self.typed(seq![c])
            } else {
                self
            },
            _ => self,
        }
    }

    /// The input without a selection.
    pub open spec fn deselected(self) -> InputView {
        InputView { anchor: None, ..self }
    }

    /// An input of that text that nothing was done in yet.
    pub open spec fn fresh(text: Seq<char>) -> InputView {
        InputView { chars: text, at: text.len() as int, anchor: None }
    }
}

/// Whether a line of text does anything with a key.
pub open spec fn input_takes(key: Key) -> bool {
    match key.code {
        KeyCode::Left | KeyCode::Right | KeyCode::Home | KeyCode::End | KeyCode::Backspace
        | KeyCode::Delete => true,
        KeyCode::Char(c) => (key.control && (c == 'a' || c == 'A')) || (!key.control && !key.alt),
        _ => false,
    }
}

/// Handles a key in a line of text; tells whether it was for it.
pub fn handle_text_input_key(input: &mut TextInput, key: Key) -> (r: bool)
    requires
        old(input).wf(),
    ensures
        final(input).wf(),
        final(input)@ == old(input)@.pressed(key),
        r == input_takes(key),
        !r ==> *final(input) == *old(input),
{
    match key.code {
        KeyCode::Left => input.move_left(key.shift),
        KeyCode::Right => input.move_right(key.shift),
        KeyCode::Home => input.move_home(key.shift),
        KeyCode::End => input.move_end(key.shift),
        KeyCode::Backspace => input.backspace(),
        KeyCode::Delete => input.delete(),
        KeyCode::Char(c) => {
            if key.control && (c == 'a' || c == 'A') {
                input.select_all();
            } else if !key.control && !key.alt {
                input.insert(c);
            } else {
                return false;
            }
        },
        _ => {
            return false;
        },
    }
    true
}

/// Whether a form adds a command or changes one.
#[derive(Clone, Copy, Debug, PartialEq, Eq, Structural)]
pub enum CommandFormMode {
    Add,
    Edit,
}

impl CommandFormMode {
    pub open spec fn deed(self) -> Operation {
        match self {
            CommandFormMode::Add => Operation::Add,
            CommandFormMode::Edit => Operation::Edit,
        }
    }

    pub fn operation(self) -> (r: Operation)
        ensures
            r == self.deed(),
    {
        match self {
            CommandFormMode::Add => Operation::Add,
            CommandFormMode::Edit => Operation::Edit,
        }
    }
}

/// Whether a form adds a repository or changes one.
#[derive(Clone, Copy, Debug, PartialEq, Eq, Structural)]
pub enum MonitorFormMode {
    Add,
    Edit,
}

/// The form of a custom command: its name and its command line.
#[derive(Debug)]
pub struct CommandForm {
    pub mode: CommandFormMode,
    pub original_name: Option<String>,
    pub field: usize,
    pub name: TextInput,
    pub command: TextInput,
}

/// What the form of a command holds.
pub struct CommandFormView {
    pub mode: CommandFormMode,
    pub original_name: Option<Seq<char>>,
    pub field: usize,
    pub name: InputView,
    pub command: InputView,
}

impl View for CommandForm {
    type V = CommandFormView;

    open spec fn view(&self) -> CommandFormView {
        CommandFormView {
            mode: self.mode,
            original_name: text_of(self.original_name),
            field: self.field,
            name: self.name@,
            command: self.command@,
        }
    }
}

/// What a key in a form asks for.
#[derive(Debug)]
pub enum CommandFormOutcome {
    Stay,
    Say(String),
    Close,
    Confirm { name: String, command: String },
}

/// What a key in a form asks for.
pub enum CommandFormAsk {
    Stay,
    Say(Seq<char>),
    Close,
    Confirm { name: Seq<char>, command: Seq<char> },
}

impl View for CommandFormOutcome {
    type V = CommandFormAsk;

    open spec fn view(&self) -> CommandFormAsk {
        match self {
            CommandFormOutcome::Stay => CommandFormAsk::Stay,
            CommandFormOutcome::Say(text) => CommandFormAsk::Say(text@),
            CommandFormOutcome::Close => CommandFormAsk::Close,
            CommandFormOutcome::Confirm { name, command } => CommandFormAsk::Confirm {
                name: name@,
                command: command@,
            },
        }
    }
}

impl CommandFormView {
    /// The form with another field in focus and nothing selected.
    pub open spec fn focused(self, field: usize) -> CommandFormView {
        CommandFormView {
            field,
            name: self.name.deselected(),
            command: self.command.deselected(),
            ..self
        }
    }

    /// What submitting the form asks for.
    pub open spec fn submitted(self, language: Language) -> CommandFormAsk {
        let name = trimmed(self.name.chars);
        let command = trimmed(self.command.chars);
        if name.len() == 0 {
            CommandFormAsk::Say(language.pick("Name cannot be empty"@, "名称不能为空"@))
        } else if command.len() == 0 {
            CommandFormAsk::Say(language.pick("Command cannot be empty"@, "命令不能为空"@))
        } else {
            match arguments_of(command) {
                Some(words) => if words.len() > 0 {
                    CommandFormAsk::Confirm { name, command }
                } else {
                    CommandFormAsk::Say(language.pick("Command cannot be empty"@, "命令不能为空"@))
                },
                None => CommandFormAsk::Say(unclosed_text(open_quote(command)->0, language)),
            }
        }
    }

    /// The form after a key, and what the key asks for.
    pub open spec fn pressed(self, key: Key, language: Language) -> (
        CommandFormView,
        CommandFormAsk,
    ) {
        match key.code {
            KeyCode::Esc => (self, CommandFormAsk::Close),
            KeyCode::Tab | KeyCode::BackTab => (
                self.focused(
                    if self.field == 0 {
                        1
                    } else {
                        0
                    },
                ),
                CommandFormAsk::Stay,
            ),
            KeyCode::Up => (
                if self.field != 0 {
                    self.focused(0)
                } else {
                    self
                },
                CommandFormAsk::Stay,
            ),
            KeyCode::Down => (
                if self.field != 1 {
                    self.focused(1)
                } else {
                    self
                },
                CommandFormAsk::Stay,
            ),
            KeyCode::Enter => if self.field == 0 {
                (CommandFormView { field: 1, ..self }, CommandFormAsk::Stay)
            } else if trimmed(self.name.chars).len() == 0 {
                (CommandFormView { field: 0, ..self }, self.submitted(language))
            } else {
                (self, self.submitted(language))
            },
            _ => if self.field == 0 {
                (
                    CommandFormView { name: self.name.pressed(key), ..self },
                    CommandFormAsk::Stay,
                )
            } else {
                (
                    CommandFormView { command: self.command.pressed(key), ..self },
                    CommandFormAsk::Stay,
                )
            },
        }
    }
}

impl CommandForm {
    pub open spec fn wf(self) -> bool {
        self.name.wf() && self.command.wf()
    }

    fn focus(&mut self, field: usize)
        requires
            old(self).wf(),
        ensures
            final(self).wf(),
            final(self)@ == old(self)@.focused(field),
    {
        self.field = field;
        self.name.clear_selection();
        self.command.clear_selection();
    }

    /// Handles a key in the form.
    pub fn press(&mut self, key: Key, language: Language) -> (r: CommandFormOutcome)
        requires
            old(self).wf(),
        ensures
            final(self).wf(),
            (final(self)@, r@) == old(self)@.pressed(key, language),
    {
        match key.code {
            KeyCode::Esc => {
                return CommandFormOutcome::Close;
            },
            KeyCode::Tab | KeyCode::BackTab => {
                let next: usize = if self.field == 0 {
                    1
                } else {
                    0
                };
                self.focus(next);
            },
            KeyCode::Up => {
                if self.field != 0 {
                    self.focus(0);
                }
            },
            KeyCode::Down => {
                if self.field != 1 {
                    self.focus(1);
                }
            },
            KeyCode::Enter => {
                if self.field == 0 {
                    self.field = 1;
                } else {
                    let name = trim(self.name.value.as_str()).to_owned();
                    let command = trim(self.command.value.as_str()).to_owned();
                    if name.as_str().is_empty() {
                        self.field = 0;
                        return CommandFormOutcome::Say(
                            language.text("Name cannot be empty", "名称不能为空").to_owned(),
                        );
                    }
                    if command.as_str().is_empty() {
                        return CommandFormOutcome::Say(
                            language.text("Command cannot be empty", "命令不能为空").to_owned(),
                        );
                    }
                    return match split_command_line(command.as_str(), language) {
                        Ok(words) => if words.len() > 0 {
                            CommandFormOutcome::Confirm { name, command }
                        } else {
                            CommandFormOutcome::Say(
                                language.text("Command cannot be empty", "命令不能为空").to_owned(),
                            )
                        },
                        Err(message) => CommandFormOutcome::Say(message),
                    };
                }
            },
            _ => {
                if self.field == 0 {
                    let _ = handle_text_input_key(&mut self.name, key);
                } else {
                    let _ = handle_text_input_key(&mut self.command, key);
                }
            },
        }
        CommandFormOutcome::Stay
    }
}

/// The form of the network settings.
#[derive(Debug)]
pub struct ProxyForm {
    pub proxy_mode: ProxyMode,
    pub field: usize,
    pub proxy_url: TextInput,
    pub no_proxy: TextInput,
}

/// What the form of the network settings holds.
pub struct ProxyFormView {
    pub mode: ProxyMode,
    pub field: usize,
    pub url: InputView,
    pub bypass: InputView,
}

impl View for ProxyForm {
    type V = ProxyFormView;

    open spec fn view(&self) -> ProxyFormView {
        ProxyFormView {
            mode: self.proxy_mode,
            field: self.field,
            url: self.proxy_url@,
            bypass: self.no_proxy@,
        }
    }
}

/// The pieces that are not empty once they are trimmed, trimmed.
pub open spec fn trimmed_pieces(pieces: Seq<Seq<char>>) -> Seq<Seq<char>>
    decreases pieces.len(),
{
    if pieces.len() == 0 {
        Seq::empty()
    } else {
        let before = trimmed_pieces(pieces.drop_last());
        if trimmed(pieces.last()).len() > 0 {
            before.push(trimmed(pieces.last()))
        } else {
            before
        }
    }
}

/// The network settings that the form stands for.
pub open spec fn network_of(mode: ProxyMode, url: Seq<char>, bypass: Seq<char>) -> NetworkView {
    if mode == ProxyMode::Explicit {
        NetworkView { mode, url: Some(trimmed(url)), bypass: trimmed_pieces(split_on(bypass, ',')) }
    } else {
        NetworkView { mode, url: None, bypass: Seq::empty() }
    }
}

/// The pieces of `value` between commas, trimmed, without the empty ones.
fn split_list(value: &str) -> (r: Vec<String>)
    ensures
        texts(r@) == trimmed_pieces(split_on(value@, ',')),
{
    let pieces = split(value, ',');
    let ghost all = split_on(value@, ',');
    let mut kept: Vec<String> = Vec::new();
    let mut i: usize = 0;
    assert(texts(kept@) =~= Seq::<Seq<char>>::empty());
    while i < pieces.len()
        invariant
            i <= pieces@.len(),
            texts(pieces@) == all,
            texts(kept@) == trimmed_pieces(all.take(i as int)),
        decreases pieces@.len() - i,
    {
        let entry = trim(pieces[i].as_str());
        assert(texts(pieces@)[i as int] == pieces@[i as int]@);
        assert(all.take(i + 1).drop_last() =~= all.take(i as int));
        if !entry.is_empty() {
            let text = entry.to_owned();
            proof {
                lemma_texts_push(kept@, text);
            }
            kept.push(text);
        }
        i += 1;
    }
    assert(all.take(i as int) =~= all);
    kept
}

/// The network settings that the form stands for.
pub fn network_from_form(proxy_mode: ProxyMode, proxy_url: &str, no_proxy: &str) -> (r:
    NetworkSettings)
    ensures
        r@ == network_of(proxy_mode, proxy_url@, no_proxy@),
{
    if proxy_mode == ProxyMode::Explicit {
        NetworkSettings {
            proxy_mode,
            proxy_url: Some(trim(proxy_url).to_owned()),
            no_proxy: split_list(no_proxy),
        }
    } else {
        let r = NetworkSettings { proxy_mode, proxy_url: None, no_proxy: Vec::new() };
        assert(texts(r.no_proxy@) =~= Seq::<Seq<char>>::empty());
        r
    }
}

/// What a key in the form of the network settings asks for.
#[derive(Debug)]
pub enum ProxyFormOutcome {
    Stay,
    Close,
    Save(NetworkSettings),
}

/// What a key in the form of the network settings asks for.
pub enum ProxyFormAsk {
    Stay,
    Close,
    Save(NetworkView),
}

impl View for ProxyFormOutcome {
    type V = ProxyFormAsk;

    open spec fn view(&self) -> ProxyFormAsk {
        match self {
            ProxyFormOutcome::Stay => ProxyFormAsk::Stay,
            ProxyFormOutcome::Close => ProxyFormAsk::Close,
            ProxyFormOutcome::Save(network) => ProxyFormAsk::Save(network@),
        }
    }
}

impl ProxyFormView {
    /// The form with another field in focus and nothing selected; only explicit
    /// mode has more than one field.
    pub open spec fn focused(self, field: usize) -> ProxyFormView {
        ProxyFormView {
            field: if self.mode == ProxyMode::Explicit {
                field
            } else {
                0
            },
            url: self.url.deselected(),
            bypass: self.bypass.deselected(),
            ..self
        }
    }

    pub open spec fn network(self) -> NetworkView {
        network_of(self.mode, self.url.chars, self.bypass.chars)
    }

    /// The form after a key, and what the key asks for.
    pub open spec fn pressed(self, key: Key) -> (ProxyFormView, ProxyFormAsk) {
        let next = ((self.field + 1) % 3) as usize;
        let previous = ((self.field + 2) % 3) as usize;
        if key.code == KeyCode::Esc {
            (self, ProxyFormAsk::Close)
        } else if key.control && key.is_letter('s', 'S') {
            (self, ProxyFormAsk::Save(self.network()))
        } else if self.field == 0 && key.code == KeyCode::Left {
            (ProxyFormView { mode: self.mode.preceding(), ..self }, ProxyFormAsk::Stay)
        } else if self.field == 0 && (key.code == KeyCode::Right || key.code == KeyCode::Char(
            ' ',
        )) {
            (ProxyFormView { mode: self.mode.following(), ..self }, ProxyFormAsk::Stay)
        } else if key.code == KeyCode::Tab || key.code == KeyCode::Down {
            (self.focused(next), ProxyFormAsk::Stay)
        } else if key.code == KeyCode::BackTab || key.code == KeyCode::Up {
            (self.focused(previous), ProxyFormAsk::Stay)
        } else if key.code == KeyCode::Enter {
            if self.field == 0 && self.mode == ProxyMode::Explicit {
                (ProxyFormView { field: 1, ..self }, ProxyFormAsk::Stay)
            } else if self.field == 1 {
                (ProxyFormView { field: 2, ..self }, ProxyFormAsk::Stay)
            } else {
                (self, ProxyFormAsk::Save(self.network()))
            }
        } else if self.mode == ProxyMode::Explicit && self.field == 1 {
            (ProxyFormView { url: self.url.pressed(key), ..self }, ProxyFormAsk::Stay)
        } else if self.mode == ProxyMode::Explicit && self.field == 2 {
            (ProxyFormView { bypass: self.bypass.pressed(key), ..self }, ProxyFormAsk::Stay)
        } else {
            (self, ProxyFormAsk::Stay)
        }
    }
}

impl ProxyForm {
    pub open spec fn wf(self) -> bool {
        self.field <= 2 && self.proxy_url.wf() && self.no_proxy.wf()
    }

    fn focus(&mut self, field: usize)
        requires
            old(self).wf(),
            field <= 2,
        ensures
            final(self).wf(),
            final(self)@ == old(self)@.focused(field),
    {
        self.field = if self.proxy_mode == ProxyMode::Explicit {
            field
        } else {
            0
        };
        self.proxy_url.clear_selection();
        self.no_proxy.clear_selection();
    }

    fn network(&self) -> (r: NetworkSettings)
        ensures
            r@ == self@.network(),
    {
        network_from_form(
            self.proxy_mode,
            self.proxy_url.value.as_str(),
            self.no_proxy.value.as_str(),
        )
    }

    /// Handles a key in the form.
    pub fn press(&mut self, key: Key) -> (r: ProxyFormOutcome)
        requires
            old(self).wf(),
        ensures
            final(self).wf(),
            (final(self)@, r@) == old(self)@.pressed(key),
    {
        if key.code == KeyCode::Esc {
            return ProxyFormOutcome::Close;
        }
        if key.control && key.letter('s', 'S') {
            return ProxyFormOutcome::Save(self.network());
        }
        if self.field == 0 && key.code == KeyCode::Left {
            self.proxy_mode = self.proxy_mode.previous();
        } else if self.field == 0 && (key.code == KeyCode::Right || key.code == KeyCode::Char(
            ' ',
        )) {
            self.proxy_mode = self.proxy_mode.next();
        } else if key.code == KeyCode::Tab || key.code == KeyCode::Down {
            let field: usize = (self.field + 1) % 3;
            self.focus(field);
        } else if key.code == KeyCode::BackTab || key.code == KeyCode::Up {
            let field: usize = (self.field + 2) % 3;
            self.focus(field);
        } else if key.code == KeyCode::Enter {
            if self.field == 0 && self.proxy_mode == ProxyMode::Explicit {
                self.field = 1;
            } else if self.field == 1 {
                self.field = 2;
            } else {
                return ProxyFormOutcome::Save(self.network());
            }
        } else if self.proxy_mode == ProxyMode::Explicit && self.field == 1 {
            let _ = handle_text_input_key(&mut self.proxy_url, key);
        } else if self.proxy_mode == ProxyMode::Explicit && self.field == 2 {
            let _ = handle_text_input_key(&mut self.no_proxy, key);
        }
        ProxyFormOutcome::Stay
    }
}

/// The form of a repository.
#[derive(Debug)]
pub struct MonitorForm {
    pub mode: MonitorFormMode,
    pub original_index: Option<usize>,
    pub field: usize,
    pub name: TextInput,
    pub repository: TextInput,
    pub asset_regex: TextInput,
    pub target_directory: TextInput,
    pub format: ReleaseAssetFormat,
    pub update_policy: ReleaseUpdatePolicy,
    pub cleanup_installer: bool,
    pub max_download_bytes: TextInput,
    pub max_extracted_bytes: TextInput,
    pub max_extracted_files: TextInput,
    pub strip_components: TextInput,
    pub enabled: bool,
}

/// What the form of a repository holds.
pub struct MonitorFormView {
    pub mode: MonitorFormMode,
    pub original_index: Option<usize>,
    pub field: usize,
    pub name: InputView,
    pub repository: InputView,
    pub asset_regex: InputView,
    pub target_directory: InputView,
    pub format: ReleaseAssetFormat,
    pub update_policy: ReleaseUpdatePolicy,
    pub cleanup_installer: bool,
    pub max_download_bytes: InputView,
    pub max_extracted_bytes: InputView,
    pub max_extracted_files: InputView,
    pub strip_components: InputView,
    pub enabled: bool,
}

impl View for MonitorForm {
    type V = MonitorFormView;

    open spec fn view(&self) -> MonitorFormView {
        MonitorFormView {
            mode: self.mode,
            original_index: self.original_index,
            field: self.field,
            name: self.name@,
            repository: self.repository@,
            asset_regex: self.asset_regex@,
            target_directory: self.target_directory@,
            format: self.format,
            update_policy: self.update_policy,
            cleanup_installer: self.cleanup_installer,
            max_download_bytes: self.max_download_bytes@,
            max_extracted_bytes: self.max_extracted_bytes@,
            max_extracted_files: self.max_extracted_files@,
            strip_components: self.strip_components@,
            enabled: self.enabled,
        }
    }
}

/// What is said of a field that holds no number of bytes.
pub open spec fn bad_bytes(field: Seq<char>) -> Seq<char> {
    field + " must be a valid byte count"@
}

/// What is said of a field that holds no number.
pub open spec fn bad_count(field: Seq<char>) -> Seq<char> {
    field + " must be a valid non-negative integer"@
}

/// The number that a field holds.
pub open spec fn field_number(input: InputView, max: nat) -> Option<nat> {
    number_of(trimmed(input.chars), max)
}

pub fn parse_u64_input(input: &TextInput, field: &str) -> (r: Result<u64, String>)
    ensures
        r matches Ok(n) ==> field_number(input@, u64::MAX as nat) == Some(n as nat),
        r matches Err(message) ==> field_number(input@, u64::MAX as nat) is None && message@
            == bad_bytes(field@),
{
    match parse_number(trim(input.value.as_str()), u64::MAX) {
        Some(n) => Ok(n),
        None => Err(join2(field, " must be a valid byte count")),
    }
}

pub fn parse_usize_input(input: &TextInput, field: &str) -> (r: Result<usize, String>)
    ensures
        r matches Ok(n) ==> field_number(input@, usize::MAX as nat) == Some(n as nat),
        r matches Err(message) ==> field_number(input@, usize::MAX as nat) is None && message@
            == bad_count(field@),
{
    match parse_number(trim(input.value.as_str()), usize::MAX as u64) {
        Some(n) => Ok(n as usize),
        None => Err(join2(field, " must be a valid non-negative integer")),
    }
}

impl MonitorFormView {
    /// The repository that the form stands for, or what is wrong with it.
    pub open spec fn monitor(self) -> Result<MonitorView, Seq<char>> {
        let download = field_number(self.max_download_bytes, u64::MAX as nat);
        let bytes = field_number(self.max_extracted_bytes, u64::MAX as nat);
        let files = field_number(self.max_extracted_files, usize::MAX as nat);
        let components = field_number(self.strip_components, usize::MAX as nat);
        if download is None {
            Err(bad_bytes("max download size"@))
        } else if bytes is None {
            Err(bad_bytes("max extracted size"@))
        } else if files is None {
            Err(bad_count("max extracted files"@))
        } else if components is None {
            Err(bad_count("strip components"@))
        } else {
            Ok(
                MonitorView {
                    name: trimmed(self.name.chars),
                    repository: trimmed(self.repository.chars),
                    asset_regex: trimmed(self.asset_regex.chars),
                    target_directory: trimmed(self.target_directory.chars),
                    format: self.format,
                    update_policy: self.update_policy,
                    cleanup_installer: self.cleanup_installer,
                    max_download_bytes: download->0 as u64,
                    max_extracted_bytes: bytes->0 as u64,
                    max_extracted_files: files->0 as usize,
                    strip_components: components->0 as usize,
                    enabled: self.enabled,
                },
            )
        }
    }

    /// The line of text in a field, where it is one.
    pub open spec fn input(self, field: usize) -> Option<InputView> {
        if field == 0 {
            Some(self.name)
        } else if field == 1 {
            Some(self.repository)
        } else if field == 2 {
            Some(self.asset_regex)
        } else if field == 3 {
            Some(self.target_directory)
        } else if field == 7 {
            Some(self.max_download_bytes)
        } else if field == 8 {
            Some(self.max_extracted_bytes)
        } else if field == 9 {
            Some(self.max_extracted_files)
        } else if field == 10 {
            Some(self.strip_components)
        } else {
            None
        }
    }

    /// The form with another line of text in a field.
    pub open spec fn with_input(self, field: usize, input: InputView) -> MonitorFormView {
        if field == 0 {
            MonitorFormView { name: input, ..self }
        } else if field == 1 {
            MonitorFormView { repository: input, ..self }
        } else if field == 2 {
            MonitorFormView { asset_regex: input, ..self }
        } else if field == 3 {
            MonitorFormView { target_directory: input, ..self }
        } else if field == 7 {
            MonitorFormView { max_download_bytes: input, ..self }
        } else if field == 8 {
            MonitorFormView { max_extracted_bytes: input, ..self }
        } else if field == 9 {
            MonitorFormView { max_extracted_files: input, ..self }
        } else if field == 10 {
            MonitorFormView { strip_components: input, ..self }
        } else {
            self
        }
    }

    /// The form after a key that does not submit it.
    pub open spec fn changed(self, key: Key) -> MonitorFormView {
        let sideways = key.code == KeyCode::Left || key.code == KeyCode::Right || key.code
            == KeyCode::Char(' ');
        if key.code == KeyCode::Tab || key.code == KeyCode::Down {
            MonitorFormView { field: ((self.field + 1) % 12) as usize, ..self }
        } else if key.code == KeyCode::BackTab || key.code == KeyCode::Up {
            MonitorFormView { field: ((self.field + 11) % 12) as usize, ..self }
        } else if self.field == 4 && sideways {
            MonitorFormView {
                format: if key.code == KeyCode::Left {
                    format_before(self.format)
                } else {
                    format_after(self.format)
                },
                ..self
            }
        } else if self.field == 5 && sideways {
            MonitorFormView { update_policy: policy_after(self.update_policy), ..self }
        } else if self.field == 6 && sideways {
            MonitorFormView { cleanup_installer: !self.cleanup_installer, ..self }
        } else if self.field == 11 && sideways {
            MonitorFormView { enabled: !self.enabled, ..self }
        } else {
            match self.input(self.field) {
                Some(input) => self.with_input(self.field, input.pressed(key)),
                None => self,
            }
        }
    }
}

/// The repository that a form stands for, or what is wrong with the form.
pub fn github_monitor_from_form(form: &MonitorForm) -> (r: Result<GithubReleaseMonitor, String>)
    ensures
        r matches Ok(monitor) ==> form@.monitor() == Ok::<MonitorView, Seq<char>>(monitor@),
        r matches Err(message) ==> form@.monitor() == Err::<MonitorView, Seq<char>>(message@),
{
    let max_download_bytes: u64 = match parse_u64_input(
        &form.max_download_bytes,
        "max download size",
    ) {
        Ok(n) => n,
        Err(message) => {
            return Err(message);
        },
    };
    let max_extracted_bytes: u64 = match parse_u64_input(
        &form.max_extracted_bytes,
        "max extracted size",
    ) {
        Ok(n) => n,
        Err(message) => {
            return Err(message);
        },
    };
    let max_extracted_files: usize = match parse_usize_input(
        &form.max_extracted_files,
        "max extracted files",
    ) {
        Ok(n) => n,
        Err(message) => {
            return Err(message);
        },
    };
    let strip_components: usize = match parse_usize_input(
        &form.strip_components,
        "strip components",
    ) {
        Ok(n) => n,
        Err(message) => {
            return Err(message);
        },
    };
    Ok(
        GithubReleaseMonitor {
            name: trim(form.name.value.as_str()).to_owned(),
            repository: trim(form.repository.value.as_str()).to_owned(),
            asset_regex: trim(form.asset_regex.value.as_str()).to_owned(),
            target_directory: trim(form.target_directory.value.as_str()).to_owned(),
            format: form.format,
            update_policy: form.update_policy,
            cleanup_installer: form.cleanup_installer,
            max_download_bytes,
            max_extracted_bytes,
            max_extracted_files,
            strip_components,
            enabled: form.enabled,
        },
    )
}

/// Whether a key submits the form of a repository.
pub open spec fn submits_monitor(key: Key) -> bool {
    key.code == KeyCode::Enter || (key.control && key.is_letter('s', 'S'))
}

impl MonitorForm {
    pub open spec fn wf(self) -> bool {
        &&& self.field < GITHUB_MONITOR_FORM_FIELD_COUNT
        &&& self.name.wf()
        &&& self.repository.wf()
        &&& self.asset_regex.wf()
        &&& self.target_directory.wf()
        &&& self.max_download_bytes.wf()
        &&& self.max_extracted_bytes.wf()
        &&& self.max_extracted_files.wf()
        &&& self.strip_components.wf()
    }

    /// Handles a key that does not submit the form.
    pub fn press(&mut self, key: Key)
        requires
            old(self).wf(),
        ensures
            final(self).wf(),
            final(self)@ == old(self)@.changed(key),
    {
        let sideways: bool = key.code == KeyCode::Left || key.code == KeyCode::Right || key.code
            == KeyCode::Char(' ');
        if key.code == KeyCode::Tab || key.code == KeyCode::Down {
            self.field = (self.field + 1) % GITHUB_MONITOR_FORM_FIELD_COUNT;
        } else if key.code == KeyCode::BackTab || key.code == KeyCode::Up {
            self.field = (self.field + GITHUB_MONITOR_FORM_FIELD_COUNT - 1)
                % GITHUB_MONITOR_FORM_FIELD_COUNT;
        } else if self.field == 4 && sideways {
            self.format = if key.code == KeyCode::Left {
                previous_release_format(self.format)
            } else {
                next_release_format(self.format)
            };
        } else if self.field == 5 && sideways {
            self.update_policy = next_release_update_policy(self.update_policy);
        } else if self.field == 6 && sideways {
            self.cleanup_installer = !self.cleanup_installer;
        } else if self.field == 11 && sideways {
            self.enabled = !self.enabled;
        } else {
            self.press_input(key);
        }
    }

    /// Handles a key in the line of text in focus, where there is one.
    fn press_input(&mut self, key: Key)
        requires
            old(self).wf(),
        ensures
            final(self).wf(),
            final(self)@ == match old(self)@.input(old(self).field) {
                Some(input) => old(self)@.with_input(old(self).field, input.pressed(key)),
                None => old(self)@,
            },
    {
        if self.field == 0 {
            let _ = handle_text_input_key(&mut self.name, key);
        } else if self.field == 1 {
            let _ = handle_text_input_key(&mut self.repository, key);
        } else if self.field == 2 {
            let _ = handle_text_input_key(&mut self.asset_regex, key);
        } else if self.field == 3 {
            let _ = handle_text_input_key(&mut self.target_directory, key);
        } else if self.field == 7 {
            let _ = handle_text_input_key(&mut self.max_download_bytes, key);
        } else if self.field == 8 {
            let _ = handle_text_input_key(&mut self.max_extracted_bytes, key);
        } else if self.field == 9 {
            let _ = handle_text_input_key(&mut self.max_extracted_files, key);
        } else if self.field == 10 {
            let _ = handle_text_input_key(&mut self.strip_components, key);
        }
    }

    /// Puts `text` into the line of text in focus; tells whether there is one.
    pub fn paste(&mut self, text: &str) -> (r: bool)
        requires
            old(self).wf(),
        ensures
            final(self).wf(),
            r == (old(self)@.input(old(self).field) is Some),
            final(self)@ == match old(self)@.input(old(self).field) {
                Some(input) => old(self)@.with_input(old(self).field, input.typed(text@)),
                None => old(self)@,
            },
    {
        if self.field == 0 {
            self.name.insert_text(text);
        } else if self.field == 1 {
            self.repository.insert_text(text);
        } else if self.field == 2 {
            self.asset_regex.insert_text(text);
        } else if self.field == 3 {
            self.target_directory.insert_text(text);
        } else if self.field == 7 {
            self.max_download_bytes.insert_text(text);
        } else if self.field == 8 {
            self.max_extracted_bytes.insert_text(text);
        } else if self.field == 9 {
            self.max_extracted_files.insert_text(text);
        } else if self.field == 10 {
            self.strip_components.insert_text(text);
        } else {
            return false;
        }
        true
    }

    /// The form of a repository that is added, or of the one that is changed.
    pub fn new(
        mode: MonitorFormMode,
        original_index: Option<usize>,
        monitor: Option<&GithubReleaseMonitor>,
    ) -> (r: MonitorForm)
        ensures
            r.wf(),
            r@ == monitor_form(
                mode,
                original_index,
                match monitor {
                    Some(m) => Some(m@),
                    None => None,
                },
            ),
    {
        match monitor {
            Some(m) => MonitorForm {
                mode,
                original_index,
                field: 0,
                name: TextInput::new(m.name.as_str()),
                repository: TextInput::new(m.repository.as_str()),
                asset_regex: TextInput::new(m.asset_regex.as_str()),
                target_directory: TextInput::new(m.target_directory.as_str()),
                format: m.format,
                update_policy: m.update_policy,
                cleanup_installer: m.cleanup_installer,
                max_download_bytes: TextInput::new(decimal(m.max_download_bytes).as_str()),
                max_extracted_bytes: TextInput::new(decimal(m.max_extracted_bytes).as_str()),
                max_extracted_files: TextInput::new(count_text(m.max_extracted_files).as_str()),
                strip_components: TextInput::new(count_text(m.strip_components).as_str()),
                enabled: m.enabled,
            },
            None => MonitorForm {
                mode,
                original_index,
                field: 0,
                name: TextInput::new(""),
                repository: TextInput::new(""),
                asset_regex: TextInput::new(""),
                target_directory: TextInput::new(""),
                format: ReleaseAssetFormat::Zip,
                update_policy: ReleaseUpdatePolicy::Manual,
                cleanup_installer: true,
                max_download_bytes: TextInput::new(
                    decimal(DEFAULT_MONITOR_MAX_DOWNLOAD_BYTES).as_str(),
                ),
                max_extracted_bytes: TextInput::new(
                    decimal(DEFAULT_MONITOR_MAX_EXTRACTED_BYTES).as_str(),
                ),
                max_extracted_files: TextInput::new(
                    count_text(DEFAULT_MONITOR_MAX_EXTRACTED_FILES).as_str(),
                ),
                strip_components: TextInput::new("0"),
                enabled: true,
            },
        }
    }
}

/// The form of a repository that is added, or of the one that is changed.
pub open spec fn monitor_form(
    mode: MonitorFormMode,
    original_index: Option<usize>,
    monitor: Option<MonitorView>,
) -> MonitorFormView {
    match monitor {
        Some(m) => MonitorFormView {
            mode,
            original_index,
            field: 0,
            name: InputView::fresh(m.name),
            repository: InputView::fresh(m.repository),
            asset_regex: InputView::fresh(m.asset_regex),
            target_directory: InputView::fresh(m.target_directory),
            format: m.format,
            update_policy: m.update_policy,
            cleanup_installer: m.cleanup_installer,
            max_download_bytes: InputView::fresh(decimal_text(m.max_download_bytes as nat)),
            max_extracted_bytes: InputView::fresh(decimal_text(m.max_extracted_bytes as nat)),
            max_extracted_files: InputView::fresh(decimal_text(m.max_extracted_files as nat)),
            strip_components: InputView::fresh(decimal_text(m.strip_components as nat)),
            enabled: m.enabled,
        },
        None => MonitorFormView {
            mode,
            original_index,
            field: 0,
            name: InputView::fresh(""@),
            repository: InputView::fresh(""@),
            asset_regex: InputView::fresh(""@),
            target_directory: InputView::fresh(""@),
            format: ReleaseAssetFormat::Zip,
            update_policy: ReleaseUpdatePolicy::Manual,
            cleanup_installer: true,
            max_download_bytes: InputView::fresh(
                decimal_text(DEFAULT_MONITOR_MAX_DOWNLOAD_BYTES as nat),
            ),
            max_extracted_bytes: InputView::fresh(
                decimal_text(DEFAULT_MONITOR_MAX_EXTRACTED_BYTES as nat),
            ),
            max_extracted_files: InputView::fresh(
                decimal_text(DEFAULT_MONITOR_MAX_EXTRACTED_FILES as nat),
            ),
            strip_components: InputView::fresh("0"@),
            enabled: true,
        },
    }
}

/// Digits have no white space around them.
proof fn lemma_number_text(n: nat, max: nat)
    requires
        n <= max,
    ensures
        number_of(trimmed(decimal_text(n)), max) == Some(n),
{
    let s = decimal_text(n);
    lemma_decimal_round_trip(n, max);
    assert(without_plus(s) == s || s[0] == '+');
    lemma_decimal_digits(n);
    assert(is_digit_char(s[0]));
    assert(is_digit_char(s.last()));
    let p = |c: char| is_white(c);
    assert(drop_leading(s, p) == s);
    assert(trimmed(s) == s);
}

/// Opening the form of a repository and submitting it unchanged gives the
/// repository back, but for white space around its texts.
pub proof fn law_monitor_form_keeps_the_monitor(index: usize, m: MonitorView)
    ensures
        ({
            let form = monitor_form(MonitorFormMode::Edit, Some(index), Some(m));
            form.monitor() == Ok::<MonitorView, Seq<char>>(
                MonitorView {
                    name: trimmed(m.name),
                    repository: trimmed(m.repository),
                    asset_regex: trimmed(m.asset_regex),
                    target_directory: trimmed(m.target_directory),
                    ..m
                },
            )
        }),
{
    lemma_number_text(m.max_download_bytes as nat, u64::MAX as nat);
    lemma_number_text(m.max_extracted_bytes as nat, u64::MAX as nat);
    lemma_number_text(m.max_extracted_files as nat, usize::MAX as nat);
    lemma_number_text(m.strip_components as nat, usize::MAX as nat);
}

/// The key that is submitted for GitHub, if any.
pub open spec fn key_submitted(value: Seq<char>) -> Option<Seq<char>> {
    if trimmed(value).len() > 0 {
        Some(trimmed(value))
    } else {
        None
    }
}

/// The key that is submitted for GitHub, if any.
pub fn github_api_key_submission(value: &str) -> (r: Option<&str>)
    ensures
        r is Some <==> key_submitted(value@) is Some,
        r matches Some(key) ==> key_submitted(value@) == Some(key@),
{
    let key = trim(value);
    if key.is_empty() {
        None
    } else {
        Some(key)
    }
}

} // verus!
