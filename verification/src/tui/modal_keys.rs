//! What the keys do in the dialogs.

use crate::number::{number_of, parse_number};
use crate::search::{texts, trim, trimmed};
use crate::tui::app::{App, AppView};
use crate::tui::editor::TomlEditor;
use crate::tui::editor_keys::{EditorAsk, EditorOutcome, handle_editor_key};
use crate::tui::form::{
    CommandForm, CommandFormAsk, CommandFormMode, CommandFormOutcome, CommandFormView,
    MonitorForm, MonitorFormView, ProxyForm, ProxyFormAsk, ProxyFormOutcome, ProxyFormView,
    github_api_key_submission, github_monitor_from_form, handle_text_input_key, key_submitted,
    submits_monitor,
};
use crate::tui::input::{InputView, TextInput};
use crate::tui::keys::{Key, KeyCode, is_ctrl_c};
use crate::tui::labels::Availability;
use crate::tui::modal::{
    Effect, EffectView, Modal, ModalView, ReloadPurpose, SettingsChange, SettingsChangeView,
};
use crate::tui::model::text_of;
use vstd::prelude::*;
use vstd::string::*;

verus! {

/// The key that a dialog takes: Control with C closes it as Escape does.
pub open spec fn dialog_key(key: Key) -> Key {
    if key.ctrl_c() {
        Key::bare(KeyCode::Esc)
    } else {
        key
    }
}

fn key_for_dialog(key: Key) -> (r: Key)
    ensures
        r == dialog_key(key),
{
    if is_ctrl_c(&key) {
        Key::plain(KeyCode::Esc)
    } else {
        key
    }
}

/// What is said where repositories cannot be changed.
pub open spec fn editing_disabled() -> Seq<char> {
    "GitHub repository editing is disabled with --config"@
}

impl AppView {
    pub open spec fn closed(self) -> AppView {
        self.with_modal(ModalView::Closed)
    }

    /// The state after a key in the dialog of the API key.
    #[verifier::opaque]
    pub open spec fn api_key_pressed(self, api_key: InputView, key: Key) -> AppView {
        match key.code {
            KeyCode::Esc => self.closed().told("GitHub API key unchanged"@, "GitHub API Key 未更改"@),
            KeyCode::Enter => self.asked(
                EffectView::SaveApiKey { key: key_submitted(api_key.chars) },
            ),
            _ => self.with_modal(ModalView::GithubApiKey { api_key: api_key.pressed(key) }),
        }
    }

    /// The state after a key in the dialog that confirms installing releases.
    #[verifier::opaque]
    pub open spec fn confirm_installs_pressed(
        self,
        monitors: Seq<Seq<char>>,
        key: Key,
    ) -> AppView {
        if key.accepts() {
            self.closed().installs_started(monitors)
        } else if key.declines() {
            self.closed()
        } else {
            self
        }
    }

    /// The state after a key in the dialog that confirms updates.
    #[verifier::opaque]
    pub open spec fn confirm_updates_pressed(
        self,
        tools: Seq<Seq<char>>,
        target: Option<Seq<char>>,
        current: Seq<Seq<char>>,
        key: Key,
    ) -> AppView {
        if key.accepts() {
            self.closed().updates_started(tools, target, current)
        } else if key.declines() {
            self.closed()
        } else {
            self
        }
    }

    /// The state after a key in the dialog that asks for a version.
    #[verifier::opaque]
    pub open spec fn target_version_pressed(
        self,
        name: Seq<char>,
        version: InputView,
        key: Key,
    ) -> AppView {
        match key.code {
            KeyCode::Esc => self.closed(),
            KeyCode::Enter => if trimmed(version.chars).len() == 0 {
                self.told("Version cannot be empty"@, "版本不能为空"@)
            } else {
                self.with_modal(
                    ModalView::ConfirmUpdate {
                        tools: seq![name],
                        target_version: Some(trimmed(version.chars)),
                        current_tools: Seq::empty(),
                    },
                )
            },
            _ => self.with_modal(ModalView::TargetVersion { name, version: version.pressed(key) }),
        }
    }

    /// The state after a key in the dialog that confirms a custom command.
    #[verifier::opaque]
    pub open spec fn confirm_add_pressed(
        self,
        mode: CommandFormMode,
        original_name: Option<Seq<char>>,
        name: Seq<char>,
        command: Seq<char>,
        key: Key,
    ) -> AppView {
        if key.accepts() {
            self.closed().add_started(mode, original_name, name, command)
        } else if key.declines() {
            self.with_modal(
                ModalView::AddCommand {
                    form: CommandFormView {
                        mode,
                        original_name,
                        field: 1,
                        name: InputView::fresh(name),
                        command: InputView::fresh(command),
                    },
                },
            ).told("Edit the command or press Esc to cancel"@, "请修改命令，或按 Esc 取消"@)
        } else {
            self
        }
    }

    /// The state after a key in the dialog that confirms a deletion.
    #[verifier::opaque]
    pub open spec fn confirm_delete_pressed(self, name: Seq<char>, key: Key) -> AppView {
        if key.accepts() {
            self.closed().delete_started(name)
        } else if key.declines() {
            self.closed()
        } else {
            self
        }
    }

    /// The state after a key in the dialog that confirms uninstalling a tool.
    #[verifier::opaque]
    pub open spec fn confirm_uninstall_pressed(self, name: Seq<char>, key: Key) -> AppView {
        if key.accepts() {
            self.closed().uninstall_started(name)
        } else if key.declines() {
            self.closed()
        } else {
            self
        }
    }

    /// The state after a key in the form of a custom command.
    #[verifier::opaque]
    pub open spec fn command_form_pressed(self, form: CommandFormView, key: Key) -> AppView {
        let (after, ask) = form.pressed(key, self.language);
        match ask {
            CommandFormAsk::Stay => self.with_modal(ModalView::AddCommand { form: after }),
            CommandFormAsk::Say(text) => self.with_modal(
                ModalView::AddCommand { form: after },
            ).said(text),
            CommandFormAsk::Close => self.closed(),
            CommandFormAsk::Confirm { name, command } => self.with_modal(
                ModalView::ConfirmAdd {
                    mode: form.mode,
                    original_name: form.original_name,
                    name,
                    command,
                },
            ),
        }
    }

    /// The state after a key in the form of the network settings.
    #[verifier::opaque]
    pub open spec fn proxy_form_pressed(self, form: ProxyFormView, key: Key) -> AppView {
        let (after, ask) = form.pressed(key);
        match ask {
            ProxyFormAsk::Stay => self.with_modal(ModalView::NetworkProxy { form: after }),
            ProxyFormAsk::Close => self.closed(),
            ProxyFormAsk::Save(network) => self.with_modal(
                ModalView::NetworkProxy { form: after },
            ).asked(EffectView::SaveSettings(SettingsChangeView::Network(network))),
        }
    }

    /// The state after a key in the form of a repository.
    #[verifier::opaque]
    pub open spec fn monitor_form_pressed(self, form: MonitorFormView, key: Key) -> AppView {
        if key.code == KeyCode::Esc {
            self.closed()
        } else if submits_monitor(key) {
            match form.monitor() {
                Err(error) => self.monitor_unsaved(error),
                Ok(monitor) => if self.config_path is Some {
                    self.monitor_unsaved(editing_disabled())
                } else {
                    self.asked(
                        EffectView::SaveMonitor { original_index: form.original_index, monitor },
                    )
                },
            }
        } else {
            self.with_modal(ModalView::GithubMonitorForm { form: form.changed(key) })
        }
    }

    /// The state after a key in the dialog that confirms deleting a repository.
    #[verifier::opaque]
    pub open spec fn confirm_delete_monitor_pressed(self, index: usize, key: Key) -> AppView {
        if key.accepts() {
            if self.config_path is Some {
                self.closed().config_unsaved(editing_disabled()).refocused_monitor(index)
            } else {
                self.closed().asked(EffectView::DeleteMonitor { index })
            }
        } else if key.declines() {
            self.closed()
        } else {
            self
        }
    }

    /// The state after a key in the dialog of the interval.
    #[verifier::opaque]
    pub open spec fn interval_pressed(self, seconds: InputView, key: Key) -> AppView {
        match key.code {
            KeyCode::Esc => self.closed(),
            KeyCode::Enter => match number_of(trimmed(seconds.chars), u64::MAX as nat) {
                Some(value) => if 60 <= value <= 86400 {
                    self.asked(
                        EffectView::SaveSettings(SettingsChangeView::PollInterval(value as u64)),
                    )
                } else {
                    self.interval_refused()
                },
                None => self.interval_refused(),
            },
            _ => self.with_modal(ModalView::GithubPollInterval { seconds: seconds.pressed(key) }),
        }
    }

    pub open spec fn interval_refused(self) -> AppView {
        self.told(
            "Interval must be an integer from 60 to 86400 seconds"@,
            "间隔必须是 60 到 86400 之间的整数秒数"@,
        )
    }

    /// The state after a key in a dialog other than the TOML editor.
    pub open spec fn dialog_pressed(self, key: Key) -> AppView {
        match self.modal {
            ModalView::Closed => self,
            ModalView::ConfirmUpdate {
                tools,
                target_version,
                current_tools,
            } => self.confirm_updates_pressed(tools, target_version, current_tools, key),
            ModalView::ConfirmGithubMonitorUpdate { monitors } => self.confirm_installs_pressed(
                monitors,
                key,
            ),
            ModalView::TargetVersion { name, version } => self.target_version_pressed(
                name,
                version,
                key,
            ),
            ModalView::AddCommand { form } => self.command_form_pressed(form, key),
            ModalView::ConfirmAdd {
                mode,
                original_name,
                name,
                command,
            } => self.confirm_add_pressed(mode, original_name, name, command, key),
            ModalView::ConfirmDelete { name } => self.confirm_delete_pressed(name, key),
            ModalView::ConfirmUninstall { name, .. } => self.confirm_uninstall_pressed(name, key),
            ModalView::TomlEditor { .. } => self,
            ModalView::NetworkProxy { form } => self.proxy_form_pressed(form, key),
            ModalView::GithubApiKey { api_key } => self.api_key_pressed(api_key, key),
            ModalView::GithubMonitorForm { form } => self.monitor_form_pressed(form, key),
            ModalView::ConfirmDeleteGithubMonitor { index } => self.confirm_delete_monitor_pressed(
                index,
                key,
            ),
            ModalView::GithubPollInterval { seconds } => self.interval_pressed(seconds, key),
        }
    }

    /// The state after a key in the TOML editor, which is then `editor`.
    pub open spec fn editor_answered(self, editor: TomlEditor, ask: EditorAsk) -> AppView {
        let a = self.with_modal(ModalView::TomlEditor { editor });
        match ask {
            EditorAsk::Nothing => a,
            EditorAsk::Say(english, chinese) => a.told(english, chinese),
            EditorAsk::Close => AppView {
                toml_editor_area: None,
                toml_editor_drag: None,
                ..self.closed()
            }.told("TOML editor closed"@, "已关闭 TOML 编辑器"@),
            EditorAsk::Save => a.asked(
                EffectView::SaveToml { path: editor.path@, text: editor.text@ },
            ),
            EditorAsk::Copy(text) => a.asked(EffectView::CopyText { text }),
            EditorAsk::Paste => a.asked(EffectView::PasteClipboard),
        }
    }

    /// Whether `new` is the state after a key in the TOML editor `editor`.
    pub open spec fn editor_pressed(self, new: AppView, editor: TomlEditor, key: Key) -> bool {
        exists|after: TomlEditor| #[trigger]
            editor.key_step(after, key, self.toml_editor_area) && new == self.editor_answered(
                after,
                editor.key_answer(key),
            )
    }
}

impl App {
    /// Takes the dialog away.
    fn take_modal(&mut self) -> (r: Modal)
        requires
            old(self).wf(),
        ensures
            final(self).wf(),
            r.wf(),
            r == old(self).modal,
            final(self)@ == old(self)@.closed(),
            final(self).config_path == old(self).config_path,
    {
        let mut modal = Modal::Closed;
        std::mem::swap(&mut modal, &mut self.modal);
        modal
    }

    fn press_api_key(&mut self, key: Key)
        requires
            old(self).wf(),
            old(self).modal is GithubApiKey,
        ensures
            final(self).wf(),
            final(self)@ == old(self)@.api_key_pressed(old(self)@.modal->api_key, key),
    {
        proof {
            reveal(AppView::api_key_pressed);
        }
        match key.code {
            KeyCode::Esc => {
                self.close_api_key();
                self.tell("GitHub API key unchanged", "GitHub API Key 未更改");
            },
            KeyCode::Enter => {
                let submitted: Option<String> = match &self.modal {
                    Modal::GithubApiKey { api_key } => match github_api_key_submission(
                        api_key.value.as_str(),
                    ) {
                        Some(text) => Some(text.to_owned()),
                        None => None,
                    },
                    _ => None,
                };
                self.ask(Effect::SaveApiKey { key: submitted });
            },
            _ => {
                if let Modal::GithubApiKey { api_key } = &mut self.modal {
                    let _ = handle_text_input_key(api_key, key);
                }
            },
        }
    }

    fn press_confirm_installs(&mut self, monitors: Vec<String>, key: Key)
        requires
            old(self).wf(),
            old(self).modal is Closed,
        ensures
            final(self).wf(),
            final(self)@ == old(self)@.with_modal(
                ModalView::ConfirmGithubMonitorUpdate { monitors: texts(monitors@) },
            ).confirm_installs_pressed(texts(monitors@), key),
    {
        proof {
            reveal(AppView::confirm_installs_pressed);
        }
        if key.is_yes() {
            self.start_release_updates(monitors);
        } else if !key.is_no() {
            self.modal = Modal::ConfirmGithubMonitorUpdate { monitors };
        }
    }

    fn press_confirm_updates(
        &mut self,
        tools: Vec<String>,
        target_version: Option<String>,
        current_tools: Vec<String>,
        key: Key,
    )
        requires
            old(self).wf(),
            old(self).modal is Closed,
            tools@.len() + current_tools@.len() <= usize::MAX,
            target_version is Some ==> tools@.len() == 1,
        ensures
            final(self).wf(),
            final(self)@ == old(self)@.with_modal(
                ModalView::ConfirmUpdate {
                    tools: texts(tools@),
                    target_version: text_of(target_version),
                    current_tools: texts(current_tools@),
                },
            ).confirm_updates_pressed(
                texts(tools@),
                text_of(target_version),
                texts(current_tools@),
                key,
            ),
    {
        proof {
            reveal(AppView::confirm_updates_pressed);
        }
        if key.is_yes() {
            self.start_updates(tools, target_version, current_tools);
        } else if !key.is_no() {
            self.modal = Modal::ConfirmUpdate { tools, target_version, current_tools };
        }
    }

    fn press_target_version(&mut self, name: String, version: TextInput, key: Key)
        requires
            old(self).wf(),
            old(self).modal is Closed,
            version.wf(),
        ensures
            final(self).wf(),
            final(self)@ == old(self)@.with_modal(
                ModalView::TargetVersion { name: name@, version: version@ },
            ).target_version_pressed(name@, version@, key),
    {
        proof {
            reveal(AppView::target_version_pressed);
        }
        let mut version = version;
        match key.code {
            KeyCode::Esc => {},
            KeyCode::Enter => {
                let value = trim(version.value.as_str()).to_owned();
                if value.as_str().is_empty() {
                    self.modal = Modal::TargetVersion { name, version };
                    self.tell("Version cannot be empty", "版本不能为空");
                } else {
                    let ghost tool = name@;
                    let mut tools: Vec<String> = Vec::new();
                    tools.push(name);
                    let current_tools: Vec<String> = Vec::new();
                    assert(texts(tools@) =~= seq![tool]);
                    assert(texts(current_tools@) =~= Seq::<Seq<char>>::empty());
                    self.modal = Modal::ConfirmUpdate {
                        tools,
                        target_version: Some(value),
                        current_tools,
                    };
                }
            },
            _ => {
                let _ = handle_text_input_key(&mut version, key);
                self.modal = Modal::TargetVersion { name, version };
            },
        }
    }

    fn press_confirm_add(
        &mut self,
        mode: CommandFormMode,
        original_name: Option<String>,
        name: String,
        command: String,
        key: Key,
    )
        requires
            old(self).wf(),
            old(self).modal is Closed,
        ensures
            final(self).wf(),
            final(self)@ == old(self)@.with_modal(
                ModalView::ConfirmAdd {
                    mode,
                    original_name: text_of(original_name),
                    name: name@,
                    command: command@,
                },
            ).confirm_add_pressed(mode, text_of(original_name), name@, command@, key),
    {
        proof {
            reveal(AppView::confirm_add_pressed);
        }
        if key.is_yes() {
            self.start_add(mode, original_name, name, command);
        } else if key.is_no() {
            self.modal = Modal::AddCommand {
                form: CommandForm {
                    mode,
                    original_name,
                    field: 1,
                    name: TextInput::new(name.as_str()),
                    command: TextInput::new(command.as_str()),
                },
            };
            self.tell("Edit the command or press Esc to cancel", "请修改命令，或按 Esc 取消");
        } else {
            self.modal = Modal::ConfirmAdd { mode, original_name, name, command };
        }
    }

    fn press_confirm_delete(&mut self, name: String, key: Key)
        requires
            old(self).wf(),
            old(self).modal is Closed,
        ensures
            final(self).wf(),
            final(self)@ == old(self)@.with_modal(
                ModalView::ConfirmDelete { name: name@ },
            ).confirm_delete_pressed(name@, key),
    {
        proof {
            reveal(AppView::confirm_delete_pressed);
        }
        if key.is_yes() {
            self.start_delete(name);
        } else if !key.is_no() {
            self.modal = Modal::ConfirmDelete { name };
        }
    }

    fn press_confirm_uninstall(&mut self, name: String, command: String, derived: bool, key: Key)
        requires
            old(self).wf(),
            old(self).modal is Closed,
        ensures
            final(self).wf(),
            final(self)@ == old(self)@.with_modal(
                ModalView::ConfirmUninstall { name: name@, command: command@, derived },
            ).confirm_uninstall_pressed(name@, key),
    {
        proof {
            reveal(AppView::confirm_uninstall_pressed);
        }
        if key.is_yes() {
            self.start_uninstall(name);
        } else if !key.is_no() {
            self.modal = Modal::ConfirmUninstall { name, command, derived };
        }
    }

    fn press_command_form(&mut self, form: CommandForm, key: Key)
        requires
            old(self).wf(),
            old(self).modal is Closed,
            form.wf(),
        ensures
            final(self).wf(),
            final(self)@ == old(self)@.with_modal(
                ModalView::AddCommand { form: form@ },
            ).command_form_pressed(form@, key),
    {
        proof {
            reveal(AppView::command_form_pressed);
        }
        let mut form = form;
        match form.press(key, self.language) {
            CommandFormOutcome::Stay => {
                self.modal = Modal::AddCommand { form };
            },
            CommandFormOutcome::Say(text) => {
                self.modal = Modal::AddCommand { form };
                self.message = text;
            },
            CommandFormOutcome::Close => {},
            CommandFormOutcome::Confirm { name, command } => {
                self.modal = Modal::ConfirmAdd {
                    mode: form.mode,
                    original_name: form.original_name,
                    name,
                    command,
                };
            },
        }
    }

    fn press_proxy_form(&mut self, form: ProxyForm, key: Key)
        requires
            old(self).wf(),
            old(self).modal is Closed,
            form.wf(),
        ensures
            final(self).wf(),
            final(self)@ == old(self)@.with_modal(
                ModalView::NetworkProxy { form: form@ },
            ).proxy_form_pressed(form@, key),
    {
        proof {
            reveal(AppView::proxy_form_pressed);
        }
        let mut form = form;
        match form.press(key) {
            ProxyFormOutcome::Stay => {
                self.modal = Modal::NetworkProxy { form };
            },
            ProxyFormOutcome::Close => {},
            ProxyFormOutcome::Save(network) => {
                self.modal = Modal::NetworkProxy { form };
                self.ask(Effect::SaveSettings(SettingsChange::Network(network)));
            },
        }
    }

    fn press_monitor_form(&mut self, form: MonitorForm, key: Key)
        requires
            old(self).wf(),
            old(self).modal is Closed,
            form.wf(),
        ensures
            final(self).wf(),
            final(self)@ == old(self)@.with_modal(
                ModalView::GithubMonitorForm { form: form@ },
            ).monitor_form_pressed(form@, key),
    {
        proof {
            reveal(AppView::monitor_form_pressed);
        }
        let mut form = form;
        if key.code == KeyCode::Esc {
            return;
        }
        if key.code == KeyCode::Enter || (key.control && key.letter('s', 'S')) {
            let original_index = form.original_index;
            let submitted = github_monitor_from_form(&form);
            self.modal = Modal::GithubMonitorForm { form };
            match submitted {
                Err(error) => self.report_monitor_error(error.as_str()),
                Ok(monitor) => {
                    if self.config_path.is_some() {
                        self.report_monitor_error(
                            "GitHub repository editing is disabled with --config",
                        );
                    } else {
                        self.ask(Effect::SaveMonitor { original_index, monitor });
                    }
                },
            }
        } else {
            form.press(key);
            self.modal = Modal::GithubMonitorForm { form };
        }
    }

    fn report_monitor_error(&mut self, error: &str)
        requires
            old(self).wf(),
        ensures
            final(self).wf(),
            final(self)@ == old(self)@.monitor_unsaved(error@),
    {
        self.tell_with("GitHub monitor was not saved: ", "GitHub 监控未保存：", error);
    }

    fn press_confirm_delete_monitor(&mut self, index: usize, key: Key)
        requires
            old(self).wf(),
            old(self).modal is Closed,
        ensures
            final(self).wf(),
            final(self)@ == old(self)@.with_modal(
                ModalView::ConfirmDeleteGithubMonitor { index },
            ).confirm_delete_monitor_pressed(index, key),
    {
        proof {
            reveal(AppView::confirm_delete_monitor_pressed);
        }
        if key.is_yes() {
            if self.config_path.is_some() {
                self.report_custom_config_save_error(
                    "GitHub repository editing is disabled with --config",
                );
                self.refocus_monitor(index);
            } else {
                self.ask(Effect::DeleteMonitor { index });
            }
        } else if !key.is_no() {
            self.modal = Modal::ConfirmDeleteGithubMonitor { index };
        }
    }

    fn press_interval(&mut self, seconds: TextInput, key: Key)
        requires
            old(self).wf(),
            old(self).modal is Closed,
            seconds.wf(),
        ensures
            final(self).wf(),
            final(self)@ == old(self)@.with_modal(
                ModalView::GithubPollInterval { seconds: seconds@ },
            ).interval_pressed(seconds@, key),
    {
        proof {
            reveal(AppView::interval_pressed);
        }
        let mut seconds = seconds;
        match key.code {
            KeyCode::Esc => {},
            KeyCode::Enter => {
                let parsed = parse_number(trim(seconds.value.as_str()), u64::MAX);
                self.modal = Modal::GithubPollInterval { seconds };
                let accepted: Option<u64> = match parsed {
                    Some(value) => if 60 <= value && value <= 86400 {
                        Some(value)
                    } else {
                        None
                    },
                    None => None,
                };
                match accepted {
                    Some(value) => self.ask(
                        Effect::SaveSettings(SettingsChange::PollInterval(value)),
                    ),
                    None => self.tell(
                        "Interval must be an integer from 60 to 86400 seconds",
                        "间隔必须是 60 到 86400 之间的整数秒数",
                    ),
                }
            },
            _ => {
                let _ = handle_text_input_key(&mut seconds, key);
                self.modal = Modal::GithubPollInterval { seconds };
            },
        }
    }
}

impl App {
    fn updates_dialog(&mut self, key: Key)
        requires
            old(self).wf(),
            old(self).modal is ConfirmUpdate,
        ensures
            final(self).wf(),
            final(self)@ == old(self)@.dialog_pressed(key),
    {
        match self.take_modal() {
            Modal::ConfirmUpdate { tools, target_version, current_tools } => {
                self.press_confirm_updates(tools, target_version, current_tools, key)
            },
            _ => {},
        }
    }

    fn installs_dialog(&mut self, key: Key)
        requires
            old(self).wf(),
            old(self).modal is ConfirmGithubMonitorUpdate,
        ensures
            final(self).wf(),
            final(self)@ == old(self)@.dialog_pressed(key),
    {
        match self.take_modal() {
            Modal::ConfirmGithubMonitorUpdate { monitors } => self.press_confirm_installs(monitors, key),
            _ => {},
        }
    }

    fn version_dialog(&mut self, key: Key)
        requires
            old(self).wf(),
            old(self).modal is TargetVersion,
        ensures
            final(self).wf(),
            final(self)@ == old(self)@.dialog_pressed(key),
    {
        match self.take_modal() {
            Modal::TargetVersion { name, version } => self.press_target_version(name, version, key),
            _ => {},
        }
    }

    fn command_dialog(&mut self, key: Key)
        requires
            old(self).wf(),
            old(self).modal is AddCommand,
        ensures
            final(self).wf(),
            final(self)@ == old(self)@.dialog_pressed(key),
    {
        match self.take_modal() {
            Modal::AddCommand { form } => self.press_command_form(form, key),
            _ => {},
        }
    }

    fn add_dialog(&mut self, key: Key)
        requires
            old(self).wf(),
            old(self).modal is ConfirmAdd,
        ensures
            final(self).wf(),
            final(self)@ == old(self)@.dialog_pressed(key),
    {
        match self.take_modal() {
            Modal::ConfirmAdd { mode, original_name, name, command } => {
                self.press_confirm_add(mode, original_name, name, command, key)
            },
            _ => {},
        }
    }

    fn delete_dialog(&mut self, key: Key)
        requires
            old(self).wf(),
            old(self).modal is ConfirmDelete,
        ensures
            final(self).wf(),
            final(self)@ == old(self)@.dialog_pressed(key),
    {
        match self.take_modal() {
            Modal::ConfirmDelete { name } => self.press_confirm_delete(name, key),
            _ => {},
        }
    }

    fn uninstall_dialog(&mut self, key: Key)
        requires
            old(self).wf(),
            old(self).modal is ConfirmUninstall,
        ensures
            final(self).wf(),
            final(self)@ == old(self)@.dialog_pressed(key),
    {
        match self.take_modal() {
            Modal::ConfirmUninstall { name, command, derived } => {
                self.press_confirm_uninstall(name, command, derived, key)
            },
            _ => {},
        }
    }

    fn proxy_dialog(&mut self, key: Key)
        requires
            old(self).wf(),
            old(self).modal is NetworkProxy,
        ensures
            final(self).wf(),
            final(self)@ == old(self)@.dialog_pressed(key),
    {
        match self.take_modal() {
            Modal::NetworkProxy { form } => self.press_proxy_form(form, key),
            _ => {},
        }
    }

    fn monitor_dialog(&mut self, key: Key)
        requires
            old(self).wf(),
            old(self).modal is GithubMonitorForm,
        ensures
            final(self).wf(),
            final(self)@ == old(self)@.dialog_pressed(key),
    {
        match self.take_modal() {
            Modal::GithubMonitorForm { form } => self.press_monitor_form(form, key),
            _ => {},
        }
    }

    fn delete_monitor_dialog(&mut self, key: Key)
        requires
            old(self).wf(),
            old(self).modal is ConfirmDeleteGithubMonitor,
        ensures
            final(self).wf(),
            final(self)@ == old(self)@.dialog_pressed(key),
    {
        match self.take_modal() {
            Modal::ConfirmDeleteGithubMonitor { index } => self.press_confirm_delete_monitor(index, key),
            _ => {},
        }
    }

    fn interval_dialog(&mut self, key: Key)
        requires
            old(self).wf(),
            old(self).modal is GithubPollInterval,
        ensures
            final(self).wf(),
            final(self)@ == old(self)@.dialog_pressed(key),
    {
        match self.take_modal() {
            Modal::GithubPollInterval { seconds } => self.press_interval(seconds, key),
            _ => {},
        }
    }

    fn api_key_dialog(&mut self, key: Key)
        requires
            old(self).wf(),
            old(self).modal is GithubApiKey,
        ensures
            final(self).wf(),
            final(self)@ == old(self)@.dialog_pressed(key),
    {
        self.press_api_key(key);
    }
}

/// Handles a key in a dialog other than the TOML editor.
fn handle_dialog_key(app: &mut App, key: Key)
    requires
        old(app).wf(),
        !(old(app).modal is TomlEditor),
    ensures
        final(app).wf(),
        final(app)@ == old(app)@.dialog_pressed(key),
{
    match &app.modal {
        Modal::GithubApiKey { .. } => app.api_key_dialog(key),
        Modal::ConfirmUpdate { .. } => app.updates_dialog(key),
        Modal::ConfirmGithubMonitorUpdate { .. } => app.installs_dialog(key),
        Modal::TargetVersion { .. } => app.version_dialog(key),
        Modal::AddCommand { .. } => app.command_dialog(key),
        Modal::ConfirmAdd { .. } => app.add_dialog(key),
        Modal::ConfirmDelete { .. } => app.delete_dialog(key),
        Modal::ConfirmUninstall { .. } => app.uninstall_dialog(key),
        Modal::NetworkProxy { .. } => app.proxy_dialog(key),
        Modal::GithubMonitorForm { .. } => app.monitor_dialog(key),
        Modal::ConfirmDeleteGithubMonitor { .. } => app.delete_monitor_dialog(key),
        Modal::GithubPollInterval { .. } => app.interval_dialog(key),
        Modal::Closed => {},
        Modal::TomlEditor { .. } => {},
    }
}

/// Handles a key in a dialog.
pub fn handle_modal_key(app: &mut App, key: Key)
    requires
        old(app).wf(),
    ensures
        final(app).wf(),
        match old(app)@.modal {
            ModalView::TomlEditor { editor } => old(app)@.editor_pressed(final(app)@, editor, key),
            _ => final(app)@ == old(app)@.dialog_pressed(dialog_key(key)),
        },
{
    if matches!(app.modal, Modal::TomlEditor { .. }) {
        handle_toml_editor_key(app, key);
        return;
    }
    handle_dialog_key(app, key_for_dialog(key));
}

impl App {
    /// Hands a key to the TOML editor.
    fn press_editor(&mut self, key: Key) -> (outcome: EditorOutcome)
        requires
            old(self).wf(),
            old(self).modal is TomlEditor,
        ensures
            final(self).modal is TomlEditor,
            outcome@ == old(self)@.modal->editor.key_answer(key),
            old(self)@.modal->editor.key_step(
                final(self)@.modal->editor,
                key,
                old(self)@.toml_editor_area,
            ),
            final(self).wf(),
            final(self)@ == old(self)@.with_modal(final(self)@.modal),
    {
        let area = self.toml_editor_area;
        match &mut self.modal {
            Modal::TomlEditor { editor } => handle_editor_key(editor, key, area),
            _ => EditorOutcome::Nothing,
        }
    }

    /// Does what the TOML editor has asked for.
    fn answer_editor(&mut self, outcome: EditorOutcome)
        requires
            old(self).wf(),
            old(self).modal is TomlEditor,
        ensures
            final(self).wf(),
            final(self)@ == old(self)@.editor_answered(old(self)@.modal->editor, outcome@),
    {
        match outcome {
            EditorOutcome::Nothing => {},
            EditorOutcome::Say(english, chinese) => self.tell(english, chinese),
            EditorOutcome::Close => {
                self.modal = Modal::Closed;
                self.toml_editor_area = None;
                self.toml_editor_drag = None;
                self.tell("TOML editor closed", "已关闭 TOML 编辑器");
            },
            EditorOutcome::Save => {
                if let Modal::TomlEditor { editor } = &self.modal {
                    let path = editor.path.clone();
                    let text = editor.text.clone();
                    self.ask(Effect::SaveToml { path, text });
                }
            },
            EditorOutcome::Copy(text) => self.ask(Effect::CopyText { text }),
            EditorOutcome::Paste => self.ask(Effect::PasteClipboard),
        }
    }
}

/// Handles a key in the TOML editor.
pub fn handle_toml_editor_key(app: &mut App, key: Key)
    requires
        old(app).wf(),
        old(app).modal is TomlEditor,
    ensures
        final(app).wf(),
        old(app)@.editor_pressed(final(app)@, old(app)@.modal->editor, key),
{
    let outcome = app.press_editor(key);
    app.answer_editor(outcome);
}

impl App {
    /// Notes that the TOML editor has saved its file, or tells why it has not.
    pub fn toml_saved(&mut self, saved: Result<(), String>)
        requires
            old(self).wf(),
        ensures
            final(self).wf(),
            match saved {
                Err(error) => final(self)@ == old(self)@.said(
                    old(self).language.pick("TOML was not saved: "@, "TOML 未保存："@) + error@,
                ),
                Ok(_) => final(self)@ == old(self)@.with_modal(
                    match old(self)@.modal {
                        ModalView::TomlEditor { editor } => ModalView::TomlEditor {
                            editor: TomlEditor { saved_text: editor.text, dirty: false, ..editor },
                        },
                        other => other,
                    },
                ).asked(EffectView::ReloadTools(ReloadPurpose::TomlSaved)),
            },
    {
        match saved {
            Err(error) => self.tell_with(
                "TOML was not saved: ",
                "TOML 未保存：",
                error.as_str(),
            ),
            Ok(_) => {
                if let Modal::TomlEditor { editor } = &mut self.modal {
                    editor.mark_saved();
                }
                self.ask(Effect::ReloadTools(ReloadPurpose::TomlSaved));
            },
        }
    }

    /// Tells whether the selection could be copied.
    pub fn text_copied(&mut self, copied: Result<(), String>)
        requires
            old(self).wf(),
        ensures
            final(self).wf(),
            final(self)@ == match copied {
                Ok(_) => old(self)@.told("Copied selection"@, "已复制选区"@),
                Err(error) => old(self)@.said(
                    old(self).language.pick("Could not copy selection: "@, "无法复制选区："@)
                        + error@,
                ),
            },
    {
        match copied {
            Ok(_) => self.tell("Copied selection", "已复制选区"),
            Err(error) => self.tell_with(
                "Could not copy selection: ",
                "无法复制选区：",
                error.as_str(),
            ),
        }
    }

    /// Puts the text of the clipboard into the TOML editor, or tells why it
    /// could not be had.
    pub fn clipboard_pasted(&mut self, pasted: Result<String, String>)
        requires
            old(self).wf(),
            old(self).modal is TomlEditor,
        ensures
            final(self).wf(),
            match pasted {
                Err(error) => final(self)@ == old(self)@.said(
                    old(self).language.pick(
                        "Could not paste clipboard text: "@,
                        "无法粘贴剪贴板文本："@,
                    ) + error@,
                ),
                Ok(text) => {
                    &&& final(self)@.modal matches ModalView::TomlEditor { editor }
                    &&& old(self)@.modal->editor.inserted(editor, text@)
                    &&& final(self)@ == old(self)@.with_modal(final(self)@.modal).told(
                        "Pasted clipboard text"@,
                        "已粘贴剪贴板文本"@,
                    )
                },
            },
    {
        match pasted {
            Err(error) => self.tell_with(
                "Could not paste clipboard text: ",
                "无法粘贴剪贴板文本：",
                error.as_str(),
            ),
            Ok(text) => {
                if let Modal::TomlEditor { editor } = &mut self.modal {
                    editor.insert_text(text.as_str());
                }
                self.tell("Pasted clipboard text", "已粘贴剪贴板文本");
            },
        }
    }
}

/// A key in a dialog with lines of text does not reach the view under it: it
/// changes the dialog, the message, and what is to be done outside.
pub proof fn law_text_dialogs_keep_the_view(app: AppView, key: Key)
    requires
        app.modal is TargetVersion || app.modal is AddCommand || app.modal is NetworkProxy
            || app.modal is GithubApiKey || app.modal is GithubMonitorForm
            || app.modal is GithubPollInterval,
    ensures
        ({
            let after = app.dialog_pressed(key);
            after == AppView {
                modal: after.modal,
                message: after.message,
                effects: after.effects,
                ..app
            }
        }),
{
    reveal(AppView::target_version_pressed);
    reveal(AppView::command_form_pressed);
    reveal(AppView::proxy_form_pressed);
    reveal(AppView::api_key_pressed);
    reveal(AppView::monitor_form_pressed);
    reveal(AppView::interval_pressed);
}

/// A request that is not confirmed starts nothing: the dialog closes, and that
/// is all.
pub proof fn law_declining_starts_nothing(app: AppView, key: Key)
    requires
        key.declines(),
        app.modal is ConfirmUpdate || app.modal is ConfirmGithubMonitorUpdate
            || app.modal is ConfirmDelete || app.modal is ConfirmUninstall
            || app.modal is ConfirmDeleteGithubMonitor,
    ensures
        app.dialog_pressed(key) == app.closed(),
{
    reveal(AppView::confirm_updates_pressed);
    reveal(AppView::confirm_installs_pressed);
    reveal(AppView::confirm_delete_pressed);
    reveal(AppView::confirm_uninstall_pressed);
    reveal(AppView::confirm_delete_monitor_pressed);
}

/// A tool is uninstalled only when the question is answered with yes: asking
/// for it opens a dialog with the command that would run and does nothing else,
/// and only the answer starts it, once.
pub proof fn law_uninstalling_is_confirmed(app: AppView, ask: Key, answer: Key)
    requires
        app.modal is Closed,
        ask.is_letter('u', 'U'),
        app.running == 0,
        app.tools.focus() is Some,
        app.tools.items[app.tools.focus()->0].availability == Availability::Installed,
        app.tools.items[app.tools.focus()->0].uninstall is Some,
    ensures
        ({
            let tool = app.tools.items[app.tools.focus()->0];
            let asked = app.commands_pressed(ask);
            let answered = asked.dialog_pressed(answer);
            &&& asked == app.with_modal(
                ModalView::ConfirmUninstall {
                    name: tool.name@,
                    command: tool.uninstall->0.text@,
                    derived: tool.uninstall->0.derived,
                },
            )
            &&& asked.effects == app.effects
            &&& answer.accepts() ==> answered == app.uninstall_started(tool.name@)
            &&& answer.declines() ==> answered == app
            &&& !answer.accepts() && !answer.declines() ==> answered == asked
        }),
{
    reveal(AppView::confirm_uninstall_pressed);
}

} // verus!
