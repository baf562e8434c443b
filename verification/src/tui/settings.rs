//! Changing the settings, and what is saved or loaded because of it.

use crate::language::Language;
use crate::number::{count_text, decimal, decimal_text, smaller};
use crate::search::{lines, texts};
use crate::text::{join3, join7, join8, same};
use crate::tui::activity::LogView;
use crate::tui::app::{App, AppView, LoadedTools, NetworkTest, NetworkTestView};
use crate::tui::arguments::{join_names, joined};
use crate::tui::doctor::Doctor;
use crate::tui::editor::{TomlEditor, next_revision};
use crate::tui::form::{MonitorForm, MonitorFormMode, ProxyForm, ProxyFormView, monitor_form};
use crate::tui::geometry::{at_most, before, last_of};
use crate::tui::github::{Github, GithubView, Quota};
use crate::tui::input::{InputView, TextInput};
use crate::tui::jobs::JobsRead;
use crate::tui::labels::{ProcessStrategy, Tab, ToolView};
use crate::tui::modal::{
    Effect, EffectView, Modal, ModalView, ReloadPurpose, SettingsChange, SettingsChangeView,
};
use crate::tui::model::{
    AppSettings, GithubReleaseMonitor, GithubSettings, NetworkSettings, ProxyMode,
};
use crate::tui::sweep::WaitSweep;
use crate::tui::tools::{Tools, ToolsView, following_probe, next_probe};
use vstd::prelude::*;
use vstd::string::*;

verus! {

/// Number of rows of the settings view.
pub const SETTINGS_ROW_COUNT: usize = 8;

/// Why settings were not saved.
#[derive(Debug)]
pub enum SaveError {
    /// The network settings contradict themselves.
    Invalid(String),
    Failed(String),
}

/// Why an API key was not saved.
#[derive(Debug)]
pub enum KeyError {
    /// The settings file at this path could not be written.
    SettingsWrite(String),
    Other(String),
}

/// A line of the log that greets the user, in another language.
pub open spec fn relabeled(line: Seq<char>, language: Language) -> Seq<char> {
    if line == "Welcome to dvup."@ || line == "欢迎使用 dvup。"@ {
        language.pick("Welcome to dvup."@, "欢迎使用 dvup。"@)
    } else if line == "Select tools with Space and press Enter to update."@ || line
        == "按 Space 选择工具，然后按 Enter 更新。"@ {
        language.pick(
            "Select tools with Space and press Enter to update."@,
            "按 Space 选择工具，然后按 Enter 更新。"@,
        )
    } else {
        line
    }
}

/// The settings with a part changed.
pub open spec fn changed_settings(settings: AppSettings, change: SettingsChange) -> AppSettings {
    match change {
        SettingsChange::AutoDiagnose(on) => AppSettings { auto_diagnose_on_startup: on, ..settings },
        SettingsChange::HideUnavailable(on) => AppSettings {
            hide_unsupported_and_missing_tools: on,
            ..settings
        },
        SettingsChange::Language(language) => AppSettings { language, ..settings },
        SettingsChange::Network(network) => AppSettings { network, ..settings },
        SettingsChange::PollInterval(secs) => AppSettings {
            github: GithubSettings { poll_interval_secs: secs, ..settings.github },
            ..settings
        },
    }
}

/// The path of the file that the TOML editor has open.
pub open spec fn editor_path(modal: ModalView) -> Seq<char> {
    match modal {
        ModalView::TomlEditor { editor } => editor.path@,
        _ => Seq::empty(),
    }
}

impl AppView {
    /// The form of the network settings, with a field in focus.
    pub open spec fn network_form(self, field: usize) -> ProxyFormView {
        let network = self.settings.network@;
        ProxyFormView {
            mode: network.mode,
            field: if network.mode == ProxyMode::Explicit {
                at_most(field as int, 2) as usize
            } else {
                0
            },
            url: InputView::fresh(
                match network.url {
                    Some(url) => url,
                    None => ""@,
                },
            ),
            bypass: InputView::fresh(joined(network.bypass, ", "@)),
        }
    }

    pub open spec fn network_editor_opened(self, field: usize) -> AppView {
        self.with_modal(ModalView::NetworkProxy { form: self.network_form(field) }).told(
            "Choose a network mode; explicit mode accepts an HTTP/HTTPS proxy"@,
            "请选择网络模式；显式模式可填写 HTTP/HTTPS 代理"@,
        )
    }

    pub open spec fn network_test_started(self) -> AppView {
        if self.network_test.loading {
            self.told("Network test is already running"@, "网络测试正在进行中"@)
        } else {
            let id = next_probe(self.network_test.next_probe_id);
            AppView {
                network_test: NetworkTestView {
                    loading: true,
                    probe_id: id,
                    next_probe_id: id,
                    results: Seq::empty(),
                },
                ..self
            }.told("Testing four registry endpoints…"@, "正在测试四个仓库端点…"@).asked(
                EffectView::TestNetwork { probe_id: id },
            )
        }
    }

    /// The state after a row of the settings view is activated.
    pub open spec fn setting_toggled(self, index: usize) -> AppView {
        if index == 0 {
            self.asked(
                EffectView::SaveSettings(
                    SettingsChangeView::AutoDiagnose(!self.settings.auto_diagnose_on_startup),
                ),
            )
        } else if index == 1 {
            self.asked(
                EffectView::SaveSettings(SettingsChangeView::HideUnavailable(!self.hides())),
            )
        } else if index == 2 {
            self.network_editor_opened(0)
        } else if index == 3 || index == 4 {
            if self.settings.network.proxy_mode == ProxyMode::Explicit {
                self.network_editor_opened((index - 2) as usize)
            } else {
                self.told(
                    "Proxy URL and bypass rules are only used in explicit mode"@,
                    "代理地址和绕过规则仅用于显式代理模式"@,
                )
            }
        } else if index == 5 {
            self.network_test_started()
        } else if index == 6 {
            self.with_modal(ModalView::GithubApiKey { api_key: InputView::fresh(""@) }).told(
                "Enter a GitHub API key; leave empty and press Enter to remove it"@,
                "请输入 GitHub API Key；留空并按 Enter 可删除现有密钥"@,
            )
        } else if index == 7 {
            self.with_modal(
                ModalView::GithubPollInterval {
                    seconds: InputView::fresh(
                        decimal_text(self.settings.github.poll_interval_secs as nat),
                    ),
                },
            ).told(
                "Set the GitHub monitor interval in seconds (60–86400)"@,
                "设置 GitHub 监控间隔秒数（60–86400）"@,
            )
        } else {
            self
        }
    }

    /// The state once the network settings have changed.
    pub open spec fn network_changed(self) -> AppView {
        AppView {
            network_test: NetworkTestView {
                loading: false,
                probe_id: next_revision(self.network_test.probe_id),
                results: Seq::empty(),
                ..self.network_test
            },
            ..self
        }.quota_forgotten().quota_asked().asked(
            EffectView::ReloadTools(ReloadPurpose::NetworkChanged),
        )
    }

    /// The state in another language.
    pub open spec fn in_language(self, language: Language) -> AppView {
        AppView {
            language,
            activity: LogView {
                lines: self.activity.lines.map_values(|l: Seq<char>| relabeled(l, language)),
                ..self.activity
            },
            ..self
        }.said(language.pick("Language switched to English"@, "语言已切换为中文"@))
    }

    /// The state with the lists made anew after tools were hidden or shown.
    pub open spec fn refiltered(self, hide: bool) -> AppView {
        AppView {
            tools: self.tools.relisted(hide, self.tools.focused_name()),
            doctor: self.doctor.reconciled(hide, self.doctor.focused_name(self.hides())),
            ..self
        }
    }

    /// The state once a part of the settings was saved.
    pub open spec fn change_saved(self, change: SettingsChange) -> AppView {
        let settings = changed_settings(self.settings, change);
        match change {
            SettingsChange::AutoDiagnose(on) => AppView { settings, ..self }.said(
                if on {
                    self.language.pick(
                        "Automatic startup diagnostics enabled; applies next time TUI starts"@,
                        "已启用启动自动诊断；下次进入 TUI 时生效"@,
                    )
                } else {
                    self.language.pick(
                        "Automatic startup diagnostics disabled"@,
                        "已关闭启动自动诊断"@,
                    )
                },
            ),
            SettingsChange::HideUnavailable(on) => AppView {
                settings,
                ..self.refiltered(on)
            }.said(
                if on {
                    self.language.pick(
                        "Unsupported and uninstalled tools are now hidden"@,
                        "已隐藏不支持或未安装的工具"@,
                    )
                } else {
                    self.language.pick("All configured tools are now shown"@, "已显示全部配置工具"@)
                },
            ),
            SettingsChange::Language(language) => AppView { settings, ..self }.in_language(
                language,
            ),
            SettingsChange::Network(_) => AppView {
                settings,
                modal: ModalView::Closed,
                ..self
            }.network_changed(),
            SettingsChange::PollInterval(secs) => AppView {
                settings,
                modal: ModalView::Closed,
                github: GithubView { last_refresh: self.now_ms, ..self.github },
                ..self
            }.said(
                match self.language {
                    Language::English => "GitHub monitor interval set to "@ + decimal_text(
                        secs as nat,
                    ) + " seconds"@,
                    Language::Chinese => "GitHub 监控间隔已设为 "@ + decimal_text(secs as nat)
                        + " 秒"@,
                },
            ),
        }
    }

    pub open spec fn save_failed(self, error: Seq<char>) -> AppView {
        self.said(self.language.pick("Could not save settings: "@, "无法保存设置："@) + error)
    }

    pub open spec fn refresh_failed(self, error: Seq<char>) -> AppView {
        self.said(self.language.pick("Refresh failed: "@, "刷新失败："@) + error)
    }

    /// The state once the tools were loaded anew, or not.
    pub open spec fn tools_reloaded(
        self,
        purpose: ReloadPurpose,
        loaded: Result<LoadedTools, String>,
    ) -> AppView {
        match (purpose, loaded) {
            (ReloadPurpose::Refresh, Err(error)) => self.refresh_failed(error@),
            (ReloadPurpose::Refresh, Ok(data)) => {
                let a = self.reloaded(data);
                if a.tab == Tab::Doctor {
                    a.scan_requested(false)
                } else if a.tab == Tab::Tools && a.tools.view == ToolView::Github {
                    a.releases_asked(true)
                } else {
                    a.asked(EffectView::ReloadJobs { report: true })
                }
            },
            (ReloadPurpose::NetworkChanged, Err(error)) => self.said(
                self.language.pick(
                    "Network settings saved, but refresh failed: "@,
                    "网络设置已保存，但刷新失败："@,
                ) + error@,
            ),
            (ReloadPurpose::NetworkChanged, Ok(data)) => self.reloaded(data).said(
                self.language.pick("Network mode changed to "@, "网络模式已切换为 "@)
                    + self.settings.network.proxy_mode.name(),
            ),
            (ReloadPurpose::TomlSaved, Err(error)) => self.said(
                self.language.pick(
                    "TOML saved but refresh failed: "@,
                    "TOML 已保存，但刷新失败："@,
                ) + error@,
            ),
            (ReloadPurpose::TomlSaved, Ok(data)) => self.reloaded(data).said(
                self.language.pick("Saved "@, "已保存 "@) + editor_path(self.modal),
            ),
        }
    }

    /// The state once the jobs were read, or not; `report` where the user asked
    /// for it.
    pub open spec fn jobs_reloaded(self, report: bool, read: JobsRead) -> AppView {
        let a = self.jobs_read(read);
        if !report {
            a
        } else {
            match self.jobs.read_error(read) {
                Some(error) => a.refresh_failed(error@),
                None => a.told("Refreshed"@, "已刷新"@),
            }
        }
    }

    /// The state once an API key was saved, or not.
    pub open spec fn key_saved(self, saved: Result<Option<String>, KeyError>) -> AppView {
        match saved {
            Ok(encrypted) => {
                let a = AppView {
                    quota: Quota {
                        credential_probe_id: next_probe(self.quota.credential_probe_id),
                        key_configured: encrypted is Some,
                        credential_error: None,
                        ..self.quota
                    }.forgotten(self.now_ms),
                    settings: AppSettings {
                        github: GithubSettings {
                            encrypted_api_key: encrypted,
                            ..self.settings.github
                        },
                        ..self.settings
                    },
                    modal: ModalView::Closed,
                    ..self
                };
                if encrypted is Some {
                    AppView { tools: a.tools.all_probed(), ..a }.told(
                        "GitHub API key encrypted and saved in settings.toml"@,
                        "GitHub API Key 已加密保存到 settings.toml"@,
                    ).quota_asked()
                } else {
                    a.told("GitHub API key removed"@, "GitHub API Key 已删除"@)
                }
            },
            Err(KeyError::SettingsWrite(path)) => self.said(
                match self.language {
                    Language::English => "settings.toml is busy or not writable: "@ + path@
                        + ". Close the editor or process using it, then press Enter to retry"@,
                    Language::Chinese => "settings.toml 被占用或拒绝写入："@ + path@
                        + "。请关闭配置编辑器或其他占用进程后直接按 Enter 重试"@,
                },
            ),
            Err(KeyError::Other(error)) => self.said(
                match self.language {
                    Language::English => "GitHub API key was not saved: "@ + error@
                        + ". Correct it and press Enter to retry, or press Esc"@,
                    Language::Chinese => "GitHub API Key 未保存："@ + error@
                        + "。请修正后按 Enter 重试，或按 Esc 取消"@,
                },
            ),
        }
    }

    /// The state with the form of a repository open.
    pub open spec fn monitor_form_opened(
        self,
        mode: MonitorFormMode,
        index: Option<usize>,
    ) -> AppView {
        let monitor = match index {
            Some(i) => if i < self.github.monitors.len() {
                Some(self.github.monitors[i as int]@)
            } else {
                None
            },
            None => None,
        };
        self.with_modal(
            ModalView::GithubMonitorForm { form: monitor_form(mode, index, monitor) },
        ).said(
            match mode {
                MonitorFormMode::Add => self.language.pick(
                    "Enter an owner/repo and strict Release asset installation rules"@,
                    "填写 owner/repo 和严格的 Release 资产安装规则"@,
                ),
                MonitorFormMode::Edit => self.language.pick(
                    "Edit the selected GitHub repository monitor"@,
                    "编辑选中的 GitHub 仓库监控项"@,
                ),
            },
        )
    }

    pub open spec fn monitor_unsaved(self, error: Seq<char>) -> AppView {
        self.said(
            self.language.pick("GitHub monitor was not saved: "@, "GitHub 监控未保存："@) + error,
        )
    }

    /// The state once a repository was saved, or not.
    pub open spec fn monitor_saved(
        self,
        mode: MonitorFormMode,
        saved: Result<(usize, Vec<GithubReleaseMonitor>), String>,
    ) -> AppView {
        match saved {
            Err(error) => self.monitor_unsaved(error@),
            Ok((index, monitors)) => AppView {
                github: GithubView { monitors: monitors@, index, ..self.github },
                tools: ToolsView { view: ToolView::Github, ..self.tools },
                modal: ModalView::Closed,
                ..self
            }.said(
                match mode {
                    MonitorFormMode::Add => self.language.pick(
                        "GitHub repository monitor added"@,
                        "已添加 GitHub 仓库监控"@,
                    ),
                    MonitorFormMode::Edit => self.language.pick(
                        "GitHub repository monitor saved"@,
                        "已保存 GitHub 仓库监控"@,
                    ),
                },
            ).releases_asked(false),
        }
    }

    /// The state with the focus on a repository that is there.
    pub open spec fn refocused_monitor(self, index: usize) -> AppView {
        AppView {
            github: GithubView {
                index: at_most(
                    index as int,
                    last_of(self.github.monitors.len() as int),
                ) as usize,
                ..self.github
            },
            ..self
        }
    }

    pub open spec fn config_unsaved(self, error: Seq<char>) -> AppView {
        self.said(
            self.language.pick(
                "Could not save custom configuration: "@,
                "无法保存自定义配置："@,
            ) + error,
        )
    }

    /// The state once a repository was deleted, or not.
    pub open spec fn monitor_deleted(
        self,
        index: usize,
        deleted: Result<(Vec<GithubReleaseMonitor>, String), String>,
    ) -> AppView {
        match deleted {
            Err(error) => self.config_unsaved(error@),
            Ok((monitors, name)) => AppView {
                github: self.github.removed(monitors@, name@),
                ..self
            }.said(
                self.language.pick("Removed GitHub monitor "@, "已删除 GitHub 监控 "@) + name@,
            ),
        }.refocused_monitor(index)
    }

    /// The state after the process policy is switched.
    pub open spec fn strategy_toggled(self) -> AppView {
        if self.running > 0 {
            self.told(
                "Wait for running operations before changing process policy"@,
                "请等待运行中的操作结束后再切换进程策略"@,
            )
        } else {
            let a = AppView { process_strategy: self.process_strategy.other(), ..self };
            match a.process_strategy {
                ProcessStrategy::Wait => a.told(
                    "Process policy: WAIT for matching processes (Shift+Tab to change)"@,
                    "进程策略：等待匹配进程退出（按 Shift+Tab 切换）"@,
                ),
                ProcessStrategy::Terminate => a.asked(EffectView::TerminateWaits),
            }
        }
    }

    pub open spec fn policy_failed(self, error: Seq<char>) -> AppView {
        self.said(
            self.language.pick(
                "Could not update active job policies: "@,
                "无法更新活动任务的进程策略："@,
            ) + error,
        )
    }

    /// The state once the policy was applied to the jobs that wait, or not.
    pub open spec fn policy_applied(
        self,
        sweep: Result<WaitSweep, String>,
        read: JobsRead,
    ) -> AppView {
        match sweep {
            Err(error) => self.policy_failed(error@),
            Ok(done) => {
                let a = self.jobs_read(read);
                match self.jobs.read_error(read) {
                    Some(error) => a.policy_failed(error@),
                    None => a.logged(sweep_line(done, self.language)).said(
                        sweep_message(done, self.language),
                    ),
                }
            },
        }
    }
}

/// What the log says of a sweep over the jobs that wait.
pub open spec fn sweep_line(s: WaitSweep, language: Language) -> Seq<char> {
    let jobs = decimal_text(s.active_jobs as nat);
    let rules = decimal_text(s.changed_rules as nat);
    let stopped = decimal_text(s.stopped_processes as nat);
    let restarted = decimal_text(s.restarted_jobs as nat);
    match language {
        Language::English => "process policy: TERMINATE; checked "@ + jobs
            + " active job(s), changed "@ + rules + " wait rule(s), stopped "@ + stopped
            + " matching process(es), restarted "@ + restarted + " orphaned job(s)"@,
        Language::Chinese => "进程策略：终止；已检查 "@ + jobs + " 个活动任务，修改 "@ + rules
            + " 条等待规则，停止 "@ + stopped + " 个匹配进程，并重启 "@ + restarted
            + " 个孤儿任务"@,
    }
}

/// What is said of a sweep over the jobs that wait.
pub open spec fn sweep_message(s: WaitSweep, language: Language) -> Seq<char> {
    let jobs = decimal_text(s.active_jobs as nat);
    let stopped = decimal_text(s.stopped_processes as nat);
    let restarted = decimal_text(s.restarted_jobs as nat);
    let skipped = decimal_text(s.skipped_jobs as nat);
    match (s.skipped_jobs == 0, language) {
        (true, Language::English) => "Process policy: TERMINATE; checked "@ + jobs
            + " active job(s), stopped "@ + stopped + " process(es), restarted "@ + restarted
            + " orphaned job(s)"@,
        (true, Language::Chinese) => "进程策略：终止；已检查 "@ + jobs + " 个活动任务，停止 "@
            + stopped + " 个进程，重启 "@ + restarted + " 个孤儿任务"@,
        (false, Language::English) => "Process policy: TERMINATE; checked "@ + jobs
            + " job(s), restarted "@ + restarted + ", skipped "@ + skipped
            + " unsafe or failed job(s)"@,
        (false, Language::Chinese) => "进程策略：终止；已检查 "@ + jobs + " 个任务，重启 "@
            + restarted + " 个，跳过 "@ + skipped + " 个不安全或处理失败的任务"@,
    }
}

/// Overwrites the bytes of a text with zeros and leaves it empty: `zeroize` of
/// the trait `zeroize::Zeroize` for `String`.
#[verifier::external_body]
pub(crate) fn wipe(text: &mut String)
    ensures
        final(text)@.len() == 0,
{
    zeroize::Zeroize::zeroize(text)
}

/// Changes a part of the settings.
pub fn apply_change(settings: &mut AppSettings, change: SettingsChange)
    ensures
        *final(settings) == changed_settings(*old(settings), change),
{
    match change {
        SettingsChange::AutoDiagnose(on) => {
            settings.auto_diagnose_on_startup = on;
        },
        SettingsChange::HideUnavailable(on) => {
            settings.hide_unsupported_and_missing_tools = on;
        },
        SettingsChange::Language(language) => {
            settings.language = language;
        },
        SettingsChange::Network(network) => {
            settings.network = network;
        },
        SettingsChange::PollInterval(secs) => {
            settings.github.poll_interval_secs = secs;
        },
    }
}

/// Puts a repository into the list, in place of the one at `original_index` or
/// behind the last one; returns its position.
pub fn place_monitor(
    monitors: &mut Vec<GithubReleaseMonitor>,
    original_index: Option<usize>,
    monitor: GithubReleaseMonitor,
) -> (r: Result<usize, String>)
    ensures
        match original_index {
            Some(i) => if i < old(monitors)@.len() {
                r == Ok::<usize, String>(i) && final(monitors)@ == old(monitors)@.update(
                    i as int,
                    monitor,
                )
            } else {
                &&& final(monitors)@ == old(monitors)@
                &&& r matches Err(message)
                &&& message@ == "selected GitHub monitor no longer exists"@
            },
            None => {
                &&& final(monitors)@ == old(monitors)@.push(monitor)
                &&& r matches Ok(i)
                &&& i == old(monitors)@.len()
            },
        },
{
    match original_index {
        Some(i) => {
            if i >= monitors.len() {
                return Err("selected GitHub monitor no longer exists".to_owned());
            }
            monitors.set(i, monitor);
            Ok(i)
        },
        None => {
            monitors.push(monitor);
            Ok(monitors.len() - 1)
        },
    }
}

/// Takes a repository out of the list; returns its name.
pub fn take_monitor(monitors: &mut Vec<GithubReleaseMonitor>, index: usize) -> (r: Result<
    String,
    String,
>)
    ensures
        if index < old(monitors)@.len() {
            &&& r == Ok::<String, String>(old(monitors)@[index as int].name)
            &&& final(monitors)@ == old(monitors)@.remove(index as int)
        } else {
            &&& final(monitors)@ == old(monitors)@
            &&& r matches Err(message)
            &&& message@ == "selected GitHub monitor no longer exists"@
        },
{
    if index >= monitors.len() {
        return Err("selected GitHub monitor no longer exists".to_owned());
    }
    let monitor = monitors.remove(index);
    Ok(monitor.name)
}

impl App {
    pub fn open_network_editor(&mut self, requested_field: usize)
        requires
            old(self).wf(),
        ensures
            final(self).wf(),
            final(self)@ == old(self)@.network_editor_opened(requested_field),
    {
        let proxy_mode = self.settings.network.proxy_mode;
        let field: usize = if proxy_mode == ProxyMode::Explicit {
            smaller(requested_field, 2)
        } else {
            0
        };
        let proxy_url = match &self.settings.network.proxy_url {
            Some(url) => TextInput::new(url.as_str()),
            None => TextInput::new(""),
        };
        let no_proxy = TextInput::new(
            join_names(&self.settings.network.no_proxy, ", ").as_str(),
        );
        self.modal = Modal::NetworkProxy {
            form: ProxyForm { proxy_mode, field, proxy_url, no_proxy },
        };
        self.tell(
            "Choose a network mode; explicit mode accepts an HTTP/HTTPS proxy",
            "请选择网络模式；显式模式可填写 HTTP/HTTPS 代理",
        );
    }

    pub fn start_network_test(&mut self)
        requires
            old(self).wf(),
        ensures
            final(self).wf(),
            final(self)@ == old(self)@.network_test_started(),
    {
        if self.network_test.loading {
            self.tell("Network test is already running", "网络测试正在进行中");
            return;
        }
        let id: u64 = following_probe(self.network_test.next_probe_id);
        self.network_test = NetworkTest {
            loading: true,
            probe_id: id,
            next_probe_id: id,
            results: Vec::new(),
        };
        self.tell("Testing four registry endpoints…", "正在测试四个仓库端点…");
        self.ask(Effect::TestNetwork { probe_id: id });
    }

    /// Activates a row of the settings view.
    pub fn toggle_setting(&mut self, index: usize)
        requires
            old(self).wf(),
        ensures
            final(self).wf(),
            final(self)@ == old(self)@.setting_toggled(index),
    {
        if index == 0 {
            let on = !self.settings.auto_diagnose_on_startup;
            self.ask(Effect::SaveSettings(SettingsChange::AutoDiagnose(on)));
        } else if index == 1 {
            let on = !self.hides_unavailable();
            self.ask(Effect::SaveSettings(SettingsChange::HideUnavailable(on)));
        } else if index == 2 {
            self.open_network_editor(0);
        } else if index == 3 || index == 4 {
            if self.settings.network.proxy_mode == ProxyMode::Explicit {
                self.open_network_editor(index - 2);
            } else {
                self.tell(
                    "Proxy URL and bypass rules are only used in explicit mode",
                    "代理地址和绕过规则仅用于显式代理模式",
                );
            }
        } else if index == 5 {
            self.start_network_test();
        } else if index == 6 {
            self.modal = Modal::GithubApiKey { api_key: TextInput::new("") };
            self.tell(
                "Enter a GitHub API key; leave empty and press Enter to remove it",
                "请输入 GitHub API Key；留空并按 Enter 可删除现有密钥",
            );
        } else if index == 7 {
            let secs = decimal(self.settings.github.poll_interval_secs);
            self.modal = Modal::GithubPollInterval { seconds: TextInput::new(secs.as_str()) };
            self.tell(
                "Set the GitHub monitor interval in seconds (60–86400)",
                "设置 GitHub 监控间隔秒数（60–86400）",
            );
        }
    }

    /// Follows changed network settings: earlier results are dropped, and the
    /// tools are to be loaded anew.
    fn network_settings_changed(&mut self)
        requires
            old(self).wf(),
        ensures
            final(self).wf(),
            final(self)@ == old(self)@.network_changed(),
    {
        self.network_test.results = Vec::new();
        self.network_test.loading = false;
        self.network_test.probe_id = if self.network_test.probe_id == u64::MAX {
            0
        } else {
            self.network_test.probe_id + 1
        };
        self.clear_github_rate_limit();
        self.start_github_rate_limit_refresh();
        self.ask(Effect::ReloadTools(ReloadPurpose::NetworkChanged));
    }

    /// Greets in another language in the log.
    fn relabel_activity(&mut self, language: Language)
        requires
            old(self).wf(),
        ensures
            final(self).wf(),
            final(self)@ == (AppView {
                activity: LogView {
                    lines: old(self)@.activity.lines.map_values(
                        |l: Seq<char>| relabeled(l, language),
                    ),
                    ..old(self)@.activity
                },
                ..old(self)@
            }),
    {
        let ghost before = self@;
        let ghost all = texts(self.activity.lines@);
        let mut lines: Vec<String> = Vec::new();
        let mut i: usize = 0;
        while i < self.activity.lines.len()
            invariant
                i <= self.activity.lines@.len(),
                all == texts(self.activity.lines@),
                lines@.len() == i,
                forall|k: int| 0 <= k < i ==> (#[trigger] lines@[k])@ == relabeled(all[k], language),
            decreases self.activity.lines@.len() - i,
        {
            let line = self.activity.lines[i].as_str();
            assert(all[i as int] == line@);
            let text = if same(line, "Welcome to dvup.") || same(line, "欢迎使用 dvup。") {
                language.text("Welcome to dvup.", "欢迎使用 dvup。").to_owned()
            } else if same(line, "Select tools with Space and press Enter to update.") || same(
                line,
                "按 Space 选择工具，然后按 Enter 更新。",
            ) {
                language.text(
                    "Select tools with Space and press Enter to update.",
                    "按 Space 选择工具，然后按 Enter 更新。",
                ).to_owned()
            } else {
                line.to_owned()
            };
            lines.push(text);
            i += 1;
        }
        self.activity.lines = lines;
        assert(texts(self.activity.lines@) =~= all.map_values(
            |l: Seq<char>| relabeled(l, language),
        ));
        assert(self.activity@.lines =~= before.activity.lines.map_values(
            |l: Seq<char>| relabeled(l, language),
        ));
    }

    /// Makes the lists anew after tools were hidden or shown.
    fn refilter(&mut self, hide: bool)
        requires
            old(self).wf(),
        ensures
            final(self).wf(),
            final(self)@ == old(self)@.refiltered(hide),
    {
        let tool = self.tools.focused_name();
        let diagnosis = self.doctor.focused_name(self.hides_unavailable());
        match &tool {
            Some(name) => self.tools.rebuild_visible_tool_indices(hide, Some(name.as_str())),
            None => self.tools.rebuild_visible_tool_indices(hide, None),
        }
        match &diagnosis {
            Some(name) => self.doctor.reconcile_selection(hide, Some(name.as_str())),
            None => self.doctor.reconcile_selection(hide, None),
        }
    }

    /// Takes whether installations are scanned at the start.
    fn take_auto_diagnose(&mut self, on: bool)
        requires
            old(self).wf(),
        ensures
            final(self).wf(),
            final(self)@ == old(self)@.change_saved(SettingsChange::AutoDiagnose(on)),
    {
        self.settings.auto_diagnose_on_startup = on;
        if on {
            self.tell(
                "Automatic startup diagnostics enabled; applies next time TUI starts",
                "已启用启动自动诊断；下次进入 TUI 时生效",
            );
        } else {
            self.tell("Automatic startup diagnostics disabled", "已关闭启动自动诊断");
        }
    }

    /// Takes whether tools that cannot be used are left out.
    fn take_hide_unavailable(&mut self, on: bool)
        requires
            old(self).wf(),
        ensures
            final(self).wf(),
            final(self)@ == old(self)@.change_saved(SettingsChange::HideUnavailable(on)),
    {
        self.refilter(on);
        self.settings.hide_unsupported_and_missing_tools = on;
        if on {
            self.tell(
                "Unsupported and uninstalled tools are now hidden",
                "已隐藏不支持或未安装的工具",
            );
        } else {
            self.tell("All configured tools are now shown", "已显示全部配置工具");
        }
    }

    /// Takes the language of the interface.
    fn take_language(&mut self, language: Language)
        requires
            old(self).wf(),
        ensures
            final(self).wf(),
            final(self)@ == old(self)@.change_saved(SettingsChange::Language(language)),
    {
        self.settings.language = language;
        self.language = language;
        self.relabel_activity(language);
        self.tell("Language switched to English", "语言已切换为中文");
    }

    /// Takes the network settings.
    fn take_network(&mut self, network: NetworkSettings)
        requires
            old(self).wf(),
        ensures
            final(self).wf(),
            final(self)@ == old(self)@.change_saved(SettingsChange::Network(network)),
    {
        self.settings.network = network;
        self.modal = Modal::Closed;
        self.network_settings_changed();
    }

    /// Takes how often the repositories are looked at.
    fn take_poll_interval(&mut self, secs: u64)
        requires
            old(self).wf(),
        ensures
            final(self).wf(),
            final(self)@ == old(self)@.change_saved(SettingsChange::PollInterval(secs)),
    {
        self.settings.github.poll_interval_secs = secs;
        self.github.last_refresh = self.now_ms;
        self.modal = Modal::Closed;
        let text = decimal(secs);
        self.message = match self.language {
            Language::English => join3(
                "GitHub monitor interval set to ",
                text.as_str(),
                " seconds",
            ),
            Language::Chinese => join3("GitHub 监控间隔已设为 ", text.as_str(), " 秒"),
        };
    }

    /// Takes a part of the settings once it was saved, or tells why it was not.
    pub fn settings_saved(&mut self, change: SettingsChange, saved: Result<(), SaveError>)
        requires
            old(self).wf(),
        ensures
            final(self).wf(),
            final(self)@ == match saved {
                Ok(_) => old(self)@.change_saved(change),
                Err(SaveError::Invalid(error)) => old(self)@.said(
                    old(self).language.pick("Invalid proxy settings: "@, "代理设置无效："@)
                        + error@,
                ),
                Err(SaveError::Failed(error)) => old(self)@.save_failed(error@),
            },
    {
        match saved {
            Ok(_) => match change {
                SettingsChange::AutoDiagnose(on) => self.take_auto_diagnose(on),
                SettingsChange::HideUnavailable(on) => self.take_hide_unavailable(on),
                SettingsChange::Language(language) => self.take_language(language),
                SettingsChange::Network(network) => self.take_network(network),
                SettingsChange::PollInterval(secs) => self.take_poll_interval(secs),
            },
            Err(SaveError::Invalid(error)) => self.tell_with(
                "Invalid proxy settings: ",
                "代理设置无效：",
                error.as_str(),
            ),
            Err(SaveError::Failed(error)) => self.report_settings_save_error(error.as_str()),
        }
    }

    pub fn report_settings_save_error(&mut self, error: &str)
        requires
            old(self).wf(),
        ensures
            final(self).wf(),
            final(self)@ == old(self)@.save_failed(error@),
    {
        self.tell_with("Could not save settings: ", "无法保存设置：", error);
    }

    pub fn report_custom_config_save_error(&mut self, error: &str)
        requires
            old(self).wf(),
        ensures
            final(self).wf(),
            final(self)@ == old(self)@.config_unsaved(error@),
    {
        self.tell_with("Could not save custom configuration: ", "无法保存自定义配置：", error);
    }

    pub fn report_refresh_error(&mut self, error: &str)
        requires
            old(self).wf(),
        ensures
            final(self).wf(),
            final(self)@ == old(self)@.refresh_failed(error@),
    {
        self.tell_with("Refresh failed: ", "刷新失败：", error);
    }

    /// The path of the file that the TOML editor has open.
    fn open_path(&self) -> (r: String)
        ensures
            r@ == editor_path(self@.modal),
    {
        match &self.modal {
            Modal::TomlEditor { editor } => editor.path.clone(),
            _ => {
                let r = String::new();
                assert(r@ =~= Seq::<char>::empty());
                r
            },
        }
    }

    /// Takes the tools once they were loaded anew, or tells why they were not.
    pub fn tools_reloaded(&mut self, purpose: ReloadPurpose, loaded: Result<LoadedTools, String>)
        requires
            old(self).wf(),
        ensures
            final(self).wf(),
            final(self)@ == old(self)@.tools_reloaded(purpose, loaded),
    {
        match loaded {
            Err(error) => match purpose {
                ReloadPurpose::Refresh => self.report_refresh_error(error.as_str()),
                ReloadPurpose::NetworkChanged => self.tell_with(
                    "Network settings saved, but refresh failed: ",
                    "网络设置已保存，但刷新失败：",
                    error.as_str(),
                ),
                ReloadPurpose::TomlSaved => self.tell_with(
                    "TOML saved but refresh failed: ",
                    "TOML 已保存，但刷新失败：",
                    error.as_str(),
                ),
            },
            Ok(data) => {
                self.refresh_tools(data);
                match purpose {
                    ReloadPurpose::Refresh => self.refresh_view(),
                    ReloadPurpose::NetworkChanged => {
                        let mode = self.settings.network.proxy_mode.label();
                        self.tell_with("Network mode changed to ", "网络模式已切换为 ", mode);
                    },
                    ReloadPurpose::TomlSaved => {
                        let path = self.open_path();
                        self.tell_with("Saved ", "已保存 ", path.as_str());
                    },
                }
            },
        }
    }

    /// Refreshes what the view in front shows.
    fn refresh_view(&mut self)
        requires
            old(self).wf(),
        ensures
            final(self).wf(),
            final(self)@ == (if old(self).tab == Tab::Doctor {
                old(self)@.scan_requested(false)
            } else if old(self).tab == Tab::Tools && old(self).tools@.view == ToolView::Github {
                old(self)@.releases_asked(true)
            } else {
                old(self)@.asked(EffectView::ReloadJobs { report: true })
            }),
    {
        if self.tab == Tab::Doctor {
            self.request_doctor_refresh();
        } else if self.tab == Tab::Tools && self.tools.view == ToolView::Github {
            self.start_release_probe(true);
        } else {
            self.ask(Effect::ReloadJobs { report: true });
        }
    }

    /// Takes the jobs once they were read, or tells why they were not.
    pub fn jobs_reloaded(&mut self, report: bool, read: JobsRead)
        requires
            old(self).wf(),
        ensures
            final(self).wf(),
            final(self)@ == old(self)@.jobs_reloaded(report, read),
    {
        let refreshed = self.refresh_jobs(read);
        if report {
            match refreshed {
                Ok(_) => self.tell("Refreshed", "已刷新"),
                Err(error) => self.report_refresh_error(error.as_str()),
            }
        }
    }

    /// Closes the dialog of the API key, leaving nothing of the key behind.
    pub fn close_api_key(&mut self)
        requires
            old(self).wf(),
        ensures
            final(self).wf(),
            final(self)@ == old(self)@.with_modal(ModalView::Closed),
    {
        if let Modal::GithubApiKey { api_key } = &mut self.modal {
            wipe(&mut api_key.value);
        }
        self.modal = Modal::Closed;
    }

    /// Takes an API key once it was saved, or tells why it was not. The dialog
    /// stays open in the latter case.
    pub fn api_key_saved(&mut self, saved: Result<Option<String>, KeyError>)
        requires
            old(self).wf(),
        ensures
            final(self).wf(),
            final(self)@ == old(self)@.key_saved(saved),
    {
        match saved {
            Ok(encrypted) => {
                let configured: bool = encrypted.is_some();
                self.close_api_key();
                self.quota.credential_probe_id = following_probe(self.quota.credential_probe_id);
                self.quota.key_configured = configured;
                self.quota.credential_error = None;
                self.quota.clear(self.now_ms);
                self.settings.github.encrypted_api_key = encrypted;
                if configured {
                    self.tools.start_all_tool_version_probes();
                    self.tell(
                        "GitHub API key encrypted and saved in settings.toml",
                        "GitHub API Key 已加密保存到 settings.toml",
                    );
                    self.start_github_rate_limit_refresh();
                } else {
                    self.tell("GitHub API key removed", "GitHub API Key 已删除");
                }
            },
            Err(KeyError::SettingsWrite(path)) => {
                self.message = match self.language {
                    Language::English => join3(
                        "settings.toml is busy or not writable: ",
                        path.as_str(),
                        ". Close the editor or process using it, then press Enter to retry",
                    ),
                    Language::Chinese => join3(
                        "settings.toml 被占用或拒绝写入：",
                        path.as_str(),
                        "。请关闭配置编辑器或其他占用进程后直接按 Enter 重试",
                    ),
                };
            },
            Err(KeyError::Other(error)) => {
                self.message = match self.language {
                    Language::English => join3(
                        "GitHub API key was not saved: ",
                        error.as_str(),
                        ". Correct it and press Enter to retry, or press Esc",
                    ),
                    Language::Chinese => join3(
                        "GitHub API Key 未保存：",
                        error.as_str(),
                        "。请修正后按 Enter 重试，或按 Esc 取消",
                    ),
                };
            },
        }
    }

    pub fn open_github_monitor_form(&mut self, mode: MonitorFormMode, index: Option<usize>)
        requires
            old(self).wf(),
        ensures
            final(self).wf(),
            final(self)@ == old(self)@.monitor_form_opened(mode, index),
    {
        let monitor: Option<&GithubReleaseMonitor> = match index {
            Some(i) => if i < self.github.monitors.len() {
                Some(&self.github.monitors[i])
            } else {
                None
            },
            None => None,
        };
        let form = MonitorForm::new(mode, index, monitor);
        self.modal = Modal::GithubMonitorForm { form };
        match mode {
            MonitorFormMode::Add => self.tell(
                "Enter an owner/repo and strict Release asset installation rules",
                "填写 owner/repo 和严格的 Release 资产安装规则",
            ),
            MonitorFormMode::Edit => self.tell(
                "Edit the selected GitHub repository monitor",
                "编辑选中的 GitHub 仓库监控项",
            ),
        }
    }

    /// Takes the repositories once one was saved, or tells why it was not.
    pub fn github_monitor_saved(
        &mut self,
        mode: MonitorFormMode,
        saved: Result<(usize, Vec<GithubReleaseMonitor>), String>,
    )
        requires
            old(self).wf(),
        ensures
            final(self).wf(),
            final(self)@ == old(self)@.monitor_saved(mode, saved),
    {
        match saved {
            Err(error) => self.tell_with(
                "GitHub monitor was not saved: ",
                "GitHub 监控未保存：",
                error.as_str(),
            ),
            Ok((index, monitors)) => {
                self.github.monitors = monitors;
                self.github.index = index;
                self.tools.view = ToolView::Github;
                self.modal = Modal::Closed;
                match mode {
                    MonitorFormMode::Add => self.tell(
                        "GitHub repository monitor added",
                        "已添加 GitHub 仓库监控",
                    ),
                    MonitorFormMode::Edit => self.tell(
                        "GitHub repository monitor saved",
                        "已保存 GitHub 仓库监控",
                    ),
                }
                self.start_release_probe(false);
            },
        }
    }

    /// Puts the focus on a repository that is there.
    pub fn refocus_monitor(&mut self, index: usize)
        requires
            old(self).wf(),
        ensures
            final(self).wf(),
            final(self)@ == old(self)@.refocused_monitor(index),
    {
        let last: usize = if self.github.monitors.len() > 0 {
            self.github.monitors.len() - 1
        } else {
            0
        };
        self.github.index = smaller(index, last);
    }

    /// Takes the repositories once one was deleted, or tells why it was not.
    pub fn github_monitor_deleted(
        &mut self,
        index: usize,
        deleted: Result<(Vec<GithubReleaseMonitor>, String), String>,
    )
        requires
            old(self).wf(),
        ensures
            final(self).wf(),
            final(self)@ == old(self)@.monitor_deleted(index, deleted),
    {
        match deleted {
            Ok((monitors, name)) => {
                self.github.remove(monitors, name.as_str());
                self.tell_with("Removed GitHub monitor ", "已删除 GitHub 监控 ", name.as_str());
            },
            Err(error) => self.report_custom_config_save_error(error.as_str()),
        }
        self.refocus_monitor(index);
    }

    /// Switches the process policy.
    pub fn toggle_process_strategy(&mut self)
        requires
            old(self).wf(),
        ensures
            final(self).wf(),
            final(self)@ == old(self)@.strategy_toggled(),
    {
        if self.running > 0 {
            self.tell(
                "Wait for running operations before changing process policy",
                "请等待运行中的操作结束后再切换进程策略",
            );
            return;
        }
        self.process_strategy = self.process_strategy.toggle();
        match self.process_strategy {
            ProcessStrategy::Wait => self.tell(
                "Process policy: WAIT for matching processes (Shift+Tab to change)",
                "进程策略：等待匹配进程退出（按 Shift+Tab 切换）",
            ),
            ProcessStrategy::Terminate => self.ask(Effect::TerminateWaits),
        }
    }

    /// Tells what was done to the jobs that wait.
    pub fn process_policy_applied(&mut self, sweep: Result<WaitSweep, String>, read: JobsRead)
        requires
            old(self).wf(),
        ensures
            final(self).wf(),
            final(self)@ == old(self)@.policy_applied(sweep, read),
    {
        match sweep {
            Err(error) => self.report_policy_error(error.as_str()),
            Ok(done) => match self.refresh_jobs(read) {
                Err(error) => self.report_policy_error(error.as_str()),
                Ok(_) => {
                    let line = sweep_log_line(&done, self.language);
                    self.push_activity(line);
                    let message = sweep_report(&done, self.language);
                    self.say(message.as_str());
                },
            },
        }
    }

    fn report_policy_error(&mut self, error: &str)
        requires
            old(self).wf(),
        ensures
            final(self).wf(),
            final(self)@ == old(self)@.policy_failed(error@),
    {
        self.tell_with(
            "Could not update active job policies: ",
            "无法更新活动任务的进程策略：",
            error,
        );
    }
}

/// What the log says of a sweep over the jobs that wait.
fn sweep_log_line(s: &WaitSweep, language: Language) -> (r: String)
    ensures
        r@ == sweep_line(*s, language),
{
    let jobs = count_text(s.active_jobs);
    let rules = count_text(s.changed_rules);
    let stopped = count_text(s.stopped_processes);
    let restarted = count_text(s.restarted_jobs);
    match language {
        Language::English => {
            let mut text = join8(
                "process policy: TERMINATE; checked ",
                jobs.as_str(),
                " active job(s), changed ",
                rules.as_str(),
                " wait rule(s), stopped ",
                stopped.as_str(),
                " matching process(es), restarted ",
                restarted.as_str(),
            );
            text.append(" orphaned job(s)");
            text
        },
        Language::Chinese => {
            let mut text = join8(
                "进程策略：终止；已检查 ",
                jobs.as_str(),
                " 个活动任务，修改 ",
                rules.as_str(),
                " 条等待规则，停止 ",
                stopped.as_str(),
                " 个匹配进程，并重启 ",
                restarted.as_str(),
            );
            text.append(" 个孤儿任务");
            text
        },
    }
}

/// What is said of a sweep over the jobs that wait.
fn sweep_report(s: &WaitSweep, language: Language) -> (r: String)
    ensures
        r@ == sweep_message(*s, language),
{
    let jobs = count_text(s.active_jobs);
    let stopped = count_text(s.stopped_processes);
    let restarted = count_text(s.restarted_jobs);
    let skipped = count_text(s.skipped_jobs);
    match (s.skipped_jobs == 0, language) {
        (true, Language::English) => join7(
            "Process policy: TERMINATE; checked ",
            jobs.as_str(),
            " active job(s), stopped ",
            stopped.as_str(),
            " process(es), restarted ",
            restarted.as_str(),
            " orphaned job(s)",
        ),
        (true, Language::Chinese) => join7(
            "进程策略：终止；已检查 ",
            jobs.as_str(),
            " 个活动任务，停止 ",
            stopped.as_str(),
            " 个进程，重启 ",
            restarted.as_str(),
            " 个孤儿任务",
        ),
        (false, Language::English) => join7(
            "Process policy: TERMINATE; checked ",
            jobs.as_str(),
            " job(s), restarted ",
            restarted.as_str(),
            ", skipped ",
            skipped.as_str(),
            " unsafe or failed job(s)",
        ),
        (false, Language::Chinese) => join7(
            "进程策略：终止；已检查 ",
            jobs.as_str(),
            " 个任务，重启 ",
            restarted.as_str(),
            " 个，跳过 ",
            skipped.as_str(),
            " 个不安全或处理失败的任务",
        ),
    }
}

} // verus!
