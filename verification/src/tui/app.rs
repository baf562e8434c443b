//! The state of the interface.

use crate::language::Language;
use crate::number::{count_text, decimal_text, smaller};
use crate::search::{lines, texts};
use crate::text::{join2, join3};
use crate::tui::activity::{ActivityLog, LogView, number_set};
use crate::tui::doctor::{Doctor, DoctorView};
use crate::tui::editor::next_revision;
use crate::tui::geometry::{Rect, at_most, last_of};
use crate::tui::github::{Github, GithubView, Quota};
use crate::tui::jobs::{Jobs, JobsRead, JobsView};
use crate::tui::labels::{InitialLoadPhase, InitialLoadProgress, ProcessStrategy, Tab, ToolView};
use crate::tui::modal::{
    Effect, EffectView, Hitboxes, Modal, ModalView, effect_views, lemma_effects_push,
};
use crate::tui::model::{AppSettings, GithubReleaseMonitor, JobItem, ToolItem, text_of};
use crate::tui::tools::{Tools, ToolsView, following_probe, next_probe};
use crate::version::NetworkTestResult;
use vstd::prelude::*;
use vstd::string::*;

verus! {

/// Milliseconds between two looks at the quota of the GitHub API.
pub const GITHUB_RATE_LIMIT_REFRESH_INTERVAL: u64 = 300000;

/// The test of the network that ran last, or runs.
#[derive(Debug)]
pub struct NetworkTest {
    pub loading: bool,
    pub probe_id: u64,
    pub next_probe_id: u64,
    pub results: Vec<NetworkTestResult>,
}

/// What is known of the test of the network.
pub struct NetworkTestView {
    pub loading: bool,
    pub probe_id: u64,
    pub next_probe_id: u64,
    pub results: Seq<NetworkTestResult>,
}

impl View for NetworkTest {
    type V = NetworkTestView;

    open spec fn view(&self) -> NetworkTestView {
        NetworkTestView {
            loading: self.loading,
            probe_id: self.probe_id,
            next_probe_id: self.next_probe_id,
            results: self.results@,
        }
    }
}

/// The state of the interface.
#[derive(Debug)]
pub struct App {
    /// The manifest given on the command line, if any.
    pub config_path: Option<String>,
    pub tools: Tools,
    pub github: Github,
    pub quota: Quota,
    pub jobs: Jobs,
    pub doctor: Doctor,
    pub network_test: NetworkTest,
    pub activity: ActivityLog,
    pub activity_rendered_height: usize,
    pub hovered_activity: Option<usize>,
    pub hovered_tab: Option<usize>,
    pub tab: Tab,
    pub language: Language,
    pub process_strategy: ProcessStrategy,
    pub modal: Modal,
    pub message: String,
    /// Operations that run in the background.
    pub running: usize,
    /// Number of tools in the batch of updates that runs, if one does.
    pub update_batch: Option<usize>,
    pub frame: u64,
    pub settings: AppSettings,
    pub settings_index: usize,
    pub initial_load: Option<InitialLoadProgress>,
    pub initial_load_error: Option<String>,
    /// Field and byte offset where the mouse began to select.
    pub modal_drag: Option<(usize, usize)>,
    /// Where the text of the TOML editor stands.
    pub toml_editor_area: Option<Rect>,
    /// Byte offset where the mouse began to select in the TOML editor.
    pub toml_editor_drag: Option<usize>,
    pub ctrl_c_armed: bool,
    pub should_quit: bool,
    /// What the mouse can hit, as it was drawn last.
    pub hits: Hitboxes,
    /// The time, in milliseconds since the start.
    pub now_ms: u64,
    /// The date and time, as the log shows them.
    pub now_text: String,
    /// What is to be done outside, in order.
    pub effects: Vec<Effect>,
}

/// What the state of the interface is.
pub struct AppView {
    pub config_path: Option<String>,
    pub tools: ToolsView,
    pub github: GithubView,
    pub quota: Quota,
    pub jobs: JobsView,
    pub doctor: DoctorView,
    pub network_test: NetworkTestView,
    pub activity: LogView,
    pub activity_rendered_height: usize,
    pub hovered_activity: Option<usize>,
    pub hovered_tab: Option<usize>,
    pub tab: Tab,
    pub language: Language,
    pub process_strategy: ProcessStrategy,
    pub modal: ModalView,
    pub message: Seq<char>,
    pub running: usize,
    pub update_batch: Option<usize>,
    pub frame: u64,
    pub settings: AppSettings,
    pub settings_index: usize,
    pub initial_load: Option<InitialLoadProgress>,
    pub initial_load_error: Option<String>,
    pub modal_drag: Option<(usize, usize)>,
    pub toml_editor_area: Option<Rect>,
    pub toml_editor_drag: Option<usize>,
    pub ctrl_c_armed: bool,
    pub should_quit: bool,
    pub hits: Hitboxes,
    pub now_ms: u64,
    pub now_text: String,
    pub effects: Seq<EffectView>,
}

impl View for App {
    type V = AppView;

    open spec fn view(&self) -> AppView {
        AppView {
            config_path: self.config_path,
            tools: self.tools@,
            github: self.github@,
            quota: self.quota,
            jobs: self.jobs@,
            doctor: self.doctor@,
            network_test: self.network_test@,
            activity: self.activity@,
            activity_rendered_height: self.activity_rendered_height,
            hovered_activity: self.hovered_activity,
            hovered_tab: self.hovered_tab,
            tab: self.tab,
            language: self.language,
            process_strategy: self.process_strategy,
            modal: self.modal@,
            message: self.message@,
            running: self.running,
            update_batch: self.update_batch,
            frame: self.frame,
            settings: self.settings,
            settings_index: self.settings_index,
            initial_load: self.initial_load,
            initial_load_error: self.initial_load_error,
            modal_drag: self.modal_drag,
            toml_editor_area: self.toml_editor_area,
            toml_editor_drag: self.toml_editor_drag,
            ctrl_c_armed: self.ctrl_c_armed,
            should_quit: self.should_quit,
            hits: self.hits,
            now_ms: self.now_ms,
            now_text: self.now_text,
            effects: effect_views(self.effects@),
        }
    }
}

/// What is loaded at the start.
#[derive(Debug)]
pub struct InitialLoadData {
    pub tools: Vec<ToolItem>,
    pub github_monitors: Vec<GithubReleaseMonitor>,
    pub jobs: Vec<JobItem>,
}

/// What is loaded of the tools.
#[derive(Debug)]
pub struct LoadedTools {
    pub tools: Vec<ToolItem>,
    pub github_monitors: Vec<GithubReleaseMonitor>,
}

impl AppView {
    pub open spec fn said(self, text: Seq<char>) -> AppView {
        AppView { message: text, ..self }
    }

    pub open spec fn told(self, english: Seq<char>, chinese: Seq<char>) -> AppView {
        self.said(self.language.pick(english, chinese))
    }

    pub open spec fn asked(self, effect: EffectView) -> AppView {
        AppView { effects: self.effects.push(effect), ..self }
    }

    pub open spec fn logged(self, line: Seq<char>) -> AppView {
        AppView { activity: self.activity.logged(line, self.now_text@), ..self }
    }

    pub open spec fn logged_output(self, output: Seq<char>) -> AppView {
        AppView { activity: self.activity.logged_output(output, self.now_text@), ..self }
    }

    pub open spec fn with_modal(self, modal: ModalView) -> AppView {
        AppView { modal, ..self }
    }

    /// Whether tools that cannot be used are left out.
    pub open spec fn hides(self) -> bool {
        self.settings.hide_unsupported_and_missing_tools
    }

    /// The state with the tools and repositories loaded anew.
    pub open spec fn reloaded(self, loaded: LoadedTools) -> AppView {
        AppView {
            tools: self.tools.reloaded(loaded.tools@, self.hides()),
            github: self.github.reloaded(loaded.github_monitors@),
            ..self
        }
    }

    /// The state with the jobs read anew.
    pub open spec fn jobs_read(self, read: JobsRead) -> AppView {
        AppView {
            jobs: self.jobs.reread(read, self.now_ms),
            tools: self.tools.names_probed(self.jobs.completed(read)),
            ..self
        }
    }

    /// The state with the quota of the GitHub API being asked for, where there
    /// is a key and it is not being asked for.
    pub open spec fn quota_asked(self) -> AppView {
        if self.quota.asks() {
            AppView { quota: self.quota.asking(self.now_ms), ..self }.asked(
                EffectView::FetchRateLimit { probe_id: next_probe(self.quota.probe_id) },
            )
        } else {
            self
        }
    }

    pub open spec fn quota_forgotten(self) -> AppView {
        AppView { quota: self.quota.forgotten(self.now_ms), ..self }
    }

    /// The state with the key for GitHub being looked up.
    pub open spec fn credential_asked(self) -> AppView {
        let id = next_probe(self.quota.credential_probe_id);
        AppView { quota: Quota { credential_probe_id: id, ..self.quota }, ..self }.asked(
            EffectView::CheckCredential { probe_id: id },
        )
    }

    /// The state with what was loaded at the start.
    pub open spec fn loaded(self, data: InitialLoadData) -> AppView {
        let a = AppView {
            tools: ToolsView { items: data.tools@, ..self.tools }.relisted(
                self.hides(),
                None,
            ).all_probed(),
            github: GithubView { monitors: data.github_monitors@, ..self.github },
            jobs: JobsView {
                items: data.jobs@,
                index: at_most(
                    self.jobs.index as int,
                    last_of(data.jobs@.len() as int),
                ) as usize,
                last_refresh: self.now_ms,
                ..self.jobs
            },
            initial_load: None,
            ..self
        }.told("Ready"@, "就绪"@);
        if self.settings.auto_diagnose_on_startup {
            a.scan_requested(true)
        } else {
            a
        }
    }

    /// The state after a scan of the installations is asked for.
    pub open spec fn scan_requested(self, quiet: bool) -> AppView {
        if self.doctor.loading {
            self.told("Diagnostics are already running"@, "诊断正在进行中，请稍候"@)
        } else {
            self.asked(EffectView::LoadManifest { quiet })
        }
    }

    /// The state when the manifest for a scan was loaded, or not.
    pub open spec fn scan_begun(self, quiet: bool, error: Option<Seq<char>>) -> AppView {
        match error {
            Some(text) => if quiet {
                self
            } else {
                self.said(self.language.pick("Diagnostics failed: "@, "诊断失败："@) + text)
            },
            None => AppView { doctor: self.doctor.scanning(), ..self }.told(
                "Scanning installation conflicts…"@,
                "正在扫描安装冲突…"@,
            ).asked(
                EffectView::Diagnose { probe_id: next_probe(self.doctor.next_probe_id) },
            ),
        }
    }

    pub open spec fn tab_selected(self, tab: Tab) -> AppView {
        let a = AppView { tab, ..self };
        if tab == Tab::Doctor && self.doctor.unscanned() {
            a.told(
                "Diagnostics have not been run. Press Enter to scan"@,
                "尚未运行诊断，按 Enter 开始扫描"@,
            )
        } else {
            a
        }
    }

    /// The state with the repositories being looked at, where there are any and
    /// nothing else is done to them; `manual` where the user asked for it.
    pub open spec fn releases_asked(self, manual: bool) -> AppView {
        if self.github.busy() {
            if manual {
                self.told(
                    "A GitHub repository operation is already running"@,
                    "GitHub 仓库操作正在进行中"@,
                )
            } else {
                self
            }
        } else if self.github.monitors.len() == 0 {
            let a = AppView {
                github: GithubView { last_refresh: self.now_ms, ..self.github },
                ..self
            };
            if manual {
                a.told("No GitHub repositories configured"@, "尚未配置 GitHub 仓库"@)
            } else {
                a
            }
        } else {
            let a = AppView {
                github: GithubView {
                    probe_running: true,
                    last_refresh: self.now_ms,
                    ..self.github
                },
                ..self
            }.asked(EffectView::ProbeReleases);
            if manual {
                a.told("Refreshing GitHub repository status…"@, "正在刷新 GitHub 仓库状态…"@)
            } else {
                a
            }
        }
    }

    /// The state with releases of those repositories being installed.
    pub open spec fn installs_started(self, names: Seq<Seq<char>>) -> AppView {
        if self.github.busy() {
            self.told(
                "A GitHub repository operation is already running"@,
                "GitHub 仓库操作正在进行中"@,
            )
        } else if names.len() == 0 {
            self
        } else {
            AppView { github: GithubView { install_running: true, ..self.github }, ..self }.said(
                match self.language {
                    Language::English => "Installing "@ + decimal_text(names.len())
                        + " GitHub repository update(s)…"@,
                    Language::Chinese => "正在安装 "@ + decimal_text(names.len())
                        + " 项 GitHub 仓库更新…"@,
                },
            ).asked(EffectView::InstallReleases { names })
        }
    }

    pub open spec fn view_selected(self, view: ToolView) -> AppView {
        let a = AppView { tools: ToolsView { view, ..self.tools }, ..self };
        let b = match view {
            ToolView::Commands => a.told("Command tools"@, "命令工具"@),
            ToolView::Github => a.told("GitHub repositories"@, "GitHub 仓库"@),
        };
        if view == ToolView::Github && self.github.statuses.len() == 0
            && self.github.monitors.len() > 0 {
            b.releases_asked(false)
        } else {
            b
        }
    }

    /// Whether `last` lies at least `interval` back.
    pub open spec fn is_due(self, last: u64, interval: int) -> bool {
        self.now_ms >= last && self.now_ms - last >= interval
    }

    /// The state with the jobs being read, where that is due.
    pub open spec fn jobs_due(self) -> AppView {
        if self.is_due(self.jobs.last_refresh, self.jobs.interval() as int) {
            self.asked(EffectView::ReloadJobs { report: false })
        } else {
            self
        }
    }

    /// The state with the repositories being looked at, where that is due.
    pub open spec fn releases_due(self) -> AppView {
        if !self.github.busy() && self.is_due(
            self.github.last_refresh,
            self.settings.github.poll_interval_secs * 1000,
        ) {
            self.releases_asked(false)
        } else {
            self
        }
    }

    /// The state with the quota being asked for, where that is due.
    pub open spec fn quota_due(self) -> AppView {
        if self.is_due(self.quota.last_refresh, GITHUB_RATE_LIMIT_REFRESH_INTERVAL as int) {
            self.quota_asked()
        } else {
            self
        }
    }

    /// The state at the start of a frame: what is due is asked for.
    pub open spec fn ticked(self) -> AppView {
        let a = AppView { frame: next_revision(self.frame), ..self };
        if self.initial_load is Some {
            a
        } else {
            a.jobs_due().releases_due().quota_due()
        }
    }
}

impl App {
    /// The list shows tools that are there, and the dialog is sound.
    pub open spec fn wf(self) -> bool {
        self.modal.wf() && self.tools.wf()
    }

    /// The interface before anything is loaded.
    pub fn empty(settings: AppSettings, config_path: Option<String>, now_ms: u64, now_text: String) -> (r:
        App)
        ensures
            r.wf(),
            r.config_path == config_path,
            r.tools@ == ToolsView::blank(),
            r.github@ == GithubView::blank(now_ms),
            r.quota == Quota::blank(now_ms),
            r.jobs@ == JobsView::blank(now_ms),
            r.doctor@ == DoctorView::blank(),
            r.network_test@ == (NetworkTestView {
                loading: false,
                probe_id: 0,
                next_probe_id: 0,
                results: Seq::empty(),
            }),
            r.activity@ == (LogView {
                lines: seq![
                    settings.language.pick("Welcome to dvup."@, "欢迎使用 dvup。"@),
                    settings.language.pick(
                        "Select tools with Space and press Enter to update."@,
                        "按 Space 选择工具，然后按 Enter 更新。"@,
                    ),
                ],
                stamps: seq![now_text@, now_text@],
                expanded: Set::empty(),
                scroll: 0,
            }),
            r.activity_rendered_height == 2,
            r.hovered_activity is None,
            r.hovered_tab is None,
            r.tab == Tab::Tools,
            r.language == settings.language,
            r.process_strategy == ProcessStrategy::Wait,
            r.modal@ is Closed,
            r.message@ == settings.language.pick("Ready"@, "就绪"@),
            r.running == 0,
            r.update_batch is None,
            r.frame == 0,
            r.settings == settings,
            r.settings_index == 0,
            r.initial_load is None,
            r.initial_load_error is None,
            r.modal_drag is None,
            r.toml_editor_area is None,
            r.toml_editor_drag is None,
            !r.ctrl_c_armed,
            !r.should_quit,
            r.hits.is_empty(),
            r.now_ms == now_ms,
            r.now_text == now_text,
            r.effects@.len() == 0,
    {
        let language = settings.language;
        let welcome = language.text("Welcome to dvup.", "欢迎使用 dvup。").to_owned();
        let advice = language.text(
            "Select tools with Space and press Enter to update.",
            "按 Space 选择工具，然后按 Enter 更新。",
        ).to_owned();
        let mut lines: Vec<String> = Vec::new();
        lines.push(welcome);
        lines.push(advice);
        let mut timestamps: Vec<String> = Vec::new();
        timestamps.push(now_text.clone());
        timestamps.push(now_text.clone());
        assert(texts(lines@) =~= seq![welcome@, advice@]);
        assert(texts(timestamps@) =~= seq![now_text@, now_text@]);
        let activity = ActivityLog { lines, timestamps, expanded: Vec::new(), scroll: 0 };
        assert(number_set(activity.expanded@) =~= Set::empty());
        App {
            config_path,
            tools: Tools::empty(),
            github: Github::empty(now_ms),
            quota: Quota::empty(now_ms),
            jobs: Jobs::empty(now_ms),
            doctor: Doctor::empty(),
            network_test: NetworkTest {
                loading: false,
                probe_id: 0,
                next_probe_id: 0,
                results: Vec::new(),
            },
            activity,
            activity_rendered_height: 2,
            hovered_activity: None,
            hovered_tab: None,
            tab: Tab::Tools,
            language,
            process_strategy: ProcessStrategy::Wait,
            modal: Modal::Closed,
            message: language.text("Ready", "就绪").to_owned(),
            running: 0,
            update_batch: None,
            frame: 0,
            settings,
            settings_index: 0,
            initial_load: None,
            initial_load_error: None,
            modal_drag: None,
            toml_editor_area: None,
            toml_editor_drag: None,
            ctrl_c_armed: false,
            should_quit: false,
            hits: Hitboxes::none(),
            now_ms,
            now_text,
            effects: Vec::new(),
        }
    }

    /// Begins to load what the interface shows.
    pub fn begin_loading(&mut self)
        requires
            old(self).wf(),
        ensures
            final(self).wf(),
            final(self)@ == (AppView {
                initial_load: Some(
                    InitialLoadProgress {
                        phase: InitialLoadPhase::Configuration,
                        completed: 0,
                        total: 1,
                    },
                ),
                ..old(self)@
            }).asked(EffectView::LoadInitial).credential_asked(),
    {
        self.initial_load = Some(
            InitialLoadProgress { phase: InitialLoadPhase::Configuration, completed: 0, total: 1 },
        );
        self.ask(Effect::LoadInitial);
        self.start_github_credential_check();
    }

    /// Shows a message.
    pub fn say(&mut self, text: &str)
        ensures
            final(self)@ == old(self)@.said(text@),
            old(self).wf() ==> final(self).wf(),
    {
        self.message = text.to_owned();
    }

    /// Shows a message in the language of the interface.
    pub fn tell(&mut self, english: &'static str, chinese: &'static str)
        ensures
            final(self)@ == old(self)@.told(english@, chinese@),
            old(self).wf() ==> final(self).wf(),
    {
        self.message = self.language.text(english, chinese).to_owned();
    }

    /// Shows a message that ends in `detail`, in the language of the interface.
    pub fn tell_with(&mut self, english: &'static str, chinese: &'static str, detail: &str)
        ensures
            final(self)@ == old(self)@.said(
                old(self).language.pick(english@, chinese@) + detail@,
            ),
            old(self).wf() ==> final(self).wf(),
    {
        self.message = join2(self.language.text(english, chinese), detail);
    }

    /// Asks for something to be done outside.
    pub fn ask(&mut self, effect: Effect)
        ensures
            final(self)@ == old(self)@.asked(effect@),
            old(self).wf() ==> final(self).wf(),
    {
        proof {
            lemma_effects_push(self.effects@, effect);
        }
        self.effects.push(effect);
    }

    /// Adds a line to the activity log.
    pub fn push_activity(&mut self, line: String)
        ensures
            final(self)@ == old(self)@.logged(line@),
            old(self).wf() ==> final(self).wf(),
    {
        self.activity.push(line, self.now_text.as_str());
    }

    /// Adds the readable lines of some output to the activity log.
    pub fn push_activity_output(&mut self, output: &str)
        ensures
            final(self)@ == old(self)@.logged_output(output@),
            old(self).wf() ==> final(self).wf(),
    {
        self.activity.push_output(output, self.now_text.as_str());
    }

    /// Whether tools that cannot be used are left out.
    pub fn hides_unavailable(&self) -> (r: bool)
        ensures
            r == self@.hides(),
    {
        self.settings.hide_unsupported_and_missing_tools
    }

    /// Takes the tools and repositories as they were loaded.
    pub fn refresh_tools(&mut self, loaded: LoadedTools)
        requires
            old(self).wf(),
        ensures
            final(self).wf(),
            final(self)@ == old(self)@.reloaded(loaded),
    {
        let hide = self.hides_unavailable();
        self.tools.refresh(loaded.tools, hide);
        self.github.refresh(loaded.github_monitors);
    }

    /// Takes what was read of the jobs. The versions of tools whose jobs have
    /// succeeded are asked for.
    pub fn refresh_jobs(&mut self, read: JobsRead) -> (r: Result<(), String>)
        requires
            old(self).wf(),
        ensures
            final(self).wf(),
            final(self)@ == old(self)@.jobs_read(read),
            r is Ok <==> old(self).jobs@.read_error(read) is None,
            r matches Err(error) ==> old(self).jobs@.read_error(read) == Some(error),
    {
        match self.jobs.refresh(read, self.now_ms) {
            Ok(names) => {
                self.tools.refresh_versions(&names);
                Ok(())
            },
            Err(error) => Err(error),
        }
    }

    /// Looks up the key for GitHub.
    pub fn start_github_credential_check(&mut self)
        requires
            old(self).wf(),
        ensures
            final(self).wf(),
            final(self)@ == old(self)@.credential_asked(),
    {
        let id: u64 = following_probe(self.quota.credential_probe_id);
        self.quota.credential_probe_id = id;
        self.ask(Effect::CheckCredential { probe_id: id });
    }

    /// Asks for the quota of the GitHub API.
    pub fn start_github_rate_limit_refresh(&mut self)
        requires
            old(self).wf(),
        ensures
            final(self).wf(),
            final(self)@ == old(self)@.quota_asked(),
    {
        if let Some(id) = self.quota.begin(self.now_ms) {
            self.ask(Effect::FetchRateLimit { probe_id: id });
        }
    }

    pub fn clear_github_rate_limit(&mut self)
        requires
            old(self).wf(),
        ensures
            final(self).wf(),
            final(self)@ == old(self)@.quota_forgotten(),
    {
        self.quota.clear(self.now_ms);
    }

    /// Takes what was loaded at the start.
    pub fn apply_initial_load(&mut self, data: InitialLoadData)
        requires
            old(self).wf(),
        ensures
            final(self).wf(),
            final(self)@ == old(self)@.loaded(data),
    {
        let hide = self.hides_unavailable();
        let last: usize = if data.jobs.len() > 0 {
            data.jobs.len() - 1
        } else {
            0
        };
        self.tools.items = data.tools;
        self.tools.rebuild_visible_tool_indices(hide, None);
        self.tools.start_all_tool_version_probes();
        self.github.monitors = data.github_monitors;
        self.jobs.items = data.jobs;
        self.jobs.index = smaller(self.jobs.index, last);
        self.jobs.last_refresh = self.now_ms;
        self.initial_load = None;
        self.tell("Ready", "就绪");
        if self.settings.auto_diagnose_on_startup {
            self.request_scan(true);
        }
    }

    /// Asks for a scan of the installations.
    fn request_scan(&mut self, quiet: bool)
        requires
            old(self).wf(),
        ensures
            final(self).wf(),
            final(self)@ == old(self)@.scan_requested(quiet),
    {
        if self.doctor.loading {
            self.tell("Diagnostics are already running", "诊断正在进行中，请稍候");
        } else {
            self.ask(Effect::LoadManifest { quiet });
        }
    }

    /// Asks for a scan of the installations, as the user wishes.
    pub fn request_doctor_refresh(&mut self)
        requires
            old(self).wf(),
        ensures
            final(self).wf(),
            final(self)@ == old(self)@.scan_requested(false),
    {
        self.request_scan(false);
    }

    /// Begins to scan the installations, once the manifest was loaded or could
    /// not be.
    pub fn refresh_doctor(&mut self, quiet: bool, error: Option<String>)
        requires
            old(self).wf(),
        ensures
            final(self).wf(),
            final(self)@ == old(self)@.scan_begun(quiet, text_of(error)),
    {
        match error {
            Some(text) => {
                if !quiet {
                    self.tell_with("Diagnostics failed: ", "诊断失败：", text.as_str());
                }
            },
            None => {
                let id: u64 = self.doctor.begin_scan();
                self.tell("Scanning installation conflicts…", "正在扫描安装冲突…");
                self.ask(Effect::Diagnose { probe_id: id });
            },
        }
    }

    pub fn select_tab(&mut self, tab: Tab)
        requires
            old(self).wf(),
        ensures
            final(self).wf(),
            final(self)@ == old(self)@.tab_selected(tab),
    {
        self.tab = tab;
        if tab == Tab::Doctor && self.doctor.never_scanned() {
            self.tell(
                "Diagnostics have not been run. Press Enter to scan",
                "尚未运行诊断，按 Enter 开始扫描",
            );
        }
    }

    pub fn select_tool_view(&mut self, view: ToolView)
        requires
            old(self).wf(),
        ensures
            final(self).wf(),
            final(self)@ == old(self)@.view_selected(view),
    {
        self.tools.view = view;
        match view {
            ToolView::Commands => self.tell("Command tools", "命令工具"),
            ToolView::Github => self.tell("GitHub repositories", "GitHub 仓库"),
        }
        if view == ToolView::Github && self.github.statuses.len() == 0 && self.github.monitors.len()
            > 0 {
            self.start_release_probe(false);
        }
    }

    /// Looks at the releases of the repositories.
    pub fn start_release_probe(&mut self, manual: bool)
        requires
            old(self).wf(),
        ensures
            final(self).wf(),
            final(self)@ == old(self)@.releases_asked(manual),
    {
        if self.github.probe_running || self.github.install_running {
            if manual {
                self.tell(
                    "A GitHub repository operation is already running",
                    "GitHub 仓库操作正在进行中",
                );
            }
            return;
        }
        self.github.last_refresh = self.now_ms;
        if self.github.monitors.len() == 0 {
            if manual {
                self.tell("No GitHub repositories configured", "尚未配置 GitHub 仓库");
            }
            return;
        }
        self.github.probe_running = true;
        self.ask(Effect::ProbeReleases);
        if manual {
            self.tell("Refreshing GitHub repository status…", "正在刷新 GitHub 仓库状态…");
        }
    }

    /// Installs the newest releases of those repositories.
    pub fn start_release_updates(&mut self, names: Vec<String>)
        requires
            old(self).wf(),
        ensures
            final(self).wf(),
            final(self)@ == old(self)@.installs_started(texts(names@)),
    {
        if self.github.probe_running || self.github.install_running {
            self.tell(
                "A GitHub repository operation is already running",
                "GitHub 仓库操作正在进行中",
            );
            return;
        }
        if names.len() == 0 {
            return;
        }
        self.github.install_running = true;
        let count = count_text(names.len());
        self.message = match self.language {
            Language::English => join3(
                "Installing ",
                count.as_str(),
                " GitHub repository update(s)…",
            ),
            Language::Chinese => join3("正在安装 ", count.as_str(), " 项 GitHub 仓库更新…"),
        };
        self.ask(Effect::InstallReleases { names });
    }

    /// Whether `last` lies at least `interval` back.
    fn due(&self, last: u64, interval: u64) -> (r: bool)
        ensures
            r == self@.is_due(last, interval as int),
    {
        self.now_ms >= last && self.now_ms - last >= interval
    }

    fn tick_jobs(&mut self)
        requires
            old(self).wf(),
        ensures
            final(self).wf(),
            final(self)@ == old(self)@.jobs_due(),
    {
        if self.due(self.jobs.last_refresh, self.jobs.job_refresh_interval()) {
            self.ask(Effect::ReloadJobs { report: false });
        }
    }

    fn tick_releases(&mut self)
        requires
            old(self).wf(),
        ensures
            final(self).wf(),
            final(self)@ == old(self)@.releases_due(),
    {
        if !self.github.probe_running && !self.github.install_running && self.now_ms
            >= self.github.last_refresh {
            let passed: u64 = self.now_ms - self.github.last_refresh;
            if passed / 1000 >= self.settings.github.poll_interval_secs {
                self.start_release_probe(false);
            }
        }
    }

    fn tick_quota(&mut self)
        requires
            old(self).wf(),
        ensures
            final(self).wf(),
            final(self)@ == old(self)@.quota_due(),
    {
        if self.due(self.quota.last_refresh, GITHUB_RATE_LIMIT_REFRESH_INTERVAL) {
            self.start_github_rate_limit_refresh();
        }
    }

    /// Begins a frame: what is due is asked for.
    pub fn tick(&mut self)
        requires
            old(self).wf(),
        ensures
            final(self).wf(),
            final(self)@ == old(self)@.ticked(),
    {
        self.frame = if self.frame == u64::MAX {
            0
        } else {
            self.frame + 1
        };
        if self.initial_load.is_none() {
            self.tick_jobs();
            self.tick_releases();
            self.tick_quota();
        }
    }
}

} // verus!
