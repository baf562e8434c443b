//! What the interface calls things, in both languages.

use crate::job::JobStatus;
use crate::language::Language;
use crate::number::{count_text, decimal_text};
use crate::text::{join2, join3, join4, join5, join8, same};
use crate::tui::style::{Color, Style};
use crate::version::{LatestVersionError, LatestVersionErrorKind};
use vstd::prelude::*;
use vstd::string::*;

verus! {

/// Whether a tool and what updates it are there.
#[derive(Clone, Copy, Debug, PartialEq, Eq, Structural)]
pub enum Availability {
    Installed,
    Missing,
    UpdaterMissing,
    Unsupported,
}

impl Availability {
    pub open spec fn checkable(self) -> bool {
        self == Availability::Installed || self == Availability::UpdaterMissing
    }

    /// Whether the tool can be asked for its version.
    pub fn allows_version_checks(self) -> (r: bool)
        ensures
            r == self.checkable(),
    {
        matches!(self, Availability::Installed | Availability::UpdaterMissing)
    }

    /// Whether the tool is left out where only usable ones are shown.
    pub open spec fn hideable(self) -> bool {
        self == Availability::Unsupported || self == Availability::Missing
    }

    pub fn is_hideable(self) -> (r: bool)
        ensures
            r == self.hideable(),
    {
        matches!(self, Availability::Unsupported | Availability::Missing)
    }

    pub open spec fn name(self, language: Language) -> Seq<char> {
        match self {
            Availability::Installed => language.pick("installed"@, "已安装"@),
            Availability::Missing => language.pick("missing"@, "未安装"@),
            Availability::UpdaterMissing => language.pick("no updater"@, "缺少更新器"@),
            Availability::Unsupported => language.pick("unsupported"@, "不支持"@),
        }
    }

    /// What the tool list says of the tool.
    pub fn label(self, language: Language) -> (r: &'static str)
        ensures
            r@ == self.name(language),
    {
        match self {
            Availability::Installed => language.text("installed", "已安装"),
            Availability::Missing => language.text("missing", "未安装"),
            Availability::UpdaterMissing => language.text("no updater", "缺少更新器"),
            Availability::Unsupported => language.text("unsupported", "不支持"),
        }
    }

    pub open spec fn look(self) -> Style {
        match self {
            Availability::Installed => Style::of(Some(Color::Success), None),
            Availability::Missing => Style::of(Some(Color::Subtle), None),
            Availability::UpdaterMissing => Style::of(Some(Color::Error), None),
            Availability::Unsupported => Style::of(Some(Color::Warning), None),
        }
    }

    /// How it says so.
    pub fn style(self) -> (r: Style)
        ensures
            r == self.look(),
    {
        match self {
            Availability::Installed => Style::with_fg(Color::Success),
            Availability::Missing => Style::with_fg(Color::Subtle),
            Availability::UpdaterMissing => Style::with_fg(Color::Error),
            Availability::Unsupported => Style::with_fg(Color::Warning),
        }
    }
}

/// What came of the last update of a tool.
#[derive(Clone, Copy, Debug, PartialEq, Eq, Structural)]
pub enum RunState {
    Idle,
    Running,
    UpToDate,
    Updated,
    Queued,
    Failed,
}

impl RunState {
    pub open spec fn name(self, frame: u64, language: Language) -> Seq<char> {
        match self {
            RunState::Idle => ""@,
            RunState::Running => if frame % 2 == 0 {
                language.pick("running ·"@, "运行中 ·"@)
            } else {
                language.pick("running •"@, "运行中 •"@)
            },
            RunState::UpToDate => language.pick("up to date"@, "已是最新"@),
            RunState::Updated => language.pick("updated"@, "已更新"@),
            RunState::Queued => language.pick("queued"@, "已排队"@),
            RunState::Failed => language.pick("failed"@, "失败"@),
        }
    }

    /// What the tool list says of the update; a running one blinks.
    pub fn label(self, frame: u64, language: Language) -> (r: &'static str)
        ensures
            r@ == self.name(frame, language),
    {
        match self {
            RunState::Idle => "",
            RunState::Running => if frame % 2 == 0 {
                language.text("running ·", "运行中 ·")
            } else {
                language.text("running •", "运行中 •")
            },
            RunState::UpToDate => language.text("up to date", "已是最新"),
            RunState::Updated => language.text("updated", "已更新"),
            RunState::Queued => language.text("queued", "已排队"),
            RunState::Failed => language.text("failed", "失败"),
        }
    }

    pub open spec fn look(self) -> Style {
        match self {
            RunState::Idle => Style::of(None, None),
            RunState::Running => Style::of(Some(Color::Accent), None),
            RunState::UpToDate | RunState::Updated => Style::of(Some(Color::Success), None),
            RunState::Queued => Style::of(Some(Color::Warning), None),
            RunState::Failed => Style::of(Some(Color::Error), None),
        }
    }

    /// How it says so.
    pub fn style(self) -> (r: Style)
        ensures
            r == self.look(),
    {
        match self {
            RunState::Idle => Style::plain(),
            RunState::Running => Style::with_fg(Color::Accent),
            RunState::UpToDate | RunState::Updated => Style::with_fg(Color::Success),
            RunState::Queued => Style::with_fg(Color::Warning),
            RunState::Failed => Style::with_fg(Color::Error),
        }
    }
}

/// The version of a tool, as far as it is known.
#[derive(Debug)]
pub enum VersionState {
    Loading,
    Available(String),
    Failed(LatestVersionError),
    Unavailable,
}

impl VersionState {
    pub open spec fn name(self) -> Seq<char> {
        match self {
            VersionState::Loading => "…"@,
            VersionState::Available(version) => version@,
            VersionState::Failed(_) => "!"@,
            VersionState::Unavailable => "—"@,
        }
    }

    pub fn label(&self) -> (r: &str)
        ensures
            r@ == self.name(),
    {
        match self {
            VersionState::Loading => "…",
            VersionState::Available(version) => version.as_str(),
            VersionState::Failed(_) => "!",
            VersionState::Unavailable => "—",
        }
    }

    pub open spec fn look(self) -> Style {
        match self {
            VersionState::Available(_) => Style::of(Some(Color::Accent), None),
            VersionState::Failed(error) => if error.kind == LatestVersionErrorKind::RateLimited {
                Style::of(Some(Color::Warning), None)
            } else {
                Style::of(Some(Color::Error), None)
            },
            VersionState::Loading | VersionState::Unavailable => Style::of(
                Some(Color::Subtle),
                None,
            ),
        }
    }

    pub fn style(&self) -> (r: Style)
        ensures
            r == self.look(),
    {
        match self {
            VersionState::Available(_) => Style::with_fg(Color::Accent),
            VersionState::Failed(error) => if error.kind == LatestVersionErrorKind::RateLimited {
                Style::with_fg(Color::Warning)
            } else {
                Style::with_fg(Color::Error)
            },
            VersionState::Loading | VersionState::Unavailable => Style::with_fg(Color::Subtle),
        }
    }
}

/// Whether both versions are known and the same.
pub open spec fn versions_agree(installed: VersionState, latest: VersionState) -> bool {
    installed matches VersionState::Available(a) && latest matches VersionState::Available(b) && a@
        == b@
}

pub fn versions_equal(installed: &VersionState, latest: &VersionState) -> (r: bool)
    ensures
        r == versions_agree(*installed, *latest),
{
    match (installed, latest) {
        (VersionState::Available(a), VersionState::Available(b)) => same(a.as_str(), b.as_str()),
        _ => false,
    }
}

/// The style of the latest version beside the installed one.
pub open spec fn latest_look(installed: VersionState, latest: VersionState) -> Style {
    if installed is Available && latest is Available {
        if versions_agree(installed, latest) {
            Style::of(Some(Color::Success), None)
        } else {
            Style::of(Some(Color::Warning), None)
        }
    } else {
        latest.look()
    }
}

/// The style of the latest version beside the installed one.
pub fn latest_version_style(installed: &VersionState, latest: &VersionState) -> (r: Style)
    ensures
        r == latest_look(*installed, *latest),
{
    if matches!(installed, VersionState::Available(_)) && matches!(
        latest,
        VersionState::Available(_)
    ) {
        if versions_equal(installed, latest) {
            Style::with_fg(Color::Success)
        } else {
            Style::with_fg(Color::Warning)
        }
    } else {
        latest.style()
    }
}

/// What the tool list says of the latest version.
pub open spec fn latest_text(state: VersionState, language: Language) -> Seq<char> {
    match state {
        VersionState::Failed(error) => match error.kind {
            LatestVersionErrorKind::RateLimited => language.pick("rate limited"@, "已限流"@),
            LatestVersionErrorKind::Authentication => language.pick("auth failed"@, "认证失败"@),
            LatestVersionErrorKind::NotFound => language.pick("not found"@, "未找到"@),
            LatestVersionErrorKind::RequestFailed | LatestVersionErrorKind::InvalidResponse =>
                language.pick("fetch failed"@, "获取失败"@),
        },
        _ => state.name(),
    }
}

/// What the tool list says of the latest version.
pub fn latest_version_label(state: &VersionState, language: Language) -> (r: String)
    ensures
        r@ == latest_text(*state, language),
{
    match state {
        VersionState::Failed(error) => match error.kind {
            LatestVersionErrorKind::RateLimited => language.text("rate limited", "已限流"),
            LatestVersionErrorKind::Authentication => language.text("auth failed", "认证失败"),
            LatestVersionErrorKind::NotFound => language.text("not found", "未找到"),
            LatestVersionErrorKind::RequestFailed | LatestVersionErrorKind::InvalidResponse =>
                language.text("fetch failed", "获取失败"),
        }.to_owned(),
        _ => state.label().to_owned(),
    }
}

/// What is said where the latest version of `name` could not be had.
pub open spec fn latest_error_text(
    name: Seq<char>,
    kind: LatestVersionErrorKind,
    detail: Seq<char>,
    language: Language,
) -> Seq<char> {
    match (kind, language) {
        (LatestVersionErrorKind::RateLimited, Language::English) => "Latest-version check for "@
            + name
            + " was rate-limited; wait for quota reset or verify the GitHub Token ("@ + detail
            + ")"@,
        (LatestVersionErrorKind::RateLimited, Language::Chinese) => name
            + " 的最新版本检查已被限流；请等待配额重置或检查 GitHub Token（"@ + detail + "）"@,
        (LatestVersionErrorKind::Authentication, Language::English) =>
            "Latest-version authentication failed for "@ + name
                + "; replace the GitHub Token ("@ + detail + ")"@,
        (LatestVersionErrorKind::Authentication, Language::Chinese) => name
            + " 的最新版本认证失败；请重新配置 GitHub Token（"@ + detail + "）"@,
        (LatestVersionErrorKind::NotFound, Language::English) => "Latest version for "@ + name
            + " was not found; check its repository or Release configuration ("@ + detail + ")"@,
        (LatestVersionErrorKind::NotFound, Language::Chinese) => "未找到 "@ + name
            + " 的最新版本；请检查仓库或 Release 配置（"@ + detail + "）"@,
        (_, Language::English) => "Could not fetch the latest version for "@ + name
            + "; check network/proxy settings and press r to retry ("@ + detail + ")"@,
        (_, Language::Chinese) => "无法获取 "@ + name
            + " 的最新版本；请检查网络/代理设置并按 r 重试（"@ + detail + "）"@,
    }
}

/// What is said where the latest version of `name` could not be had.
pub fn latest_version_error_message(
    name: &str,
    error: &LatestVersionError,
    language: Language,
) -> (r: String)
    ensures
        r@ == latest_error_text(name@, error.kind, error.detail@, language),
{
    let detail = error.detail();
    match (error.kind, language) {
        (LatestVersionErrorKind::RateLimited, Language::English) => join5(
            "Latest-version check for ",
            name,
            " was rate-limited; wait for quota reset or verify the GitHub Token (",
            detail,
            ")",
        ),
        (LatestVersionErrorKind::RateLimited, Language::Chinese) => join4(
            name,
            " 的最新版本检查已被限流；请等待配额重置或检查 GitHub Token（",
            detail,
            "）",
        ),
        (LatestVersionErrorKind::Authentication, Language::English) => join5(
            "Latest-version authentication failed for ",
            name,
            "; replace the GitHub Token (",
            detail,
            ")",
        ),
        (LatestVersionErrorKind::Authentication, Language::Chinese) => join4(
            name,
            " 的最新版本认证失败；请重新配置 GitHub Token（",
            detail,
            "）",
        ),
        (LatestVersionErrorKind::NotFound, Language::English) => join5(
            "Latest version for ",
            name,
            " was not found; check its repository or Release configuration (",
            detail,
            ")",
        ),
        (LatestVersionErrorKind::NotFound, Language::Chinese) => join5(
            "未找到 ",
            name,
            " 的最新版本；请检查仓库或 Release 配置（",
            detail,
            "）",
        ),
        (_, Language::English) => join5(
            "Could not fetch the latest version for ",
            name,
            "; check network/proxy settings and press r to retry (",
            detail,
            ")",
        ),
        (_, Language::Chinese) => join5(
            "无法获取 ",
            name,
            " 的最新版本；请检查网络/代理设置并按 r 重试（",
            detail,
            "）",
        ),
    }
}

/// Who defined a tool.
#[derive(Clone, Copy, Debug, PartialEq, Eq, Structural)]
pub enum ToolKind {
    BuiltIn,
    Custom,
}

impl ToolKind {
    pub open spec fn name(self, language: Language) -> Seq<char> {
        match self {
            ToolKind::BuiltIn => language.pick("built-in"@, "内置"@),
            ToolKind::Custom => language.pick("custom"@, "自定义"@),
        }
    }

    /// What the tool list calls it.
    pub fn label(self, language: Language) -> (r: &'static str)
        ensures
            r@ == self.name(language),
    {
        match self {
            ToolKind::BuiltIn => language.text("built-in", "内置"),
            ToolKind::Custom => language.text("custom", "自定义"),
        }
    }
}

/// The views of the interface.
#[derive(Clone, Copy, Debug, PartialEq, Eq, Structural)]
pub enum Tab {
    Tools,
    Activity,
    Jobs,
    Doctor,
    Settings,
}

impl Tab {
    /// Position of the tab in the row of tabs.
    pub open spec fn position(self) -> int {
        match self {
            Tab::Tools => 0,
            Tab::Activity => 1,
            Tab::Jobs => 2,
            Tab::Doctor => 3,
            Tab::Settings => 4,
        }
    }

    /// The tab at a position.
    pub open spec fn at(position: int) -> Option<Tab> {
        if position == 0 {
            Some(Tab::Tools)
        } else if position == 1 {
            Some(Tab::Activity)
        } else if position == 2 {
            Some(Tab::Jobs)
        } else if position == 3 {
            Some(Tab::Doctor)
        } else if position == 4 {
            Some(Tab::Settings)
        } else {
            None
        }
    }

    /// The tab to the right, going round.
    pub fn next(self) -> (r: Tab)
        ensures
            Some(r) == Tab::at((self.position() + 1) % 5),
    {
        match self {
            Tab::Tools => Tab::Activity,
            Tab::Activity => Tab::Jobs,
            Tab::Jobs => Tab::Doctor,
            Tab::Doctor => Tab::Settings,
            Tab::Settings => Tab::Tools,
        }
    }

    /// The tab to the left, going round.
    pub fn previous(self) -> (r: Tab)
        ensures
            Some(r) == Tab::at((self.position() + 4) % 5),
    {
        match self {
            Tab::Tools => Tab::Settings,
            Tab::Activity => Tab::Tools,
            Tab::Jobs => Tab::Activity,
            Tab::Doctor => Tab::Jobs,
            Tab::Settings => Tab::Doctor,
        }
    }

    pub fn index(self) -> (r: usize)
        ensures
            r == self.position(),
    {
        match self {
            Tab::Tools => 0,
            Tab::Activity => 1,
            Tab::Jobs => 2,
            Tab::Doctor => 3,
            Tab::Settings => 4,
        }
    }

    pub fn from_index(index: usize) -> (r: Option<Tab>)
        ensures
            r == Tab::at(index as int),
    {
        match index {
            0 => Some(Tab::Tools),
            1 => Some(Tab::Activity),
            2 => Some(Tab::Jobs),
            3 => Some(Tab::Doctor),
            4 => Some(Tab::Settings),
            _ => None,
        }
    }
}

/// A tab is found again at its position, and going one way and back leads to
/// the tab where one was.
pub proof fn law_tabs_go_round(tab: Tab)
    ensures
        Tab::at(tab.position()) == Some(tab),
        ({
            let right = Tab::at((tab.position() + 1) % 5);
            let left = Tab::at((tab.position() + 4) % 5);
            &&& right is Some && Tab::at((right->0.position() + 4) % 5) == Some(tab)
            &&& left is Some && Tab::at((left->0.position() + 1) % 5) == Some(tab)
        }),
{
}

/// The two lists of the tools tab.
#[derive(Clone, Copy, Debug, PartialEq, Eq, Structural)]
pub enum ToolView {
    Commands,
    Github,
}

impl ToolView {
    pub open spec fn other(self) -> ToolView {
        match self {
            ToolView::Commands => ToolView::Github,
            ToolView::Github => ToolView::Commands,
        }
    }

    pub fn toggle(self) -> (r: ToolView)
        ensures
            r == self.other(),
    {
        match self {
            ToolView::Commands => ToolView::Github,
            ToolView::Github => ToolView::Commands,
        }
    }

    pub fn index(self) -> (r: usize)
        ensures
            r == if self == ToolView::Commands {
                0int
            } else {
                1
            },
    {
        match self {
            ToolView::Commands => 0,
            ToolView::Github => 1,
        }
    }
}

/// What is done about processes that stand in the way of an update.
#[derive(Clone, Copy, Debug, PartialEq, Eq, Structural)]
pub enum ProcessStrategy {
    Wait,
    Terminate,
}

impl ProcessStrategy {
    pub open spec fn other(self) -> ProcessStrategy {
        match self {
            ProcessStrategy::Wait => ProcessStrategy::Terminate,
            ProcessStrategy::Terminate => ProcessStrategy::Wait,
        }
    }

    pub fn toggle(self) -> (r: ProcessStrategy)
        ensures
            r == self.other(),
    {
        match self {
            ProcessStrategy::Wait => ProcessStrategy::Terminate,
            ProcessStrategy::Terminate => ProcessStrategy::Wait,
        }
    }

    pub fn terminates(self) -> (r: bool)
        ensures
            r == (self == ProcessStrategy::Terminate),
    {
        matches!(self, ProcessStrategy::Terminate)
    }

    pub open spec fn name(self, language: Language) -> Seq<char> {
        match self {
            ProcessStrategy::Wait => language.pick("WAIT"@, "等待"@),
            ProcessStrategy::Terminate => language.pick("TERMINATE"@, "终止"@),
        }
    }

    /// What the interface calls it.
    pub fn label(self, language: Language) -> (r: &'static str)
        ensures
            r@ == self.name(language),
    {
        match self {
            ProcessStrategy::Wait => language.text("WAIT", "等待"),
            ProcessStrategy::Terminate => language.text("TERMINATE", "终止"),
        }
    }

    pub open spec fn look(self) -> Style {
        match self {
            ProcessStrategy::Wait => Style::of(Some(Color::Warning), None),
            ProcessStrategy::Terminate => Style::of(Some(Color::Error), None).heavy(),
        }
    }

    /// How it says so.
    pub fn style(self) -> (r: Style)
        ensures
            r == self.look(),
    {
        match self {
            ProcessStrategy::Wait => Style::with_fg(Color::Warning),
            ProcessStrategy::Terminate => Style::with_fg(Color::Error).bold(),
        }
    }
}

/// Switching twice changes nothing, for the list of tools and for the policy.
pub proof fn law_toggles_switch_back(view: ToolView, strategy: ProcessStrategy)
    ensures
        view.other() != view,
        view.other().other() == view,
        strategy.other() != strategy,
        strategy.other().other() == strategy,
{
}

impl Language {
    pub open spec fn status_name(self, status: JobStatus) -> Seq<char> {
        match status {
            JobStatus::Pending => self.pick("pending"@, "等待执行"@),
            JobStatus::WaitingForLocks { .. } => self.pick("waiting_for_locks"@, "等待进程退出"@),
            JobStatus::TerminatingProcesses { .. } => self.pick(
                "terminating_processes"@,
                "正在终止进程"@,
            ),
            JobStatus::Running { .. } => self.pick("running"@, "运行中"@),
            JobStatus::Succeeded { warned, .. } => if warned {
                self.pick("succeeded (warned)"@, "成功（有告警）"@)
            } else {
                self.pick("succeeded"@, "成功"@)
            },
            JobStatus::Failed { .. } => self.pick("failed"@, "失败"@),
        }
    }

    /// What the list of jobs says of a job.
    pub fn job_status(self, status: &JobStatus) -> (r: &'static str)
        ensures
            r@ == self.status_name(*status),
    {
        match status {
            JobStatus::Pending => self.text("pending", "等待执行"),
            JobStatus::WaitingForLocks { .. } => self.text("waiting_for_locks", "等待进程退出"),
            JobStatus::TerminatingProcesses { .. } => self.text(
                "terminating_processes",
                "正在终止进程",
            ),
            JobStatus::Running { .. } => self.text("running", "运行中"),
            JobStatus::Succeeded { warned, .. } => if *warned {
                self.text("succeeded (warned)", "成功（有告警）")
            } else {
                self.text("succeeded", "成功")
            },
            JobStatus::Failed { .. } => self.text("failed", "失败"),
        }
    }
}

/// What is done to a tool in the background.
#[derive(Clone, Copy, Debug, PartialEq, Eq, Structural)]
pub enum Operation {
    Update,
    Add,
    Edit,
    Delete,
    Uninstall,
}

impl Operation {
    /// Whether it may be put in line behind what uses the tool.
    pub open spec fn may_wait(self) -> bool {
        self is Update || self is Uninstall
    }

    pub fn can_wait(self) -> (r: bool)
        ensures
            r == self.may_wait(),
    {
        matches!(self, Operation::Update | Operation::Uninstall)
    }

    pub open spec fn name(self, language: Language) -> Seq<char> {
        match self {
            Operation::Update => language.pick("update"@, "更新"@),
            Operation::Add => language.pick("save"@, "保存"@),
            Operation::Edit => language.pick("edit"@, "编辑"@),
            Operation::Delete => language.pick("remove"@, "删除"@),
            Operation::Uninstall => language.pick("uninstall"@, "卸载"@),
        }
    }

    /// What the activity log calls it.
    pub fn label(self, language: Language) -> (r: &'static str)
        ensures
            r@ == self.name(language),
    {
        match self {
            Operation::Update => language.text("update", "更新"),
            Operation::Add => language.text("save", "保存"),
            Operation::Edit => language.text("edit", "编辑"),
            Operation::Delete => language.text("remove", "删除"),
            Operation::Uninstall => language.text("uninstall", "卸载"),
        }
    }
}

/// What is said when an operation on `name` has ended after `elapsed` seconds.
pub open spec fn completion_text(
    operation: Operation,
    name: Seq<char>,
    success: bool,
    elapsed: Seq<char>,
    running: nat,
    language: Language,
) -> Seq<char> {
    match (operation, success, language) {
        (Operation::Add, true, Language::English) => "Added "@ + name + "; it has not been run. Press Enter to update it"@,
        (Operation::Add, true, Language::Chinese) => "已添加 "@ + name + "，尚未执行；按 Enter 可更新"@,
        (Operation::Edit, true, Language::English) => "Updated "@ + name + "; the command has not been run"@,
        (Operation::Edit, true, Language::Chinese) => "已更新 "@ + name + " 的命令，尚未执行"@,
        (Operation::Delete, true, Language::English) => "Removed "@ + name,
        (Operation::Delete, true, Language::Chinese) => "已删除 "@ + name,
        (Operation::Uninstall, true, Language::English) => "Uninstalled "@ + name + "; its declaration is kept"@,
        (Operation::Uninstall, true, Language::Chinese) => "已卸载 "@ + name + "；声明已保留"@,
        (Operation::Add, false, Language::English) => "Could not add "@ + name + "; open Activity to view the error"@,
        (Operation::Add, false, Language::Chinese) => "无法添加 "@ + name + "；请在活动页查看错误"@,
        (Operation::Edit, false, Language::English) => "Could not edit "@ + name + "; open Activity to view the error"@,
        (Operation::Edit, false, Language::Chinese) => "无法编辑 "@ + name + "；请在活动页查看错误"@,
        (Operation::Delete, false, Language::English) => "Could not remove "@ + name + "; open Activity to view the error"@,
        (Operation::Delete, false, Language::Chinese) => "无法删除 "@ + name + "；请在活动页查看错误"@,
        (Operation::Uninstall, false, Language::English) => "Could not uninstall "@ + name + "; open Activity to view the error"@,
        (Operation::Uninstall, false, Language::Chinese) => "无法卸载 "@ + name + "；请在活动页查看错误"@,
        (Operation::Update, _, Language::English) => name + " "@ + (if success {
            "finished"@
        } else {
            "failed"@
        }) + " in "@ + elapsed + "s. "@ + decimal_text(running) + " operation(s) still running."@,
        (Operation::Update, _, Language::Chinese) => name + " "@ + (if success {
            "已完成"@
        } else {
            "失败"@
        }) + "，耗时 "@ + elapsed + " 秒；仍有 "@ + decimal_text(running) + " 项操作在运行。"@,
    }
}

impl Operation {
    /// What is said when the operation on `name` has ended; `elapsed` is how
    /// long it took, in seconds with one decimal.
    pub fn completion_message(
        self,
        name: &str,
        success: bool,
        elapsed: &str,
        running: usize,
        language: Language,
    ) -> (r: String)
        ensures
            r@ == completion_text(self, name@, success, elapsed@, running as nat, language),
    {
        match (self, success, language) {
            (Operation::Add, true, Language::English) => join3("Added ", name, "; it has not been run. Press Enter to update it"),
            (Operation::Add, true, Language::Chinese) => join3("已添加 ", name, "，尚未执行；按 Enter 可更新"),
            (Operation::Edit, true, Language::English) => join3("Updated ", name, "; the command has not been run"),
            (Operation::Edit, true, Language::Chinese) => join3("已更新 ", name, " 的命令，尚未执行"),
            (Operation::Delete, true, Language::English) => join2("Removed ", name),
            (Operation::Delete, true, Language::Chinese) => join2("已删除 ", name),
            (Operation::Uninstall, true, Language::English) => join3("Uninstalled ", name, "; its declaration is kept"),
            (Operation::Uninstall, true, Language::Chinese) => join3("已卸载 ", name, "；声明已保留"),
            (Operation::Add, false, Language::English) => join3("Could not add ", name, "; open Activity to view the error"),
            (Operation::Add, false, Language::Chinese) => join3("无法添加 ", name, "；请在活动页查看错误"),
            (Operation::Edit, false, Language::English) => join3("Could not edit ", name, "; open Activity to view the error"),
            (Operation::Edit, false, Language::Chinese) => join3("无法编辑 ", name, "；请在活动页查看错误"),
            (Operation::Delete, false, Language::English) => join3("Could not remove ", name, "; open Activity to view the error"),
            (Operation::Delete, false, Language::Chinese) => join3("无法删除 ", name, "；请在活动页查看错误"),
            (Operation::Uninstall, false, Language::English) => join3("Could not uninstall ", name, "; open Activity to view the error"),
            (Operation::Uninstall, false, Language::Chinese) => join3("无法卸载 ", name, "；请在活动页查看错误"),
            (Operation::Update, _, Language::English) => join8(
                name,
                " ",
                if success {
                    "finished"
                } else {
                    "failed"
                },
                " in ",
                elapsed,
                "s. ",
                count_text(running).as_str(),
                " operation(s) still running.",
            ),
            (Operation::Update, _, Language::Chinese) => join8(
                name,
                " ",
                if success {
                    "已完成"
                } else {
                    "失败"
                },
                "，耗时 ",
                elapsed,
                " 秒；仍有 ",
                count_text(running).as_str(),
                " 项操作在运行。",
            ),
        }
    }
}

/// What is loaded at the start.
#[derive(Clone, Copy, Debug, PartialEq, Eq, Structural)]
pub enum InitialLoadPhase {
    Configuration,
    Tools,
    Jobs,
}

/// How far loading at the start has come.
#[derive(Clone, Copy, Debug, PartialEq, Eq, Structural)]
pub struct InitialLoadProgress {
    pub phase: InitialLoadPhase,
    pub completed: usize,
    pub total: usize,
}

impl InitialLoadProgress {
    /// How far loading has come, in percent. The product is cut off at the
    /// largest `usize`.
    pub open spec fn percent(self) -> int {
        let hundredfold = if self.completed * 100 > usize::MAX {
            usize::MAX as int
        } else {
            self.completed * 100
        };
        if self.total == 0 {
            0
        } else if hundredfold / self.total as int > 100 {
            100
        } else {
            hundredfold / self.total as int
        }
    }

    pub fn percentage(self) -> (r: u16)
        ensures
            r == self.percent(),
            r <= 100,
    {
        if self.total == 0 {
            return 0;
        }
        let product: u128 = self.completed as u128 * 100;
        let hundredfold: usize = if product > usize::MAX as u128 {
            usize::MAX
        } else {
            product as usize
        };
        let share: usize = hundredfold / self.total;
        if share > 100 {
            100
        } else {
            share as u16
        }
    }

    pub open spec fn name(self, language: Language) -> Seq<char> {
        match self.phase {
            InitialLoadPhase::Configuration => language.pick(
                "Loading configuration"@,
                "正在加载配置"@,
            ),
            InitialLoadPhase::Tools => language.pick(
                "Checking installed tools"@,
                "正在检查已安装工具"@,
            ),
            InitialLoadPhase::Jobs => language.pick("Loading job history"@, "正在加载任务历史"@),
        }
    }

    pub fn label(self, language: Language) -> (r: &'static str)
        ensures
            r@ == self.name(language),
    {
        match self.phase {
            InitialLoadPhase::Configuration => language.text(
                "Loading configuration",
                "正在加载配置",
            ),
            InitialLoadPhase::Tools => language.text(
                "Checking installed tools",
                "正在检查已安装工具",
            ),
            InitialLoadPhase::Jobs => language.text("Loading job history", "正在加载任务历史"),
        }
    }
}

} // verus!
