//! The lists of tools, repositories, jobs and diagnoses, as they are drawn.

use crate::language::Language;
use crate::number::{count_text, decimal_text};
use crate::search::texts;
use crate::text::{join3, same};
use crate::tui::app::{App, AppView};
use crate::tui::content::{
    LineView, StyledLine, blank_line, lemma_no_pieces, line_views, push_line, styled,
};
use crate::tui::doctor::DoctorView;
use crate::tui::geometry::{ListViewport, Rect, at_most, capped, last_offset};
use crate::tui::github::GithubView;
use crate::tui::jobs::JobsView;
use crate::tui::labels::{latest_look, latest_text, latest_version_label, latest_version_style};
use crate::tui::modal::{Hitboxes, holds_text};
use crate::tui::model::{
    ExecutableDiagnosis, GithubReleaseMonitor, JobItem, MonitorStatus, ToolDiagnosis, ToolItem,
    doctor_status, format_run_result, github_monitor_result, monitor_result, policy_name,
    release_update_policy_label, run_result, shown_diagnoses, status_named, status_position,
    verdict, visible_diagnoses,
};
use crate::tui::style::Style;
use crate::tui::tools::ToolsView;
use vstd::prelude::*;
use vstd::string::*;

verus! {

/// The heads of the columns of the tools.
pub open spec fn tool_columns(language: Language) -> Seq<&'static str> {
    match language {
        Language::English => seq![
            "",
            "TOOL",
            "AVAILABLE",
            "INSTALLED",
            "LATEST",
            "RESULT",
            "TYPE",
            "COMMAND",
        ],
        Language::Chinese => seq![
            "",
            "工具",
            "可用性",
            "已安装版本",
            "最新版本",
            "结果",
            "类型",
            "命令",
        ],
    }
}

/// The heads of the columns of the tools.
pub fn tool_header(language: Language) -> (r: Vec<&'static str>)
    ensures
        r@ == tool_columns(language),
{
    match language {
        Language::English => vec![
            "",
            "TOOL",
            "AVAILABLE",
            "INSTALLED",
            "LATEST",
            "RESULT",
            "TYPE",
            "COMMAND",
        ],
        Language::Chinese => vec![
            "",
            "工具",
            "可用性",
            "已安装版本",
            "最新版本",
            "结果",
            "类型",
            "命令",
        ],
    }
}

/// The heads of the columns of the repositories.
pub open spec fn monitor_columns(language: Language) -> Seq<&'static str> {
    match language {
        Language::English => seq![
            "",
            "TOOL",
            "REPOSITORY",
            "INSTALLED",
            "LATEST",
            "STATUS",
            "POLICY",
            "TARGET",
        ],
        Language::Chinese => seq![
            "",
            "工具",
            "仓库",
            "已安装版本",
            "最新版本",
            "状态",
            "策略",
            "目标目录",
        ],
    }
}

/// The heads of the columns of the repositories.
pub fn monitor_header(language: Language) -> (r: Vec<&'static str>)
    ensures
        r@ == monitor_columns(language),
{
    match language {
        Language::English => vec![
            "",
            "TOOL",
            "REPOSITORY",
            "INSTALLED",
            "LATEST",
            "STATUS",
            "POLICY",
            "TARGET",
        ],
        Language::Chinese => vec![
            "",
            "工具",
            "仓库",
            "已安装版本",
            "最新版本",
            "状态",
            "策略",
            "目标目录",
        ],
    }
}

/// The heads of the columns of the jobs.
pub open spec fn job_columns(language: Language) -> Seq<&'static str> {
    match language {
        Language::English => seq!["TOOL", "STATUS", "UPDATED", "JOB"],
        Language::Chinese => seq!["工具", "状态", "更新时间", "任务"],
    }
}

/// The heads of the columns of the jobs.
pub fn job_header(language: Language) -> (r: Vec<&'static str>)
    ensures
        r@ == job_columns(language),
{
    match language {
        Language::English => vec!["TOOL", "STATUS", "UPDATED", "JOB"],
        Language::Chinese => vec!["工具", "状态", "更新时间", "任务"],
    }
}

/// The heads of the columns of the diagnoses.
pub open spec fn doctor_columns(language: Language) -> Seq<&'static str> {
    match language {
        Language::English => seq!["TOOL", "STATUS", "ACTIVE", "VERSION", "COPIES", "UPDATER"],
        Language::Chinese => seq!["工具", "状态", "当前生效", "版本", "安装数", "更新器"],
    }
}

/// The heads of the columns of the diagnoses.
pub fn doctor_header(language: Language) -> (r: Vec<&'static str>)
    ensures
        r@ == doctor_columns(language),
{
    match language {
        Language::English => vec!["TOOL", "STATUS", "ACTIVE", "VERSION", "COPIES", "UPDATER"],
        Language::Chinese => vec!["工具", "状态", "当前生效", "版本", "安装数", "更新器"],
    }
}

/// The box before something that can be selected.
pub open spec fn check_box(selected: bool) -> Seq<char> {
    if selected {
        "[x]"@
    } else {
        "[ ]"@
    }
}

/// The box before something that can be selected.
pub fn check_mark(selected: bool) -> (r: &'static str)
    ensures
        r@ == check_box(selected),
{
    if selected {
        "[x]"
    } else {
        "[ ]"
    }
}

/// The mark before something that can be unfolded.
pub open spec fn fold_sign(unfolded: bool) -> Seq<char> {
    if unfolded {
        "▾"@
    } else {
        "▸"@
    }
}

/// The mark before something that can be unfolded.
pub fn fold_mark(unfolded: bool) -> (r: &'static str)
    ensures
        r@ == fold_sign(unfolded),
{
    if unfolded {
        "▾"
    } else {
        "▸"
    }
}

/// A text that may be missing, as a list shows it.
pub open spec fn or_dash(text: Option<String>) -> Seq<char> {
    match text {
        Some(t) => t@,
        None => "—"@,
    }
}

/// A text that may be missing, as a list shows it.
pub fn text_or_dash(text: &Option<String>) -> (r: &str)
    ensures
        r@ == or_dash(*text),
{
    match text {
        Some(t) => t.as_str(),
        None => "—",
    }
}

/// The cells of a tool.
pub open spec fn tool_cells(tool: ToolItem, frame: u64, language: Language) -> LineView {
    LineView::of(
        seq![
            styled(check_box(tool.selected), Style::of(None, None)),
            styled(tool.name@, Style::of(None, None)),
            styled(tool.availability.name(language), tool.availability.look()),
            styled(tool.version.name(), tool.version.look()),
            styled(
                latest_text(tool.latest_version, language),
                latest_look(tool.version, tool.latest_version),
            ),
            styled(run_result(tool, frame, language), tool.run_state.look()),
            styled(tool.kind.name(language), Style::of(None, None)),
            styled(tool.command@, Style::of(None, None)),
        ],
    )
}

/// The cells of a tool.
pub fn tool_row(tool: &ToolItem, frame: u64, language: Language) -> (r: StyledLine)
    ensures
        r@ == tool_cells(*tool, frame, language),
{
    let mut line = blank_line();
    line.put(check_mark(tool.selected), Style::plain());
    line.put(tool.name.as_str(), Style::plain());
    line.put(tool.availability.label(language), tool.availability.style());
    line.put(tool.version.label(), tool.version.style());
    line.put(
        latest_version_label(&tool.latest_version, language).as_str(),
        latest_version_style(&tool.version, &tool.latest_version),
    );
    line.put(format_run_result(tool, frame, language).as_str(), tool.run_state.style());
    line.put(tool.kind.label(language), Style::plain());
    line.put(tool.command.as_str(), Style::plain());
    line
}

/// The status of the repository of that name.
pub open spec fn status_of(statuses: Seq<MonitorStatus>, name: Seq<char>) -> Option<MonitorStatus> {
    match status_named(statuses, name) {
        Some(i) => Some(statuses[i]),
        None => None,
    }
}

/// The newest release of a repository, as the list shows it.
pub open spec fn latest_release(
    monitor: GithubReleaseMonitor,
    status: Option<MonitorStatus>,
    probing: bool,
    language: Language,
) -> Seq<char> {
    if !monitor.enabled {
        language.pick("disabled"@, "已停用"@)
    } else if probing {
        language.pick("checking…"@, "检查中…"@)
    } else {
        match status {
            Some(s) => or_dash(s.latest_tag),
            None => "—"@,
        }
    }
}

/// The installed release of a repository, as the list shows it.
pub open spec fn installed_release(status: Option<MonitorStatus>) -> Seq<char> {
    match status {
        Some(s) => or_dash(s.installed_tag),
        None => "—"@,
    }
}

/// The cells of a repository.
pub open spec fn monitor_cells(
    monitor: GithubReleaseMonitor,
    selected: bool,
    status: Option<MonitorStatus>,
    probing: bool,
    language: Language,
) -> LineView {
    LineView::of(
        seq![
            styled(check_box(selected), Style::of(None, None)),
            styled(monitor.name@, Style::of(None, None)),
            styled(monitor.repository@, Style::of(None, None)),
            styled(installed_release(status), Style::of(None, None)),
            styled(latest_release(monitor, status, probing, language), Style::of(None, None)),
            styled(
                monitor_result(monitor, status, language).0,
                monitor_result(monitor, status, language).1,
            ),
            styled(policy_name(monitor.update_policy, language), Style::of(None, None)),
            styled(monitor.target_directory@, Style::of(None, None)),
        ],
    )
}

/// The cells of a repository.
pub fn monitor_row(
    monitor: &GithubReleaseMonitor,
    selected: bool,
    status: Option<&MonitorStatus>,
    probing: bool,
    language: Language,
) -> (r: StyledLine)
    ensures
        r@ == monitor_cells(*monitor, selected, match status {
                Some(s) => Some(*s),
                None => None,
            }, probing, language),
{
    let installed = match status {
        Some(s) => text_or_dash(&s.installed_tag),
        None => "—",
    };
    let latest = if !monitor.enabled {
        language.text("disabled", "已停用")
    } else if probing {
        language.text("checking…", "检查中…")
    } else {
        match status {
            Some(s) => text_or_dash(&s.latest_tag),
            None => "—",
        }
    };
    let (result, result_style) = github_monitor_result(monitor, status, language);
    let mut line = blank_line();
    line.put(check_mark(selected), Style::plain());
    line.put(monitor.name.as_str(), Style::plain());
    line.put(monitor.repository.as_str(), Style::plain());
    line.put(installed, Style::plain());
    line.put(latest, Style::plain());
    line.put(result.as_str(), result_style);
    line.put(release_update_policy_label(monitor.update_policy, language), Style::plain());
    line.put(monitor.target_directory.as_str(), Style::plain());
    line
}

/// The cells of a job; `updated` is the time of its last change.
pub open spec fn job_cells(
    job: JobItem,
    unfolded: bool,
    updated: Seq<char>,
    language: Language,
) -> LineView {
    LineView::of(
        seq![
            styled(fold_sign(unfolded) + " "@ + job.name@, Style::of(None, None)),
            styled(language.status_name(job.status), Style::of(None, None)),
            styled(updated, Style::of(None, None)),
            styled(job.id@, Style::of(None, None)),
        ],
    )
}

/// The cells of a job; `updated` is the time of its last change.
pub fn job_row(job: &JobItem, unfolded: bool, updated: &str, language: Language) -> (r: StyledLine)
    ensures
        r@ == job_cells(*job, unfolded, updated@, language),
{
    let mut line = blank_line();
    line.put(join3(fold_mark(unfolded), " ", job.name.as_str()).as_str(), Style::plain());
    line.put(language.job_status(&job.status), Style::plain());
    line.put(updated, Style::plain());
    line.put(job.id.as_str(), Style::plain());
    line
}

/// The executable that wins in the search path, as the list shows it.
pub open spec fn active_path(executable: ExecutableDiagnosis) -> Seq<char> {
    if executable.candidates@.len() > 0 {
        executable.candidates@[0].path@
    } else {
        "—"@
    }
}

/// The version of the executable that wins, as the list shows it.
pub open spec fn active_version(executable: ExecutableDiagnosis) -> Seq<char> {
    if executable.candidates@.len() > 0 {
        or_dash(executable.candidates@[0].version)
    } else {
        "—"@
    }
}

/// What updates a tool, as the list shows it.
pub open spec fn updater_name(diagnosis: ToolDiagnosis) -> Seq<char> {
    match diagnosis.updater {
        Some(updater) => updater.program@,
        None => "—"@,
    }
}

/// The cells of a diagnosis.
pub open spec fn doctor_cells(
    diagnosis: ToolDiagnosis,
    unfolded: bool,
    language: Language,
) -> LineView {
    LineView::of(
        seq![
            styled(fold_sign(unfolded) + " "@ + diagnosis.name@, Style::of(None, None)),
            styled(verdict(diagnosis).name(language), verdict(diagnosis).look()),
            styled(active_path(diagnosis.target), Style::of(None, None)),
            styled(active_version(diagnosis.target), Style::of(None, None)),
            styled(decimal_text(diagnosis.target.candidates@.len()), Style::of(None, None)),
            styled(updater_name(diagnosis), Style::of(None, None)),
        ],
    )
}

/// The cells of a diagnosis.
pub fn doctor_row(diagnosis: &ToolDiagnosis, unfolded: bool, language: Language) -> (r: StyledLine)
    ensures
        r@ == doctor_cells(*diagnosis, unfolded, language),
{
    let status = doctor_status(diagnosis);
    let active = if diagnosis.target.candidates.len() > 0 {
        diagnosis.target.candidates[0].path.as_str()
    } else {
        "—"
    };
    let version = if diagnosis.target.candidates.len() > 0 {
        text_or_dash(&diagnosis.target.candidates[0].version)
    } else {
        "—"
    };
    let updater = match &diagnosis.updater {
        Some(updater) => updater.program.as_str(),
        None => "—",
    };
    let mut line = blank_line();
    line.put(join3(fold_mark(unfolded), " ", diagnosis.name.as_str()).as_str(), Style::plain());
    line.put(status.label(language), status.style());
    line.put(active, Style::plain());
    line.put(version, Style::plain());
    line.put(count_text(diagnosis.target.candidates.len()).as_str(), Style::plain());
    line.put(updater, Style::plain());
    line
}

impl AppView {
    /// The rows of the list of the tools.
    pub open spec fn tool_rows(self) -> Seq<LineView> {
        Seq::new(
            self.tools.visible.len(),
            |i: int| tool_cells(
                self.tools.items[self.tools.visible[i] as int],
                self.frame,
                self.language,
            ),
        )
    }

    /// The rows of the list of the repositories.
    pub open spec fn monitor_rows(self) -> Seq<LineView> {
        Seq::new(
            self.github.monitors.len(),
            |i: int| {
                let monitor = self.github.monitors[i];
                monitor_cells(
                    monitor,
                    self.github.selected.contains(monitor.name@),
                    status_of(self.github.statuses, monitor.name@),
                    self.github.probe_running,
                    self.language,
                )
            },
        )
    }

    /// Whether the log of a job is unfolded.
    pub open spec fn job_unfolded(self, job: JobItem) -> bool {
        self.jobs.expanded matches Some(id) && id@ == job.id@
    }

    /// The rows of the list of the jobs, with the times of their last changes.
    pub open spec fn job_rows(self, updated: Seq<Seq<char>>) -> Seq<LineView> {
        Seq::new(
            self.jobs.items.len(),
            |i: int| {
                let job = self.jobs.items[i];
                job_cells(job, self.job_unfolded(job), updated[i], self.language)
            },
        )
    }

    /// Whether a diagnosis is unfolded.
    pub open spec fn diagnosis_unfolded(self, diagnosis: ToolDiagnosis) -> bool {
        self.doctor.expanded matches Some(name) && name@ == diagnosis.name@
    }

    /// The rows of the list of the diagnoses.
    pub open spec fn doctor_rows(self) -> Seq<LineView> {
        let shown = shown_diagnoses(self.doctor.diagnoses, self.hides());
        Seq::new(
            shown.len(),
            |i: int| {
                let diagnosis = self.doctor.diagnoses[shown[i]];
                doctor_cells(diagnosis, self.diagnosis_unfolded(diagnosis), self.language)
            },
        )
    }
}

/// The rows of the list of the tools.
pub fn tool_rows(app: &App) -> (r: Vec<StyledLine>)
    requires
        app.wf(),
    ensures
        line_views(r@) == app@.tool_rows(),
{
    let mut rows: Vec<StyledLine> = Vec::new();
    let ghost all = app@.tool_rows();
    proof {
        lemma_no_pieces();
        assert(all.take(0) =~= Seq::<LineView>::empty());
    }
    let mut i: usize = 0;
    while i < app.tools.visible.len()
        invariant
            app.wf(),
            i <= app.tools.visible.len(),
            all == app@.tool_rows(),
            all.len() == app.tools.visible.len(),
            line_views(rows@) == all.take(i as int),
        decreases app.tools.visible.len() - i,
    {
        let row = tool_row(&app.tools.items[app.tools.visible[i]], app.frame, app.language);
        assert(all.take(i + 1) =~= all.take(i as int).push(all[i as int]));
        push_line(&mut rows, row);
        i += 1;
    }
    assert(all.take(i as int) =~= all);
    rows
}

/// The rows of the list of the repositories.
pub fn monitor_rows(app: &App) -> (r: Vec<StyledLine>)
    ensures
        line_views(r@) == app@.monitor_rows(),
{
    let mut rows: Vec<StyledLine> = Vec::new();
    let ghost all = app@.monitor_rows();
    proof {
        lemma_no_pieces();
        assert(all.take(0) =~= Seq::<LineView>::empty());
    }
    let mut i: usize = 0;
    while i < app.github.monitors.len()
        invariant
            i <= app.github.monitors.len(),
            all == app@.monitor_rows(),
            all.len() == app.github.monitors.len(),
            line_views(rows@) == all.take(i as int),
        decreases app.github.monitors.len() - i,
    {
        let monitor = &app.github.monitors[i];
        let selected = holds_text(&app.github.selected, monitor.name.as_str());
        let status = match status_position(&app.github.statuses, monitor.name.as_str()) {
            Some(k) => Some(&app.github.statuses[k]),
            None => None,
        };
        let row = monitor_row(monitor, selected, status, app.github.probe_running, app.language);
        assert(all.take(i + 1) =~= all.take(i as int).push(all[i as int]));
        push_line(&mut rows, row);
        i += 1;
    }
    assert(all.take(i as int) =~= all);
    rows
}

/// The rows of the list of the jobs, with the times of their last changes.
pub fn job_rows(app: &App, updated: &Vec<String>) -> (r: Vec<StyledLine>)
    requires
        updated@.len() == app.jobs.items@.len(),
    ensures
        line_views(r@) == app@.job_rows(texts(updated@)),
{
    let mut rows: Vec<StyledLine> = Vec::new();
    let ghost all = app@.job_rows(texts(updated@));
    proof {
        lemma_no_pieces();
        assert(all.take(0) =~= Seq::<LineView>::empty());
    }
    let mut i: usize = 0;
    while i < app.jobs.items.len()
        invariant
            updated@.len() == app.jobs.items@.len(),
            i <= app.jobs.items.len(),
            all == app@.job_rows(texts(updated@)),
            all.len() == app.jobs.items.len(),
            line_views(rows@) == all.take(i as int),
        decreases app.jobs.items.len() - i,
    {
        let job = &app.jobs.items[i];
        let unfolded = match &app.jobs.expanded {
            Some(id) => same(id.as_str(), job.id.as_str()),
            None => false,
        };
        assert(texts(updated@)[i as int] == updated@[i as int]@);
        let row = job_row(job, unfolded, updated[i].as_str(), app.language);
        assert(all.take(i + 1) =~= all.take(i as int).push(all[i as int]));
        push_line(&mut rows, row);
        i += 1;
    }
    assert(all.take(i as int) =~= all);
    rows
}

/// The rows of the list of the diagnoses.
pub fn doctor_rows(app: &App) -> (r: Vec<StyledLine>)
    ensures
        line_views(r@) == app@.doctor_rows(),
{
    let mut rows: Vec<StyledLine> = Vec::new();
    let ghost all = app@.doctor_rows();
    let hide = app.hides_unavailable();
    let shown = visible_diagnoses(&app.doctor.diagnoses, hide);
    proof {
        lemma_no_pieces();
        assert(all.take(0) =~= Seq::<LineView>::empty());
    }
    let mut i: usize = 0;
    while i < shown.len()
        invariant
            hide == app@.hides(),
            shown@.len() == shown_diagnoses(app.doctor.diagnoses@, hide).len(),
            forall|k: int|
                0 <= k < shown@.len() ==> shown@[k] == shown_diagnoses(app.doctor.diagnoses@, hide)[k]
            && #[trigger] shown@[k] < app.doctor.diagnoses@.len(),
            i <= shown.len(),
            all == app@.doctor_rows(),
            all.len() == shown.len(),
            line_views(rows@) == all.take(i as int),
        decreases shown.len() - i,
    {
        let diagnosis = &app.doctor.diagnoses[shown[i]];
        let unfolded = match &app.doctor.expanded {
            Some(name) => same(name.as_str(), diagnosis.name.as_str()),
            None => false,
        };
        let row = doctor_row(diagnosis, unfolded, app.language);
        assert(all.take(i + 1) =~= all.take(i as int).push(all[i as int]));
        push_line(&mut rows, row);
        i += 1;
    }
    assert(all.take(i as int) =~= all);
    rows
}

/// The cells inside of a frame with a head and an empty line under it.
pub open spec fn list_body(area: Rect) -> Rect {
    Rect {
        x: capped(area.x, 1),
        y: capped(area.y, 3),
        width: less(area.width, 2),
        height: less(area.height, 4),
    }
}

/// `a` less `b`, or zero.
pub open spec fn less(a: u16, b: u16) -> u16 {
    if a >= b {
        (a - b) as u16
    } else {
        0
    }
}

/// The entries of a list that are on the screen from `offset` on: each with its
/// row and its number.
pub open spec fn row_places(area: Rect, offset: usize, length: usize) -> Seq<(Rect, usize)> {
    let body = list_body(area);
    let end = at_most(length as int, offset + body.height);
    Seq::new(
        (if end > offset {
                end - offset
            } else {
                0
        }) as nat,
        |i: int|
        (
            Rect { x: body.x, y: capped(body.y, i as u16), width: body.width, height: 1 },
            (offset + i) as usize,
        ),
    )
}

/// Where the entries of a list are drawn.
pub fn list_area(area: Rect) -> (r: Rect)
    ensures
        r == list_body(area),
{
    Rect {
        x: area.x.saturating_add(1),
        y: area.y.saturating_add(3),
        width: area.width.saturating_sub(2),
        height: area.height.saturating_sub(4),
    }
}

/// The entries of a list that are on the screen from `offset` on.
pub fn row_hitboxes(area: Rect, offset: usize, length: usize) -> (r: Vec<(Rect, usize)>)
    ensures
        r@ == row_places(area, offset, length),
{
    let body = list_area(area);
    let ghost all = row_places(area, offset, length);
    let mut hitboxes: Vec<(Rect, usize)> = Vec::new();
    let mut slot: u16 = 0;
    while slot < body.height && (slot as usize) < length && offset < length - slot as usize
        invariant
            body == list_body(area),
            slot <= body.height,
            slot <= length,
            all == row_places(area, offset, length),
            slot > 0 ==> offset + slot <= length,
            hitboxes@.len() == slot,
            slot <= all.len(),
            forall|k: int| 0 <= k < slot ==> hitboxes@[k] == all[k],
        decreases body.height - slot,
    {
        let place = Rect {
            x: body.x,
            y: body.y.saturating_add(slot),
            width: body.width,
            height: 1,
        };
        hitboxes.push((place, offset + slot as usize));
        slot += 1;
    }
    assert(hitboxes@ =~= all);
    hitboxes
}

/// What a scroll bar shows: how many positions there are, which one is taken,
/// and how much is on the screen.
#[derive(Clone, Copy, Debug, PartialEq, Eq, Structural)]
pub struct ScrollbarView {
    pub area: Rect,
    pub positions: usize,
    pub position: usize,
    pub shown: usize,
}

/// The scroll bar at the right of a frame, where not everything is shown.
pub open spec fn scrollbar_of(area: Rect, length: usize, shown: usize, position: usize) -> Option<
    ScrollbarView,
> {
    if area.width == 0 || area.height <= 2 || length <= shown {
        None
    } else {
        Some(
            ScrollbarView {
                area: Rect {
                    x: less(area.right_edge(), 1),
                    y: capped(area.y, 1),
                    width: 1,
                    height: less(area.height, 2),
                },
                positions: at_most(length - shown + 1, usize::MAX as int) as usize,
                position,
                shown,
            },
        )
    }
}

/// The scroll bar at the right of a frame, where not everything is shown.
pub fn scrollbar(area: Rect, content_length: usize, viewport_length: usize, position: usize) -> (r:
    Option<ScrollbarView>)
    ensures
        r == scrollbar_of(area, content_length, viewport_length, position),
{
    if area.width == 0 || area.height <= 2 || content_length <= viewport_length {
        return None;
    }
    let positions: usize = content_length.saturating_sub(viewport_length).saturating_add(1);
    Some(
        ScrollbarView {
            area: Rect {
                x: area.right().saturating_sub(1),
                y: area.y.saturating_add(1),
                width: 1,
                height: area.height.saturating_sub(2),
            },
            positions,
            position,
            shown: viewport_length,
        },
    )
}

/// A list that was drawn in `area` with the entry `offset` first.
pub open spec fn drawn(area: Rect, length: int, offset: usize) -> ListViewport {
    ListViewport {
        area: Some(list_body(area)),
        length: length as usize,
        offset: at_most(offset as int, last_offset(length, list_body(area).height as int)) as usize,
    }
}

impl App {
    /// Notes where the tools were drawn, with the row `offset` first.
    pub fn tools_drawn(&mut self, area: Rect, offset: usize)
        requires
            old(self).wf(),
        ensures
            final(self).wf(),
            final(self).hits.tools@ == row_places(area, offset, old(self).tools.visible.len()),
            final(self).hits == (Hitboxes { tools: final(self).hits.tools, ..old(self).hits }),
            final(self)@ == (AppView {
                tools: ToolsView {
                    viewport: drawn(area, old(self).tools.visible.len() as int, offset),
                    ..old(self)@.tools
                },
                hits: final(self).hits,
                ..old(self)@
            }),
    {
        let length = self.tools.visible.len();
        self.tools.viewport.update(list_area(area), length, offset);
        self.hits.tools = row_hitboxes(area, offset, length);
    }

    /// Notes where the repositories were drawn, with the one at `offset` first.
    pub fn monitors_drawn(&mut self, area: Rect, offset: usize)
        requires
            old(self).wf(),
        ensures
            final(self).wf(),
            final(self).hits.github_monitors@ == row_places(
                area,
                offset,
                old(self).github.monitors.len(),
            ),
            final(self).hits == (Hitboxes {
                github_monitors: final(self).hits.github_monitors,
                ..old(self).hits
            }),
            final(self)@ == (AppView {
                github: GithubView {
                    viewport: drawn(area, old(self).github.monitors.len() as int, offset),
                    ..old(self)@.github
                },
                hits: final(self).hits,
                ..old(self)@
            }),
    {
        let length = self.github.monitors.len();
        self.github.viewport.update(list_area(area), length, offset);
        self.hits.github_monitors = row_hitboxes(area, offset, length);
    }

    /// Notes where the jobs were drawn, with the one at `offset` first, and where
    /// the log of a job will be.
    pub fn jobs_drawn(&mut self, area: Rect, offset: usize, detail: Option<Rect>)
        requires
            old(self).wf(),
        ensures
            final(self).wf(),
            final(self).hits.jobs@ == row_places(area, offset, old(self).jobs.items.len()),
            final(self).hits == (Hitboxes {
                jobs: final(self).hits.jobs,
                job_detail: detail,
                ..old(self).hits
            }),
            final(self)@ == (AppView {
                jobs: JobsView {
                    viewport: drawn(area, old(self).jobs.items.len() as int, offset),
                    ..old(self)@.jobs
                },
                hits: final(self).hits,
                ..old(self)@
            }),
    {
        let length = self.jobs.items.len();
        self.jobs.viewport.update(list_area(area), length, offset);
        self.hits.jobs = row_hitboxes(area, offset, length);
        self.hits.job_detail = detail;
    }

    /// Notes where the diagnoses were drawn, with the one at `offset` first, and
    /// where what was found will be.
    pub fn diagnoses_drawn(&mut self, area: Rect, offset: usize, detail: Option<Rect>)
        requires
            old(self).wf(),
        ensures
            final(self).wf(),
            old(self)@.doctor.unscanned() ==> {
                &&& final(self).hits.doctor@.len() == 0
                &&& final(self).hits.doctor_detail is None
                &&& final(self).doctor.viewport == ListViewport::none()
            },
            !old(self)@.doctor.unscanned() ==> {
                let length = shown_diagnoses(old(self).doctor.diagnoses@, old(self)@.hides()).len();
                &&& final(self).hits.doctor@ == row_places(area, offset, length as usize)
                &&& final(self).hits.doctor_detail == detail
                &&& final(self).doctor.viewport == drawn(area, length as int, offset)
            },
            final(self).hits == (Hitboxes {
                doctor: final(self).hits.doctor,
                doctor_detail: final(self).hits.doctor_detail,
                ..old(self).hits
            }),
            final(self)@ == (AppView {
                doctor: DoctorView { viewport: final(self).doctor.viewport, ..old(self)@.doctor },
                hits: final(self).hits,
                ..old(self)@
            }),
    {
        if self.doctor.never_scanned() {
            self.hits.doctor = Vec::new();
            self.hits.doctor_detail = None;
            self.doctor.viewport.clear();
        } else {
            let length = self.doctor.visible_count(self.hides_unavailable());
            self.doctor.viewport.update(list_area(area), length, offset);
            self.hits.doctor = row_hitboxes(area, offset, length);
            self.hits.doctor_detail = detail;
        }
    }
}

/// Every entry of a list that is drawn can be hit where it stands: no two share
/// a row, and they are the entries from the first one on, in order.
pub proof fn law_rows_can_be_hit(area: Rect, offset: usize, length: usize, i: int, j: int)
    requires
        area.wf(),
        0 <= i < j < row_places(area, offset, length).len(),
    ensures
        row_places(area, offset, length)[i].1 == offset + i,
        row_places(area, offset, length)[i].1 < length,
        row_places(area, offset, length)[i].0.y < row_places(area, offset, length)[j].0.y,
        row_places(area, offset, length)[j].0.bottom_edge() <= area.bottom_edge(),
{
}

} // verus!
