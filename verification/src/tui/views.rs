//! The views, as they are drawn: what each shows in the areas that it is given.

use crate::language::Language;
use crate::search::{lines, texts};
use crate::tui::activity::LogView;
use crate::tui::app::{App, AppView};
use crate::tui::content::{LineView, StyledLine, line_of, line_views};
use crate::tui::details::{
    doctor_prompt_area, doctor_prompt_lines, doctor_title, doctor_title_line, prompt_place,
    prompt_views,
};
use crate::tui::dialogs::{dialog_inner, panel_content};
use crate::tui::doctor::DoctorView;
use crate::tui::editor::TomlEditor;
use crate::tui::editor_view::{
    editor_content, editor_cursor, editor_cursor_cell, editor_file_line, editor_help,
    editor_help_views, editor_line_views, file_line, followed, gutter_lines, gutter_views,
    gutter_width, number_columns,
};
use crate::tui::geometry::{Rect, at_most, before, centered, centered_rect};
use crate::tui::highlight::highlights_fit;
use crate::tui::jobs::JobsView;
use crate::tui::lines::last_line;
use crate::tui::log_view::{
    LogLine, activity_legend, activity_render_lines, activity_title, log_lines_from, log_places,
    log_views, shown_lines,
};
use crate::tui::modal::{Hitboxes, Modal, ModalView};
use crate::tui::settings_view::{
    setting_places, settings_cells, settings_description, settings_notes, settings_rows,
};
use crate::tui::style::{Color, Style};
use crate::tui::tables::{
    ScrollbarView, doctor_columns, doctor_header, doctor_rows, job_columns, job_header, job_rows,
    less, monitor_columns, monitor_header, monitor_rows, scrollbar, scrollbar_of, tool_columns,
    tool_header, tool_rows,
};
use crate::tui::wrapping::{content_height, inner_height, inner_width, last_scroll, row_of};
use vstd::prelude::*;
use vstd::string::*;

verus! {

/// A list as it is drawn: its title, the heads of its columns, its rows, the
/// row that was first, and the one in focus.
#[derive(Debug)]
pub struct ListScene {
    pub title: StyledLine,
    pub header: Vec<&'static str>,
    pub rows: Vec<StyledLine>,
    pub offset: usize,
    pub selected: Option<usize>,
}

impl ListScene {
    /// Whether the list shows this.
    pub open spec fn shows(
        self,
        title: LineView,
        header: Seq<&'static str>,
        rows: Seq<LineView>,
        offset: usize,
        selected: Option<usize>,
    ) -> bool {
        &&& self.title@ == title
        &&& self.header@ == header
        &&& line_views(self.rows@) == rows
        &&& self.offset == offset
        &&& self.selected == selected
    }
}

/// Wrapped lines as they are drawn: how many rows they take, and how far they
/// are scrolled.
#[derive(Debug)]
pub struct TextScene {
    pub area: Rect,
    pub title: StyledLine,
    pub lines: Vec<StyledLine>,
    pub height: usize,
    pub scroll: usize,
    pub bar: Option<ScrollbarView>,
}

impl TextScene {
    /// Whether this is shown in `area`.
    pub open spec fn shows(
        self,
        area: Rect,
        title: LineView,
        lines: Seq<LineView>,
        scroll: int,
    ) -> bool {
        &&& self.area == area
        &&& self.title@ == title
        &&& line_views(self.lines@) == lines
        &&& self.height == row_of(lines, inner_width(area), lines.len() as int)
        &&& self.scroll == scroll
        &&& self.bar == scrollbar_of(
            area,
            self.height,
            inner_height(area) as usize,
            self.scroll,
        )
    }
}

/// A title in the colour of titles.
pub open spec fn titled(text: Seq<char>) -> LineView {
    LineView::one(text, Style::of(Some(Color::Accent), None).heavy())
}

fn title_line(text: &str) -> (r: StyledLine)
    ensures
        r@ == titled(text@),
{
    line_of(text, Style::with_fg(Color::Accent).bold())
}

/// The row in focus of a list of `length` rows, where there is any.
pub open spec fn focus_in(length: int, index: usize) -> Option<usize> {
    if length > 0 {
        Some(index)
    } else {
        None
    }
}

/// Draws the list of the tools; where it was drawn is noted with `tools_drawn`.
pub fn draw_command_tools(app: &App) -> (r: ListScene)
    requires
        app.wf(),
    ensures
        r.shows(
            titled(app.language.pick(" Tools "@, " 工具 "@)),
            tool_columns(app.language),
            app@.tool_rows(),
            app.tools.viewport.offset,
            focus_in(app.tools.visible@.len() as int, app.tools.index),
        ),
{
    let selected = if app.tools.visible.len() > 0 {
        Some(app.tools.index)
    } else {
        None
    };
    ListScene {
        title: title_line(app.language.text(" Tools ", " 工具 ")),
        header: tool_header(app.language),
        rows: tool_rows(app),
        offset: app.tools.viewport.offset(),
        selected,
    }
}

/// Draws the list of the repositories; where it was drawn is noted with
/// `monitors_drawn`.
pub fn draw_github_tools(app: &App) -> (r: ListScene)
    ensures
        r.shows(
            titled(app.language.pick(" GitHub repositories "@, " GitHub 仓库 "@)),
            monitor_columns(app.language),
            app@.monitor_rows(),
            app.github.viewport.offset,
            focus_in(app.github.monitors@.len() as int, app.github.index),
        ),
{
    let selected = if app.github.monitors.len() > 0 {
        Some(app.github.index)
    } else {
        None
    };
    ListScene {
        title: title_line(app.language.text(" GitHub repositories ", " GitHub 仓库 ")),
        header: monitor_header(app.language),
        rows: monitor_rows(app),
        offset: app.github.viewport.offset(),
        selected,
    }
}

/// Draws the log.
pub fn draw_activity(app: &mut App, area: Rect) -> (r: TextScene)
    requires
        old(app).wf(),
    ensures
        final(app).wf(),
        ({
            let lines = log_lines_from(old(app)@.activity, old(app).hovered_activity, 0);
            let total = row_of(shown_lines(lines), inner_width(area), lines.len() as int);
            let scroll = at_most(old(app)@.activity.scroll, last_scroll(total, area));
            &&& r.shows(area, activity_legend(old(app).language), shown_lines(lines), scroll)
            &&& final(app).hits.activity@ == log_places(
                lines,
                area,
                scroll,
                lines.len() as int,
            )
            &&& final(app)@ == (AppView {
                activity_rendered_height: total as usize,
                activity: LogView { scroll, ..old(app)@.activity },
                hits: final(app).hits,
                ..old(app)@
            })
        }),
        final(app).hits == (Hitboxes { activity: final(app).hits.activity, ..old(app).hits }),
{
    let lines = activity_render_lines(app);
    app.activity_drawn(area, &lines);
    let height = app.activity_rendered_height;
    let scroll = app.activity.scroll;
    TextScene {
        area,
        title: activity_title(app.language),
        lines: lines_only(lines),
        height,
        scroll,
        bar: scrollbar(area, height, content_height(area), scroll),
    }
}

/// The lines of the log without what they unfold.
fn lines_only(entries: Vec<LogLine>) -> (r: Vec<StyledLine>)
    ensures
        line_views(r@) == shown_lines(log_views(entries@)),
{
    let ghost all = shown_lines(log_views(entries@));
    let ghost start = entries@;
    let mut entries = entries;
    let mut reversed: Vec<StyledLine> = Vec::new();
    while entries.len() > 0
        invariant
            entries@.len() + reversed@.len() == start.len(),
            entries@ == start.take(entries@.len() as int),
            forall|k: int|
                0 <= k < reversed@.len() ==> (#[trigger] reversed@[k])@ == start[start.len() - 1
                    - k].line@,
        decreases entries@.len(),
    {
        let ghost before = reversed@;
        let ghost n = entries@.len();
        if let Some(entry) = entries.pop() {
            assert(entry == start[n - 1]);
            reversed.push(entry.line);
            assert forall|k: int| 0 <= k < reversed@.len() implies (#[trigger] reversed@[k])@
                == start[start.len() - 1 - k].line@ by {
                if k < before.len() {
                    assert(reversed@[k] == before[k]);
                }
            }
            assert(entries@ =~= start.take(n - 1));
        }
    }
    let ghost turned = reversed@;
    let mut lines: Vec<StyledLine> = Vec::new();
    while reversed.len() > 0
        invariant
            turned.len() == start.len(),
            reversed@.len() + lines@.len() == start.len(),
            reversed@ == turned.take(reversed@.len() as int),
            forall|k: int|
                0 <= k < turned.len() ==> (#[trigger] turned[k])@ == start[start.len() - 1
                    - k].line@,
            forall|k: int|
                0 <= k < lines@.len() ==> (#[trigger] lines@[k])@ == start[k].line@,
        decreases reversed@.len(),
    {
        let ghost before = lines@;
        let ghost n = reversed@.len();
        if let Some(line) = reversed.pop() {
            assert(line == turned[n - 1]);
            lines.push(line);
            assert forall|k: int| 0 <= k < lines@.len() implies (#[trigger] lines@[k])@
                == start[k].line@ by {
                if k < before.len() {
                    assert(lines@[k] == before[k]);
                }
            }
            assert(reversed@ =~= turned.take(n - 1));
        }
    }
    assert(line_views(lines@) =~= all);
    lines
}

/// Whether the log of a job is shown under the list.
pub fn jobs_split(app: &App, area: Rect) -> (r: bool)
    ensures
        r == (app.jobs.expanded is Some && area.height >= 8),
{
    app.jobs.expanded.is_some() && area.height >= 8
}

/// The list of the jobs, and the log of the unfolded one.
#[derive(Debug)]
pub struct JobsScene {
    pub list: ListScene,
    pub detail: Option<TextScene>,
}

/// Draws the list of the jobs, with the times of their last changes, and the log
/// of the unfolded one in `detail`; where the list was drawn is noted with
/// `jobs_drawn`.
pub fn draw_jobs(app: &mut App, updated: &Vec<String>, detail: Option<Rect>) -> (r: JobsScene)
    requires
        old(app).wf(),
        updated@.len() == old(app).jobs.items@.len(),
    ensures
        final(app).wf(),
        r.list.shows(
            titled(old(app).language.pick(" Background jobs "@, " 后台任务 "@)),
            job_columns(old(app).language),
            old(app)@.job_rows(texts(updated@)),
            old(app).jobs.viewport.offset,
            Some(old(app).jobs.index),
        ),
        match detail {
            Some(area) => {
                let lines = old(app)@.job_details();
                let total = row_of(lines, inner_width(area), lines.len() as int);
                let scroll = at_most(old(app).jobs.log_scroll as int, last_scroll(total, area));
                &&& r.detail matches Some(scene)
                &&& scene.shows(area, titled(old(app)@.job_detail_name()), lines, scroll)
                &&& final(app)@ == (AppView {
                    jobs: JobsView { log_scroll: scroll as usize, ..old(app)@.jobs },
                    ..old(app)@
                })
            },
            None => r.detail is None && final(app)@ == old(app)@,
        },
{
    let list = ListScene {
        title: title_line(app.language.text(" Background jobs ", " 后台任务 ")),
        header: job_header(app.language),
        rows: job_rows(app, updated),
        offset: app.jobs.viewport.offset(),
        selected: Some(app.jobs.index),
    };
    match detail {
        None => JobsScene { list, detail: None },
        Some(area) => {
            let lines = app.job_details();
            let title = title_line(app.job_detail_title().as_str());
            let height = app.job_details_drawn(area, &lines);
            let scroll = app.jobs.log_scroll;
            let bar = scrollbar(area, height, content_height(area), scroll);
            JobsScene { list, detail: Some(TextScene { area, title, lines, height, scroll, bar }) }
        },
    }
}

/// Whether what was found of a tool is shown under the list.
pub fn doctor_split(app: &App, area: Rect) -> (r: bool)
    ensures
        r == (!app@.doctor.unscanned() && app.doctor.expanded is Some && area.height >= 10),
{
    !app.doctor.never_scanned() && app.doctor.expanded.is_some() && area.height >= 10
}

/// The list of the diagnoses, what is said before the first scan, and what was
/// found of the unfolded tool.
#[derive(Debug)]
pub struct DoctorScene {
    pub list: ListScene,
    pub prompt: Option<(Rect, Vec<StyledLine>)>,
    pub detail: Option<TextScene>,
}

/// Draws the list of the diagnoses in `area`, and what was found of the unfolded
/// tool in `detail`; where the list was drawn is noted with `diagnoses_drawn`.
pub fn draw_doctor(app: &mut App, area: Rect, detail: Option<Rect>, os: &str) -> (r: DoctorScene)
    requires
        old(app).wf(),
    ensures
        final(app).wf(),
        r.list.shows(
            doctor_title_line(old(app)@),
            doctor_columns(old(app).language),
            old(app)@.doctor_rows(),
            old(app).doctor.viewport.offset,
            if old(app)@.doctor.unscanned() {
                None
            } else {
                focus_in(old(app)@.shown_count() as int, old(app).doctor.index)
            },
        ),
        r.prompt is Some <==> old(app)@.doctor.unscanned(),
        r.prompt matches Some((place, lines)) ==> place == prompt_place(area) && line_views(
            lines@,
        ) == prompt_views(old(app).language),
        r.detail is Some <==> !old(app)@.doctor.unscanned() && detail is Some,
        r.detail is None ==> final(app)@ == old(app)@,
        r.detail matches Some(scene) ==> {
            let place = detail->0;
            let lines = old(app)@.doctor_details(os@);
            let total = row_of(lines, inner_width(place), lines.len() as int);
            let scroll = at_most(old(app).doctor.detail_scroll as int, last_scroll(total, place));
            &&& scene.shows(place, titled(old(app)@.doctor_detail_name()), lines, scroll)
            &&& final(app)@ == (AppView {
                doctor: DoctorView { detail_scroll: scroll as usize, ..old(app)@.doctor },
                ..old(app)@
            })
        },
{
    let unscanned = app.doctor.never_scanned();
    let count: usize = app.doctor.visible_count(app.hides_unavailable());
    let selected = if unscanned || count == 0 {
        None
    } else {
        Some(app.doctor.index)
    };
    let list = ListScene {
        title: doctor_title(app),
        header: doctor_header(app.language),
        rows: doctor_rows(app),
        offset: app.doctor.viewport.offset(),
        selected,
    };
    if unscanned {
        let prompt = (doctor_prompt_area(area), doctor_prompt_lines(app.language));
        return DoctorScene { list, prompt: Some(prompt), detail: None };
    }
    match detail {
        None => DoctorScene { list, prompt: None, detail: None },
        Some(place) => {
            let lines = app.doctor_details(os);
            let title = title_line(app.doctor_detail_title().as_str());
            let height = app.doctor_details_drawn(place, &lines);
            let scroll = app.doctor.detail_scroll;
            let bar = scrollbar(place, height, content_height(place), scroll);
            let scene = TextScene { area: place, title, lines, height, scroll, bar };
            DoctorScene { list, prompt: None, detail: Some(scene) }
        },
    }
}

/// The settings, and the lines under them.
#[derive(Debug)]
pub struct SettingsScene {
    pub list: ListScene,
    pub notes_title: StyledLine,
    pub notes: Vec<StyledLine>,
}

/// The heads of the columns of the settings.
pub open spec fn settings_columns(language: Language) -> Seq<&'static str> {
    match language {
        Language::English => seq!["OPTION", "STATE"],
        Language::Chinese => seq!["选项", "状态"],
    }
}

fn settings_header(language: Language) -> (r: Vec<&'static str>)
    ensures
        r@ == settings_columns(language),
{
    match language {
        Language::English => vec!["OPTION", "STATE"],
        Language::Chinese => vec!["选项", "状态"],
    }
}

/// Draws the settings, which are stored at `path`, in `area`.
pub fn draw_settings(app: &mut App, area: Rect, path: &str) -> (r: SettingsScene)
    requires
        old(app).wf(),
    ensures
        final(app).wf(),
        r.list.shows(
            titled(old(app).language.pick(" Settings "@, " 设置 "@)),
            settings_columns(old(app).language),
            settings_cells(old(app)@),
            0,
            Some(old(app).settings_index),
        ),
        r.notes_title@ == LineView::one(
            old(app).language.pick(" Network and behavior "@, " 网络与行为说明 "@),
            Style::of(Some(Color::Accent), None),
        ),
        line_views(r.notes@) == settings_notes(old(app)@, path@),
        final(app).hits.settings@ == setting_places(area),
        final(app).hits == (Hitboxes { settings: final(app).hits.settings, ..old(app).hits }),
        final(app)@ == (AppView { hits: final(app).hits, ..old(app)@ }),
{
    let list = ListScene {
        title: title_line(app.language.text(" Settings ", " 设置 ")),
        header: settings_header(app.language),
        rows: settings_rows(app),
        offset: 0,
        selected: Some(app.settings_index),
    };
    let notes = settings_description(app, path);
    let notes_title = line_of(
        app.language.text(" Network and behavior ", " 网络与行为说明 "),
        Style::with_fg(Color::Accent),
    );
    app.settings_drawn(area);
    SettingsScene { list, notes_title, notes }
}

/// The TOML editor as it is drawn.
#[derive(Debug)]
pub struct EditorScene {
    pub file: StyledLine,
    pub numbers: Vec<StyledLine>,
    pub lines: Vec<StyledLine>,
    pub scroll_y: usize,
    pub scroll_x: usize,
    pub bar: Option<ScrollbarView>,
    pub cursor: Option<(u16, u16)>,
    pub help: Vec<StyledLine>,
}

/// Where the frame of the TOML editor stands, and the cells inside of it.
pub fn editor_frame(area: Rect) -> (r: (Rect, Rect))
    requires
        area.wf(),
    ensures
        r.0 == centered(less(area.width, 2), less(area.height, 2), area),
        r.1 == dialog_inner(r.0),
{
    let frame = centered_rect(area.width.saturating_sub(2), area.height.saturating_sub(2), area);
    (frame, panel_content(frame))
}

/// Draws the TOML editor, with its text in `content` and the frame around that
/// in `block`. There is nothing to draw where the highlights do not lie between
/// characters of the text.
pub fn draw_toml_editor(app: &mut App, block: Rect, content: Rect) -> (r: Option<EditorScene>)
    requires
        old(app).wf(),
        old(app).modal is TomlEditor,
    ensures
        final(app).wf(),
        ({
            let editor = followed(old(app)@.modal->editor, content.height, content.width);
            let count = last_line(editor.text@) + 1;
            &&& final(app)@ == (AppView {
                modal: ModalView::TomlEditor { editor },
                toml_editor_area: Some(content),
                ..old(app)@
            })
            &&& r is Some <==> highlights_fit(editor.text@, editor.highlights@)
            &&& r matches Some(scene) ==> {
                &&& scene.file@ == file_line(editor, old(app).language)
                &&& line_views(scene.numbers@) == gutter_views(
                    editor,
                    at_most(number_columns(editor) as int, usize::MAX as int) - 1,
                )
                &&& line_views(scene.lines@) == editor_line_views(editor)
                &&& scene.scroll_y == editor.scroll_y
                &&& scene.scroll_x == editor.scroll_x
                &&& scene.bar == scrollbar_of(
                    block,
                    count as usize,
                    content.height as usize,
                    editor.scroll_y,
                )
                &&& scene.cursor == editor_cursor(editor, content)
                &&& line_views(scene.help@) == editor_help_views(
                    editor,
                    old(app)@.message,
                    old(app).language,
                )
            }
        }),
{
    let language = app.language;
    app.editor_laid_out(content);
    if let Modal::TomlEditor { editor } = &app.modal {
        let lines = match editor_content(editor) {
            Some(lines) => lines,
            None => {
                return None;
            },
        };
        let width: usize = gutter_width(editor);
        let count: usize = editor.line_ranges().len();
        return Some(
            EditorScene {
                file: editor_file_line(editor, language),
                numbers: gutter_lines(editor, width - 1),
                lines,
                scroll_y: editor.scroll_y,
                scroll_x: editor.scroll_x,
                bar: scrollbar(block, count, content.height as usize, editor.scroll_y),
                cursor: editor_cursor_cell(editor, content),
                help: editor_help(editor, app.message.as_str(), language),
            },
        );
    }
    None
}

} // verus!
