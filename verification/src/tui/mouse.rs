//! What the mouse does in the views.

use crate::tui::activity::LogView;
use crate::tui::app::{App, AppView};
use crate::tui::content::line_views;
use crate::tui::doctor::{Doctor, DoctorView};
use crate::tui::geometry::{
    Rect, at_most, contains_point, hitbox_target, scrolled, scrolled_index, target_at, within,
};
use crate::tui::github::{Github, GithubView};
use crate::tui::jobs::{Jobs, JobsView};
use crate::tui::keys::{Key, KeyCode, Mouse, MouseKind};
use crate::tui::labels::{Tab, ToolView};
use crate::tui::settings::SETTINGS_ROW_COUNT;
use crate::tui::tool_keys::{handle_github_tools_key, toggle_tool_selection};
use crate::tui::tools::{Tools, ToolsView};
use crate::tui::wrapping::{content_width, inner_width, line_at, line_of_row};
use vstd::prelude::*;

verus! {

/// How many rows the wheel of the mouse scrolls.
pub const MOUSE_WHEEL_ROWS: isize = 1;

/// `scroll` moved by `delta`, at least zero and at most the largest `usize`.
pub open spec fn wheeled(scroll: int, delta: int) -> int {
    if scroll + delta < 0 {
        0
    } else {
        at_most(scroll + delta, usize::MAX as int)
    }
}

/// `scroll` moved by the wheel.
pub fn wheel_scroll(scroll: usize, up: bool) -> (r: usize)
    ensures
        r == wheeled(scroll as int, wheel_delta(up)),
{
    if up {
        scroll.saturating_sub(1)
    } else {
        scroll.saturating_add(1)
    }
}

/// The rows that the wheel scrolls by.
pub open spec fn wheel_delta(up: bool) -> int {
    if up {
        -MOUSE_WHEEL_ROWS
    } else {
        MOUSE_WHEEL_ROWS as int
    }
}

/// The index that the mouse points at, or else the one that was.
pub open spec fn pointed(hitboxes: Seq<(Rect, usize)>, column: u16, row: u16, index: usize) -> usize {
    match target_at(hitboxes, column, row) {
        Some(target) => target,
        None => index,
    }
}

fn point(hitboxes: &Vec<(Rect, usize)>, column: u16, row: u16, index: usize) -> (r: usize)
    ensures
        r == pointed(hitboxes@, column, row, index),
{
    match hitbox_target(hitboxes, column, row) {
        Some(target) => target,
        None => index,
    }
}

impl AppView {
    /// The state with the focus on the row of the tools that the mouse is over.
    pub open spec fn pointed_tools(self, column: u16, row: u16) -> AppView {
        match self.tools.view {
            ToolView::Commands => self.at_tool(
                pointed(self.hits.tools@, column, row, self.tools.index) as int,
            ),
            ToolView::Github => self.at_monitor(
                pointed(self.hits.github_monitors@, column, row, self.github.index) as int,
            ),
        }
    }

    pub open spec fn at_job(self, index: usize) -> AppView {
        AppView { jobs: JobsView { index, ..self.jobs }, ..self }
    }

    pub open spec fn at_diagnosis(self, index: usize) -> AppView {
        AppView { doctor: DoctorView { index, ..self.doctor }, ..self }
    }

    pub open spec fn at_setting(self, index: usize) -> AppView {
        AppView { settings_index: index, ..self }
    }

    /// The state after the mouse has moved.
    pub open spec fn mouse_moved(self, column: u16, row: u16) -> AppView {
        let a = AppView {
            hovered_tab: target_at(self.hits.tabs@, column, row),
            hovered_activity: None,
            ..self
        };
        match self.tab {
            Tab::Tools => a.pointed_tools(column, row),
            Tab::Jobs => a.at_job(pointed(self.hits.jobs@, column, row, self.jobs.index)),
            Tab::Activity => AppView {
                hovered_activity: target_at(self.hits.activity@, column, row),
                ..a
            },
            Tab::Doctor => a.at_diagnosis(
                pointed(self.hits.doctor@, column, row, self.doctor.index),
            ),
            Tab::Settings => a.at_setting(
                pointed(self.hits.settings@, column, row, self.settings_index),
            ),
        }
    }

    /// The state after a click in the log.
    pub open spec fn activity_clicked(self, column: u16, row: u16) -> AppView {
        match target_at(self.hits.activity@, column, row) {
            Some(index) => AppView {
                activity: LogView {
                    expanded: if self.activity.expanded.contains(index as int) {
                        self.activity.expanded.remove(index as int)
                    } else {
                        self.activity.expanded.insert(index as int)
                    },
                    ..self.activity
                },
                ..self
            },
            None => self,
        }
    }

    /// The line of the log of the unfolded job that the mouse is over.
    pub open spec fn log_line_at(self, column: u16, row: u16) -> Option<int> {
        match self.hits.job_detail {
            Some(area) => if area.covers(column, row) && self.jobs.log.len() > 0 {
                let below = if row > area.y {
                    row - area.y - 1
                } else {
                    0
                };
                Some(
                    line_at(
                        self.job_details(),
                        inner_width(area),
                        at_most(self.jobs.log_scroll + below, usize::MAX as int),
                        0,
                    ),
                )
            } else {
                None
            },
            None => None,
        }
    }

    /// The state after a click in the list of the jobs, or in the log of the
    /// unfolded one, where it begins a selection.
    pub open spec fn jobs_clicked(self, column: u16, row: u16) -> AppView {
        match target_at(self.hits.jobs@, column, row) {
            Some(index) => self.at_job(index).log_toggled(),
            None => match self.log_line_at(column, row) {
                Some(line) => AppView {
                    jobs: JobsView {
                        log_drag: Some(line as usize),
                        log_selection: None,
                        ..self.jobs
                    },
                    ..self
                },
                None => self,
            },
        }
    }

    /// The state after the mouse was dragged: the lines of the log from where it
    /// began to where it is are selected.
    pub open spec fn log_dragged(self, column: u16, row: u16) -> AppView {
        match (self.jobs.log_drag, self.log_line_at(column, row)) {
            (Some(start), Some(line)) => AppView {
                jobs: JobsView {
                    log_selection: Some(
                        if start <= line {
                            (start, line as usize)
                        } else {
                            (line as usize, start)
                        },
                    ),
                    ..self.jobs
                },
                ..self
            },
            _ => self,
        }
    }

    /// The state after the left button was let go.
    pub open spec fn drag_ended(self) -> AppView {
        AppView { jobs: JobsView { log_drag: None, ..self.jobs }, ..self }
    }

    /// The state after a click in the view of the tools.
    pub open spec fn tools_clicked(self, column: u16, row: u16) -> AppView {
        match target_at(self.hits.tool_views@, column, row) {
            Some(index) => self.view_selected(
                if index == 0 {
                    ToolView::Commands
                } else {
                    ToolView::Github
                },
            ),
            None => match self.tools.view {
                ToolView::Commands => match target_at(self.hits.tools@, column, row) {
                    Some(index) => self.at_tool(index as int).tool_toggled(index as int),
                    None => self,
                },
                ToolView::Github => match target_at(self.hits.github_monitors@, column, row) {
                    Some(index) => self.at_monitor(index as int).monitor_toggled(),
                    None => self,
                },
            },
        }
    }

    /// The state after a click in the list of the diagnoses.
    pub open spec fn doctor_clicked(self, column: u16, row: u16) -> AppView {
        match target_at(self.hits.doctor@, column, row) {
            Some(index) => {
                let a = self.at_diagnosis(index);
                AppView { doctor: a.doctor.toggled(a.hides()), ..a }
            },
            None => self,
        }
    }

    /// The state after a click in the view of the settings.
    pub open spec fn settings_clicked(self, column: u16, row: u16) -> AppView {
        match target_at(self.hits.settings@, column, row) {
            Some(index) => self.at_setting(index).setting_toggled(index),
            None => self,
        }
    }

    /// The state after a click with the left button.
    pub open spec fn mouse_clicked(self, column: u16, row: u16) -> AppView {
        match target_at(self.hits.tabs@, column, row) {
            Some(index) => match Tab::at(index as int) {
                Some(tab) => self.tab_selected(tab),
                None => self,
            },
            None => match self.tab {
                Tab::Activity => self.activity_clicked(column, row),
                Tab::Jobs => self.jobs_clicked(column, row),
                Tab::Tools => self.tools_clicked(column, row),
                Tab::Doctor => self.doctor_clicked(column, row),
                Tab::Settings => self.settings_clicked(column, row),
            },
        }
    }

    /// The state after the wheel was turned over the view of the tools.
    pub open spec fn tools_wheeled(self, column: u16, row: u16, delta: int) -> AppView {
        match self.tools.view {
            ToolView::Commands => AppView {
                tools: ToolsView {
                    index: self.tools.viewport.focus(
                        column,
                        row,
                        delta,
                        self.tools.index as int,
                        self.tools.visible.len() as int,
                    ) as usize,
                    viewport: self.tools.viewport.after(column, row, delta),
                    ..self.tools
                },
                ..self
            },
            ToolView::Github => AppView {
                github: GithubView {
                    index: self.github.viewport.focus(
                        column,
                        row,
                        delta,
                        self.github.index as int,
                        self.github.monitors.len() as int,
                    ) as usize,
                    viewport: self.github.viewport.after(column, row, delta),
                    ..self.github
                },
                ..self
            },
        }
    }

    /// The state after the wheel was turned over the list of the jobs.
    pub open spec fn jobs_wheeled(self, column: u16, row: u16, delta: int) -> AppView {
        AppView {
            jobs: if within(self.hits.job_detail, column, row) {
                JobsView {
                    log_scroll: wheeled(self.jobs.log_scroll as int, delta) as usize,
                    ..self.jobs
                }
            } else {
                JobsView {
                    index: self.jobs.viewport.focus(
                        column,
                        row,
                        delta,
                        self.jobs.index as int,
                        self.jobs.items.len() as int,
                    ) as usize,
                    viewport: self.jobs.viewport.after(column, row, delta),
                    ..self.jobs
                }
            },
            ..self
        }
    }

    /// The state after the wheel was turned over the list of the diagnoses.
    pub open spec fn doctor_wheeled(self, column: u16, row: u16, delta: int) -> AppView {
        AppView {
            doctor: if within(self.hits.doctor_detail, column, row) {
                DoctorView {
                    detail_scroll: wheeled(self.doctor.detail_scroll as int, delta) as usize,
                    ..self.doctor
                }
            } else {
                DoctorView {
                    index: self.doctor.viewport.focus(
                        column,
                        row,
                        delta,
                        self.doctor.index as int,
                        self.shown_count() as int,
                    ) as usize,
                    viewport: self.doctor.viewport.after(column, row, delta),
                    ..self.doctor
                }
            },
            ..self
        }
    }

    /// The state after the wheel was turned.
    pub open spec fn mouse_wheeled(self, column: u16, row: u16, up: bool) -> AppView {
        let delta = wheel_delta(up);
        match self.tab {
            Tab::Activity => self.log_scrolled(wheeled(self.activity.scroll, delta)),
            Tab::Tools => self.tools_wheeled(column, row, delta),
            Tab::Jobs => self.jobs_wheeled(column, row, delta),
            Tab::Doctor => self.doctor_wheeled(column, row, delta),
            Tab::Settings => self.at_setting(
                scrolled(self.settings_index as int, SETTINGS_ROW_COUNT as int, delta) as usize,
            ),
        }
    }

    /// The state after the mouse did something where no dialog is open.
    pub open spec fn mouse_used(self, mouse: Mouse) -> AppView {
        match mouse.kind {
            MouseKind::Moved => self.mouse_moved(mouse.column, mouse.row),
            MouseKind::LeftDown => self.mouse_clicked(mouse.column, mouse.row),
            MouseKind::LeftDrag => if self.tab == Tab::Jobs {
                self.log_dragged(mouse.column, mouse.row)
            } else {
                self
            },
            MouseKind::LeftUp => self.drag_ended(),
            MouseKind::ScrollUp => self.mouse_wheeled(mouse.column, mouse.row, true),
            MouseKind::ScrollDown => self.mouse_wheeled(mouse.column, mouse.row, false),
            _ => self,
        }
    }
}

impl App {
    fn move_mouse(&mut self, column: u16, row: u16)
        requires
            old(self).wf(),
        ensures
            final(self).wf(),
            final(self)@ == old(self)@.mouse_moved(column, row),
    {
        self.hovered_tab = hitbox_target(&self.hits.tabs, column, row);
        self.hovered_activity = None;
        match self.tab {
            Tab::Tools => match self.tools.view {
                ToolView::Commands => {
                    self.tools.index = point(&self.hits.tools, column, row, self.tools.index);
                },
                ToolView::Github => {
                    self.github.index = point(
                        &self.hits.github_monitors,
                        column,
                        row,
                        self.github.index,
                    );
                },
            },
            Tab::Jobs => {
                self.jobs.index = point(&self.hits.jobs, column, row, self.jobs.index);
            },
            Tab::Activity => {
                self.hovered_activity = hitbox_target(&self.hits.activity, column, row);
            },
            Tab::Doctor => {
                self.doctor.index = point(&self.hits.doctor, column, row, self.doctor.index);
            },
            Tab::Settings => {
                self.settings_index = point(
                    &self.hits.settings,
                    column,
                    row,
                    self.settings_index,
                );
            },
        }
    }

    fn click_activity(&mut self, column: u16, row: u16)
        requires
            old(self).wf(),
        ensures
            final(self).wf(),
            final(self)@ == old(self)@.activity_clicked(column, row),
    {
        if let Some(index) = hitbox_target(&self.hits.activity, column, row) {
            self.activity.toggle(index);
        }
    }

    fn click_jobs(&mut self, column: u16, row: u16)
        requires
            old(self).wf(),
        ensures
            final(self).wf(),
            final(self)@ == old(self)@.jobs_clicked(column, row),
    {
        if let Some(index) = hitbox_target(&self.hits.jobs, column, row) {
            self.jobs.index = index;
            self.toggle_job_log();
        } else if let Some(line) = self.log_line(column, row) {
            self.jobs.log_drag = Some(line);
            self.jobs.log_selection = None;
        }
    }

    /// The line of the log of the unfolded job that the mouse is over.
    fn log_line(&self, column: u16, row: u16) -> (r: Option<usize>)
        ensures
            r is Some <==> self@.log_line_at(column, row) is Some,
            r matches Some(line) ==> self@.log_line_at(column, row) == Some(line as int),
    {
        if let Some(area) = self.hits.job_detail {
            if contains_point(Some(area), column, row) && self.jobs.log.len() > 0 {
                let lines = self.job_details();
                let below: usize = if row > area.y {
                    (row - area.y - 1) as usize
                } else {
                    0
                };
                assert(line_views(lines@).len() == lines@.len());
                return Some(
                    line_of_row(
                        &lines,
                        content_width(area),
                        self.jobs.log_scroll.saturating_add(below),
                    ),
                );
            }
        }
        None
    }

    fn drag_log(&mut self, column: u16, row: u16)
        requires
            old(self).wf(),
        ensures
            final(self).wf(),
            final(self)@ == old(self)@.log_dragged(column, row),
    {
        if let Some(start) = self.jobs.log_drag {
            if let Some(line) = self.log_line(column, row) {
                self.jobs.log_selection = Some(
                    if start <= line {
                        (start, line)
                    } else {
                        (line, start)
                    },
                );
            }
        }
    }

    fn click_tools(&mut self, column: u16, row: u16)
        requires
            old(self).wf(),
        ensures
            final(self).wf(),
            final(self)@ == old(self)@.tools_clicked(column, row),
    {
        match hitbox_target(&self.hits.tool_views, column, row) {
            Some(index) => self.select_tool_view(
                if index == 0 {
                    ToolView::Commands
                } else {
                    ToolView::Github
                },
            ),
            None => match self.tools.view {
                ToolView::Commands => {
                    if let Some(index) = hitbox_target(&self.hits.tools, column, row) {
                        self.tools.index = index;
                        toggle_tool_selection(self, index);
                    }
                },
                ToolView::Github => {
                    if let Some(index) = hitbox_target(&self.hits.github_monitors, column, row) {
                        self.github.index = index;
                        handle_github_tools_key(self, Key::plain(KeyCode::Char(' ')));
                    }
                },
            },
        }
    }

    fn click_doctor(&mut self, column: u16, row: u16)
        requires
            old(self).wf(),
        ensures
            final(self).wf(),
            final(self)@ == old(self)@.doctor_clicked(column, row),
    {
        if let Some(index) = hitbox_target(&self.hits.doctor, column, row) {
            let hide = self.hides_unavailable();
            self.doctor.index = index;
            self.doctor.toggle_detail(hide);
        }
    }

    fn click_settings(&mut self, column: u16, row: u16)
        requires
            old(self).wf(),
        ensures
            final(self).wf(),
            final(self)@ == old(self)@.settings_clicked(column, row),
    {
        if let Some(index) = hitbox_target(&self.hits.settings, column, row) {
            self.settings_index = index;
            self.toggle_setting(index);
        }
    }

    fn click_mouse(&mut self, column: u16, row: u16)
        requires
            old(self).wf(),
        ensures
            final(self).wf(),
            final(self)@ == old(self)@.mouse_clicked(column, row),
    {
        match hitbox_target(&self.hits.tabs, column, row) {
            Some(index) => {
                if let Some(tab) = Tab::from_index(index) {
                    self.select_tab(tab);
                }
            },
            None => match self.tab {
                Tab::Activity => self.click_activity(column, row),
                Tab::Jobs => self.click_jobs(column, row),
                Tab::Tools => self.click_tools(column, row),
                Tab::Doctor => self.click_doctor(column, row),
                Tab::Settings => self.click_settings(column, row),
            },
        }
    }

    fn wheel_tools(&mut self, column: u16, row: u16, delta: isize)
        requires
            old(self).wf(),
        ensures
            final(self).wf(),
            final(self)@ == old(self)@.tools_wheeled(column, row, delta as int),
    {
        match self.tools.view {
            ToolView::Commands => {
                let current = self.tools.index;
                let length = self.tools.visible.len();
                self.tools.index = self.tools.viewport.scroll_focus(
                    column,
                    row,
                    delta,
                    current,
                    length,
                );
            },
            ToolView::Github => {
                let current = self.github.index;
                let length = self.github.monitors.len();
                self.github.index = self.github.viewport.scroll_focus(
                    column,
                    row,
                    delta,
                    current,
                    length,
                );
            },
        }
    }

    fn wheel_jobs(&mut self, column: u16, row: u16, up: bool, delta: isize)
        requires
            old(self).wf(),
            delta == wheel_delta(up),
        ensures
            final(self).wf(),
            final(self)@ == old(self)@.jobs_wheeled(column, row, delta as int),
    {
        if contains_point(self.hits.job_detail, column, row) {
            self.jobs.log_scroll = wheel_scroll(self.jobs.log_scroll, up);
        } else {
            let current = self.jobs.index;
            let length = self.jobs.items.len();
            self.jobs.index = self.jobs.viewport.scroll_focus(column, row, delta, current, length);
        }
    }

    fn wheel_doctor(&mut self, column: u16, row: u16, up: bool, delta: isize)
        requires
            old(self).wf(),
            delta == wheel_delta(up),
        ensures
            final(self).wf(),
            final(self)@ == old(self)@.doctor_wheeled(column, row, delta as int),
    {
        if contains_point(self.hits.doctor_detail, column, row) {
            self.doctor.detail_scroll = wheel_scroll(self.doctor.detail_scroll, up);
        } else {
            let current = self.doctor.index;
            let length = self.doctor.visible_count(self.hides_unavailable());
            self.doctor.index = self.doctor.viewport.scroll_focus(
                column,
                row,
                delta,
                current,
                length,
            );
        }
    }

    fn wheel_mouse(&mut self, column: u16, row: u16, up: bool)
        requires
            old(self).wf(),
        ensures
            final(self).wf(),
            final(self)@ == old(self)@.mouse_wheeled(column, row, up),
    {
        let delta: isize = if up {
            -MOUSE_WHEEL_ROWS
        } else {
            MOUSE_WHEEL_ROWS
        };
        match self.tab {
            Tab::Activity => {
                self.activity.scroll = wheel_scroll(self.activity.scroll, up);
            },
            Tab::Tools => self.wheel_tools(column, row, delta),
            Tab::Jobs => self.wheel_jobs(column, row, up, delta),
            Tab::Doctor => self.wheel_doctor(column, row, up, delta),
            Tab::Settings => {
                self.settings_index = scrolled_index(
                    self.settings_index,
                    SETTINGS_ROW_COUNT,
                    delta,
                );
            },
        }
    }
}

/// Handles what the mouse did where no dialog is open.
pub fn handle_view_mouse(app: &mut App, mouse: Mouse)
    requires
        old(app).wf(),
    ensures
        final(app).wf(),
        final(app)@ == old(app)@.mouse_used(mouse),
{
    match mouse.kind {
        MouseKind::Moved => app.move_mouse(mouse.column, mouse.row),
        MouseKind::LeftDown => app.click_mouse(mouse.column, mouse.row),
        MouseKind::LeftDrag => {
            if app.tab == Tab::Jobs {
                app.drag_log(mouse.column, mouse.row);
            }
        },
        MouseKind::LeftUp => {
            app.jobs.log_drag = None;
        },
        MouseKind::ScrollUp => app.wheel_mouse(mouse.column, mouse.row, true),
        MouseKind::ScrollDown => app.wheel_mouse(mouse.column, mouse.row, false),
        _ => {},
    }
}

} // verus!
