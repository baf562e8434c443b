//! What the keys do in the views.

use crate::language::Language;
use crate::tui::activity::LogView;
use crate::tui::app::{App, AppView};
use crate::tui::doctor::{Doctor, DoctorView};
use crate::tui::geometry::{before, behind, next_index, previous_index};
use crate::tui::jobs::{Jobs, JobsView};
use crate::tui::keys::{Key, KeyCode, is_ctrl_c, is_shift_tab};
use crate::tui::labels::Tab;
use crate::tui::modal::{
    Effect, EffectView, Modal, ModalView, ReloadPurpose, SettingsChange, SettingsChangeView,
};
use crate::tui::model::shown_diagnoses;
use crate::tui::settings::SETTINGS_ROW_COUNT;
use crate::tui::tool_keys::handle_tools_key;
use vstd::prelude::*;

verus! {

/// How far the page keys scroll.
pub const PAGE: usize = 5;

/// The last line that the log can be scrolled to.
pub open spec fn log_end(height: usize) -> int {
    if height == 0 {
        0
    } else {
        height - 1
    }
}

/// How far a view is scrolled after a key for a page up or down.
pub open spec fn paged(scroll: usize, down: bool) -> int {
    if down && scroll + PAGE <= usize::MAX {
        scroll + PAGE
    } else if down {
        usize::MAX as int
    } else if scroll >= PAGE {
        scroll - PAGE
    } else {
        0
    }
}

impl AppView {
    /// The state with the log scrolled.
    pub open spec fn log_scrolled(self, scroll: int) -> AppView {
        AppView { activity: LogView { scroll, ..self.activity }, ..self }
    }

    /// The state after a key in the log.
    pub open spec fn activity_pressed(self, key: Key) -> AppView {
        if key.goes_up() {
            self.log_scrolled(
                if self.activity.scroll > 0 {
                    self.activity.scroll - 1
                } else {
                    0
                },
            )
        } else if key.goes_down() {
            self.log_scrolled(
                if self.activity.scroll < log_end(self.activity_rendered_height) {
                    self.activity.scroll + 1
                } else {
                    log_end(self.activity_rendered_height)
                },
            )
        } else if key.code == KeyCode::Home {
            self.log_scrolled(0)
        } else if key.code == KeyCode::End {
            self.log_scrolled(log_end(self.activity_rendered_height))
        } else {
            self
        }
    }

    /// The state after a key in the list of the jobs.
    pub open spec fn jobs_pressed(self, key: Key) -> AppView {
        let jobs = self.jobs;
        if key.goes_up() {
            let index = before(jobs.index as int, jobs.items.len() as int) as usize;
            AppView { jobs: JobsView { index, ..jobs }, ..self }
        } else if key.goes_down() {
            let index = behind(jobs.index as int, jobs.items.len() as int) as usize;
            AppView { jobs: JobsView { index, ..jobs }, ..self }
        } else if key.code == KeyCode::Enter {
            self.log_toggled()
        } else if key.code == KeyCode::PageUp && jobs.expanded is Some {
            let log_scroll = paged(jobs.log_scroll, false) as usize;
            AppView { jobs: JobsView { log_scroll, ..jobs }, ..self }
        } else if key.code == KeyCode::PageDown && jobs.expanded is Some {
            let log_scroll = paged(jobs.log_scroll, true) as usize;
            AppView { jobs: JobsView { log_scroll, ..jobs }, ..self }
        } else if key.is_letter('y', 'Y') && jobs.log_selection is Some {
            self.asked(EffectView::CopyText { text: jobs.selected_text() })
        } else if key.code == KeyCode::Esc && jobs.log_selection is Some {
            AppView { jobs: JobsView { log_selection: None, ..jobs }, ..self }
        } else {
            self
        }
    }

    /// The number of diagnoses that are shown.
    pub open spec fn shown_count(self) -> nat {
        shown_diagnoses(self.doctor.diagnoses, self.hides()).len()
    }

    /// The state after a key in the list of the diagnoses.
    pub open spec fn doctor_pressed(self, key: Key) -> AppView {
        let doctor = self.doctor;
        if key.goes_up() {
            let index = before(doctor.index as int, self.shown_count() as int) as usize;
            AppView { doctor: DoctorView { index, ..doctor }, ..self }
        } else if key.goes_down() {
            let index = behind(doctor.index as int, self.shown_count() as int) as usize;
            AppView { doctor: DoctorView { index, ..doctor }, ..self }
        } else if key.code == KeyCode::Enter {
            if doctor.loading || doctor.unscanned() {
                self.scan_requested(false)
            } else {
                AppView { doctor: doctor.toggled(self.hides()), ..self }
            }
        } else if key.code == KeyCode::PageUp && doctor.expanded is Some {
            let detail_scroll = paged(doctor.detail_scroll, false) as usize;
            AppView { doctor: DoctorView { detail_scroll, ..doctor }, ..self }
        } else if key.code == KeyCode::PageDown && doctor.expanded is Some {
            let detail_scroll = paged(doctor.detail_scroll, true) as usize;
            AppView { doctor: DoctorView { detail_scroll, ..doctor }, ..self }
        } else {
            self
        }
    }

    /// The state after a key in the view of the settings.
    pub open spec fn settings_pressed(self, key: Key) -> AppView {
        let rows = SETTINGS_ROW_COUNT as int;
        if key.goes_up() {
            AppView { settings_index: before(self.settings_index as int, rows) as usize, ..self }
        } else if key.goes_down() {
            AppView { settings_index: behind(self.settings_index as int, rows) as usize, ..self }
        } else if key.code == KeyCode::Enter || key.code == KeyCode::Char(' ') {
            self.setting_toggled(self.settings_index)
        } else {
            self
        }
    }

    /// The state after a key in the current view.
    pub open spec fn view_pressed(self, key: Key) -> AppView {
        match self.tab {
            Tab::Tools => self.tools_pressed(key),
            Tab::Activity => self.activity_pressed(key),
            Tab::Jobs => self.jobs_pressed(key),
            Tab::Doctor => self.doctor_pressed(key),
            Tab::Settings => self.settings_pressed(key),
        }
    }

    /// The state after a key that no dialog takes and that does not stop the
    /// program or change the language or the process policy.
    pub open spec fn normal_pressed(self, key: Key) -> AppView {
        match tab_after(self.tab, key.code) {
            Some(tab) => self.tab_selected(tab),
            None => if key.is_letter('r', 'R') {
                self.asked(EffectView::ReloadTools(ReloadPurpose::Refresh))
            } else {
                self.view_pressed(key)
            },
        }
    }

    /// The state after Control with C where no dialog is open.
    pub open spec fn quit_requested(self) -> AppView {
        if self.ctrl_c_armed {
            AppView { should_quit: true, ..self }
        } else {
            AppView { ctrl_c_armed: true, ..self }.told(
                "Press Ctrl+C again to quit"@,
                "再次按 Ctrl+C 退出"@,
            )
        }
    }

    /// The state after a key where no dialog is open.
    pub open spec fn key_pressed(self, key: Key) -> AppView {
        let a = AppView { ctrl_c_armed: false, ..self };
        if key.ctrl_c() {
            self.quit_requested()
        } else if key.shift_tab() {
            a.strategy_toggled()
        } else if toggles_language(self.modal, key) {
            a.asked(
                EffectView::SaveSettings(SettingsChangeView::Language(self.language.other())),
            )
        } else {
            a.normal_pressed(key)
        }
    }
}

/// The tab that a key leads to from `tab`, if it does.
pub open spec fn tab_after(tab: Tab, code: KeyCode) -> Option<Tab> {
    match code {
        KeyCode::Right => Tab::at((tab.position() + 1) % 5),
        KeyCode::Left => Tab::at((tab.position() + 4) % 5),
        _ => None,
    }
}

/// Whether a key changes the language: an `l`, where no line of text takes it.
pub open spec fn toggles_language(modal: ModalView, key: Key) -> bool {
    &&& !(modal is AddCommand)
    &&& !(modal is TargetVersion)
    &&& !(modal is NetworkProxy)
    &&& key.is_letter('l', 'L')
    &&& !key.control
    &&& !key.alt
}

pub fn is_language_toggle(modal: &Modal, key: &Key) -> (r: bool)
    ensures
        r == toggles_language(modal@, *key),
{
    let takes_text = matches!(modal, Modal::AddCommand { .. }) || matches!(
        modal,
        Modal::TargetVersion { .. }
    ) || matches!(modal, Modal::NetworkProxy { .. });
    !takes_text && key.letter('l', 'L') && !key.control && !key.alt
}

/// The tab that a key leads to from `tab`, if it does.
pub fn navigated_tab(tab: Tab, code: &KeyCode) -> (r: Option<Tab>)
    ensures
        r == tab_after(tab, *code),
{
    match code {
        KeyCode::Right => Some(tab.next()),
        KeyCode::Left => Some(tab.previous()),
        _ => None,
    }
}

/// How far a view is scrolled after a key for a page up or down.
pub fn scroll_page(scroll: usize, down: bool) -> (r: usize)
    ensures
        r == paged(scroll, down),
{
    if down {
        scroll.saturating_add(PAGE)
    } else {
        scroll.saturating_sub(PAGE)
    }
}

/// Asks for a second Control with C, or ends the program.
pub fn request_ctrl_c_quit(app: &mut App)
    requires
        old(app).wf(),
    ensures
        final(app).wf(),
        final(app)@ == old(app)@.quit_requested(),
{
    if app.ctrl_c_armed {
        app.should_quit = true;
    } else {
        app.ctrl_c_armed = true;
        app.tell("Press Ctrl+C again to quit", "再次按 Ctrl+C 退出");
    }
}

/// Handles a key in the log.
pub fn handle_activity_key(app: &mut App, key: Key)
    requires
        old(app).wf(),
    ensures
        final(app).wf(),
        final(app)@ == old(app)@.activity_pressed(key),
{
    let last: usize = app.activity_rendered_height.saturating_sub(1);
    if key.is_up() {
        app.activity.scroll = app.activity.scroll.saturating_sub(1);
    } else if key.is_down() {
        app.activity.scroll = if app.activity.scroll < last {
            app.activity.scroll + 1
        } else {
            last
        };
    } else if key.code == KeyCode::Home {
        app.activity.scroll = 0;
    } else if key.code == KeyCode::End {
        app.activity.scroll = last;
    }
}

/// Handles a key in the list of the jobs.
pub fn handle_jobs_key(app: &mut App, key: Key)
    requires
        old(app).wf(),
    ensures
        final(app).wf(),
        final(app)@ == old(app)@.jobs_pressed(key),
{
    if key.is_up() {
        app.jobs.index = previous_index(app.jobs.index, app.jobs.items.len());
    } else if key.is_down() {
        app.jobs.index = next_index(app.jobs.index, app.jobs.items.len());
    } else if key.code == KeyCode::Enter {
        app.toggle_job_log();
    } else if key.code == KeyCode::PageUp && app.jobs.expanded.is_some() {
        app.jobs.log_scroll = scroll_page(app.jobs.log_scroll, false);
    } else if key.code == KeyCode::PageDown && app.jobs.expanded.is_some() {
        app.jobs.log_scroll = scroll_page(app.jobs.log_scroll, true);
    } else if key.letter('y', 'Y') && app.jobs.log_selection.is_some() {
        let text = app.jobs.copied_lines();
        app.ask(Effect::CopyText { text });
    } else if key.code == KeyCode::Esc && app.jobs.log_selection.is_some() {
        app.jobs.log_selection = None;
    }
}

/// Handles a key in the list of the diagnoses.
pub fn handle_doctor_key(app: &mut App, key: Key)
    requires
        old(app).wf(),
    ensures
        final(app).wf(),
        final(app)@ == old(app)@.doctor_pressed(key),
{
    let hide = app.hides_unavailable();
    if key.is_up() {
        app.doctor.index = previous_index(app.doctor.index, app.doctor.visible_count(hide));
    } else if key.is_down() {
        app.doctor.index = next_index(app.doctor.index, app.doctor.visible_count(hide));
    } else if key.code == KeyCode::Enter {
        if app.doctor.loading || app.doctor.never_scanned() {
            app.request_doctor_refresh();
        } else {
            app.doctor.toggle_detail(hide);
        }
    } else if key.code == KeyCode::PageUp && app.doctor.expanded.is_some() {
        app.doctor.detail_scroll = scroll_page(app.doctor.detail_scroll, false);
    } else if key.code == KeyCode::PageDown && app.doctor.expanded.is_some() {
        app.doctor.detail_scroll = scroll_page(app.doctor.detail_scroll, true);
    }
}

/// Handles a key in the view of the settings.
pub fn handle_settings_key(app: &mut App, key: Key)
    requires
        old(app).wf(),
    ensures
        final(app).wf(),
        final(app)@ == old(app)@.settings_pressed(key),
{
    if key.is_up() {
        app.settings_index = previous_index(app.settings_index, SETTINGS_ROW_COUNT);
    } else if key.is_down() {
        app.settings_index = next_index(app.settings_index, SETTINGS_ROW_COUNT);
    } else if key.code == KeyCode::Enter || key.code == KeyCode::Char(' ') {
        let index = app.settings_index;
        app.toggle_setting(index);
    }
}

fn handle_view_key(app: &mut App, key: Key)
    requires
        old(app).wf(),
    ensures
        final(app).wf(),
        final(app)@ == old(app)@.view_pressed(key),
{
    match app.tab {
        Tab::Tools => handle_tools_key(app, key),
        Tab::Activity => handle_activity_key(app, key),
        Tab::Jobs => handle_jobs_key(app, key),
        Tab::Doctor => handle_doctor_key(app, key),
        Tab::Settings => handle_settings_key(app, key),
    }
}

/// Handles a key in the current view, or one that changes or reloads the view.
pub fn handle_normal_key(app: &mut App, key: Key)
    requires
        old(app).wf(),
    ensures
        final(app).wf(),
        final(app)@ == old(app)@.normal_pressed(key),
{
    match navigated_tab(app.tab, &key.code) {
        Some(tab) => app.select_tab(tab),
        None => {
            if key.letter('r', 'R') {
                app.ask(Effect::ReloadTools(ReloadPurpose::Refresh));
            } else {
                handle_view_key(app, key);
            }
        },
    }
}

/// Handles a key where no dialog is open.
pub fn handle_open_key(app: &mut App, key: Key)
    requires
        old(app).wf(),
    ensures
        final(app).wf(),
        final(app)@ == old(app)@.key_pressed(key),
{
    if is_ctrl_c(&key) {
        request_ctrl_c_quit(app);
        return;
    }
    app.ctrl_c_armed = false;
    if is_shift_tab(&key) {
        app.toggle_process_strategy();
    } else if is_language_toggle(&app.modal, &key) {
        let language = app.language.toggle();
        app.ask(Effect::SaveSettings(SettingsChange::Language(language)));
    } else {
        handle_normal_key(app, key);
    }
}

} // verus!
