//! When the program ends.

use crate::tui::app::AppView;
use crate::tui::form::{CommandFormMode, CommandFormView, MonitorFormView, ProxyFormView};
use crate::tui::input::InputView;
use crate::tui::keys::Key;
use crate::tui::modal::ModalView;
use crate::tui::modal_keys::dialog_key;
use crate::tui::tools::ToolsView;
use vstd::prelude::*;

verus! {

/// Whether two states agree on whether the program ends and whether one more
/// Control with C ends it.
pub open spec fn ends_alike(a: AppView, b: AppView) -> bool {
    a.should_quit == b.should_quit && a.ctrl_c_armed == b.ctrl_c_armed
}

proof fn lemma_requests_keep_running(app: AppView, index: int)
    ensures
        ends_alike(app, app.tool_toggled(index)),
        ends_alike(app, app.updates_requested()),
        ends_alike(app, app.version_requested()),
        ends_alike(app, app.command_requested()),
        ends_alike(app, app.deletion_requested()),
        ends_alike(app, app.uninstall_requested()),
        ends_alike(app, app.edit_requested()),
{
}

proof fn lemma_repository_requests_keep_running(app: AppView)
    ensures
        ends_alike(app, app.monitor_toggled()),
        ends_alike(app, app.installs_requested()),
        ends_alike(app, app.monitor_requested()),
        ends_alike(app, app.monitor_change_requested()),
        ends_alike(app, app.monitor_deletion_requested()),
        ends_alike(app, app.releases_asked(true)),
        ends_alike(app, app.releases_asked(false)),
{
}

proof fn lemma_tools_keep_running(app: AppView, key: Key)
    ensures
        ends_alike(app, app.tools_pressed(key)),
{
    lemma_requests_keep_running(app, app.tools.index as int);
    lemma_repository_requests_keep_running(app);
    let view = app.tools.view.other();
    let a = AppView { tools: ToolsView { view, ..app.tools }, ..app };
    lemma_repository_requests_keep_running(a.told("Command tools"@, "命令工具"@));
    lemma_repository_requests_keep_running(a.told("GitHub repositories"@, "GitHub 仓库"@));
}

proof fn lemma_views_keep_running(app: AppView, key: Key)
    ensures
        ends_alike(app, app.activity_pressed(key)),
        ends_alike(app, app.jobs_pressed(key)),
        ends_alike(app, app.doctor_pressed(key)),
{
}

proof fn lemma_settings_keep_running(app: AppView, key: Key)
    ensures
        ends_alike(app, app.settings_pressed(key)),
{
}

proof fn lemma_policy_keeps_running(app: AppView)
    ensures
        ends_alike(app, app.strategy_toggled()),
{
}

proof fn lemma_keys_keep_running(app: AppView, key: Key)
    ensures
        ends_alike(app, app.normal_pressed(key)),
{
    lemma_tools_keep_running(app, key);
    lemma_views_keep_running(app, key);
    lemma_settings_keep_running(app, key);
}

/// The program ends only when Control with C is pressed twice with no other key
/// between: any other key where no dialog is open takes the first one back.
pub proof fn law_quitting_takes_two_presses(app: AppView, key: Key)
    requires
        !app.should_quit,
    ensures
        app.key_pressed(key).should_quit <==> key.ctrl_c() && app.ctrl_c_armed,
        !key.ctrl_c() ==> !app.key_pressed(key).ctrl_c_armed,
        key.ctrl_c() ==> app.key_pressed(key).key_pressed(key).should_quit,
{
    let a = AppView { ctrl_c_armed: false, ..app };
    lemma_policy_keeps_running(a);
    lemma_keys_keep_running(a, key);
    assert(key.ctrl_c() ==> app.key_pressed(key) == app.quit_requested());
    assert(key.ctrl_c() ==> app.quit_requested().key_pressed(key)
        == app.quit_requested().quit_requested());
}

proof fn lemma_updates_keep_running(
    app: AppView,
    names: Seq<Seq<char>>,
    target: Option<Seq<char>>,
)
    ensures
        ends_alike(app, app.updates_begun(names, target)),
    decreases names.len(),
{
    if names.len() > 0 {
        lemma_updates_keep_running(app, names.drop_last(), target);
    }
}

proof fn lemma_batches_keep_running(
    app: AppView,
    names: Seq<Seq<char>>,
    target: Option<Seq<char>>,
    current: Seq<Seq<char>>,
    key: Key,
)
    ensures
        ends_alike(app, app.confirm_updates_pressed(names, target, current, key)),
{
    reveal(AppView::confirm_updates_pressed);
    lemma_updates_keep_running(app.closed().batch_prepared(names, current), names, target);
}

proof fn lemma_commands_keep_running(
    app: AppView,
    mode: CommandFormMode,
    original: Option<Seq<char>>,
    name: Seq<char>,
    command: Seq<char>,
    key: Key,
)
    ensures
        ends_alike(app, app.confirm_add_pressed(mode, original, name, command, key)),
{
    reveal(AppView::confirm_add_pressed);
}

proof fn lemma_answers_keep_running(app: AppView, name: Seq<char>, index: usize, key: Key)
    ensures
        ends_alike(app, app.confirm_delete_pressed(name, key)),
        ends_alike(app, app.confirm_uninstall_pressed(name, key)),
        ends_alike(app, app.confirm_delete_monitor_pressed(index, key)),
{
    reveal(AppView::confirm_delete_pressed);
    reveal(AppView::confirm_uninstall_pressed);
    reveal(AppView::confirm_delete_monitor_pressed);
}

proof fn lemma_installs_keep_running(app: AppView, monitors: Seq<Seq<char>>, key: Key)
    ensures
        ends_alike(app, app.confirm_installs_pressed(monitors, key)),
{
    reveal(AppView::confirm_installs_pressed);
}

proof fn lemma_version_keeps_running(app: AppView, name: Seq<char>, version: InputView, key: Key)
    ensures
        ends_alike(app, app.target_version_pressed(name, version, key)),
{
    reveal(AppView::target_version_pressed);
}

proof fn lemma_inputs_keep_running(app: AppView, input: InputView, key: Key)
    ensures
        ends_alike(app, app.api_key_pressed(input, key)),
        ends_alike(app, app.interval_pressed(input, key)),
{
    reveal(AppView::api_key_pressed);
    reveal(AppView::interval_pressed);
}

proof fn lemma_command_form_keeps_running(app: AppView, form: CommandFormView, key: Key)
    ensures
        ends_alike(app, app.command_form_pressed(form, key)),
{
    reveal(AppView::command_form_pressed);
}

proof fn lemma_proxy_form_keeps_running(app: AppView, form: ProxyFormView, key: Key)
    ensures
        ends_alike(app, app.proxy_form_pressed(form, key)),
{
    reveal(AppView::proxy_form_pressed);
}

proof fn lemma_monitor_form_keeps_running(app: AppView, form: MonitorFormView, key: Key)
    ensures
        ends_alike(app, app.monitor_form_pressed(form, key)),
{
    reveal(AppView::monitor_form_pressed);
}

proof fn lemma_dialogs_keep_running(app: AppView, key: Key)
    ensures
        ends_alike(app, app.dialog_pressed(key)),
{
    match app.modal {
        ModalView::Closed => {},
        ModalView::ConfirmUpdate { tools, target_version, current_tools } => {
            lemma_batches_keep_running(app, tools, target_version, current_tools, key);
        },
        ModalView::ConfirmGithubMonitorUpdate { monitors } => {
            lemma_installs_keep_running(app, monitors, key);
        },
        ModalView::TargetVersion { name, version } => {
            lemma_version_keeps_running(app, name, version, key);
        },
        ModalView::AddCommand { form } => {
            lemma_command_form_keeps_running(app, form, key);
        },
        ModalView::ConfirmAdd { mode, original_name, name, command } => {
            lemma_commands_keep_running(app, mode, original_name, name, command, key);
        },
        ModalView::ConfirmDelete { name } => {
            lemma_answers_keep_running(app, name, 0, key);
        },
        ModalView::ConfirmUninstall { name, .. } => {
            lemma_answers_keep_running(app, name, 0, key);
        },
        ModalView::TomlEditor { .. } => {},
        ModalView::NetworkProxy { form } => {
            lemma_proxy_form_keeps_running(app, form, key);
        },
        ModalView::GithubApiKey { api_key } => {
            lemma_inputs_keep_running(app, api_key, key);
        },
        ModalView::GithubMonitorForm { form } => {
            lemma_monitor_form_keeps_running(app, form, key);
        },
        ModalView::ConfirmDeleteGithubMonitor { index } => {
            lemma_answers_keep_running(app, Seq::empty(), index, key);
        },
        ModalView::GithubPollInterval { seconds } => {
            lemma_inputs_keep_running(app, seconds, key);
        },
    }
}

/// No key ends the program but Control with C, pressed where it was pressed just
/// before and no dialog is open; a key in a dialog neither ends the program nor
/// brings its end nearer.
pub proof fn law_only_two_presses_end_the_program(app: AppView, new: AppView, key: Key)
    requires
        !app.should_quit,
        app.key_handled(new, key),
    ensures
        new.should_quit <==> key.ctrl_c() && app.ctrl_c_armed && app.modal is Closed,
        !(app.modal is Closed) ==> new.ctrl_c_armed == app.ctrl_c_armed,
        app.modal is Closed && !new.should_quit ==> new.ctrl_c_armed == key.ctrl_c(),
        app.modal is Closed && key.ctrl_c() && !app.ctrl_c_armed ==> new.message
            == app.language.pick("Press Ctrl+C again to quit"@, "再次按 Ctrl+C 退出"@),
{
    match app.modal {
        ModalView::Closed => law_quitting_takes_two_presses(app, key),
        ModalView::TomlEditor { .. } => {},
        _ => lemma_dialogs_keep_running(app, dialog_key(key)),
    }
}

/// From where no dialog is open and nothing was pressed yet: the first Control
/// with C only tells that a second one ends the program, and a second one does,
/// whatever runs; any other key in its place takes the first one back, so that
/// the next one is a first one again, or is for the dialog that the key opened.
pub proof fn law_another_key_takes_the_press_back(
    app: AppView,
    first: AppView,
    second: AppView,
    third: AppView,
    quit: Key,
    between: Key,
)
    requires
        app.modal is Closed,
        !app.ctrl_c_armed,
        !app.should_quit,
        quit.ctrl_c(),
        app.key_handled(first, quit),
        first.key_handled(second, between),
        second.key_handled(third, quit),
    ensures
        !first.should_quit && first.ctrl_c_armed,
        first.message == app.language.pick("Press Ctrl+C again to quit"@, "再次按 Ctrl+C 退出"@),
        between.ctrl_c() ==> second.should_quit,
        !between.ctrl_c() ==> {
            &&& !second.should_quit && !second.ctrl_c_armed
            &&& !third.should_quit
            &&& third.ctrl_c_armed <==> second.modal is Closed
        },
{
    law_only_two_presses_end_the_program(app, first, quit);
    assert(first == app.quit_requested());
    law_only_two_presses_end_the_program(first, second, between);
    if !between.ctrl_c() {
        law_only_two_presses_end_the_program(second, third, quit);
    }
}

} // verus!
