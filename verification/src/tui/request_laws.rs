//! What holds of requests: what the keys ask for, what a dialog starts when it is
//! answered, and what is changed once something was saved or found.

use crate::command_line::arguments_of;
use crate::language::Language;
use crate::number::{decimal_text, number_of};
use crate::search::{control, split_on, trimmed};
use crate::tui::app::AppView;
use crate::tui::arguments::remove_words;
use crate::tui::editor::TomlEditor;
use crate::tui::events::{AppEvent, failed_tests};
use crate::tui::form::{
    CommandFormAsk, CommandFormView, MonitorFormView, ProxyFormAsk, ProxyFormView, trimmed_pieces,
};
use crate::tui::input::InputView;
use crate::tui::jobs::completed_names;
use crate::tui::keys::{Key, KeyCode};
use crate::tui::labels::{Availability, Operation, ProcessStrategy, Tab, ToolKind};
use crate::tui::modal::{EffectView, ModalView, SettingsChange, SettingsChangeView};
use crate::tui::model::{
    AppSettings, DoctorStatus, JobItem, ProxyMode, ToolDiagnosis, ToolItem, conflicts_of,
    job_active, shown_diagnoses, verdict,
};
use crate::tui::settings::changed_settings;
use crate::tui::tools::{named_current, shown_tools, split_names};
use crate::version::{NetworkTestResult, shown};
use vstd::prelude::*;
use vstd::string::*;

verus! {

/// Y and Enter say yes, N and Esc say no, and no key says both.
pub proof fn law_answers_are_clear(key: Key)
    ensures
        key.accepts() <==> key.code == KeyCode::Char('y') || key.code == KeyCode::Char('Y')
            || key.code == KeyCode::Enter,
        key.declines() <==> key.code == KeyCode::Char('n') || key.code == KeyCode::Char('N')
            || key.code == KeyCode::Esc,
        !(key.accepts() && key.declines()),
{
}

proof fn lemma_split_names(tools: Seq<ToolItem>, names: Seq<Seq<char>>, current: bool)
    ensures
        split_names(tools, names, current) == names.filter(
            |name: Seq<char>| named_current(tools, name) == current,
        ),
    decreases names.len(),
{
    reveal(Seq::filter);
    if names.len() > 0 {
        lemma_split_names(tools, names.drop_last(), current);
    } else {
        assert(names =~= Seq::empty());
    }
}

/// Asking for updates asks back before anything is started: the question names all
/// the tools that are wanted and not known to be current, and apart from them those
/// that are. Where all are current nothing is asked, and nothing is ever started.
pub proof fn law_updates_are_confirmed(app: AppView)
    requires
        app.running == 0,
        app.tools.wanted().len() > 0,
    ensures
        ({
            let after = app.commands_pressed(Key::bare(KeyCode::Enter));
            let tools = app.tools.wanted().filter(
                |name: Seq<char>| !named_current(app.tools.items, name),
            );
            let current = app.tools.wanted().filter(
                |name: Seq<char>| named_current(app.tools.items, name),
            );
            &&& after.effects == app.effects
            &&& after.running == 0
            &&& tools.len() > 0 ==> after.modal == (ModalView::ConfirmUpdate {
                tools,
                target_version: None,
                current_tools: current,
            })
            &&& tools.len() == 0 ==> after.modal == app.modal && after.tools.items
                == app.tools.marked(current).items
        }),
{
    let names = app.tools.wanted();
    lemma_split_names(app.tools.items, names, false);
    lemma_split_names(app.tools.items, names, true);
    let p = |name: Seq<char>| named_current(app.tools.items, name) == false;
    let q = |name: Seq<char>| !named_current(app.tools.items, name);
    assert(p =~= q);
    let r = |name: Seq<char>| named_current(app.tools.items, name) == true;
    let t = |name: Seq<char>| named_current(app.tools.items, name);
    assert(r =~= t);
}

/// Saying yes starts the updates that were asked about, to the version that was
/// asked for, and shows the log; no other answer starts anything.
pub proof fn law_only_a_yes_starts_updates(
    app: AppView,
    tools: Seq<Seq<char>>,
    target: Option<Seq<char>>,
    current: Seq<Seq<char>>,
    key: Key,
)
    requires
        app.modal == (ModalView::ConfirmUpdate {
            tools,
            target_version: target,
            current_tools: current,
        }),
    ensures
        ({
            let after = app.dialog_pressed(key);
            let begun = app.closed().batch_prepared(tools, current).updates_begun(tools, target);
            &&& key.accepts() ==> after.modal is Closed && after.tab == Tab::Activity
                && after.effects == begun.effects && after.tools == begun.tools && after.running
                == begun.running && after.activity == begun.activity
            &&& !key.accepts() ==> after.effects == app.effects && after.running == app.running
                && after.tools == app.tools
            &&& !key.accepts() && !key.declines() ==> after == app
            &&& key.declines() ==> after.modal is Closed
        }),
{
    reveal(AppView::confirm_updates_pressed);
    lemma_begun_keeps_the_dialog(app.closed().batch_prepared(tools, current), tools, target);
}

proof fn lemma_begun_keeps_the_dialog(app: AppView, names: Seq<Seq<char>>, target: Option<Seq<char>>)
    ensures
        app.updates_begun(names, target).modal == app.modal,
        app.updates_begun(names, target).language == app.language,
    decreases names.len(),
{
    if names.len() > 0 {
        lemma_begun_keeps_the_dialog(app, names.drop_last(), target);
    }
}

/// Space selects the tool in focus, or takes it out of the selection, where it is
/// installed; nothing else of the list changes.
pub proof fn law_space_selects_the_tool_in_focus(app: AppView, i: int)
    requires
        app.tools.focus() == Some(i),
        0 <= i < app.tools.items.len(),
    ensures
        ({
            let after = app.commands_pressed(Key::bare(KeyCode::Char(' ')));
            &&& app.tools.items[i].availability == Availability::Installed ==> after.tools.items
                == app.tools.items.update(
                i,
                ToolItem { selected: !app.tools.items[i].selected, ..app.tools.items[i] },
            )
            &&& app.tools.items[i].availability != Availability::Installed ==> after.tools
                == app.tools
            &&& after.effects == app.effects
        }),
{
}

/// While something runs, nothing that would start or change anything is begun.
pub proof fn law_running_operations_are_waited_for(app: AppView, key: Key)
    requires
        app.running > 0,
        key.code == KeyCode::Enter || key.is_letter('v', 'V') || key.is_letter('c', 'C')
            || key.is_letter('e', 'E') || key.is_letter('t', 'T') || key.is_letter('o', 'O')
            || key.is_letter('d', 'D') || key.is_letter('u', 'U'),
    ensures
        ({
            let after = app.commands_pressed(key);
            after == AppView { message: after.message, ..app }
        }),
{
}

/// Deleting asks back, and only for a command that the user has added; a yes removes
/// that command by its name.
pub proof fn law_only_custom_commands_are_deleted(app: AppView, i: int, answer: Key)
    requires
        app.modal is Closed,
        app.running == 0,
        app.config_path is None,
        app.tools.focus() == Some(i),
    ensures
        ({
            let name = app.tools.items[i].name@;
            let asked = app.commands_pressed(Key::bare(KeyCode::Char('d')));
            let answered = asked.dialog_pressed(answer);
            &&& asked.effects == app.effects
            &&& app.tools.items[i].kind == ToolKind::BuiltIn ==> asked.modal is Closed
            &&& app.tools.items[i].kind == ToolKind::Custom ==> {
                &&& asked.modal == (ModalView::ConfirmDelete { name })
                &&& answer.accepts() ==> answered.effects == app.effects.push(
                    EffectView::Spawn {
                        arguments: seq!["remove"@, name],
                        name,
                        operation: Operation::Delete,
                    },
                )
                &&& !answer.accepts() ==> answered.effects == app.effects
            }
        }),
{
    reveal(AppView::confirm_delete_pressed);
    assert(remove_words(app.tools.items[i].name@) =~= seq!["remove"@, app.tools.items[i].name@]);
}

/// A version is asked for of an installed tool that supports it; it is then updated
/// to just the version that was typed, once that is confirmed.
pub proof fn law_typed_versions_are_updated_to(app: AppView, name: Seq<char>, version: InputView)
    requires
        app.modal == (ModalView::TargetVersion { name, version }),
    ensures
        ({
            let after = app.dialog_pressed(Key::bare(KeyCode::Enter));
            &&& after.effects == app.effects
            &&& trimmed(version.chars).len() > 0 ==> after.modal == (ModalView::ConfirmUpdate {
                tools: seq![name],
                target_version: Some(trimmed(version.chars)),
                current_tools: Seq::empty(),
            })
            &&& trimmed(version.chars).len() == 0 ==> after.modal == app.modal
        }),
{
    reveal(AppView::target_version_pressed);
}

/// Asking for releases asks back first, for those that are selected, enabled and not
/// current; a yes installs just them.
pub proof fn law_installs_are_confirmed(app: AppView, monitors: Seq<Seq<char>>, key: Key)
    requires
        !app.github.busy(),
        monitors.len() > 0,
        app.modal == (ModalView::ConfirmGithubMonitorUpdate { monitors }),
    ensures
        ({
            let after = app.dialog_pressed(key);
            &&& key.accepts() ==> after.effects == app.effects.push(
                EffectView::InstallReleases { names: monitors },
            ) && after.modal is Closed
            &&& !key.accepts() ==> after.effects == app.effects
        }),
{
    reveal(AppView::confirm_installs_pressed);
}

/// A form of a custom command is put forward only with a name and a command whose
/// quotes are closed and that holds a word; they are put forward as typed, without
/// the white space around them.
pub proof fn law_forms_are_put_forward_as_typed(form: CommandFormView, language: Language)
    requires
        form.field == 1,
    ensures
        ({
            let name = trimmed(form.name.chars);
            let command = trimmed(form.command.chars);
            let (after, ask) = form.pressed(Key::bare(KeyCode::Enter), language);
            let sound = name.len() > 0 && command.len() > 0 && arguments_of(command) is Some
                && arguments_of(command)->0.len() > 0;
            &&& sound ==> ask == (CommandFormAsk::Confirm { name, command }) && after == form
            &&& !sound ==> ask is Say
            &&& after.name == form.name && after.command == form.command
        }),
{
}

/// The interval is saved exactly where what was typed is a number of seconds from
/// a minute to a day.
pub proof fn law_intervals_are_a_minute_to_a_day(app: AppView, seconds: InputView)
    requires
        app.modal == (ModalView::GithubPollInterval { seconds }),
    ensures
        ({
            let after = app.dialog_pressed(Key::bare(KeyCode::Enter));
            let typed = number_of(trimmed(seconds.chars), u64::MAX as nat);
            &&& typed is Some && 60 <= typed->0 <= 86400 ==> after.effects == app.effects.push(
                EffectView::SaveSettings(SettingsChangeView::PollInterval(typed->0 as u64)),
            )
            &&& typed is None || typed->0 < 60 || typed->0 > 86400 ==> after.effects == app.effects
        }),
{
    reveal(AppView::interval_pressed);
}

/// A key is saved as it was typed, without the white space around it, and removed
/// where nothing was typed.
pub proof fn law_typed_keys_are_saved(app: AppView, api_key: InputView)
    requires
        app.modal == (ModalView::GithubApiKey { api_key }),
    ensures
        app.dialog_pressed(Key::bare(KeyCode::Enter)).effects == app.effects.push(
            EffectView::SaveApiKey {
                key: if trimmed(api_key.chars).len() > 0 {
                    Some(trimmed(api_key.chars))
                } else {
                    None
                },
            },
        ),
        app.dialog_pressed(Key::bare(KeyCode::Esc)).effects == app.effects,
{
    reveal(AppView::api_key_pressed);
}

proof fn lemma_trimmed_pieces(pieces: Seq<Seq<char>>)
    ensures
        trimmed_pieces(pieces) == pieces.map_values(|p: Seq<char>| trimmed(p)).filter(
            |p: Seq<char>| p.len() > 0,
        ),
    decreases pieces.len(),
{
    reveal(Seq::filter);
    let f = |p: Seq<char>| trimmed(p);
    if pieces.len() > 0 {
        lemma_trimmed_pieces(pieces.drop_last());
        assert(pieces.map_values(f).drop_last() =~= pieces.drop_last().map_values(f));
        assert(pieces.map_values(f).last() == trimmed(pieces.last()));
    } else {
        assert(pieces.map_values(f) =~= Seq::<Seq<char>>::empty());
    }
}

/// The network settings of a form hold the proxy and the hosts that bypass it in
/// explicit mode, and neither in another.
pub proof fn law_proxies_are_for_explicit_mode(form: ProxyFormView)
    ensures
        form.network().mode == form.mode,
        form.mode == ProxyMode::Explicit ==> form.network().url == Some(trimmed(form.url.chars))
            && form.network().bypass == split_on(form.bypass.chars, ',').map_values(
            |p: Seq<char>| trimmed(p),
        ).filter(|p: Seq<char>| p.len() > 0),
        form.mode != ProxyMode::Explicit ==> form.network().url is None
            && form.network().bypass.len() == 0,
        form.pressed(Key { control: true, ..Key::bare(KeyCode::Char('s')) }).1
            == ProxyFormAsk::Save(form.network()),
{
    lemma_trimmed_pieces(split_on(form.bypass.chars, ','));
}

/// A form of a repository is saved exactly where its numbers are numbers, with all
/// its fields as they stand.
pub proof fn law_monitor_forms_are_saved_as_typed(form: MonitorFormView)
    ensures
        ({
            let download = number_of(trimmed(form.max_download_bytes.chars), u64::MAX as nat);
            let bytes = number_of(trimmed(form.max_extracted_bytes.chars), u64::MAX as nat);
            let files = number_of(trimmed(form.max_extracted_files.chars), usize::MAX as nat);
            let strip = number_of(trimmed(form.strip_components.chars), usize::MAX as nat);
            let sound = download is Some && bytes is Some && files is Some && strip is Some;
            &&& form.monitor() is Ok <==> sound
            &&& form.monitor() matches Ok(m) ==> {
                &&& m.name == trimmed(form.name.chars)
                &&& m.repository == trimmed(form.repository.chars)
                &&& m.asset_regex == trimmed(form.asset_regex.chars)
                &&& m.target_directory == trimmed(form.target_directory.chars)
                &&& m.format == form.format
                &&& m.update_policy == form.update_policy
                &&& m.cleanup_installer == form.cleanup_installer
                &&& m.enabled == form.enabled
                &&& m.max_download_bytes == download->0
                &&& m.max_extracted_bytes == bytes->0
                &&& m.max_extracted_files == files->0
                &&& m.strip_components == strip->0
            }
        }),
{
}

/// Changing a setting changes that one and no other.
pub proof fn law_settings_change_one_by_one(settings: AppSettings, change: SettingsChange)
    ensures
        ({
            let after = changed_settings(settings, change);
            &&& change matches SettingsChange::AutoDiagnose(on) ==> after.auto_diagnose_on_startup
                == on
            &&& !(change is AutoDiagnose) ==> after.auto_diagnose_on_startup
                == settings.auto_diagnose_on_startup
            &&& change matches SettingsChange::HideUnavailable(on)
                ==> after.hide_unsupported_and_missing_tools == on
            &&& !(change is HideUnavailable) ==> after.hide_unsupported_and_missing_tools
                == settings.hide_unsupported_and_missing_tools
            &&& change matches SettingsChange::Language(language) ==> after.language == language
            &&& !(change is Language) ==> after.language == settings.language
            &&& change matches SettingsChange::Network(network) ==> after.network == network
            &&& !(change is Network) ==> after.network == settings.network
            &&& change matches SettingsChange::PollInterval(secs)
                ==> after.github.poll_interval_secs == secs
            &&& !(change is PollInterval) ==> after.github == settings.github
            &&& after.github.encrypted_api_key == settings.github.encrypted_api_key
        }),
{
}

/// What was saved is what the program goes by from then on: the setting, the
/// language it speaks, and which tools it lists.
pub proof fn law_saved_settings_take_effect(app: AppView, change: SettingsChange)
    ensures
        app.change_saved(change).settings == changed_settings(app.settings, change),
        change matches SettingsChange::Language(language) ==> app.change_saved(change).language
            == language,
        !(change is Language) ==> app.change_saved(change).language == app.language,
        change matches SettingsChange::HideUnavailable(on) ==> app.change_saved(
            change,
        ).tools.visible == shown_tools(app.tools.items, on, app.tools.items.len() as int),
        app.change_saved(change).tools.items == app.tools.items,
        change is Network || change is PollInterval ==> app.change_saved(change).modal is Closed,
{
}

/// The rows of the settings switch what they show: the first two turn a setting over
/// and nothing else.
pub proof fn law_rows_turn_settings_over(app: AppView)
    ensures
        app.setting_toggled(0) == app.asked(
            EffectView::SaveSettings(
                SettingsChangeView::AutoDiagnose(!app.settings.auto_diagnose_on_startup),
            ),
        ),
        app.setting_toggled(1) == app.asked(
            EffectView::SaveSettings(
                SettingsChangeView::HideUnavailable(
                    !app.settings.hide_unsupported_and_missing_tools,
                ),
            ),
        ),
        app.setting_toggled(2).modal is NetworkProxy,
        app.setting_toggled(6).modal is GithubApiKey,
        app.setting_toggled(7).modal is GithubPollInterval,
        !app.network_test.loading ==> app.setting_toggled(5).effects.len() == app.effects.len() + 1
            && app.setting_toggled(5).effects.last() is TestNetwork,
{
}

/// Switching the process policy turns it over, and only towards terminating it has
/// the jobs that wait swept; while something runs it stays.
pub proof fn law_the_policy_is_turned_over(app: AppView)
    ensures
        app.running > 0 ==> app.strategy_toggled().process_strategy == app.process_strategy
            && app.strategy_toggled().effects == app.effects,
        app.running == 0 && app.process_strategy == ProcessStrategy::Wait ==> app.strategy_toggled()
            == app.asked(EffectView::TerminateWaits).with_strategy(ProcessStrategy::Terminate),
        app.running == 0 && app.process_strategy == ProcessStrategy::Terminate
            ==> app.strategy_toggled().process_strategy == ProcessStrategy::Wait
            && app.strategy_toggled().effects == app.effects,
{
}

impl AppView {
    /// The state with that process policy.
    pub open spec fn with_strategy(self, process_strategy: ProcessStrategy) -> AppView {
        AppView { process_strategy, ..self }
    }
}

/// A diagnosis of a tool that is not supported says so; of one that is supported
/// a conflict comes first, then whether it was found at all.
pub proof fn law_verdicts(diagnosis: ToolDiagnosis)
    ensures
        verdict(diagnosis) == DoctorStatus::Unsupported <==> !diagnosis.supported,
        verdict(diagnosis) == DoctorStatus::Conflict <==> diagnosis.supported
            && diagnosis.has_conflict,
        verdict(diagnosis) == DoctorStatus::Missing <==> diagnosis.supported
            && !diagnosis.has_conflict && diagnosis.target.candidates@.len() == 0,
        verdict(diagnosis) == DoctorStatus::Fine <==> diagnosis.supported
            && !diagnosis.has_conflict && diagnosis.target.candidates@.len() > 0,
{
}

proof fn lemma_conflicts(diagnoses: Seq<ToolDiagnosis>, places: Seq<int>, n: int)
    requires
        0 <= n <= places.len(),
    ensures
        conflicts_of(diagnoses, places, n) == places.take(n).filter(
            |i: int| diagnoses[i].has_conflict,
        ).len(),
    decreases n,
{
    reveal(Seq::filter);
    if n > 0 {
        lemma_conflicts(diagnoses, places, n - 1);
        assert(places.take(n).drop_last() =~= places.take(n - 1));
        assert(places.take(n).last() == places[n - 1]);
    } else {
        assert(places.take(0) =~= Seq::<int>::empty());
    }
}

/// What a scan has found is shown, and it is told how many tools are listed and how
/// many of them have a conflict.
pub proof fn law_scans_are_summed_up(
    app: AppView,
    diagnoses: Vec<ToolDiagnosis>,
)
    requires
        app.language == Language::English,
    ensures
        ({
            let after = app.after_event(
                AppEvent::DoctorResolved {
                    probe_id: app.doctor.probe_id,
                    diagnoses,
                    error: None,
                },
            );
            let shown = shown_diagnoses(diagnoses@, app.hides());
            &&& after.doctor.diagnoses == diagnoses@
            &&& !after.doctor.loading
            &&& after.doctor.checked_at == Some(app.now_text)
            &&& after.message == "Diagnostics complete: "@ + decimal_text(shown.len())
                + " tool(s), "@ + decimal_text(
                shown.filter(|i: int| diagnoses@[i].has_conflict).len(),
            ) + " conflict(s)"@
        }),
{
    let shown = shown_diagnoses(diagnoses@, app.hides());
    lemma_conflicts(diagnoses@, shown, shown.len() as int);
    assert(shown.take(shown.len() as int) =~= shown);
}

proof fn lemma_failed_tests_count(results: Seq<NetworkTestResult>, n: int)
    requires
        0 <= n <= results.len(),
    ensures
        failed_tests(results, n) == results.take(n).filter(
            |r: NetworkTestResult| r.error is Some,
        ).len(),
        results.take(n).filter(|r: NetworkTestResult| r.error is Some).len() + results.take(
            n,
        ).filter(|r: NetworkTestResult| r.error is None).len() == n,
    decreases n,
{
    reveal(Seq::filter);
    if n > 0 {
        lemma_failed_tests_count(results, n - 1);
        assert(results.take(n).drop_last() =~= results.take(n - 1));
        assert(results.take(n).last() == results[n - 1]);
    } else {
        assert(results.take(0) =~= Seq::<NetworkTestResult>::empty());
    }
}

/// What a network test has found is shown, and it is told how many hosts were
/// reached and how many were not.
pub proof fn law_network_tests_are_summed_up(app: AppView, results: Vec<NetworkTestResult>)
    requires
        app.language == Language::English,
    ensures
        ({
            let after = app.after_event(
                AppEvent::NetworkTestResolved {
                    probe_id: app.network_test.probe_id,
                    results: Ok(results),
                },
            );
            &&& after.network_test.results == results@
            &&& !after.network_test.loading
            &&& after.message == "Network test complete: "@ + decimal_text(
                results@.filter(|r: NetworkTestResult| r.error is None).len(),
            ) + " succeeded, "@ + decimal_text(
                results@.filter(|r: NetworkTestResult| r.error is Some).len(),
            ) + " failed"@
        }),
{
    let n = results@.len() as int;
    lemma_failed_tests_count(results@, n);
    assert(results@.take(n) =~= results@);
}

proof fn lemma_completed(before: Seq<JobItem>, jobs: Seq<JobItem>, n: int, i: int)
    requires
        0 <= i < n <= jobs.len(),
        jobs[i].status is Succeeded,
        job_active(before, jobs[i].id@),
    ensures
        completed_names(before, jobs, n).contains(jobs[i].name@),
    decreases n,
{
    let names = completed_names(before, jobs, n - 1);
    let all = completed_names(before, jobs, n);
    if i < n - 1 {
        lemma_completed(before, jobs, n - 1, i);
        let k = choose|k: int| 0 <= k < names.len() && names[k] == jobs[i].name@;
        assert(all[k] == jobs[i].name@);
    } else if !names.contains(jobs[i].name@) {
        assert(all[names.len() as int] == jobs[i].name@);
    } else {
        assert(all == names);
    }
}

proof fn lemma_completed_once(before: Seq<JobItem>, jobs: Seq<JobItem>, n: int)
    requires
        0 <= n <= jobs.len(),
    ensures
        completed_names(before, jobs, n).no_duplicates(),
    decreases n,
{
    if n > 0 {
        lemma_completed_once(before, jobs, n - 1);
    }
}

/// Every tool whose job is seen to have succeeded since the jobs were read before
/// has its versions asked for again, once.
pub proof fn law_completed_jobs_are_noticed(before: Seq<JobItem>, jobs: Seq<JobItem>, i: int)
    requires
        0 <= i < jobs.len(),
        jobs[i].status is Succeeded,
        job_active(before, jobs[i].id@),
    ensures
        completed_names(before, jobs, jobs.len() as int).contains(jobs[i].name@),
        completed_names(before, jobs, jobs.len() as int).no_duplicates(),
{
    lemma_completed(before, jobs, jobs.len() as int, i);
    lemma_completed_once(before, jobs, jobs.len() as int);
}

/// A job counts as active where one of its number was listed and had not ended.
pub proof fn law_active_jobs_have_not_ended(jobs: Seq<JobItem>, id: Seq<char>, i: int)
    requires
        0 <= i < jobs.len(),
        jobs[i].id@ == id,
        forall|k: int| 0 <= k < jobs.len() && k != i ==> (#[trigger] jobs[k]).id@ != id,
    ensures
        job_active(jobs, id) <==> !(jobs[i].status is Succeeded) && !(jobs[i].status is Failed),
{
    if job_active(jobs, id) {
        let k = choose|k: int|
            0 <= k < jobs.len() && (#[trigger] jobs[k]).id@ == id && !jobs[k].status.terminal();
        assert(k == i);
    }
}

/// Saving in the TOML editor writes the text as it stands to the file that it was
/// opened from, and copying hands on what is selected.
pub proof fn law_the_editor_saves_its_text(
    app: AppView,
    editor: TomlEditor,
    new: AppView,
    key: Key,
)
    requires
        key.control,
        key.is_letter('s', 'S') || key.is_letter('c', 'C'),
        app.editor_pressed(new, editor, key),
    ensures
        key.is_letter('s', 'S') ==> new.effects == app.effects.push(
            EffectView::SaveToml { path: editor.path@, text: editor.text@ },
        ),
        key.is_letter('c', 'C') && editor.body().selection() is Some ==> new.effects
            == app.effects.push(EffectView::CopyText { text: editor.body().selected() }),
        key.is_letter('c', 'C') && editor.body().selection() is None ==> new.effects == app.effects,
{
}

} // verus!
