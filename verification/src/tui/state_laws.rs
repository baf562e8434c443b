//! What holds of what is done in the background: what is begun only once, what is
//! asked before it is done, and what is kept of its results.

use crate::job::JobStatus;
use crate::tui::app::{AppView, InitialLoadData};
use crate::tui::github::{GithubView, with_outcomes};
use crate::tui::keys::{Key, KeyCode};
use crate::tui::labels::{Availability, Operation};
use crate::tui::modal::{EffectView, ModalView, ReloadPurpose};
use crate::tui::model::{GithubReleaseMonitor, MonitorOutcome};
use crate::tui::settings::KeyError;
use crate::tui::sweep::{JobSweep, SweepStep, step_for, swept};
use crate::version::GithubRateLimit;
use vstd::prelude::*;
use vstd::string::*;

verus! {

/// Before a tool is uninstalled, a dialog shows the command that will do it; a tool
/// that is not there, or has no such command, is not uninstalled, and nothing is while
/// something else runs.
pub proof fn law_uninstalls_are_confirmed(app: AppView, i: int)
    requires
        app.tools.focus() == Some(i),
    ensures
        ({
            let tool = app.tools.items[i];
            let after = app.uninstall_requested();
            &&& after.effects == app.effects
            &&& after.tools == app.tools
            &&& app.running == 0 && tool.availability == Availability::Installed ==> (
            tool.uninstall matches Some(uninstall) ==> after.modal == (ModalView::ConfirmUninstall {
                name: tool.name@,
                command: uninstall.text@,
                derived: uninstall.derived,
            }))
            &&& app.running > 0 || tool.availability != Availability::Installed || tool.uninstall
                is None ==> after.modal == app.modal
        }),
{
}

/// Only a yes uninstalls, and it uninstalls the tool that was asked about.
pub proof fn law_only_a_yes_uninstalls(app: AppView, name: Seq<char>, key: Key)
    ensures
        ({
            let after = app.confirm_uninstall_pressed(name, key);
            let yes = key.code == KeyCode::Char('y') || key.code == KeyCode::Char('Y') || key.code
                == KeyCode::Enter;
            &&& !yes ==> after.effects == app.effects && after.running == app.running
            &&& yes ==> after.effects.len() == app.effects.len() + 1 && (after.effects.last()
                matches EffectView::Spawn { arguments, name: of, operation } ==> of == name
                && operation == Operation::Uninstall && arguments.last() == name
                && arguments[0] == "uninstall"@)
            &&& yes ==> after.effects.last() is Spawn && after.modal is Closed
        }),
{
    reveal(AppView::confirm_uninstall_pressed);
}

/// At most one operation on the repositories runs at a time: while one does, neither
/// a look at them nor an installation is begun.
pub proof fn law_repositories_are_worked_on_one_at_a_time(
    app: AppView,
    manual: bool,
    names: Seq<Seq<char>>,
)
    ensures
        app.github.probe_running || app.github.install_running ==> {
            &&& app.releases_asked(manual).effects == app.effects
            &&& app.releases_asked(manual).github == app.github
            &&& app.installs_started(names).effects == app.effects
            &&& app.installs_started(names).github == app.github
        },
        !(app.github.probe_running || app.github.install_running) ==> {
            &&& app.github.monitors.len() > 0 ==> app.releases_asked(manual).github.probe_running
                && app.releases_asked(manual).effects == app.effects.push(
                EffectView::ProbeReleases,
            )
            &&& app.github.monitors.len() == 0 ==> app.releases_asked(manual).effects
                == app.effects
            &&& names.len() > 0 ==> app.installs_started(names).github.install_running
                && app.installs_started(names).effects == app.effects.push(
                EffectView::InstallReleases { names },
            )
            &&& names.len() == 0 ==> app.installs_started(names) == app
        },
{
}

proof fn lemma_outcomes_noted(app: AppView, outcomes: Seq<MonitorOutcome>, n: int)
    requires
        0 <= n <= outcomes.len(),
    ensures
        ({
            let after = app.outcomes_noted(outcomes, n);
            &&& after.github == (GithubView { statuses: after.github.statuses, ..app.github })
            &&& after.effects == app.effects
            &&& after.tools == app.tools
            &&& after.github.statuses == with_outcomes(app.github.statuses, outcomes, n)
        }),
    decreases n,
{
    if n > 0 {
        lemma_outcomes_noted(app, outcomes, n - 1);
    }
}

/// Once an installation has ended, another one can begin, whatever became of it. Where
/// it came to results, nothing is selected any more and each result is noted.
pub proof fn law_ended_installations_are_noted(
    app: AppView,
    list: Vec<MonitorOutcome>,
    error: String,
)
    ensures
        ({
            let done = app.releases_installed(Ok(list));
            let failed = app.releases_installed(Err(error));
            &&& !done.github.install_running && !failed.github.install_running
            &&& done.github.last_refresh == app.now_ms && failed.github.last_refresh == app.now_ms
            &&& done.github.selected == Set::<Seq<char>>::empty()
            &&& done.github.statuses == with_outcomes(
                app.github.statuses,
                list@,
                list@.len() as int,
            )
            &&& failed.github.selected == app.github.selected
            &&& failed.github.statuses == app.github.statuses
            &&& done.github.monitors == app.github.monitors
            &&& done.effects == app.effects && failed.effects == app.effects
        }),
{
    let github = GithubView { install_running: false, last_refresh: app.now_ms, ..app.github };
    lemma_outcomes_noted(AppView { github, ..app }, list@, list@.len() as int);
}

/// A repository can be selected where it is enabled; another one is left as it is.
pub proof fn law_enabled_repositories_are_selected(app: AppView, name: Seq<char>)
    requires
        app.github.index < app.github.monitors.len(),
    ensures
        ({
            let monitor = app.github.monitors[app.github.index as int];
            let after = app.monitor_toggled();
            &&& !monitor.enabled ==> after.github == app.github
            &&& monitor.enabled ==> (after.github.selected.contains(monitor.name@)
                <==> !app.github.selected.contains(monitor.name@))
            &&& name != monitor.name@ ==> (after.github.selected.contains(name)
                <==> app.github.selected.contains(name))
            &&& after.github.monitors == app.github.monitors
            &&& after.effects == app.effects
        }),
{
}

/// Selecting all repositories selects the enabled ones, and where they are selected
/// already, none.
pub proof fn law_all_enabled_repositories_are_selected(github: GithubView, i: int)
    requires
        0 <= i < github.monitors.len(),
        github.monitors[i].enabled,
    ensures
        !github.selected.contains(github.monitors[i].name@) ==> forall|k: int|
            0 <= k < github.monitors.len() && (#[trigger] github.monitors[k]).enabled
                ==> github.toggled_all().selected.contains(github.monitors[k].name@),
        (forall|k: int|
            0 <= k < github.monitors.len() && (#[trigger] github.monitors[k]).enabled
                ==> github.selected.contains(github.monitors[k].name@))
            ==> github.toggled_all().selected == Set::<Seq<char>>::empty(),
        github.toggled_all().monitors == github.monitors,
{
    let name = github.monitors[i].name@;
    assert(github.enabled_names().contains(name));
    if forall|k: int|
        0 <= k < github.monitors.len() && (#[trigger] github.monitors[k]).enabled
            ==> github.selected.contains(github.monitors[k].name@) {
        assert(github.enabled_names().subset_of(github.selected));
    }
}

/// A saved key is used at once: all tools are asked about again and the quota is asked
/// for; a removed one is forgotten together with the quota. A key that could not be
/// saved changes nothing.
pub proof fn law_saved_keys_are_used(app: AppView, key: Option<String>, error: KeyError)
    ensures
        ({
            let saved = app.key_saved(Ok(key));
            let failed = app.key_saved(Err(error));
            &&& saved.modal is Closed
            &&& saved.settings.github.encrypted_api_key == key
            &&& saved.settings.github.poll_interval_secs
                == app.settings.github.poll_interval_secs
            &&& saved.quota.key_configured == (key is Some)
            &&& saved.quota.rate_limit is None
            &&& key is Some ==> saved.quota.loading && saved.tools == app.tools.all_probed()
                && saved.effects == app.effects.push(
                EffectView::FetchRateLimit { probe_id: saved.quota.probe_id },
            )
            &&& key is None ==> !saved.quota.loading && saved.tools == app.tools && saved.effects
                == app.effects
            &&& failed.settings == app.settings && failed.modal == app.modal && failed.quota
                == app.quota && failed.effects == app.effects && failed.tools == app.tools
        }),
{
}

/// The quota that was asked for is shown; where asking failed, the last one stays
/// beside the error.
pub proof fn law_quotas_are_kept(app: AppView, limit: GithubRateLimit, error: String)
    ensures
        ({
            let known = app.quota_resolved(app.quota.probe_id, Ok(limit));
            let failed = app.quota_resolved(app.quota.probe_id, Err(error));
            &&& known.quota.rate_limit == Some(limit) && known.quota.error is None
            &&& failed.quota.rate_limit == app.quota.rate_limit && failed.quota.error == Some(error)
            &&& !known.quota.loading && !failed.quota.loading
        }),
{
}

/// A key that is found has the quota asked for; without one no quota is shown.
pub proof fn law_keys_are_looked_up(app: AppView, error: String)
    ensures
        ({
            let id = app.quota.credential_probe_id;
            let found = app.credential_resolved(id, Ok(true));
            let none = app.credential_resolved(id, Ok(false));
            let failed = app.credential_resolved(id, Err(error));
            &&& found.quota.key_configured && found.quota.loading
            &&& !app.quota.loading ==> found.effects == app.effects.push(
                EffectView::FetchRateLimit { probe_id: found.quota.probe_id },
            )
            &&& !none.quota.key_configured && none.quota.rate_limit is None
                && none.quota.credential_error is None
            &&& !failed.quota.key_configured && failed.quota.rate_limit is None
                && failed.quota.credential_error == Some(error)
            &&& none.effects == app.effects && failed.effects == app.effects
        }),
{
}

/// What was loaded at the start is what is shown, and the installations are scanned
/// exactly where the settings say so.
pub proof fn law_what_was_loaded_is_shown(app: AppView, data: InitialLoadData, i: int)
    requires
        !app.doctor.loading,
    ensures
        ({
            let after = app.loaded(data);
            &&& after.initial_load is None
            &&& after.github.monitors == data.github_monitors@
            &&& after.jobs.items == data.jobs@
            &&& after.jobs.last_refresh == app.now_ms
            &&& app.settings.auto_diagnose_on_startup ==> after.effects == app.effects.push(
                EffectView::LoadManifest { quiet: true },
            )
            &&& !app.settings.auto_diagnose_on_startup ==> after.effects == app.effects
        }),
{
}

/// A scan is begun once at a time; one that is begun is run, and one whose manifest
/// could not be loaded is not.
pub proof fn law_scans_run_one_at_a_time(app: AppView, quiet: bool, error: Seq<char>)
    ensures
        app.doctor.loading ==> app.scan_requested(quiet).effects == app.effects,
        !app.doctor.loading ==> app.scan_requested(quiet).effects == app.effects.push(
            EffectView::LoadManifest { quiet },
        ),
        ({
            let begun = app.scan_begun(quiet, None);
            let failed = app.scan_begun(quiet, Some(error));
            &&& begun.doctor.loading
            &&& begun.effects == app.effects.push(
                EffectView::Diagnose { probe_id: begun.doctor.probe_id },
            )
            &&& begun.doctor.diagnoses == app.doctor.diagnoses
            &&& failed.doctor == app.doctor && failed.effects == app.effects
            &&& quiet ==> failed.message == app.message
        }),
{
}

/// A network test runs once at a time and forgets the results of the last one.
pub proof fn law_network_tests_run_one_at_a_time(app: AppView)
    ensures
        app.network_test.loading ==> app.network_test_started().effects == app.effects
            && app.network_test_started().network_test == app.network_test,
        !app.network_test.loading ==> {
            let after = app.network_test_started();
            &&& after.network_test.loading
            &&& after.network_test.results.len() == 0
            &&& after.effects == app.effects.push(
                EffectView::TestNetwork { probe_id: after.network_test.probe_id },
            )
        },
{
}

/// Changed network settings have everything asked anew that goes through the network:
/// the tools, and the quota where there is a key.
pub proof fn law_changed_networks_are_used(app: AppView)
    ensures
        ({
            let after = app.network_changed();
            &&& !after.network_test.loading
            &&& after.network_test.results.len() == 0
            &&& after.quota.rate_limit is None
            &&& after.effects.last() == EffectView::ReloadTools(ReloadPurpose::NetworkChanged)
            &&& after.quota.loading == app.quota.key_configured
        }),
{
}

/// Where the tools could not be loaded anew, those that are shown stay.
pub proof fn law_failed_reloads_change_nothing(app: AppView, purpose: ReloadPurpose, error: String)
    ensures
        ({
            let after = app.tools_reloaded(purpose, Err(error));
            &&& after.tools == app.tools
            &&& after.github == app.github
            &&& after.effects == app.effects
            &&& after.settings == app.settings
        }),
{
}

/// A repository that was deleted is gone with what was known of it, the others stay,
/// and the focus is on one that is there.
pub proof fn law_deleted_repositories_are_gone(
    app: AppView,
    index: usize,
    monitors: Vec<GithubReleaseMonitor>,
    name: String,
    error: String,
)
    ensures
        ({
            let after = app.monitor_deleted(index, Ok((monitors, name)));
            let failed = app.monitor_deleted(index, Err(error));
            &&& after.github.monitors == monitors@
            &&& !after.github.selected.contains(name@)
            &&& forall|other: Seq<char>| #[trigger]
                after.github.selected.contains(other) <==> other != name@
                    && app.github.selected.contains(other)
            &&& monitors@.len() > 0 ==> after.github.index < monitors@.len()
            &&& index < monitors@.len() ==> after.github.index == index
            &&& failed.github.monitors == app.github.monitors && failed.github.selected
                == app.github.selected && failed.github.statuses == app.github.statuses
        }),
{
}

/// Where a job was passed over.
pub open spec fn was_skipped(job: JobSweep) -> bool {
    job is Refused || job is Unstopped
}

/// Where a job was started again.
pub open spec fn was_restarted(job: JobSweep) -> bool {
    job matches JobSweep::Requeued { restarted, .. } && restarted
}

proof fn lemma_swept(jobs: Seq<JobSweep>, n: int)
    requires
        0 <= n <= jobs.len() <= usize::MAX,
    ensures
        swept(jobs, n).skipped_jobs == jobs.take(n).filter(|j: JobSweep| was_skipped(j)).len(),
        swept(jobs, n).restarted_jobs == jobs.take(n).filter(|j: JobSweep| was_restarted(j)).len(),
        swept(jobs, n).skipped_jobs <= n,
        swept(jobs, n).restarted_jobs <= n,
    decreases n,
{
    reveal(Seq::filter);
    if n > 0 {
        lemma_swept(jobs, n - 1);
        assert(jobs.take(n).drop_last() =~= jobs.take(n - 1));
        assert(jobs.take(n).last() == jobs[n - 1]);
    }
}

/// The jobs that were passed over are those that were refused or whose processes could
/// not be ended, and those that were restarted are those of which that was told.
pub proof fn law_swept_jobs_are_told_apart(jobs: Seq<JobSweep>)
    requires
        jobs.len() <= usize::MAX,
    ensures
        ({
            let sum = swept(jobs, jobs.len() as int);
            &&& sum.skipped_jobs == jobs.filter(|j: JobSweep| was_skipped(j)).len()
            &&& sum.restarted_jobs == jobs.filter(|j: JobSweep| was_restarted(j)).len()
        }),
{
    lemma_swept(jobs, jobs.len() as int);
    assert(jobs.take(jobs.len() as int) =~= jobs);
}

/// Processes that were ended and rules that were changed add up over the jobs.
pub proof fn law_ended_processes_add_up(jobs: Seq<JobSweep>, n: int, changed: usize, stopped: usize)
    requires
        0 < n <= jobs.len(),
        swept(jobs, n - 1).changed_rules + changed <= usize::MAX,
        swept(jobs, n - 1).stopped_processes + stopped <= usize::MAX,
    ensures
        jobs[n - 1] == (JobSweep::Overtaken { changed, stopped }) || jobs[n - 1]
            == (JobSweep::Requeued { changed, stopped, restarted: true }) || jobs[n - 1]
            == (JobSweep::Requeued { changed, stopped, restarted: false }) ==> {
            &&& swept(jobs, n).changed_rules == swept(jobs, n - 1).changed_rules + changed
            &&& swept(jobs, n).stopped_processes == swept(jobs, n - 1).stopped_processes + stopped
        },
        jobs[n - 1] == (JobSweep::Unstopped { changed }) ==> {
            &&& swept(jobs, n).changed_rules == swept(jobs, n - 1).changed_rules + changed
            &&& swept(jobs, n).stopped_processes == swept(jobs, n - 1).stopped_processes
        },
        jobs[n - 1] is Refused ==> {
            &&& swept(jobs, n).changed_rules == swept(jobs, n - 1).changed_rules
            &&& swept(jobs, n).stopped_processes == swept(jobs, n - 1).stopped_processes
        },
{
}

/// The rules of the jobs that wait are changed, and a worker is looked for where one
/// has been at work; jobs that run or have ended are left alone.
pub proof fn law_only_waiting_jobs_are_swept(status: JobStatus)
    ensures
        step_for(status) is Leave <==> status is Running || status is Succeeded || status is Failed,
        status is Pending ==> step_for(status) == (SweepStep::ChangeRules { recover: false }),
        status is WaitingForLocks || status is TerminatingProcesses ==> step_for(status) == (
        SweepStep::ChangeRules { recover: true }),
{
}

} // verus!
