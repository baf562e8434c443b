//! What holds of what is shown: that each thing is listed with what is known of it,
//! and that marks and colours tell what they stand for.

use crate::job::JobStatus;
use crate::language::Language;
use crate::number::decimal_text;
use crate::search::{begins_with, finishes_with, has_text, lines, lowered};
use crate::tui::activity::{ActivityTone, core_of, line_failed, line_queued, outcome_name, tone_of};
use crate::tui::app::AppView;
use crate::tui::details::{diagnosis_lines, executable_lines};
use crate::tui::geometry::{Rect, behind};
use crate::tui::github::Quota;
use crate::tui::keys::{Key, KeyCode};
use crate::tui::labels::{Availability, RunState, VersionState};
use crate::tui::loading::{ToolReadiness, availability_of};
use crate::tui::model::{
    ExecutableDiagnosis, GithubReleaseMonitor, JobItem, MonitorStatus, ToolDiagnosis, ToolItem,
    monitor_result, run_result, same_release,
};
use crate::tui::screen::{quota_color, quota_shown};
use crate::tui::style::Color;
use crate::tui::tables::{doctor_cells, job_cells, monitor_cells, scrollbar_of};
use crate::version::{GithubRateLimit, shown};
use vstd::prelude::*;
use vstd::string::*;

verus! {

/// Every place where a program was found has a line of its own, in the order of the
/// search path: the first one is told to be active, each other one to be shadowed,
/// each with its path, where it is from, and its version.
pub proof fn law_every_installation_is_listed(executable: ExecutableDiagnosis, updater: bool, i: int)
    requires
        0 <= i < executable.candidates@.len(),
    ensures
        ({
            let lines = executable_lines(executable, updater, Language::English);
            let candidate = executable.candidates@[i];
            let pieces = lines[i + 1].pieces;
            &&& lines.len() == executable.candidates@.len() + 1
            &&& lines[0].pieces[1].text == executable.program@
            &&& pieces.len() == 4
            &&& i == 0 ==> pieces[0].text == "active: "@
            &&& i > 0 ==> pieces[0].text == "shadowed: "@
            &&& pieces[1].text == candidate.path@
            &&& pieces[2].text == "  ["@ + candidate.source@ + "]  "@
            &&& candidate.version is Some ==> pieces[3].text == "version "@
                + candidate.version->0@
            &&& candidate.version is None ==> pieces[3].text == "version unknown"@
        }),
{
    reveal_strlit("version ");
    reveal_strlit("unknown");
    reveal_strlit("version unknown");
    if executable.candidates@[i].version is None {
        assert("version "@ + "unknown"@ =~= "version unknown"@);
    }
}

/// What was found of a supported tool is followed by the cause of a conflict and its
/// remedy exactly where there is one.
pub proof fn law_conflicts_are_told(diagnosis: ToolDiagnosis, os: Seq<char>)
    requires
        diagnosis.supported,
    ensures
        ({
            let lines = diagnosis_lines(diagnosis, Language::English, os);
            let found: int = 1 + executable_lines(diagnosis.target, false, Language::English).len() + (
            match diagnosis.updater {
                Some(updater) => 1int + executable_lines(updater, true, Language::English).len(),
                None => 0int,
            });
            &&& !diagnosis.has_conflict ==> lines.len() == found
            &&& diagnosis.has_conflict ==> lines.len() == found + 3
            &&& diagnosis.has_conflict && diagnosis.target.versions_differ ==> lines[found
                + 1].pieces[0].text == "conflict: PATH candidates report different versions"@
            &&& diagnosis.has_conflict && diagnosis.updater is None
                && !diagnosis.target.versions_differ ==> lines[found + 1].pieces[0].text
                == "conflict: multiple installations are visible in PATH"@
        }),
{
}

/// The list of the tools shows of each listed tool whether it is selected, its name,
/// its versions and its command.
pub proof fn law_tools_are_listed(app: AppView, i: int)
    requires
        0 <= i < app.tools.visible.len(),
    ensures
        ({
            let tool = app.tools.items[app.tools.visible[i] as int];
            let pieces = app.tool_rows()[i].pieces;
            &&& app.tool_rows().len() == app.tools.visible.len()
            &&& pieces.len() == 8
            &&& pieces[0].text == if tool.selected {
                "[x]"@
            } else {
                "[ ]"@
            }
            &&& pieces[1].text == tool.name@
            &&& tool.version matches VersionState::Available(v) ==> pieces[3].text == v@
            &&& tool.latest_version matches VersionState::Available(v) ==> pieces[4].text == v@
            &&& pieces[7].text == tool.command@
        }),
{
}

/// What an update has come to is told in words of its own, with the time that it took.
pub proof fn law_run_states_are_told_apart(tool: ToolItem, frame: u64)
    ensures
        tool.elapsed is None ==> run_result(tool, frame, Language::English) == match tool.run_state {
            RunState::Idle => ""@,
            RunState::Running => if frame % 2 == 0 {
                "running ·"@
            } else {
                "running •"@
            },
            RunState::UpToDate => "up to date"@,
            RunState::Updated => "updated"@,
            RunState::Queued => "queued"@,
            RunState::Failed => "failed"@,
        },
        tool.elapsed matches Some(secs) ==> tool.run_state == RunState::Failed ==> run_result(
            tool,
            frame,
            Language::English,
        ) == "failed"@ + " "@ + secs@ + "s"@,
        tool.elapsed matches Some(secs) ==> tool.run_state == RunState::Updated ==> run_result(
            tool,
            frame,
            Language::English,
        ) == "updated"@ + " "@ + secs@ + "s"@,
{
}

/// A repository is told to have an update exactly where it is enabled, was looked at
/// without an error, and its latest release is not the installed one.
pub proof fn law_available_releases_are_told(monitor: GithubReleaseMonitor, status: MonitorStatus)
    ensures
        ({
            let (said, _) = monitor_result(monitor, Some(status), Language::English);
            let outdated = status.latest_tag is Some && (status.installed_tag is None
                || !same_release(status.installed_tag->0@, status.latest_tag->0@));
            &&& monitor.enabled && status.error is None && outdated ==> said == "update available"@
            &&& monitor.enabled && status.error is Some ==> said == "fetch failed"@
            &&& monitor.enabled && status.error is None && status.latest_tag is Some && !outdated
                ==> said == "up to date"@
            &&& !monitor.enabled ==> said == "disabled"@
        }),
{
}

/// The states of a job are told apart, and what a successful one warned of is told.
pub proof fn law_states_of_jobs_are_told_apart(status: JobStatus)
    ensures
        Language::English.status_name(status) == match status {
            JobStatus::Pending => "pending"@,
            JobStatus::WaitingForLocks { .. } => "waiting_for_locks"@,
            JobStatus::TerminatingProcesses { .. } => "terminating_processes"@,
            JobStatus::Running { .. } => "running"@,
            JobStatus::Succeeded { warned, .. } => if warned {
                "succeeded (warned)"@
            } else {
                "succeeded"@
            },
            JobStatus::Failed { .. } => "failed"@,
        },
        status.terminal() <==> status is Succeeded || status is Failed,
        status.waits() <==> status is Pending || status is WaitingForLocks || status
            is TerminatingProcesses,
{
}

/// The log tells a failure, a wait and a success apart.
pub proof fn law_outcomes_are_told_apart(success: bool, queued: bool)
    ensures
        !success ==> outcome_name(success, queued, Language::English) == "FAILED"@,
        success && queued ==> outcome_name(success, queued, Language::English) == "QUEUED"@,
        success && !queued ==> outcome_name(success, queued, Language::English) == "OK"@,
{
}

/// A line of the log that tells of an error has the tone of one, whatever else it
/// says; only a line that does not can tell of a wait, and only one that tells of
/// neither of a success.
pub proof fn law_errors_are_heard_first(text: Seq<char>)
    ensures
        ({
            let line = core_of(text);
            let lower = lowered(line);
            &&& begins_with(lower, "error:"@) || finishes_with(lower, ": failed"@) || has_text(
                lower,
                " failed with error"@,
            ) ==> tone_of(text) == ActivityTone::Error
            &&& finishes_with(lower, ": queued"@) && !line_failed(line, lower) ==> tone_of(text)
                == ActivityTone::Queued
            &&& finishes_with(lower, ": ok"@) && !line_failed(line, lower) && !line_queued(
                line,
                lower,
            ) ==> tone_of(text) == ActivityTone::Success
            &&& tone_of(text) == ActivityTone::Success ==> !begins_with(lower, "error:"@)
                && !finishes_with(lower, ": failed"@)
        }),
{
}

/// What is left of a quota is coloured by how much of the limit it is: at most a
/// tenth, at most a quarter, or more.
pub proof fn law_quotas_are_coloured(remaining: int, limit: int)
    requires
        0 <= remaining <= limit,
        0 < limit,
    ensures
        quota_color(remaining, limit) == Color::Error <==> 10 * remaining <= limit,
        quota_color(remaining, limit) == Color::Success <==> 4 * remaining > limit,
        quota_color(limit, limit) == Color::Success,
        quota_color(0, limit) == Color::Error,
{
}

/// What a quota shows is what was used of what limit.
pub proof fn law_quotas_show_what_is_used(quota: Quota, rate: GithubRateLimit)
    requires
        quota.rate_limit == Some(rate),
        !quota.loading && quota.error is None,
    ensures
        ({
            let (used, limit, color, said) = quota_shown(quota, Language::English);
            &&& used == rate.used
            &&& limit == rate.limit
            &&& said == "GitHub API  @"@ + rate.owner@ + " · used "@ + decimal_text(
                rate.used as nat,
            ) + " / "@ + decimal_text(rate.limit as nat) + " · remaining "@ + decimal_text(
                rate.remaining as nat,
            )
        }),
{
    assert(quota_shown(quota, Language::English).3 =~= "GitHub API  @"@ + rate.owner@ + " · used "@
        + decimal_text(rate.used as nat) + " / "@ + decimal_text(rate.limit as nat)
        + " · remaining "@ + decimal_text(rate.remaining as nat));
}

/// Going down leads to the next row and from the last one to the first, going up to
/// the row before and from the first one to the last, in every list.
pub proof fn law_arrows_go_from_row_to_row(app: AppView, down: Key, up: Key)
    requires
        down.code == KeyCode::Down,
        up.code == KeyCode::Up,
    ensures
        app.tools.index + 1 < app.tools.visible.len() <= usize::MAX ==> app.commands_pressed(
            down,
        ).tools.index == app.tools.index + 1,
        0 < app.tools.index < app.tools.visible.len() ==> app.commands_pressed(up).tools.index
            == app.tools.index - 1,
        0 < app.tools.visible.len() <= usize::MAX && app.tools.index + 1 == app.tools.visible.len()
            ==> app.commands_pressed(down).tools.index == 0,
        0 < app.tools.visible.len() <= usize::MAX && app.tools.index == 0 ==> app.commands_pressed(
            up,
        ).tools.index == app.tools.visible.len() - 1,
        app.github.index + 1 < app.github.monitors.len() <= usize::MAX ==> app.github_pressed(
            down,
        ).github.index == app.github.index + 1,
        0 < app.github.index < app.github.monitors.len() ==> app.github_pressed(up).github.index
            == app.github.index - 1,
        app.jobs.index + 1 < app.jobs.items.len() <= usize::MAX ==> app.jobs_pressed(
            down,
        ).jobs.index == app.jobs.index + 1,
        0 < app.jobs.index < app.jobs.items.len() ==> app.jobs_pressed(up).jobs.index
            == app.jobs.index - 1,
{
    if app.tools.index + 1 < app.tools.visible.len() {
        lemma_behind(app.tools.index as int, app.tools.visible.len() as int);
    }
    if 0 < app.tools.visible.len() && app.tools.index + 1 == app.tools.visible.len() {
        vstd::arithmetic::div_mod::lemma_mod_self_0(app.tools.visible.len() as int);
    }
    if app.github.index + 1 < app.github.monitors.len() {
        lemma_behind(app.github.index as int, app.github.monitors.len() as int);
    }
    if app.jobs.index + 1 < app.jobs.items.len() {
        lemma_behind(app.jobs.index as int, app.jobs.items.len() as int);
    }
}

proof fn lemma_behind(index: int, length: int)
    requires
        0 <= index,
        index + 1 < length,
    ensures
        behind(index, length) == index + 1,
{
    vstd::arithmetic::div_mod::lemma_small_mod((index + 1) as nat, length as nat);
}

/// A tool is installed, missing, without its updater, or not supported, as it was
/// found.
pub proof fn law_availability_is_as_found(readiness: ToolReadiness)
    ensures
        availability_of(readiness) == Availability::Installed <==> readiness
            is Installed,
        availability_of(readiness) == Availability::Missing <==> readiness is TargetMissing,
        availability_of(readiness) == Availability::UpdaterMissing <==> readiness
            is UpdaterMissing,
        availability_of(readiness) == Availability::Unsupported <==> readiness is Unsupported,
{
}

/// The list of the jobs shows of each job its name, what it does, and its number.
pub proof fn law_jobs_are_listed(job: JobItem, unfolded: bool, updated: Seq<char>)
    ensures
        ({
            let pieces = job_cells(job, unfolded, updated, Language::English).pieces;
            &&& pieces.len() == 4
            &&& pieces[0].text == (if unfolded {
                "▾"@
            } else {
                "▸"@
            }) + " "@ + job.name@
            &&& pieces[1].text == match job.status {
                JobStatus::Pending => "pending"@,
                JobStatus::WaitingForLocks { .. } => "waiting_for_locks"@,
                JobStatus::TerminatingProcesses { .. } => "terminating_processes"@,
                JobStatus::Running { .. } => "running"@,
                JobStatus::Succeeded { warned, .. } => if warned {
                    "succeeded (warned)"@
                } else {
                    "succeeded"@
                },
                JobStatus::Failed { .. } => "failed"@,
            }
            &&& pieces[2].text == updated
            &&& pieces[3].text == job.id@
        }),
{
}

/// The list of the diagnoses shows of each tool its name, the installation that is
/// active and how many there are.
pub proof fn law_diagnoses_are_listed(diagnosis: ToolDiagnosis, unfolded: bool, language: Language)
    ensures
        ({
            let pieces = doctor_cells(diagnosis, unfolded, language).pieces;
            let found = diagnosis.target.candidates@;
            &&& pieces.len() == 6
            &&& pieces[0].text == (if unfolded {
                "▾"@
            } else {
                "▸"@
            }) + " "@ + diagnosis.name@
            &&& found.len() > 0 ==> pieces[2].text == found[0].path@
            &&& found.len() == 0 ==> pieces[2].text == "—"@
            &&& pieces[4].text == decimal_text(found.len())
            &&& diagnosis.updater matches Some(updater) ==> pieces[5].text == updater.program@
            &&& diagnosis.updater is None ==> pieces[5].text == "—"@
        }),
{
}

/// The list of the repositories shows of each whether it is selected, its name, what
/// it is a release of and where that goes.
pub proof fn law_repositories_are_listed(
    monitor: GithubReleaseMonitor,
    selected: bool,
    status: Option<MonitorStatus>,
    probing: bool,
    language: Language,
)
    ensures
        ({
            let pieces = monitor_cells(monitor, selected, status, probing, language).pieces;
            &&& pieces.len() == 8
            &&& pieces[0].text == if selected {
                "[x]"@
            } else {
                "[ ]"@
            }
            &&& pieces[1].text == monitor.name@
            &&& pieces[2].text == monitor.repository@
            &&& pieces[7].text == monitor.target_directory@
        }),
{
}

/// A bar beside a list is there exactly where not all of the list is seen, and has one
/// place for each row that the list can begin with.
pub proof fn law_bars_stand_beside_long_lists(
    area: Rect,
    length: usize,
    shown: usize,
    position: usize,
)
    requires
        area.wf(),
        area.width > 0,
        area.height > 2,
    ensures
        scrollbar_of(area, length, shown, position) is Some <==> length > shown,
        scrollbar_of(area, length, shown, position) matches Some(bar) ==> {
            &&& bar.position == position
            &&& shown > 0 ==> bar.positions == length - shown + 1
            &&& bar.area.x + 1 == area.x + area.width
            &&& bar.area.width == 1
            &&& bar.area.y == area.y + 1
            &&& bar.area.height + 2 == area.height
        },
{
}

} // verus!
