//! What holds of the lists: what is kept when they are loaded anew, what is asked
//! for and when, and what the mouse does to them.

use crate::terminal::sanitized;
use crate::tui::app::AppView;
use crate::tui::arguments::joined;
use crate::tui::doctor::DoctorView;
use crate::tui::geometry::target_at;
use crate::tui::jobs::{ACTIVE_JOB_REFRESH_INTERVAL, IDLE_JOB_REFRESH_INTERVAL, JobsRead, JobsView};
use crate::tui::labels::{Availability, RunState, Tab, ToolView};
use crate::tui::modal::EffectView;
use crate::tui::model::{GithubReleaseMonitor, JobItem, ToolItem};
use crate::tui::tools::{
    Probe, Tools, ToolsView, carried_over, lemma_shown_tools, listed_from, shown_tools,
};
use crate::tui::update_laws::{is_first_named, law_tools_are_found_by_name};
use crate::version::lossy_text;
use vstd::prelude::*;
use vstd::string::*;

verus! {

proof fn lemma_installed_probed(tools: ToolsView, n: int, i: int)
    requires
        0 <= n <= tools.items.len(),
        0 <= i < tools.items.len(),
    ensures
        ({
            let after = tools.installed_probed(n);
            &&& after.items.len() == tools.items.len()
            &&& after.agent_ready == tools.agent_ready
            &&& after.items[i].availability == tools.items[i].availability
            &&& after.items[i].name == tools.items[i].name
            &&& after.items[i].latest_source == tools.items[i].latest_source
            &&& after.items[i].run_state == tools.items[i].run_state
            &&& after.items[i].selected == tools.items[i].selected
            &&& i < n && tools.items[i].availability.checkable() ==> after.items[i].version
                is Loading
            &&& i < n && !tools.items[i].availability.checkable() ==> after.items[i].version
                is Unavailable && after.items[i].latest_version is Unavailable
        }),
    decreases n,
{
    if n > 0 {
        lemma_installed_probed(tools, n - 1, i);
        lemma_installed_probed(tools, n - 1, n - 1);
    }
}

proof fn lemma_releases_probed(tools: ToolsView, n: int, i: int)
    requires
        0 <= n <= tools.items.len(),
        0 <= i < tools.items.len(),
    ensures
        ({
            let after = tools.releases_probed(n);
            &&& after.items.len() == tools.items.len()
            &&& after.agent_ready == tools.agent_ready
            &&& after.items[i].availability == tools.items[i].availability
            &&& after.items[i].name == tools.items[i].name
            &&& after.items[i].version == tools.items[i].version
            &&& after.items[i].latest_source == tools.items[i].latest_source
            &&& after.items[i].run_state == tools.items[i].run_state
            &&& after.items[i].selected == tools.items[i].selected
            &&& i >= n || !tools.items[i].availability.checkable()
                ==> after.items[i].latest_version == tools.items[i].latest_version
            &&& i < n && tools.items[i].availability.checkable() && tools.items[i].latest_source
                is Some && tools.agent_ready ==> after.items[i].latest_version is Loading
        }),
    decreases n,
{
    if n > 0 {
        lemma_releases_probed(tools, n - 1, i);
        lemma_releases_probed(tools, n - 1, n - 1);
    }
}

/// Where all versions are asked for, the installed version of every tool that is
/// there is, and the latest one where it is known whom to ask; of a tool that is not
/// there none is known.
pub proof fn law_all_tools_are_probed(tools: ToolsView, i: int)
    requires
        0 <= i < tools.items.len(),
    ensures
        ({
            let tool = tools.all_probed().items[i];
            let there = tools.items[i].availability.checkable();
            &&& tools.all_probed().items.len() == tools.items.len()
            &&& there ==> tool.version is Loading
            &&& there && tools.items[i].latest_source is Some && tools.agent_ready
                ==> tool.latest_version is Loading
            &&& !there ==> tool.version is Unavailable && tool.latest_version is Unavailable
            &&& tool.name == tools.items[i].name
            &&& tool.selected == tools.items[i].selected
            &&& tool.run_state == tools.items[i].run_state
        }),
{
    let n = tools.items.len() as int;
    lemma_installed_probed(tools, n, i);
    lemma_releases_probed(tools.installed_probed(n), n, i);
}

/// A tool whose versions are asked for alone is asked just as it would be among all.
pub proof fn law_one_tool_is_probed(tools: ToolsView, name: Seq<char>, i: int, other: int)
    requires
        is_first_named(tools.items, name, i),
        0 <= other < tools.items.len() && other != i,
    ensures
        ({
            let after = tools.named_probed(name);
            let there = tools.items[i].availability.checkable();
            &&& there ==> after.items[i].version is Loading
            &&& !there ==> after.items[i].version is Unavailable
            &&& after.items[other] == tools.items[other]
            &&& there ==> exists|k: int|
                0 <= k < after.probes.len() && #[trigger] after.probes[k] == (Probe::Installed {
                    tool: i as usize,
                    probe_id: after.items[i].version_probe_id,
                })
        }),
{
    law_tools_are_found_by_name(tools.items, name, i);
    let after = tools.named_probed(name);
    if tools.items[i].availability.checkable() {
        let k = tools.probes.len() as int;
        assert(after.probes[k] == (Probe::Installed {
            tool: i as usize,
            probe_id: after.items[i].version_probe_id,
        }));
    }
}

/// Tools that are loaded anew keep whether they are selected and what became of
/// their update, by their names; new ones begin idle and not selected.
pub proof fn law_marks_of_tools_are_kept(new: Seq<ToolItem>, old: Seq<ToolItem>, i: int, k: int)
    requires
        0 <= i < new.len(),
    ensures
        ({
            let tool = carried_over(new, old)[i];
            &&& carried_over(new, old).len() == new.len()
            &&& tool.name == new[i].name
            &&& tool.command == new[i].command
            &&& tool.availability == new[i].availability
            &&& is_first_named(old, new[i].name@, k) ==> tool.selected == old[k].selected
                && tool.run_state == old[k].run_state && tool.elapsed == old[k].elapsed
            &&& (forall|j: int| 0 <= j < old.len() ==> (#[trigger] old[j]).name@ != new[i].name@)
                ==> !tool.selected && tool.run_state == RunState::Idle && tool.elapsed is None
        }),
{
    law_tools_are_found_by_name(old, new[i].name@, k);
}

proof fn lemma_listed_from(tools: Seq<ToolItem>, visible: Seq<usize>, name: Seq<char>, k: int)
    requires
        0 <= k <= visible.len(),
    ensures
        listed_from(tools, visible, name, k) matches Some(j) ==> k <= j < visible.len()
            && tools[visible[j] as int].name@ == name,
        listed_from(tools, visible, name, k) is None ==> forall|j: int|
            k <= j < visible.len() ==> tools[(#[trigger] visible[j]) as int].name@ != name,
    decreases visible.len() - k,
{
    if k < visible.len() {
        lemma_listed_from(tools, visible, name, k + 1);
    }
}

/// Making the list anew keeps the focus on the tool of the preferred name where that
/// is listed, and always on a row where there is one.
pub proof fn law_the_focus_follows_its_tool(tools: ToolsView, hide: bool, name: Seq<char>, k: int)
    requires
        tools.items.len() <= usize::MAX,
    ensures
        ({
            let after = tools.relisted(hide, Some(name));
            &&& after.visible == shown_tools(tools.items, hide, tools.items.len() as int)
            &&& 0 <= k < after.visible.len() && tools.items[after.visible[k] as int].name@ == name
                ==> after.focused_name() == Some(name)
            &&& after.visible.len() > 0 ==> after.index < after.visible.len()
            &&& after.items == tools.items
        }),
{
    let visible = shown_tools(tools.items, hide, tools.items.len() as int);
    lemma_shown_tools(tools.items, hide, tools.items.len() as int);
    lemma_listed_from(tools.items, visible, name, 0);
    assert(visible.len() <= usize::MAX);
}

/// The jobs are read again once their interval is over, the repositories are looked
/// at once theirs is and nothing is done to them, and nothing is asked for before
/// that or while the tools are still loaded.
pub proof fn law_what_is_due_is_asked_for(app: AppView)
    ensures
        app.initial_load is Some ==> app.ticked().effects == app.effects,
        app.now_ms >= app.jobs.last_refresh && app.now_ms - app.jobs.last_refresh
            >= app.jobs.interval() ==> app.jobs_due().effects == app.effects.push(
            EffectView::ReloadJobs { report: false },
        ),
        app.now_ms - app.jobs.last_refresh < app.jobs.interval() ==> app.jobs_due() == app,
        !app.github.probe_running && !app.github.install_running && app.github.monitors.len() > 0
            && app.now_ms >= app.github.last_refresh && app.now_ms - app.github.last_refresh
            >= app.settings.github.poll_interval_secs * 1000 ==> app.releases_due().effects
            == app.effects.push(EffectView::ProbeReleases)
            && app.releases_due().github.probe_running && app.releases_due().github.last_refresh
            == app.now_ms,
        app.github.probe_running || app.github.install_running || app.now_ms
            - app.github.last_refresh < app.settings.github.poll_interval_secs * 1000
            ==> app.releases_due() == app,
{
}

/// The jobs are read more often while one of them has not ended.
pub proof fn law_active_jobs_are_read_more_often(jobs: JobsView, i: int)
    requires
        0 <= i < jobs.items.len(),
        !jobs.items[i].status.terminal(),
    ensures
        jobs.interval() == ACTIVE_JOB_REFRESH_INTERVAL,
        ACTIVE_JOB_REFRESH_INTERVAL < IDLE_JOB_REFRESH_INTERVAL,
{
}

/// Texts are put one behind the other with the separator between each two.
pub proof fn law_texts_are_joined(a: Seq<Seq<char>>, b: Seq<Seq<char>>, separator: Seq<char>)
    ensures
        a.len() > 0 && b.len() > 0 ==> joined(a + b, separator) == joined(a, separator) + separator
            + joined(b, separator),
        a.len() == 1 ==> joined(a, separator) == a[0],
        a.len() == 0 ==> joined(a, separator) == Seq::<char>::empty(),
    decreases b.len(),
{
    if a.len() > 0 && b.len() > 0 {
        let front = b.drop_last();
        assert((a + b).drop_last() =~= a + front);
        assert((a + b).last() == b.last());
        if front.len() == 0 {
            assert(a + front =~= a);
        } else {
            law_texts_are_joined(a, front, separator);
            assert(joined(a + b, separator) =~= joined(a, separator) + separator + joined(
                b,
                separator,
            ));
        }
    }
}

/// What is copied of a log are the lines from the first selected one to the last
/// one, and dragging selects from where it began to where it is, in either
/// direction.
pub proof fn law_selected_log_lines_are_copied(jobs: JobsView, first: usize, last: usize)
    requires
        jobs.log_selection == Some((first, last)),
        first <= last < jobs.log.len(),
    ensures
        jobs.selected_text() == joined(jobs.log.subrange(first as int, last + 1), seq!['\n']),
        forall|i: int| #[trigger] jobs.selects(i) <==> first <= i <= last,
{
}

/// Dragging selects from where it began to where it is, in either direction.
pub proof fn law_drags_select_lines(app: AppView, column: u16, row: u16, start: usize)
    requires
        app.jobs.log_drag == Some(start),
        app.log_line_at(column, row) is Some,
        0 <= app.log_line_at(column, row)->0 <= usize::MAX,
    ensures
        ({
            let line = app.log_line_at(column, row)->0;
            let after = app.log_dragged(column, row);
            &&& start <= line ==> after.jobs.log_selection == Some((start, line as usize))
            &&& line < start ==> after.jobs.log_selection == Some((line as usize, start))
            &&& after.jobs.items == app.jobs.items && after.jobs.log == app.jobs.log
        }),
{
}

/// Reading the jobs shows those that were read; a job that is still there stays
/// unfolded, with what its log now holds, and one that is gone is folded.
pub proof fn law_read_jobs_are_shown(
    jobs: JobsView,
    list: Vec<JobItem>,
    log: Vec<u8>,
    now: u64,
    i: int,
)
    ensures
        ({
            let after = jobs.reread(JobsRead { jobs: Ok(list), log: Ok(log) }, now);
            &&& after.items == list@
            &&& after.last_refresh == now
            &&& jobs.expanded is None ==> after.expanded is None
            &&& jobs.expanded matches Some(id) ==> 0 <= i < list@.len() && list@[i].id@ == id@
                ==> after.expanded == jobs.expanded && after.log == sanitized(lossy_text(log@))
            &&& jobs.expanded matches Some(id) ==> (forall|k: int|
                0 <= k < list@.len() ==> (#[trigger] list@[k]).id@ != id@) ==> after.expanded
                is None
        }),
{
}

/// Unfolding a diagnosis and folding it again leaves all diagnoses as they are, and
/// only the one in focus is ever unfolded.
pub proof fn law_diagnoses_unfold_one_at_a_time(doctor: DoctorView, hide: bool, i: int)
    requires
        doctor.focus(hide) == Some(i),
        doctor.expanded is None,
    ensures
        doctor.toggled(hide).expanded == Some(doctor.diagnoses[i].name),
        doctor.toggled(hide).toggled(hide).expanded is None,
        doctor.toggled(hide).diagnoses == doctor.diagnoses,
        doctor.toggled(hide).index == doctor.index,
{
}

/// A click on a row of the tools selects the tool of that row, and moves the focus
/// there; elsewhere it does neither.
pub proof fn law_clicks_select_their_row(app: AppView, column: u16, row: u16, index: usize)
    requires
        app.tab == Tab::Tools,
        app.tools.view == ToolView::Commands,
        target_at(app.hits.tabs@, column, row) is None,
        target_at(app.hits.tool_views@, column, row) is None,
    ensures
        target_at(app.hits.tools@, column, row) is None ==> app.mouse_clicked(column, row) == app,
        target_at(app.hits.tools@, column, row) == Some(index) && index < app.tools.visible.len()
            && app.tools.visible[index as int] < app.tools.items.len() ==> {
            let tool = app.tools.items[app.tools.visible[index as int] as int];
            let after = app.mouse_clicked(column, row);
            &&& after.tools.index == index
            &&& tool.availability == Availability::Installed ==> after.tools.items
                == app.tools.items.update(
                app.tools.visible[index as int] as int,
                ToolItem { selected: !tool.selected, ..tool },
            )
            &&& tool.availability != Availability::Installed ==> after.tools.items
                == app.tools.items
        },
{
}

/// A repository that was saved is listed with the others and in focus, and its
/// releases are looked at, where nothing else is done to them.
pub proof fn law_saved_monitors_are_looked_at(
    app: AppView,
    mode: crate::tui::form::MonitorFormMode,
    index: usize,
    monitors: Vec<GithubReleaseMonitor>,
)
    requires
        monitors@.len() > 0,
        !app.github.busy(),
    ensures
        ({
            let after = app.monitor_saved(mode, Ok((index, monitors)));
            &&& after.github.monitors == monitors@
            &&& after.github.index == index
            &&& after.modal is Closed
            &&& after.effects == app.effects.push(EffectView::ProbeReleases)
        }),
{
}

} // verus!
