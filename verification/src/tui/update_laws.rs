//! What holds of updating tools: which ones are updated, what is started for
//! each, and what is shown of each when it has ended.

use crate::command_line::arguments_of;
use crate::language::Language;
use crate::number::decimal_text;
use crate::search::{begins_with, lines, trimmed};
use crate::terminal::{queued_before, says_queued};
use crate::tui::actions::batch_summary;
use crate::tui::activity::law_activity_is_bounded;
use crate::tui::app::AppView;
use crate::tui::arguments::{add_words, uninstall_words, update_words};
use crate::tui::events::{AppEvent, FinishedOperation};
use crate::tui::form::CommandFormMode;
use crate::tui::labels::{Availability, Operation, ProcessStrategy, RunState, VersionState};
use crate::tui::modal::EffectView;
use crate::tui::model::{ToolItem, text_of, tool_from, tool_named};
use crate::tui::tools::{
    ToolsView, count_in, probing_from, selected_names, shown_tools, tool_shown,
};
use crate::version::LatestVersionError;
use vstd::prelude::*;
use vstd::string::*;

verus! {

/// Whether `i` is the first tool of that name.
pub open spec fn is_first_named(tools: Seq<ToolItem>, name: Seq<char>, i: int) -> bool {
    &&& 0 <= i < tools.len()
    &&& tools[i].name@ == name
    &&& forall|k: int| 0 <= k < i ==> (#[trigger] tools[k]).name@ != name
}

proof fn lemma_tool_from(tools: Seq<ToolItem>, name: Seq<char>, i: int)
    requires
        0 <= i <= tools.len(),
    ensures
        tool_from(tools, name, i) matches Some(k) ==> i <= k < tools.len() && tools[k].name@ == name
            && forall|j: int| i <= j < k ==> (#[trigger] tools[j]).name@ != name,
        tool_from(tools, name, i) is None ==> forall|j: int|
            i <= j < tools.len() ==> (#[trigger] tools[j]).name@ != name,
    decreases tools.len() - i,
{
    if i < tools.len() {
        lemma_tool_from(tools, name, i + 1);
    }
}

/// A tool is found by its name exactly where there is one of that name, and it is
/// the first one.
pub proof fn law_tools_are_found_by_name(tools: Seq<ToolItem>, name: Seq<char>, i: int)
    ensures
        tool_named(tools, name) == Some(i) <==> is_first_named(tools, name, i),
        tool_named(tools, name) is None <==> forall|k: int|
            0 <= k < tools.len() ==> (#[trigger] tools[k]).name@ != name,
{
    lemma_tool_from(tools, name, 0);
}

/// Whether two lists hold the same tools, but for what is known of their versions.
pub open spec fn same_but_versions(a: Seq<ToolItem>, b: Seq<ToolItem>) -> bool {
    &&& a.len() == b.len()
    &&& forall|i: int|
        #![trigger b[i]]
        0 <= i < a.len() ==> b[i] == (ToolItem {
            version: b[i].version,
            latest_version: b[i].latest_version,
            version_probe_id: b[i].version_probe_id,
            latest_probe_id: b[i].latest_probe_id,
            ..a[i]
        })
}

proof fn lemma_named_probed(tools: ToolsView, name: Seq<char>)
    ensures
        same_but_versions(tools.items, tools.named_probed(name).items),
        tools.named_probed(name).visible == tools.visible,
{
    lemma_tool_from(tools.items, name, 0);
}

proof fn lemma_names_probed(tools: ToolsView, names: Seq<Seq<char>>)
    ensures
        same_but_versions(tools.items, tools.names_probed(names).items),
    decreases names.len(),
{
    if names.len() > 0 {
        lemma_names_probed(tools, names.drop_last());
        let before = tools.names_probed(names.drop_last());
        lemma_named_probed(before, names.last());
        let after = before.named_probed(names.last());
        assert forall|i: int| #![trigger after.items[i]] 0 <= i < tools.items.len() implies after.items[i]
            == (ToolItem {
            version: after.items[i].version,
            latest_version: after.items[i].latest_version,
            version_probe_id: after.items[i].version_probe_id,
            latest_probe_id: after.items[i].latest_probe_id,
            ..tools.items[i]
        }) by {
            assert(before.items[i] == before.items[i]);
        }
    }
}

/// When an update has ended, its tool is shown as failed exactly where the update
/// did not succeed; else as queued where its output says so, and as updated where
/// it does not. The other tools are shown as before, and each other mark of the
/// tool stays.
pub proof fn law_ended_updates_show_their_outcome(
    app: AppView,
    done: FinishedOperation,
    tool: int,
    other: int,
)
    requires
        done.operation == Operation::Update,
        is_first_named(app.tools.items, done.name@, tool),
        0 <= other < app.tools.items.len(),
        other != tool,
    ensures
        ({
            let before = app.tools.items;
            let after = app.after_event(AppEvent::Finished(done)).tools.items;
            &&& after.len() == before.len()
            &&& after[tool].run_state == RunState::Failed <==> !done.success
            &&& after[tool].run_state == RunState::Queued <==> done.success && says_queued(
                done.name@,
                done.output@,
            )
            &&& after[tool].run_state == RunState::Updated <==> done.success && !says_queued(
                done.name@,
                done.output@,
            )
            &&& after[tool].elapsed == Some(done.elapsed)
            &&& after[tool].name == before[tool].name
            &&& after[tool].selected == before[tool].selected
            &&& after[other].run_state == before[other].run_state
            &&& after[other].elapsed == before[other].elapsed
            &&& after[other].selected == before[other].selected
        }),
{
    law_tools_are_found_by_name(app.tools.items, done.name@, tool);
    let logged = app.operation_logged(done);
    let told = logged.operation_applied(done).operation_told(done, app.was_queued(done));
    let named = logged.tools.named_probed(done.name@);
    lemma_named_probed(logged.tools, done.name@);
    let first = if done.success && !app.was_queued(done) {
        named
    } else {
        logged.tools
    };
    let names = logged.jobs.completed(done.jobs);
    lemma_names_probed(first, names);
    assert(told.tools == first.names_probed(names));
    assert(first.items[tool] == first.items[tool]);
    assert(first.items[other] == first.items[other]);
    let after = app.after_event(AppEvent::Finished(done));
    assert(after.tools == told.tools);
    assert(after.tools.items[tool] == after.tools.items[tool]);
    assert(after.tools.items[other] == after.tools.items[other]);
}

/// An update that has ended is counted as ended, and one that has succeeded at
/// once has the versions of its tool asked for anew.
pub proof fn law_ended_operations_are_counted(app: AppView, done: FinishedOperation)
    ensures
        app.running > 0 ==> app.after_event(AppEvent::Finished(done)).running == app.running - 1,
        app.running == 0 ==> app.after_event(AppEvent::Finished(done)).running == 0,
        app.after_event(AppEvent::Finished(done)).update_batch == if app.running <= 1 {
            None::<usize>
        } else {
            app.update_batch
        },
{
}

/// Output tells of a queued tool exactly where a line says that it was queued and
/// no later line says that it was updated.
pub proof fn law_queued_is_the_last_word(
    lines: Seq<Seq<char>>,
    queued: Seq<char>,
    updated: Seq<char>,
)
    ensures
        queued_before(lines, queued, updated) <==> exists|i: int|
            0 <= i < lines.len() && begins_with(trimmed(#[trigger] lines[i]), queued) && forall|j: int|
                i <= j < lines.len() ==> !begins_with(trimmed(#[trigger] lines[j]), updated),
    decreases lines.len(),
{
    if lines.len() > 0 {
        let front = lines.drop_last();
        let n = lines.len() - 1;
        law_queued_is_the_last_word(front, queued, updated);
        assert(lines[n] == lines.last());
        assert forall|i: int| 0 <= i < n implies front[i] == #[trigger] lines[i] by {}
        if queued_before(lines, queued, updated) {
            if begins_with(trimmed(lines[n]), queued) {
                assert(begins_with(trimmed(lines[n]), queued));
            } else {
                let i = choose|i: int|
                    0 <= i < front.len() && begins_with(trimmed(#[trigger] front[i]), queued)
                        && forall|j: int|
                        i <= j < front.len() ==> !begins_with(trimmed(#[trigger] front[j]), updated);
                assert(begins_with(trimmed(lines[i]), queued));
                assert forall|j: int| i <= j < lines.len() implies !begins_with(
                    trimmed(#[trigger] lines[j]),
                    updated,
                ) by {
                    if j < n {
                        assert(front[j] == lines[j]);
                    }
                }
            }
        } else if exists|i: int|
            0 <= i < lines.len() && begins_with(trimmed(#[trigger] lines[i]), queued) && forall|j: int|
                i <= j < lines.len() ==> !begins_with(trimmed(#[trigger] lines[j]), updated) {
            let i = choose|i: int|
                0 <= i < lines.len() && begins_with(trimmed(#[trigger] lines[i]), queued)
                    && forall|j: int|
                    i <= j < lines.len() ==> !begins_with(trimmed(#[trigger] lines[j]), updated);
            assert(!begins_with(trimmed(lines[n]), updated));
            assert(i < n);
            assert(begins_with(trimmed(front[i]), queued));
            assert forall|j: int| i <= j < front.len() implies !begins_with(
                trimmed(#[trigger] front[j]),
                updated,
            ) by {
                assert(front[j] == lines[j]);
            }
        }
    }
}

proof fn lemma_count_in(tools: Seq<ToolItem>, state: RunState, n: int)
    requires
        0 <= n <= tools.len(),
    ensures
        count_in(tools, state, n) == tools.take(n).filter(
            |tool: ToolItem| tool.run_state == state,
        ).len(),
    decreases n,
{
    reveal(Seq::filter);
    if n > 0 {
        lemma_count_in(tools, state, n - 1);
        assert(tools.take(n).drop_last() =~= tools.take(n - 1));
        assert(tools.take(n).last() == tools[n - 1]);
    } else {
        assert(tools.take(0) =~= Seq::<ToolItem>::empty());
    }
}

/// The number of tools in a state.
pub open spec fn in_state(tools: Seq<ToolItem>, state: RunState) -> nat {
    tools.filter(|tool: ToolItem| tool.run_state == state).len()
}

/// What is said of a batch that has ended counts the tools by what came of them,
/// and points to the log exactly where one has failed.
pub proof fn law_batches_are_summed_up(app: AppView, total: usize, elapsed: Seq<char>)
    requires
        app.update_batch == Some(total),
        app.language == Language::English,
        forall|i: int|
            0 <= i < app.tools.items.len() ==> (#[trigger] app.tools.items[i]).name@ != "dvup"@,
    ensures
        ({
            let items = app.tools.items;
            let summary = "Complete: "@ + decimal_text(in_state(items, RunState::UpToDate))
                + " current, "@ + decimal_text(in_state(items, RunState::Updated)) + " updated, "@
                + decimal_text(in_state(items, RunState::Queued)) + " queued, "@ + decimal_text(
                in_state(items, RunState::Failed),
            ) + " failed ("@ + decimal_text(total as nat) + " total) in "@ + elapsed + "s"@;
            &&& app.batch_finished(elapsed).message == if in_state(items, RunState::Failed) > 0 {
                summary + ". See Activity for command output and errors"@
            } else {
                summary
            }
            &&& app.batch_finished(elapsed).activity.lines.last() == "\n=== "@ + summary + " ==="@
            &&& app.batch_finished(elapsed).update_batch is None
        }),
{
    let items = app.tools.items;
    let n = items.len() as int;
    assert(items.take(n) =~= items);
    lemma_count_in(items, RunState::UpToDate, n);
    lemma_count_in(items, RunState::Updated, n);
    lemma_count_in(items, RunState::Queued, n);
    lemma_count_in(items, RunState::Failed, n);
    let summary = batch_summary(items, total as nat, elapsed, app.language);
    law_activity_is_bounded(app.activity, "\n=== "@ + summary + " ==="@, app.now_text@);
}

proof fn lemma_selected_names(tools: Seq<ToolItem>, n: int)
    requires
        0 <= n <= tools.len(),
    ensures
        selected_names(tools, n) == tools.take(n).filter(
            |tool: ToolItem|
                tool.selected && tool.availability == Availability::Installed && tool.run_state
                    != RunState::Running,
        ).map_values(|tool: ToolItem| tool.name@),
    decreases n,
{
    reveal(Seq::filter);
    let p = |tool: ToolItem|
        tool.selected && tool.availability == Availability::Installed && tool.run_state
            != RunState::Running;
    let f = |tool: ToolItem| tool.name@;
    if n > 0 {
        lemma_selected_names(tools, n - 1);
        assert(tools.take(n).drop_last() =~= tools.take(n - 1));
        assert(tools.take(n).last() == tools[n - 1]);
        let before = tools.take(n - 1).filter(p);
        if p(tools[n - 1]) {
            assert(tools.take(n).filter(p) == before.push(tools[n - 1]));
            assert(before.push(tools[n - 1]).map_values(f) =~= before.map_values(f).push(
                tools[n - 1].name@,
            ));
        }
    } else {
        assert(tools.take(0) =~= Seq::<ToolItem>::empty());
        assert(tools.take(0).filter(p).map_values(f) =~= Seq::<Seq<char>>::empty());
    }
}

/// The tools that are updated are all the selected ones that are installed and not
/// being updated, in the order of the list; where there is none, the one in focus,
/// if it is installed and not being updated.
pub proof fn law_selected_tools_are_updated(tools: ToolsView)
    ensures
        ({
            let selected = tools.items.filter(
                |tool: ToolItem|
                    tool.selected && tool.availability == Availability::Installed && tool.run_state
                        != RunState::Running,
            ).map_values(|tool: ToolItem| tool.name@);
            &&& selected.len() > 0 ==> tools.wanted() == selected
            &&& selected.len() == 0 ==> tools.wanted() == match tools.focus() {
                Some(i) => if tools.items[i].availability == Availability::Installed
                    && tools.items[i].run_state != RunState::Running {
                    seq![tools.items[i].name@]
                } else {
                    Seq::empty()
                },
                None => Seq::empty(),
            }
        }),
        tools.index < tools.visible.len() ==> tools.focus() == Some(
            tools.visible[tools.index as int] as int,
        ),
        tools.index >= tools.visible.len() ==> tools.focus() is None,
{
    lemma_selected_names(tools.items, tools.items.len() as int);
    assert(tools.items.take(tools.items.len() as int) =~= tools.items);
}

/// A tool is known to be current exactly where both of its versions are known and
/// are the same text.
pub proof fn law_current_tools_have_the_latest_version(tool: ToolItem, installed: String, latest: String)
    ensures
        tool.version == VersionState::Available(installed) && tool.latest_version
            == VersionState::Available(latest) ==> (tool.is_current() <==> installed@ == latest@),
        tool.version !is Available || tool.latest_version !is Available ==> !tool.is_current(),
{
}

/// For each tool of a batch one update is started, in order, and nothing else; each
/// of them is then shown as running and is no longer selected, and every update is
/// told in the log.
pub proof fn law_each_update_is_started_once(
    app: AppView,
    names: Seq<Seq<char>>,
    target: Option<Seq<char>>,
)
    requires
        app.running + names.len() <= usize::MAX,
        forall|k: int|
            0 <= k < names.len() ==> tool_named(app.tools.items, #[trigger] names[k]) is Some,
    ensures
        ({
            let after = app.updates_begun(names, target);
            &&& after.effects == app.effects + names.map_values(
                |name: Seq<char>|
                    EffectView::Spawn {
                        arguments: update_words(
                            name,
                            text_of(app.config_path),
                            app.process_strategy == ProcessStrategy::Terminate,
                            target,
                        ),
                        name,
                        operation: Operation::Update,
                    },
            )
            &&& after.running == app.running + names.len()
            &&& after.tools.items.len() == app.tools.items.len()
            &&& forall|i: int|
                #![trigger after.tools.items[i]]
                0 <= i < app.tools.items.len() ==> after.tools.items[i].name
                    == app.tools.items[i].name
            &&& forall|i: int, k: int|
                #![trigger after.tools.items[i], names[k]]
                0 <= k < names.len() && is_first_named(app.tools.items, names[k], i)
                    ==> after.tools.items[i].run_state == RunState::Running
                    && !after.tools.items[i].selected
            &&& forall|i: int|
                #![trigger after.tools.items[i]]
                0 <= i < app.tools.items.len() && !names.contains(app.tools.items[i].name@)
                    ==> after.tools.items[i] == app.tools.items[i]
            &&& after.config_path == app.config_path
            &&& after.process_strategy == app.process_strategy
            &&& after.language == app.language
            &&& after.update_batch == app.update_batch
        }),
    decreases names.len(),
{
    let f = |name: Seq<char>|
        EffectView::Spawn {
            arguments: update_words(
                name,
                text_of(app.config_path),
                app.process_strategy == ProcessStrategy::Terminate,
                target,
            ),
            name,
            operation: Operation::Update,
        };
    let after = app.updates_begun(names, target);
    if names.len() == 0 {
        assert(app.effects + names.map_values(f) =~= app.effects);
    } else {
        let front = names.drop_last();
        let name = names.last();
        assert forall|k: int| 0 <= k < front.len() implies tool_named(
            app.tools.items,
            #[trigger] front[k],
        ) is Some by {
            assert(tool_named(app.tools.items, names[k]) is Some);
        }
        law_each_update_is_started_once(app, front, target);
        let before = app.updates_begun(front, target);
        assert(tool_named(app.tools.items, names[names.len() - 1]) is Some);
        lemma_tool_from(app.tools.items, name, 0);
        lemma_tool_from(before.tools.items, name, 0);
        assert(after == before.update_started(name, target));
        assert(app.effects + names.map_values(f) =~= (app.effects + front.map_values(f)).push(
            f(name),
        ));
        let t = tool_named(app.tools.items, name)->0;
        assert(before.tools.items[t].name == app.tools.items[t].name);
        match tool_named(before.tools.items, name) {
            Some(u) => {
                assert(before.tools.items[u].name == app.tools.items[u].name);
                if u < t {
                    assert(app.tools.items[u].name@ != name);
                } else if t < u {
                    assert(before.tools.items[t].name@ != name);
                }
            },
            None => {
                assert(before.tools.items[t].name@ != name);
            },
        }
        assert(tool_named(before.tools.items, name) == Some(t));
        assert forall|i: int| #![trigger after.tools.items[i]]
            0 <= i < app.tools.items.len() implies after.tools.items[i].name
            == app.tools.items[i].name by {
            assert(before.tools.items[i].name == app.tools.items[i].name);
        }
        assert forall|i: int, k: int| #![trigger after.tools.items[i], names[k]]
            0 <= k < names.len() && is_first_named(
            app.tools.items,
            names[k],
            i,
        ) implies after.tools.items[i].run_state == RunState::Running
            && !after.tools.items[i].selected by {
            if k < front.len() {
                assert(front[k] == names[k]);
                assert(before.tools.items[i].run_state == RunState::Running);
            } else {
                law_tools_are_found_by_name(app.tools.items, name, i);
            }
        }
        assert forall|i: int| #![trigger after.tools.items[i]]
            0 <= i < app.tools.items.len() && !names.contains(
            app.tools.items[i].name@,
        ) implies after.tools.items[i] == app.tools.items[i] by {
            assert(before.tools.items[i].name == app.tools.items[i].name);
            if front.contains(app.tools.items[i].name@) {
                let k = choose|k: int|
                    0 <= k < front.len() && front[k] == app.tools.items[i].name@;
                assert(names[k] == app.tools.items[i].name@);
            }
            assert(names[names.len() - 1] == name);
            assert(i != t);
        }
    }
}

/// A batch starts with every tool idle, those known to be current marked as such
/// and no longer selected, and counts the tools of both kinds.
pub proof fn law_batches_mark_current_tools(
    app: AppView,
    names: Seq<Seq<char>>,
    current: Seq<Seq<char>>,
    i: int,
)
    requires
        0 <= i < app.tools.items.len(),
        names.len() + current.len() <= usize::MAX,
    ensures
        ({
            let after = app.batch_prepared(names, current);
            &&& after.update_batch == Some((names.len() + current.len()) as usize)
            &&& after.tools.items.len() == app.tools.items.len()
            &&& after.tools.items[i].elapsed is None
            &&& current.contains(app.tools.items[i].name@) ==> after.tools.items[i].run_state
                == RunState::UpToDate && !after.tools.items[i].selected
            &&& !current.contains(app.tools.items[i].name@) ==> after.tools.items[i].run_state
                == RunState::Idle && after.tools.items[i].selected == app.tools.items[i].selected
            &&& after.effects == app.effects
            &&& after.running == app.running
        }),
{
}

/// Selecting all selects every installed tool where one of them is not selected,
/// else none; tools that are not installed are left alone.
pub proof fn law_all_installed_tools_are_selected(tools: ToolsView, i: int)
    requires
        0 <= i < tools.items.len(),
    ensures
        tools.items[i].availability != Availability::Installed ==> tools.toggled_all().items[i]
            == tools.items[i],
        tools.items[i].availability == Availability::Installed ==> tools.toggled_all().items[i]
            == (ToolItem { selected: tools.toggled_all().items[i].selected, ..tools.items[i] }),
        tools.items[i].availability == Availability::Installed && !tools.items[i].selected
            ==> tools.toggled_all().items[i].selected,
        (forall|k: int|
            0 <= k < tools.items.len() && (#[trigger] tools.items[k]).availability
                == Availability::Installed ==> tools.items[k].selected) && tools.items[i].availability
            == Availability::Installed ==> !tools.toggled_all().items[i].selected,
        (exists|k: int|
            0 <= k < tools.items.len() && (#[trigger] tools.items[k]).availability
                == Availability::Installed && !tools.items[k].selected)
            && tools.items[i].availability == Availability::Installed
            ==> tools.toggled_all().items[i].selected,
{
}

/// The list shows all tools, in order, or leaves out those that are missing or not
/// supported, and no others.
pub proof fn law_only_unusable_tools_are_hidden(tools: Seq<ToolItem>, hide: bool, i: int)
    requires
        0 <= i < tools.len() <= usize::MAX,
    ensures
        shown_tools(tools, hide, tools.len() as int).contains(i as usize) <==> !hide
            || tools[i].availability != Availability::Unsupported && tools[i].availability
            != Availability::Missing,
        forall|j: int, k: int|
            0 <= j < k < shown_tools(tools, hide, tools.len() as int).len() ==> (
            #[trigger] shown_tools(tools, hide, tools.len() as int)[j]) < (#[trigger] shown_tools(
                tools,
                hide,
                tools.len() as int,
            )[k]),
{
    lemma_shown(tools, hide, tools.len() as int);
    if tool_shown(tools[i], hide) {
        assert(shown_tools(tools, hide, tools.len() as int).contains(i as usize));
    }
}

proof fn lemma_shown(tools: Seq<ToolItem>, hide: bool, n: int)
    requires
        0 <= n <= tools.len() <= usize::MAX,
    ensures
        forall|i: int|
            0 <= i < n && tool_shown(#[trigger] tools[i], hide) ==> shown_tools(
                tools,
                hide,
                n,
            ).contains(i as usize),
        forall|k: int|
            0 <= k < shown_tools(tools, hide, n).len() ==> (#[trigger] shown_tools(tools, hide, n)[k])
                < n && tool_shown(tools[shown_tools(tools, hide, n)[k] as int], hide),
        forall|j: int, k: int|
            0 <= j < k < shown_tools(tools, hide, n).len() ==> (#[trigger] shown_tools(
                tools,
                hide,
                n,
            )[j]) < (#[trigger] shown_tools(tools, hide, n)[k]),
    decreases n,
{
    if n > 0 {
        lemma_shown(tools, hide, n - 1);
        let before = shown_tools(tools, hide, n - 1);
        let all = shown_tools(tools, hide, n);
        assert forall|i: int| 0 <= i < n && tool_shown(
            #[trigger] tools[i],
            hide,
        ) implies all.contains(i as usize) by {
            if i < n - 1 {
                assert(before.contains(i as usize));
                let k = choose|k: int| 0 <= k < before.len() && before[k] == i as usize;
                assert(all[k] == i as usize);
            } else {
                assert(all[all.len() - 1] == i as usize);
            }
        }
    }
}

/// A probe that has found a version has it shown of its tool, and what failed is
/// told of it; nothing else of the list changes.
pub proof fn law_found_versions_are_shown(
    tools: ToolsView,
    i: int,
    version: Option<String>,
    result: Result<String, LatestVersionError>,
)
    requires
        0 <= i < tools.items.len(),
        forall|k: int|
            0 <= k < tools.items.len() && k != i ==> (#[trigger] tools.items[k]).name@
                != tools.items[i].name@,
    ensures
        ({
            let tool = tools.items[i];
            let a = tools.version_resolved(tool.name@, tool.version_probe_id, version);
            let b = tools.latest_resolved(tool.name@, tool.latest_probe_id, result);
            &&& a.items == tools.items.update(
                i,
                ToolItem {
                    version: match version {
                        Some(v) => VersionState::Available(v),
                        None => VersionState::Unavailable,
                    },
                    ..tool
                },
            )
            &&& b.items == tools.items.update(
                i,
                ToolItem {
                    latest_version: match result {
                        Ok(v) => VersionState::Available(v),
                        Err(e) => VersionState::Failed(e),
                    },
                    ..tool
                },
            )
        }),
{
    lemma_probing_finds(tools.items, tools.items[i].name@, false, tools.items[i].version_probe_id, 0, i);
    lemma_probing_finds(tools.items, tools.items[i].name@, true, tools.items[i].latest_probe_id, 0, i);
}

proof fn lemma_probing_finds(tools: Seq<ToolItem>, name: Seq<char>, latest: bool, id: u64, from: int, i: int)
    requires
        0 <= from <= i < tools.len(),
        tools[i].name@ == name,
        id == (if latest {
            tools[i].latest_probe_id
        } else {
            tools[i].version_probe_id
        }),
        forall|k: int| 0 <= k < tools.len() && k != i ==> (#[trigger] tools[k]).name@ != name,
    ensures
        probing_from(tools, name, latest, id, from) == Some(i),
    decreases i - from,
{
    if from < i {
        lemma_probing_finds(tools, name, latest, id, from + 1, i);
    }
}

/// A custom command is saved with just the words that its text holds, behind its
/// name, and only where its quotes are closed and it has a word.
pub proof fn law_commands_are_saved_as_typed(app: AppView, name: Seq<char>, command: Seq<char>)
    requires
        app.config_path is None,
    ensures
        ({
            let after = app.add_started(CommandFormMode::Add, None, name, command);
            &&& arguments_of(command) is None || arguments_of(command)->0.len() == 0
                ==> after.effects == app.effects && after.running == app.running
            &&& arguments_of(command) matches Some(words) ==> words.len() > 0 ==> {
                &&& after.effects.len() == app.effects.len() + 1
                &&& after.effects.last() matches EffectView::Spawn { arguments, name: n, operation }
                &&& n == name && operation == Operation::Add
                &&& arguments.len() >= words.len()
                &&& arguments.skip(arguments.len() - words.len()) == words
                &&& arguments.contains(name)
            }
        }),
{
    if arguments_of(command) is Some && arguments_of(command)->0.len() > 0 {
        lemma_add_words_end(name, arguments_of(command)->0);
    }
}

/// An update runs in the background where it has to, by name, and each option is
/// handed on where it is set: the process policy, the manifest, and the version.
pub proof fn law_updates_hand_their_options_on(
    name: Seq<char>,
    config: Option<Seq<char>>,
    path: Seq<char>,
    terminate: bool,
    target: Seq<char>,
)
    ensures
        update_words(name, None, false, None) == seq![
            "update"@,
            "--background"@,
            "auto"@,
            name,
        ],
        update_words(name, Some(path), false, None) == seq![
            "update"@,
            "--background"@,
            "auto"@,
            "--config"@,
            path,
            name,
        ],
        update_words(name, config, true, None) == update_words(name, config, false, None).insert(
            3,
            "--terminate-locking-processes"@,
        ),
        update_words(name, config, terminate, Some(target)) == update_words(
            name,
            config,
            terminate,
            None,
        ).drop_last() + seq!["--to"@, target, name],
        uninstall_words(name, config, terminate) == update_words(
            name,
            config,
            terminate,
            None,
        ).update(0, "uninstall"@),
{
    assert(update_words(name, None, false, None) =~= seq![
        "update"@,
        "--background"@,
        "auto"@,
        name,
    ]);
    assert(update_words(name, Some(path), false, None) =~= seq![
        "update"@,
        "--background"@,
        "auto"@,
        "--config"@,
        path,
        name,
    ]);
    assert(update_words(name, config, true, None) =~= update_words(
        name,
        config,
        false,
        None,
    ).insert(3, "--terminate-locking-processes"@));
    assert(update_words(name, config, terminate, Some(target)) =~= update_words(
        name,
        config,
        terminate,
        None,
    ).drop_last() + seq!["--to"@, target, name]);
    assert(uninstall_words(name, config, terminate) =~= update_words(
        name,
        config,
        terminate,
        None,
    ).update(0, "uninstall"@));
}

proof fn lemma_add_words_end(name: Seq<char>, words: Seq<Seq<char>>)
    requires
        words.len() > 0,
    ensures
        ({
            let all = add_words(name, words, false);
            &&& all.len() >= words.len()
            &&& all.skip(all.len() - words.len()) == words
            &&& all.contains(name)
        }),
{
    let all = add_words(name, words, false);
    assert(all[1] == name);
    assert(all.skip(all.len() - words.len()) =~= words);
}

} // verus!
