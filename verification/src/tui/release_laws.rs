//! What holds of the releases of GitHub repositories: which are held to be
//! installed, which are installed without asking, and what is noted of each.

use crate::language::Language;
use crate::number::decimal_text;
use crate::tui::app::AppView;
use crate::tui::events::AppEvent;
use crate::tui::github::{
    GithubView, failed_count, kept_statuses, other_statuses, outdated_count, release_current,
    requested_names, split_releases, with_outcome,
};
use crate::tui::modal::EffectView;
use crate::tui::model::{
    GithubReleaseMonitor, MonitorOutcome, MonitorStatus, ReleaseUpdatePolicy, automatic_names,
    monitor_listed, same_release, status_from, status_named, updates_itself,
};
use vstd::prelude::*;
use vstd::string::*;

verus! {

/// Whether a tag begins with a v.
pub open spec fn begins_with_v(tag: Seq<char>) -> bool {
    tag.len() > 0 && (tag[0] == 'v' || tag[0] == 'V')
}

/// Two tags name one release where they are the same but for one v before either
/// of them, and only there.
pub proof fn law_tags_of_one_release(a: Seq<char>, b: Seq<char>)
    ensures
        !begins_with_v(a) && !begins_with_v(b) ==> (same_release(a, b) <==> a == b),
        begins_with_v(a) && !begins_with_v(b) ==> (same_release(a, b) <==> a.drop_first() == b),
        begins_with_v(a) && begins_with_v(b) ==> (same_release(a, b) <==> a.drop_first()
            == b.drop_first()),
        same_release(a, b) == same_release(b, a),
        same_release(a, a),
{
}

/// Whether `i` is the first status of that name.
pub open spec fn is_first_status(statuses: Seq<MonitorStatus>, name: Seq<char>, i: int) -> bool {
    &&& 0 <= i < statuses.len()
    &&& statuses[i].name@ == name
    &&& forall|k: int| 0 <= k < i ==> (#[trigger] statuses[k]).name@ != name
}

proof fn lemma_status_from(statuses: Seq<MonitorStatus>, name: Seq<char>, i: int)
    requires
        0 <= i <= statuses.len(),
    ensures
        status_from(statuses, name, i) matches Some(k) ==> i <= k < statuses.len()
            && statuses[k].name@ == name && forall|j: int|
            i <= j < k ==> (#[trigger] statuses[j]).name@ != name,
        status_from(statuses, name, i) is None ==> forall|j: int|
            i <= j < statuses.len() ==> (#[trigger] statuses[j]).name@ != name,
    decreases statuses.len() - i,
{
    if i < statuses.len() {
        lemma_status_from(statuses, name, i + 1);
    }
}

/// The status of a repository is the first one of its name.
pub proof fn law_statuses_are_found_by_name(statuses: Seq<MonitorStatus>, name: Seq<char>, i: int)
    ensures
        status_named(statuses, name) == Some(i) <==> is_first_status(statuses, name, i),
        status_named(statuses, name) is None <==> forall|k: int|
            0 <= k < statuses.len() ==> (#[trigger] statuses[k]).name@ != name,
{
    lemma_status_from(statuses, name, 0);
}

/// Whether a status tells of a release that is not installed: the latest tag is
/// known, and there is no installed one, or one that names another release.
pub open spec fn has_news(status: MonitorStatus) -> bool {
    status.latest_tag matches Some(latest) && match status.installed_tag {
        Some(installed) => !same_release(installed@, latest@),
        None => true,
    }
}

/// Whether a repository is to be installed without asking: it is enabled, its policy
/// is automatic, and its status has no error and tells of a release that is not
/// installed.
pub open spec fn installs_itself(
    monitor: GithubReleaseMonitor,
    statuses: Seq<MonitorStatus>,
) -> bool {
    &&& monitor.enabled
    &&& monitor.update_policy == ReleaseUpdatePolicy::Automatic
    &&& exists|i: int| #[trigger]
        is_first_status(statuses, monitor.name@, i) && statuses[i].error is None && has_news(
            statuses[i],
        )
}

/// The names of the repositories to be installed without asking.
pub open spec fn self_installing(
    monitors: Seq<GithubReleaseMonitor>,
    statuses: Seq<MonitorStatus>,
) -> Seq<Seq<char>> {
    monitors.filter(
        |monitor: GithubReleaseMonitor| installs_itself(monitor, statuses),
    ).map_values(|monitor: GithubReleaseMonitor| monitor.name@)
}

proof fn lemma_updates_itself(monitor: GithubReleaseMonitor, statuses: Seq<MonitorStatus>)
    ensures
        updates_itself(monitor, statuses) == installs_itself(monitor, statuses),
{
    lemma_status_from(statuses, monitor.name@, 0);
    if status_named(statuses, monitor.name@) is Some {
        let i = status_named(statuses, monitor.name@)->0;
        assert(is_first_status(statuses, monitor.name@, i));
        if installs_itself(monitor, statuses) {
            let k = choose|k: int| #[trigger]
                is_first_status(statuses, monitor.name@, k) && statuses[k].error is None
                    && has_news(statuses[k]);
            assert(k == i);
        }
    }
}

proof fn lemma_automatic_names(
    monitors: Seq<GithubReleaseMonitor>,
    statuses: Seq<MonitorStatus>,
    n: int,
)
    requires
        0 <= n <= monitors.len(),
    ensures
        automatic_names(monitors, statuses, n) == self_installing(monitors.take(n), statuses),
    decreases n,
{
    reveal(Seq::filter);
    let p = |monitor: GithubReleaseMonitor| installs_itself(monitor, statuses);
    let f = |monitor: GithubReleaseMonitor| monitor.name@;
    if n > 0 {
        lemma_automatic_names(monitors, statuses, n - 1);
        let last = monitors[n - 1];
        lemma_updates_itself(last, statuses);
        assert(monitors.take(n).drop_last() =~= monitors.take(n - 1));
        assert(monitors.take(n).last() == last);
        let before = monitors.take(n - 1).filter(p);
        if p(last) {
            assert(monitors.take(n).filter(p) == before.push(last));
            assert(before.push(last).map_values(f) =~= before.map_values(f).push(last.name@));
        }
    } else {
        assert(monitors.take(0) =~= Seq::<GithubReleaseMonitor>::empty());
        assert(monitors.take(0).filter(p).map_values(f) =~= Seq::<Seq<char>>::empty());
    }
}

/// Every repository that is enabled, has the automatic policy, and whose status has
/// no error and tells of a release that is not installed, the first one of it or a
/// newer one, is installed without asking, and no other one is.
pub proof fn law_news_of_automatic_monitors_are_installed(
    monitors: Seq<GithubReleaseMonitor>,
    statuses: Seq<MonitorStatus>,
    i: int,
)
    requires
        0 <= i < monitors.len(),
    ensures
        automatic_names(monitors, statuses, monitors.len() as int) == self_installing(
            monitors,
            statuses,
        ),
        installs_itself(monitors[i], statuses) ==> automatic_names(
            monitors,
            statuses,
            monitors.len() as int,
        ).contains(monitors[i].name@),
{
    broadcast use vstd::seq_lib::group_filter_ensures;

    lemma_automatic_names(monitors, statuses, monitors.len() as int);
    assert(monitors.take(monitors.len() as int) =~= monitors);
    let p = |monitor: GithubReleaseMonitor| installs_itself(monitor, statuses);
    let f = |monitor: GithubReleaseMonitor| monitor.name@;
    if installs_itself(monitors[i], statuses) {
        assert(p(monitors[i]));
        assert(monitors.filter(p).contains(monitors[i]));
        let k = choose|k: int| 0 <= k < monitors.filter(p).len() && monitors.filter(p)[k] == monitors[i];
        assert(monitors.filter(p).map_values(f)[k] == monitors[i].name@);
    }
}

/// What was found of the repositories is shown, and the releases that are to be
/// installed without asking are put into the queue, all at once and nothing else.
pub proof fn law_found_releases_are_installed(app: AppView, list: Vec<MonitorStatus>)
    requires
        !app.github.install_running,
    ensures
        ({
            let after = app.after_event(AppEvent::ReleaseMonitorsProbed(Ok(list)));
            let names = self_installing(app.github.monitors, list@);
            &&& after.github.statuses == list@
            &&& !after.github.probe_running
            &&& after.github.install_running == (names.len() > 0)
            &&& after.effects == if names.len() > 0 {
                app.effects.push(EffectView::InstallReleases { names })
            } else {
                app.effects
            }
        }),
{
    let monitors = app.github.monitors;
    lemma_automatic_names(monitors, list@, monitors.len() as int);
    assert(monitors.take(monitors.len() as int) =~= monitors);
}

/// Where looking at the repositories failed, nothing is installed and what is known
/// of them stays.
pub proof fn law_failed_refreshes_change_nothing(app: AppView, error: String)
    ensures
        ({
            let after = app.after_event(AppEvent::ReleaseMonitorsProbed(Err(error)));
            &&& after.github.statuses == app.github.statuses
            &&& after.github.selected == app.github.selected
            &&& !after.github.probe_running
            &&& after.effects == app.effects
        }),
{
}

/// What came of a repository is noted of it alone: one that was installed, or was
/// current, has that release as its installed and its latest one and no error; of
/// one that failed only the error changes.
pub proof fn law_outcomes_are_noted(statuses: Seq<MonitorStatus>, outcome: MonitorOutcome, i: int)
    requires
        is_first_status(
            statuses,
            match outcome {
                MonitorOutcome::Updated { name, .. } => name@,
                MonitorOutcome::Failed { name, .. } => name@,
                MonitorOutcome::Current { name, .. } => name@,
            },
            i,
        ),
    ensures
        ({
            let after = with_outcome(statuses, outcome);
            &&& after.len() == statuses.len()
            &&& after[i].name == statuses[i].name
            &&& forall|k: int|
                0 <= k < statuses.len() && k != i ==> #[trigger] after[k] == statuses[k]
            &&& outcome matches MonitorOutcome::Updated { tag, asset, .. } ==> after[i].installed_tag
                == Some(tag) && after[i].latest_tag == Some(tag) && after[i].asset == Some(asset)
                && after[i].error is None
            &&& outcome matches MonitorOutcome::Current { tag, .. } ==> after[i].installed_tag
                == Some(tag) && after[i].latest_tag == Some(tag) && after[i].asset
                == statuses[i].asset && after[i].error is None
            &&& outcome matches MonitorOutcome::Failed { error, .. } ==> after[i].error == Some(error)
                && after[i].installed_tag == statuses[i].installed_tag && after[i].latest_tag
                == statuses[i].latest_tag
        }),
{
    lemma_status_from(statuses, statuses[i].name@, 0);
}

proof fn lemma_counts(statuses: Seq<MonitorStatus>, n: int)
    requires
        0 <= n <= statuses.len(),
    ensures
        failed_count(statuses, n) == statuses.take(n).filter(
            |s: MonitorStatus| s.error is Some,
        ).len(),
        outdated_count(statuses, n) == statuses.take(n).filter(|s: MonitorStatus| has_news(s)).len(),
    decreases n,
{
    reveal(Seq::filter);
    if n > 0 {
        lemma_counts(statuses, n - 1);
        assert(statuses.take(n).drop_last() =~= statuses.take(n - 1));
        assert(statuses.take(n).last() == statuses[n - 1]);
    } else {
        assert(statuses.take(0) =~= Seq::<MonitorStatus>::empty());
    }
}

/// What is said of a refresh counts the repositories with a release that is not
/// installed, and those with an error.
pub proof fn law_refreshes_are_summed_up(app: AppView, list: Vec<MonitorStatus>)
    requires
        self_installing(app.github.monitors, list@).len() == 0,
        app.language == Language::English,
    ensures
        app.after_event(AppEvent::ReleaseMonitorsProbed(Ok(list))).message
            == "GitHub repositories refreshed: "@ + decimal_text(
            list@.filter(|s: MonitorStatus| has_news(s)).len(),
        ) + " update(s), "@ + decimal_text(
            list@.filter(|s: MonitorStatus| s.error is Some).len(),
        ) + " failed"@,
{
    let monitors = app.github.monitors;
    lemma_automatic_names(monitors, list@, monitors.len() as int);
    assert(monitors.take(monitors.len() as int) =~= monitors);
    lemma_counts(list@, list@.len() as int);
    assert(list@.take(list@.len() as int) =~= list@);
}

proof fn lemma_requested_names(
    monitors: Seq<GithubReleaseMonitor>,
    selected: Set<Seq<char>>,
    n: int,
)
    requires
        0 <= n <= monitors.len(),
    ensures
        requested_names(monitors, selected, n) == monitors.take(n).filter(
            |m: GithubReleaseMonitor| m.enabled && selected.contains(m.name@),
        ).map_values(|m: GithubReleaseMonitor| m.name@),
    decreases n,
{
    reveal(Seq::filter);
    let p = |m: GithubReleaseMonitor| m.enabled && selected.contains(m.name@);
    let f = |m: GithubReleaseMonitor| m.name@;
    if n > 0 {
        lemma_requested_names(monitors, selected, n - 1);
        let last = monitors[n - 1];
        assert(monitors.take(n).drop_last() =~= monitors.take(n - 1));
        assert(monitors.take(n).last() == last);
        let before = monitors.take(n - 1).filter(p);
        if p(last) {
            assert(monitors.take(n).filter(p) == before.push(last));
            assert(before.push(last).map_values(f) =~= before.map_values(f).push(last.name@));
        }
    } else {
        assert(monitors.take(0) =~= Seq::<GithubReleaseMonitor>::empty());
        assert(monitors.take(0).filter(p).map_values(f) =~= Seq::<Seq<char>>::empty());
    }
}

proof fn lemma_split_releases(statuses: Seq<MonitorStatus>, names: Seq<Seq<char>>, current: bool)
    ensures
        split_releases(statuses, names, current) == names.filter(
            |name: Seq<char>| release_current(statuses, name) == current,
        ),
    decreases names.len(),
{
    reveal(Seq::filter);
    if names.len() > 0 {
        lemma_split_releases(statuses, names.drop_last(), current);
    } else {
        assert(names =~= Seq::empty());
    }
}

/// The repositories that are installed on request are the selected ones that are
/// enabled, without those whose latest release is installed.
pub proof fn law_selected_monitors_are_installed(github: GithubView, name: Seq<char>)
    ensures
        github.requested() == github.monitors.filter(
            |m: GithubReleaseMonitor| m.enabled && github.selected.contains(m.name@),
        ).map_values(|m: GithubReleaseMonitor| m.name@),
        split_releases(github.statuses, github.requested(), false) == github.requested().filter(
            |n: Seq<char>| !release_current(github.statuses, n),
        ),
        release_current(github.statuses, name) <==> exists|i: int| #[trigger]
            is_first_status(github.statuses, name, i) && (github.statuses[i].installed_tag matches Some(
                installed,
            ) && github.statuses[i].latest_tag matches Some(latest) && same_release(
                installed@,
                latest@,
            )),
{
    let n = github.monitors.len() as int;
    lemma_requested_names(github.monitors, github.selected, n);
    assert(github.monitors.take(n) =~= github.monitors);
    lemma_split_releases(github.statuses, github.requested(), false);
    let p = |n: Seq<char>| release_current(github.statuses, n) == false;
    let q = |n: Seq<char>| !release_current(github.statuses, n);
    assert(p =~= q);
    lemma_status_from(github.statuses, name, 0);
    if status_named(github.statuses, name) is Some {
        let i = status_named(github.statuses, name)->0;
        assert(is_first_status(github.statuses, name, i));
    }
}

proof fn lemma_kept(statuses: Seq<MonitorStatus>, monitors: Seq<GithubReleaseMonitor>, name: Seq<char>, n: int)
    requires
        0 <= n <= statuses.len(),
    ensures
        kept_statuses(statuses, monitors, n) == statuses.take(n).filter(
            |s: MonitorStatus| monitor_listed(monitors, s.name@),
        ),
        other_statuses(statuses, name, n) == statuses.take(n).filter(
            |s: MonitorStatus| s.name@ != name,
        ),
    decreases n,
{
    reveal(Seq::filter);
    if n > 0 {
        lemma_kept(statuses, monitors, name, n - 1);
        assert(statuses.take(n).drop_last() =~= statuses.take(n - 1));
        assert(statuses.take(n).last() == statuses[n - 1]);
    } else {
        assert(statuses.take(0) =~= Seq::<MonitorStatus>::empty());
    }
}

/// Loading the repositories anew keeps what is known of those that are still there,
/// and only that; deleting one forgets what is known of it, and only that.
pub proof fn law_known_releases_are_kept(
    github: GithubView,
    monitors: Seq<GithubReleaseMonitor>,
    name: Seq<char>,
)
    ensures
        github.reloaded(monitors).statuses == github.statuses.filter(
            |s: MonitorStatus| monitor_listed(monitors, s.name@),
        ),
        github.reloaded(monitors).monitors == monitors,
        forall|t: Seq<char>| #[trigger]
            github.reloaded(monitors).selected.contains(t) <==> github.selected.contains(t)
                && monitor_listed(monitors, t),
        github.removed(monitors, name).statuses == github.statuses.filter(
            |s: MonitorStatus| s.name@ != name,
        ),
        forall|t: Seq<char>| #[trigger]
            github.removed(monitors, name).selected.contains(t) <==> github.selected.contains(t)
                && t != name,
{
    let n = github.statuses.len() as int;
    lemma_kept(github.statuses, monitors, name, n);
    assert(github.statuses.take(n) =~= github.statuses);
}

} // verus!
