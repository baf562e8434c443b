//! The GitHub repositories whose releases are installed, and the API key.

use crate::number::smaller;
use crate::search::{lemma_texts_push, texts};
use crate::text::same;
use crate::tui::editor::next_revision;
use crate::tui::geometry::{ListViewport, at_most, before, last_of};
use crate::tui::modal::{
    add_text, holds_text, lemma_text_set_push, remove_text, retain_monitors, text_set,
};
use crate::tui::model::{
    GithubReleaseMonitor, MonitorOutcome, MonitorStatus, has_monitor, monitor_listed,
    monitor_status_is_current, note_monitor_failure, status_named, status_position,
    update_monitor_status, with_failure, with_release,
};
use crate::tui::tools::{following_probe, next_probe};
use crate::version::GithubRateLimit;
use vstd::prelude::*;
use vstd::string::*;

verus! {

/// The repositories, and what is known of their releases.
#[derive(Debug)]
pub struct Github {
    pub monitors: Vec<GithubReleaseMonitor>,
    pub index: usize,
    pub viewport: ListViewport,
    pub selected: Vec<String>,
    pub statuses: Vec<MonitorStatus>,
    pub probe_running: bool,
    pub install_running: bool,
    pub last_refresh: u64,
}

/// What the list of repositories holds.
pub struct GithubView {
    pub monitors: Seq<GithubReleaseMonitor>,
    pub index: usize,
    pub viewport: ListViewport,
    pub selected: Set<Seq<char>>,
    pub statuses: Seq<MonitorStatus>,
    pub probe_running: bool,
    pub install_running: bool,
    pub last_refresh: u64,
}

impl View for Github {
    type V = GithubView;

    open spec fn view(&self) -> GithubView {
        GithubView {
            monitors: self.monitors@,
            index: self.index,
            viewport: self.viewport,
            selected: text_set(self.selected@),
            statuses: self.statuses@,
            probe_running: self.probe_running,
            install_running: self.install_running,
            last_refresh: self.last_refresh,
        }
    }
}

/// The first `n` statuses that are of a repository.
pub open spec fn kept_statuses(
    statuses: Seq<MonitorStatus>,
    monitors: Seq<GithubReleaseMonitor>,
    n: int,
) -> Seq<MonitorStatus>
    decreases n,
{
    if n <= 0 {
        Seq::empty()
    } else if monitor_listed(monitors, statuses[n - 1].name@) {
        kept_statuses(statuses, monitors, n - 1).push(statuses[n - 1])
    } else {
        kept_statuses(statuses, monitors, n - 1)
    }
}

/// The first `n` statuses that are not of that name.
pub open spec fn other_statuses(
    statuses: Seq<MonitorStatus>,
    name: Seq<char>,
    n: int,
) -> Seq<MonitorStatus>
    decreases n,
{
    if n <= 0 {
        Seq::empty()
    } else if statuses[n - 1].name@ != name {
        other_statuses(statuses, name, n - 1).push(statuses[n - 1])
    } else {
        other_statuses(statuses, name, n - 1)
    }
}

/// The names of the first `n` repositories that are enabled and selected.
pub open spec fn requested_names(
    monitors: Seq<GithubReleaseMonitor>,
    selected: Set<Seq<char>>,
    n: int,
) -> Seq<Seq<char>>
    decreases n,
{
    if n <= 0 {
        Seq::empty()
    } else if monitors[n - 1].enabled && selected.contains(monitors[n - 1].name@) {
        requested_names(monitors, selected, n - 1).push(monitors[n - 1].name@)
    } else {
        requested_names(monitors, selected, n - 1)
    }
}

/// Whether the newest release of the repository of that name is installed.
pub open spec fn release_current(statuses: Seq<MonitorStatus>, name: Seq<char>) -> bool {
    status_named(statuses, name) matches Some(i) && statuses[i].is_current()
}

/// Those of the names whose newest releases are, or are not, installed.
pub open spec fn split_releases(
    statuses: Seq<MonitorStatus>,
    names: Seq<Seq<char>>,
    current: bool,
) -> Seq<Seq<char>>
    decreases names.len(),
{
    if names.len() == 0 {
        Seq::empty()
    } else {
        let before = split_releases(statuses, names.drop_last(), current);
        if release_current(statuses, names.last()) == current {
            before.push(names.last())
        } else {
            before
        }
    }
}

/// The number of the first `n` statuses with an error.
pub open spec fn failed_count(statuses: Seq<MonitorStatus>, n: int) -> nat
    decreases n,
{
    if n <= 0 {
        0
    } else {
        failed_count(statuses, n - 1) + if statuses[n - 1].error is Some {
            1nat
        } else {
            0nat
        }
    }
}

/// The number of the first `n` statuses with a release that is not installed.
pub open spec fn outdated_count(statuses: Seq<MonitorStatus>, n: int) -> nat
    decreases n,
{
    if n <= 0 {
        0
    } else {
        outdated_count(statuses, n - 1) + if statuses[n - 1].is_outdated() {
            1nat
        } else {
            0nat
        }
    }
}

/// The number of the first `n` outcomes that are installed releases.
pub open spec fn updated_outcomes(outcomes: Seq<MonitorOutcome>, n: int) -> nat
    decreases n,
{
    if n <= 0 {
        0
    } else {
        updated_outcomes(outcomes, n - 1) + if outcomes[n - 1] is Updated {
            1nat
        } else {
            0nat
        }
    }
}

/// The number of the first `n` outcomes that are failures.
pub open spec fn failed_outcomes(outcomes: Seq<MonitorOutcome>, n: int) -> nat
    decreases n,
{
    if n <= 0 {
        0
    } else {
        failed_outcomes(outcomes, n - 1) + if outcomes[n - 1] is Failed {
            1nat
        } else {
            0nat
        }
    }
}

/// The statuses once an outcome is known.
pub open spec fn with_outcome(
    statuses: Seq<MonitorStatus>,
    outcome: MonitorOutcome,
) -> Seq<MonitorStatus> {
    match outcome {
        MonitorOutcome::Updated { name, tag, asset } => with_release(
            statuses,
            name,
            tag,
            Some(asset),
        ),
        MonitorOutcome::Failed { name, error } => with_failure(statuses, name, error),
        MonitorOutcome::Current { name, tag } => with_release(statuses, name, tag, None),
    }
}

/// The statuses once the first `n` outcomes are known.
pub open spec fn with_outcomes(
    statuses: Seq<MonitorStatus>,
    outcomes: Seq<MonitorOutcome>,
    n: int,
) -> Seq<MonitorStatus>
    decreases n,
{
    if n <= 0 {
        statuses
    } else {
        with_outcome(with_outcomes(statuses, outcomes, n - 1), outcomes[n - 1])
    }
}

impl GithubView {
    /// Whether something is done to the repositories in the background.
    pub open spec fn busy(self) -> bool {
        self.probe_running || self.install_running
    }

    /// The list with the repositories loaded anew.
    pub open spec fn reloaded(self, monitors: Seq<GithubReleaseMonitor>) -> GithubView {
        GithubView {
            monitors,
            selected: self.selected.filter(|t: Seq<char>| monitor_listed(monitors, t)),
            statuses: kept_statuses(self.statuses, monitors, self.statuses.len() as int),
            index: at_most(self.index as int, last_of(monitors.len() as int)) as usize,
            ..self
        }
    }

    /// The list with a repository gone.
    pub open spec fn removed(
        self,
        monitors: Seq<GithubReleaseMonitor>,
        name: Seq<char>,
    ) -> GithubView {
        GithubView {
            monitors,
            statuses: other_statuses(self.statuses, name, self.statuses.len() as int),
            selected: self.selected.remove(name),
            ..self
        }
    }

    /// The names of the repositories that are enabled and selected.
    pub open spec fn requested(self) -> Seq<Seq<char>> {
        requested_names(self.monitors, self.selected, self.monitors.len() as int)
    }

    /// The names of the enabled repositories.
    pub open spec fn enabled_names(self) -> Set<Seq<char>> {
        Set::new(
            |t: Seq<char>|
                exists|i: int|
                    0 <= i < self.monitors.len() && (#[trigger] self.monitors[i]).enabled
                        && self.monitors[i].name@ == t,
        )
    }

    /// The list with all enabled repositories selected, or none if they were.
    pub open spec fn toggled_all(self) -> GithubView {
        GithubView {
            selected: if self.enabled_names().subset_of(self.selected) {
                Set::empty()
            } else {
                self.enabled_names()
            },
            ..self
        }
    }

    /// The list with a repository selected, or not.
    pub open spec fn toggled(self, name: Seq<char>) -> GithubView {
        GithubView {
            selected: if self.selected.contains(name) {
                self.selected.remove(name)
            } else {
                self.selected.insert(name)
            },
            ..self
        }
    }
}

/// A repository cannot be selected twice: selecting it twice changes nothing.
pub proof fn law_selecting_twice_changes_nothing(github: GithubView, name: Seq<char>)
    ensures
        github.toggled(name).toggled(name) == github,
{
    assert(github.toggled(name).toggled(name).selected =~= github.selected);
}

impl GithubView {
    /// Nothing yet.
    pub open spec fn blank(now: u64) -> GithubView {
        GithubView {
            monitors: Seq::empty(),
            index: 0,
            viewport: ListViewport::none(),
            selected: Set::empty(),
            statuses: Seq::empty(),
            probe_running: false,
            install_running: false,
            last_refresh: now,
        }
    }
}

impl Github {
    pub fn empty(now: u64) -> (r: Github)
        ensures
            r@ == GithubView::blank(now),
    {
        let r = Github {
            monitors: Vec::new(),
            index: 0,
            viewport: ListViewport::empty(),
            selected: Vec::new(),
            statuses: Vec::new(),
            probe_running: false,
            install_running: false,
            last_refresh: now,
        };
        assert(text_set(r.selected@) =~= Set::empty());
        r
    }

    /// Leaves the statuses of repositories that are there.
    fn retain_statuses(&mut self)
        ensures
            final(self)@ == (GithubView {
                statuses: kept_statuses(
                    old(self).statuses@,
                    old(self).monitors@,
                    old(self).statuses@.len() as int,
                ),
                ..old(self)@
            }),
    {
        let ghost all = self.statuses@;
        let ghost before = self@;
        let mut i: usize = 0;
        let ghost mut j: int = 0;
        assert(kept_statuses(all, self.monitors@, 0) + all.skip(0) =~= all);
        while i < self.statuses.len()
            invariant
                0 <= j <= all.len(),
                i == kept_statuses(all, self.monitors@, j).len(),
                self.statuses@ == kept_statuses(all, self.monitors@, j) + all.skip(j),
                self@ == (GithubView { statuses: self.statuses@, ..before }),
            decreases all.len() - j,
        {
            let ghost kept = kept_statuses(all, self.monitors@, j);
            assert(self.statuses@[i as int] == all[j]);
            if has_monitor(&self.monitors, self.statuses[i].name.as_str()) {
                i += 1;
                assert(kept + all.skip(j) =~= kept.push(all[j]) + all.skip(j + 1));
            } else {
                let _ = self.statuses.remove(i);
                assert(self.statuses@ =~= kept + all.skip(j + 1));
            }
            proof {
                j = j + 1;
            }
        }
        assert(j == all.len());
        assert(self.statuses@ =~= kept_statuses(all, self.monitors@, j));
    }

    /// Takes out the statuses of that name.
    fn drop_status(&mut self, name: &str)
        ensures
            final(self)@ == (GithubView {
                statuses: other_statuses(
                    old(self).statuses@,
                    name@,
                    old(self).statuses@.len() as int,
                ),
                ..old(self)@
            }),
    {
        let ghost all = self.statuses@;
        let ghost before = self@;
        let mut i: usize = 0;
        let ghost mut j: int = 0;
        assert(other_statuses(all, name@, 0) + all.skip(0) =~= all);
        while i < self.statuses.len()
            invariant
                0 <= j <= all.len(),
                i == other_statuses(all, name@, j).len(),
                self.statuses@ == other_statuses(all, name@, j) + all.skip(j),
                self@ == (GithubView { statuses: self.statuses@, ..before }),
            decreases all.len() - j,
        {
            let ghost kept = other_statuses(all, name@, j);
            assert(self.statuses@[i as int] == all[j]);
            if !same(self.statuses[i].name.as_str(), name) {
                i += 1;
                assert(kept + all.skip(j) =~= kept.push(all[j]) + all.skip(j + 1));
            } else {
                let _ = self.statuses.remove(i);
                assert(self.statuses@ =~= kept + all.skip(j + 1));
            }
            proof {
                j = j + 1;
            }
        }
        assert(j == all.len());
        assert(self.statuses@ =~= other_statuses(all, name@, j));
    }

    /// Takes the repositories as they were loaded.
    pub fn refresh(&mut self, monitors: Vec<GithubReleaseMonitor>)
        ensures
            final(self)@ == old(self)@.reloaded(monitors@),
    {
        self.monitors = monitors;
        retain_monitors(&mut self.selected, &self.monitors);
        self.retain_statuses();
        let last: usize = if self.monitors.len() > 0 {
            self.monitors.len() - 1
        } else {
            0
        };
        self.index = smaller(self.index, last);
    }

    /// Takes the repositories that are left without the one of that name.
    pub fn remove(&mut self, monitors: Vec<GithubReleaseMonitor>, name: &str)
        ensures
            final(self)@ == old(self)@.removed(monitors@, name@),
    {
        self.monitors = monitors;
        self.drop_status(name);
        remove_text(&mut self.selected, name);
    }

    pub fn focused_github_monitor(&self) -> (r: Option<&GithubReleaseMonitor>)
        ensures
            r is Some <==> self.index < self.monitors@.len(),
            r matches Some(monitor) ==> *monitor == self.monitors@[self.index as int],
    {
        if self.index < self.monitors.len() {
            Some(&self.monitors[self.index])
        } else {
            None
        }
    }

    /// The names of the repositories that are enabled and selected.
    pub fn requested(&self) -> (r: Vec<String>)
        ensures
            texts(r@) == self@.requested(),
    {
        let mut names: Vec<String> = Vec::new();
        let mut i: usize = 0;
        assert(texts(names@) =~= Seq::<Seq<char>>::empty());
        while i < self.monitors.len()
            invariant
                i <= self.monitors@.len(),
                texts(names@) == requested_names(self.monitors@, self@.selected, i as int),
            decreases self.monitors@.len() - i,
        {
            let monitor = &self.monitors[i];
            if monitor.enabled && holds_text(&self.selected, monitor.name.as_str()) {
                let name = monitor.name.clone();
                proof {
                    lemma_texts_push(names@, name);
                }
                names.push(name);
            }
            i += 1;
        }
        names
    }

    /// Splits names of repositories into those to install and those whose
    /// newest releases are installed.
    pub fn partition_releases(&self, names: &Vec<String>) -> (r: (Vec<String>, Vec<String>))
        ensures
            texts(r.0@) == split_releases(self.statuses@, texts(names@), false),
            texts(r.1@) == split_releases(self.statuses@, texts(names@), true),
    {
        let ghost all = texts(names@);
        let mut wanted: Vec<String> = Vec::new();
        let mut current: Vec<String> = Vec::new();
        let mut i: usize = 0;
        assert(all.take(0) =~= Seq::<Seq<char>>::empty());
        assert(texts(wanted@) =~= Seq::<Seq<char>>::empty());
        assert(texts(current@) =~= Seq::<Seq<char>>::empty());
        while i < names.len()
            invariant
                i <= names@.len(),
                all == texts(names@),
                texts(wanted@) == split_releases(self.statuses@, all.take(i as int), false),
                texts(current@) == split_releases(self.statuses@, all.take(i as int), true),
            decreases names@.len() - i,
        {
            let name = names[i].clone();
            assert(all.take(i + 1).drop_last() =~= all.take(i as int));
            assert(all[i as int] == name@);
            let up_to_date = match status_position(&self.statuses, name.as_str()) {
                Some(k) => monitor_status_is_current(&self.statuses[k]),
                None => false,
            };
            if up_to_date {
                proof {
                    lemma_texts_push(current@, name);
                }
                current.push(name);
            } else {
                proof {
                    lemma_texts_push(wanted@, name);
                }
                wanted.push(name);
            }
            i += 1;
        }
        assert(all.take(i as int) =~= all);
        (wanted, current)
    }

    /// Selects all enabled repositories, or none if they were all selected.
    pub fn toggle_all(&mut self)
        ensures
            final(self)@ == old(self)@.toggled_all(),
    {
        let ghost before = self@;
        let mut select: bool = false;
        let mut names: Vec<String> = Vec::new();
        let mut i: usize = 0;
        while i < self.monitors.len()
            invariant
                i <= self.monitors@.len(),
                self@ == before,
                select == exists|k: int|
                    0 <= k < i && (#[trigger] self.monitors@[k]).enabled
                        && !before.selected.contains(self.monitors@[k].name@),
                forall|t: Seq<char>| #[trigger]
                    text_set(names@).contains(t) <==> exists|k: int|
                        0 <= k < i && (#[trigger] self.monitors@[k]).enabled
                            && self.monitors@[k].name@ == t,
            decreases self.monitors@.len() - i,
        {
            let ghost seen = names@;
            if self.monitors[i].enabled {
                if !holds_text(&self.selected, self.monitors[i].name.as_str()) {
                    select = true;
                }
                let name = self.monitors[i].name.clone();
                names.push(name);
                assert forall|t: Seq<char>| #[trigger]
                    text_set(names@).contains(t) <==> exists|k: int|
                        0 <= k < i + 1 && (#[trigger] self.monitors@[k]).enabled
                            && self.monitors@[k].name@ == t by {
                    lemma_text_set_push(seen, name, t);
                    if t == name@ {
                        assert(self.monitors@[i as int].enabled);
                    }
                }
            }
            i += 1;
        }
        assert(text_set(names@) =~= before.enabled_names());
        if select {
            proof {
                let k = choose|k: int|
                    0 <= k < before.monitors.len() && (#[trigger] before.monitors[k]).enabled
                        && !before.selected.contains(before.monitors[k].name@);
                assert(before.enabled_names().contains(before.monitors[k].name@));
            }
            self.selected = names;
        } else {
            assert forall|t: Seq<char>| before.enabled_names().contains(t) implies
                before.selected.contains(t) by {
                let k = choose|k: int|
                    0 <= k < before.monitors.len() && (#[trigger] before.monitors[k]).enabled
                        && before.monitors[k].name@ == t;
                assert(before.monitors[k].enabled);
            }
            self.selected = Vec::new();
            assert(text_set(self.selected@) =~= Set::empty());
        }
    }

    /// Selects a repository, or takes it out of the selection.
    pub fn toggle(&mut self, name: &String)
        ensures
            final(self)@ == old(self)@.toggled(name@),
    {
        if holds_text(&self.selected, name.as_str()) {
            remove_text(&mut self.selected, name.as_str());
        } else {
            add_text(&mut self.selected, name.clone());
        }
    }
}

/// The number of statuses with an error.
pub fn count_failed(statuses: &Vec<MonitorStatus>) -> (r: usize)
    ensures
        r == failed_count(statuses@, statuses@.len() as int),
{
    let mut n: usize = 0;
    let mut i: usize = 0;
    while i < statuses.len()
        invariant
            i <= statuses@.len(),
            statuses@.len() == statuses.len(),
            n <= i,
            n == failed_count(statuses@, i as int),
        decreases statuses@.len() - i,
    {
        if statuses[i].error.is_some() {
            n += 1;
        }
        i += 1;
    }
    n
}

/// The number of statuses with a release that is not installed.
pub fn count_outdated(statuses: &Vec<MonitorStatus>) -> (r: usize)
    ensures
        r == outdated_count(statuses@, statuses@.len() as int),
{
    let mut n: usize = 0;
    let mut i: usize = 0;
    while i < statuses.len()
        invariant
            i <= statuses@.len(),
            statuses@.len() == statuses.len(),
            n <= i,
            n == outdated_count(statuses@, i as int),
        decreases statuses@.len() - i,
    {
        if statuses[i].latest_tag.is_some() && !monitor_status_is_current(&statuses[i]) {
            n += 1;
        }
        i += 1;
    }
    n
}

/// How many releases were installed, and how many failed.
pub fn count_outcomes(outcomes: &Vec<MonitorOutcome>) -> (r: (usize, usize))
    ensures
        r.0 == updated_outcomes(outcomes@, outcomes@.len() as int),
        r.1 == failed_outcomes(outcomes@, outcomes@.len() as int),
{
    let mut updated: usize = 0;
    let mut failed: usize = 0;
    let mut i: usize = 0;
    while i < outcomes.len()
        invariant
            i <= outcomes@.len(),
            outcomes@.len() == outcomes.len(),
            updated <= i,
            failed <= i,
            updated == updated_outcomes(outcomes@, i as int),
            failed == failed_outcomes(outcomes@, i as int),
        decreases outcomes@.len() - i,
    {
        match &outcomes[i] {
            MonitorOutcome::Updated { .. } => updated += 1,
            MonitorOutcome::Failed { .. } => failed += 1,
            MonitorOutcome::Current { .. } => {},
        }
        i += 1;
    }
    (updated, failed)
}

/// Notes an outcome among the statuses.
pub fn note_outcome(statuses: &mut Vec<MonitorStatus>, outcome: &MonitorOutcome)
    ensures
        final(statuses)@ == with_outcome(old(statuses)@, *outcome),
{
    match outcome {
        MonitorOutcome::Updated { name, tag, asset } => update_monitor_status(
            statuses,
            name,
            tag,
            Some(asset),
        ),
        MonitorOutcome::Failed { name, error } => note_monitor_failure(statuses, name, error),
        MonitorOutcome::Current { name, tag } => update_monitor_status(statuses, name, tag, None),
    }
}

/// The API key for GitHub, and what its quota is.
#[derive(Debug)]
pub struct Quota {
    pub key_configured: bool,
    pub credential_error: Option<String>,
    pub credential_probe_id: u64,
    pub rate_limit: Option<GithubRateLimit>,
    pub error: Option<String>,
    pub loading: bool,
    pub probe_id: u64,
    pub last_refresh: u64,
}

impl Quota {
    /// Nothing yet.
    pub open spec fn blank(now: u64) -> Quota {
        Quota {
            key_configured: false,
            credential_error: None,
            credential_probe_id: 0,
            rate_limit: None,
            error: None,
            loading: false,
            probe_id: 0,
            last_refresh: now,
        }
    }
}

impl Quota {
    /// The quota that is not known of.
    pub open spec fn forgotten(self, now: u64) -> Quota {
        Quota {
            probe_id: next_revision(self.probe_id),
            rate_limit: None,
            error: None,
            loading: false,
            last_refresh: now,
            ..self
        }
    }

    /// Whether the quota is asked for.
    pub open spec fn asks(self) -> bool {
        self.key_configured && !self.loading
    }

    /// The quota while it is asked for.
    pub open spec fn asking(self, now: u64) -> Quota {
        if self.asks() {
            Quota {
                probe_id: next_probe(self.probe_id),
                loading: true,
                error: None,
                last_refresh: now,
                ..self
            }
        } else {
            self
        }
    }

    pub fn empty(now: u64) -> (r: Quota)
        ensures
            r == Quota::blank(now),
    {
        Quota {
            key_configured: false,
            credential_error: None,
            credential_probe_id: 0,
            rate_limit: None,
            error: None,
            loading: false,
            probe_id: 0,
            last_refresh: now,
        }
    }

    pub fn clear(&mut self, now: u64)
        ensures
            *final(self) == old(self).forgotten(now),
    {
        self.probe_id = if self.probe_id == u64::MAX {
            0
        } else {
            self.probe_id + 1
        };
        self.rate_limit = None;
        self.error = None;
        self.loading = false;
        self.last_refresh = now;
    }

    /// Begins to ask for the quota, where there is a key and it is not being
    /// asked for; returns the number of the probe.
    pub fn begin(&mut self, now: u64) -> (r: Option<u64>)
        ensures
            *final(self) == old(self).asking(now),
            r is Some <==> old(self).asks(),
            r matches Some(id) ==> id == final(self).probe_id,
    {
        if !self.key_configured || self.loading {
            return None;
        }
        self.probe_id = following_probe(self.probe_id);
        self.loading = true;
        self.error = None;
        self.last_refresh = now;
        Some(self.probe_id)
    }
}

} // verus!
