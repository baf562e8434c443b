//! The list of tools: what it shows, what is selected, and which versions are
//! asked for.

use crate::number::smaller;
use crate::search::{lemma_texts_push, texts};
use crate::text::same;
use crate::tui::geometry::{ListViewport, at_most, before, last_of};
use crate::tui::labels::{Availability, RunState, ToolView, VersionState};
use crate::tui::model::{ToolItem, text_of, tool_is_up_to_date, tool_named, tool_position};
use crate::version::LatestVersionError;
use vstd::prelude::*;
use vstd::string::*;

verus! {

/// A version that is asked for; the tool is given by its position.
#[derive(Clone, Copy, Debug, PartialEq, Eq, Structural)]
pub enum Probe {
    Installed { tool: usize, probe_id: u64 },
    Latest { tool: usize, probe_id: u64 },
}

/// The tools, the positions of those that the list shows, and the versions
/// that are to be asked for.
#[derive(Debug)]
pub struct Tools {
    pub items: Vec<ToolItem>,
    pub visible: Vec<usize>,
    pub index: usize,
    pub viewport: ListViewport,
    pub view: ToolView,
    pub next_version_probe_id: u64,
    pub next_latest_probe_id: u64,
    /// Whether an HTTP client could be made from the network settings.
    pub agent_ready: bool,
    pub probes: Vec<Probe>,
}

/// What the list of tools holds.
pub struct ToolsView {
    pub items: Seq<ToolItem>,
    pub visible: Seq<usize>,
    pub index: usize,
    pub viewport: ListViewport,
    pub view: ToolView,
    pub next_version_probe_id: u64,
    pub next_latest_probe_id: u64,
    pub agent_ready: bool,
    pub probes: Seq<Probe>,
}

impl View for Tools {
    type V = ToolsView;

    open spec fn view(&self) -> ToolsView {
        ToolsView {
            items: self.items@,
            visible: self.visible@,
            index: self.index,
            viewport: self.viewport,
            view: self.view,
            next_version_probe_id: self.next_version_probe_id,
            next_latest_probe_id: self.next_latest_probe_id,
            agent_ready: self.agent_ready,
            probes: self.probes@,
        }
    }
}

/// The number of the next probe; no probe has the number zero.
pub open spec fn next_probe(id: u64) -> u64 {
    if id == u64::MAX {
        1
    } else {
        (id + 1) as u64
    }
}

/// The number of the next probe; no probe has the number zero.
pub fn following_probe(id: u64) -> (r: u64)
    ensures
        r == next_probe(id),
        r != 0,
{
    if id == u64::MAX {
        1
    } else {
        id + 1
    }
}

/// Whether the list shows a tool.
pub open spec fn tool_shown(tool: ToolItem, hide: bool) -> bool {
    !(hide && tool.availability.hideable())
}

/// Positions of the first `n` tools that the list shows.
pub open spec fn shown_tools(tools: Seq<ToolItem>, hide: bool, n: int) -> Seq<usize>
    decreases n,
{
    if n <= 0 {
        Seq::empty()
    } else if tool_shown(tools[n - 1], hide) {
        shown_tools(tools, hide, n - 1).push((n - 1) as usize)
    } else {
        shown_tools(tools, hide, n - 1)
    }
}

/// Positions in the list are positions of tools.
pub proof fn lemma_shown_tools(tools: Seq<ToolItem>, hide: bool, n: int)
    requires
        n <= tools.len() <= usize::MAX,
    ensures
        list_fits(shown_tools(tools, hide, n), tools),
        forall|k: int|
            0 <= k < shown_tools(tools, hide, n).len() ==> #[trigger] shown_tools(tools, hide, n)[k]
                < n,
        shown_tools(tools, hide, n).len() <= n || n < 0,
    decreases n,
{
    if n > 0 {
        lemma_shown_tools(tools, hide, n - 1);
    }
}

/// Where in the list from `k` on the tool of that name stands.
pub open spec fn listed_from(
    tools: Seq<ToolItem>,
    visible: Seq<usize>,
    name: Seq<char>,
    k: int,
) -> Option<int>
    decreases visible.len() - k,
{
    if k >= visible.len() {
        None
    } else if tools[visible[k] as int].name@ == name {
        Some(k)
    } else {
        listed_from(tools, visible, name, k + 1)
    }
}

/// Whether every position in the list is one of a tool.
pub open spec fn list_fits(visible: Seq<usize>, tools: Seq<ToolItem>) -> bool {
    forall|k: int| 0 <= k < visible.len() ==> #[trigger] visible[k] < tools.len()
}

/// A tool as it is loaded, with what the interface keeps of it.
pub open spec fn carried_tool(tool: ToolItem, old: Seq<ToolItem>) -> ToolItem {
    match tool_named(old, tool.name@) {
        Some(k) => ToolItem {
            selected: old[k].selected,
            run_state: old[k].run_state,
            elapsed: old[k].elapsed,
            ..tool
        },
        None => ToolItem { selected: false, run_state: RunState::Idle, elapsed: None, ..tool },
    }
}

/// The tools as they are loaded, with what the interface keeps of those that
/// were there before.
pub open spec fn carried_over(new: Seq<ToolItem>, old: Seq<ToolItem>) -> Seq<ToolItem> {
    Seq::new(new.len(), |i: int| carried_tool(new[i], old))
}

/// The names of the first `n` tools that are selected and can start.
pub open spec fn selected_names(tools: Seq<ToolItem>, n: int) -> Seq<Seq<char>>
    decreases n,
{
    if n <= 0 {
        Seq::empty()
    } else if tools[n - 1].selected && tools[n - 1].can_start() {
        selected_names(tools, n - 1).push(tools[n - 1].name@)
    } else {
        selected_names(tools, n - 1)
    }
}

/// Whether the tool of that name is known to have its latest version.
pub open spec fn named_current(tools: Seq<ToolItem>, name: Seq<char>) -> bool {
    tool_named(tools, name) matches Some(i) && tools[i].is_current()
}

/// Those of the names whose tools are, or are not, known to be current.
pub open spec fn split_names(
    tools: Seq<ToolItem>,
    names: Seq<Seq<char>>,
    current: bool,
) -> Seq<Seq<char>>
    decreases names.len(),
{
    if names.len() == 0 {
        Seq::empty()
    } else {
        let before = split_names(tools, names.drop_last(), current);
        if named_current(tools, names.last()) == current {
            before.push(names.last())
        } else {
            before
        }
    }
}

/// The number of the first `n` tools in that state.
pub open spec fn count_in(tools: Seq<ToolItem>, state: RunState, n: int) -> nat
    decreases n,
{
    if n <= 0 {
        0
    } else {
        count_in(tools, state, n - 1) + if tools[n - 1].run_state == state {
            1nat
        } else {
            0nat
        }
    }
}

/// A tool whose update was not needed.
pub open spec fn marked_current(tool: ToolItem, names: Seq<Seq<char>>) -> ToolItem {
    if names.contains(tool.name@) {
        ToolItem { run_state: RunState::UpToDate, selected: false, elapsed: None, ..tool }
    } else {
        tool
    }
}

impl ToolsView {
    /// The tool in focus, by its position.
    pub open spec fn focus(self) -> Option<int> {
        if self.index < self.visible.len() {
            Some(self.visible[self.index as int] as int)
        } else {
            None
        }
    }

    /// The name of the tool in focus.
    pub open spec fn focused_name(self) -> Option<Seq<char>> {
        match self.focus() {
            Some(i) => Some(self.items[i].name@),
            None => None,
        }
    }

    /// The list made anew, with the tool of the preferred name in focus where it
    /// is shown.
    pub open spec fn relisted(self, hide: bool, preferred: Option<Seq<char>>) -> ToolsView {
        let visible = shown_tools(self.items, hide, self.items.len() as int);
        let found = match preferred {
            Some(name) => listed_from(self.items, visible, name, 0),
            None => None,
        };
        ToolsView {
            visible,
            index: match found {
                Some(k) => k as usize,
                None => at_most(self.index as int, last_of(visible.len() as int)) as usize,
            },
            ..self
        }
    }

    /// The list with the tool of that name in focus, where it is shown.
    pub open spec fn focused_on(self, name: Seq<char>) -> ToolsView {
        match listed_from(self.items, self.visible, name, 0) {
            Some(k) => ToolsView { index: k as usize, ..self },
            None => self,
        }
    }

    pub open spec fn with_item(self, i: int, tool: ToolItem) -> ToolsView {
        ToolsView { items: self.items.update(i, tool), ..self }
    }

    /// The list with the installed version of a tool being asked for.
    pub open spec fn version_probed(self, i: int) -> ToolsView {
        if 0 <= i < self.items.len() {
            let id = next_probe(self.next_version_probe_id);
            ToolsView {
                items: self.items.update(
                    i,
                    ToolItem {
                        version: VersionState::Loading,
                        version_probe_id: id,
                        ..self.items[i]
                    },
                ),
                next_version_probe_id: id,
                probes: self.probes.push(Probe::Installed { tool: i as usize, probe_id: id }),
                ..self
            }
        } else {
            self
        }
    }

    /// The list with the latest version of a tool being asked for, where it is
    /// known whom to ask.
    pub open spec fn latest_probed(self, i: int) -> ToolsView {
        if 0 <= i < self.items.len() {
            if self.items[i].latest_source is None || !self.agent_ready {
                self.with_item(
                    i,
                    ToolItem { latest_version: VersionState::Unavailable, ..self.items[i] },
                )
            } else {
                let id = next_probe(self.next_latest_probe_id);
                ToolsView {
                    items: self.items.update(
                        i,
                        ToolItem {
                            latest_version: VersionState::Loading,
                            latest_probe_id: id,
                            ..self.items[i]
                        },
                    ),
                    next_latest_probe_id: id,
                    probes: self.probes.push(Probe::Latest { tool: i as usize, probe_id: id }),
                    ..self
                }
            }
        } else {
            self
        }
    }

    /// The list with nothing known of the versions of a tool.
    pub open spec fn unversioned(self, i: int) -> ToolsView {
        self.with_item(
            i,
            ToolItem {
                version: VersionState::Unavailable,
                latest_version: VersionState::Unavailable,
                ..self.items[i]
            },
        )
    }

    /// The list with both versions of a tool being asked for.
    pub open spec fn tool_probed(self, i: int) -> ToolsView {
        if !(0 <= i < self.items.len()) {
            self
        } else if !self.items[i].availability.checkable() {
            self.unversioned(i)
        } else {
            self.version_probed(i).latest_probed(i)
        }
    }

    /// The list with the installed versions of the first `n` tools being asked
    /// for.
    pub open spec fn installed_probed(self, n: int) -> ToolsView
        decreases n,
    {
        if n <= 0 {
            self
        } else {
            let before = self.installed_probed(n - 1);
            if before.items[n - 1].availability.checkable() {
                before.version_probed(n - 1)
            } else {
                before.unversioned(n - 1)
            }
        }
    }

    /// The list with the latest versions of the first `n` tools being asked for.
    pub open spec fn releases_probed(self, n: int) -> ToolsView
        decreases n,
    {
        if n <= 0 {
            self
        } else {
            let before = self.releases_probed(n - 1);
            if before.items[n - 1].availability.checkable() {
                before.latest_probed(n - 1)
            } else {
                before
            }
        }
    }

    /// The list with all versions of all tools being asked for: first those
    /// installed, then the latest ones.
    pub open spec fn all_probed(self) -> ToolsView {
        let n = self.items.len() as int;
        self.installed_probed(n).releases_probed(n)
    }

    /// The list with both versions of the tool of that name being asked for.
    pub open spec fn named_probed(self, name: Seq<char>) -> ToolsView {
        match tool_named(self.items, name) {
            Some(i) => self.tool_probed(i),
            None => self,
        }
    }

    /// The list with the versions of some tools being asked for.
    pub open spec fn names_probed(self, names: Seq<Seq<char>>) -> ToolsView
        decreases names.len(),
    {
        if names.len() == 0 {
            self
        } else {
            self.names_probed(names.drop_last()).named_probed(names.last())
        }
    }

    /// The list with the tools loaded anew.
    pub open spec fn reloaded(self, tools: Seq<ToolItem>, hide: bool) -> ToolsView {
        ToolsView { items: carried_over(tools, self.items), ..self }.relisted(
            hide,
            self.focused_name(),
        ).all_probed()
    }

    /// The names of the tools to update: those selected, or else the one in
    /// focus, where they can start.
    pub open spec fn wanted(self) -> Seq<Seq<char>> {
        let selected = selected_names(self.items, self.items.len() as int);
        if selected.len() > 0 {
            selected
        } else {
            match self.focus() {
                Some(i) => if self.items[i].can_start() {
                    seq![self.items[i].name@]
                } else {
                    Seq::empty()
                },
                None => Seq::empty(),
            }
        }
    }

    /// The list with the tools of those names marked as current.
    pub open spec fn marked(self, names: Seq<Seq<char>>) -> ToolsView {
        ToolsView {
            items: Seq::new(self.items.len(), |i: int| marked_current(self.items[i], names)),
            ..self
        }
    }

    /// The list with all installed tools selected, or none if they were.
    pub open spec fn toggled_all(self) -> ToolsView {
        let select = exists|i: int|
            0 <= i < self.items.len() && (#[trigger] self.items[i]).availability
                == Availability::Installed && !self.items[i].selected;
        ToolsView {
            items: Seq::new(
                self.items.len(),
                |i: int|
                    if self.items[i].availability == Availability::Installed {
                        ToolItem { selected: select, ..self.items[i] }
                    } else {
                        self.items[i]
                    },
            ),
            ..self
        }
    }

    /// The list with every tool idle.
    pub open spec fn idle(self) -> ToolsView {
        ToolsView {
            items: Seq::new(
                self.items.len(),
                |i: int| ToolItem { run_state: RunState::Idle, elapsed: None, ..self.items[i] },
            ),
            ..self
        }
    }

    /// The list with the update of the tool of that name running.
    pub open spec fn started(self, name: Seq<char>) -> ToolsView {
        match tool_named(self.items, name) {
            Some(i) => self.with_item(
                i,
                ToolItem { run_state: RunState::Running, selected: false, ..self.items[i] },
            ),
            None => self,
        }
    }

    /// The list with the update of the tool of that name ended.
    pub open spec fn ended(self, name: Seq<char>, state: RunState, elapsed: String) -> ToolsView {
        match tool_named(self.items, name) {
            Some(i) => self.with_item(
                i,
                ToolItem { run_state: state, elapsed: Some(elapsed), ..self.items[i] },
            ),
            None => self,
        }
    }
}

/// The first tool from `i` on that has that name and waits for that probe.
pub open spec fn probing_from(
    tools: Seq<ToolItem>,
    name: Seq<char>,
    latest: bool,
    id: u64,
    i: int,
) -> Option<int>
    decreases tools.len() - i,
{
    if i >= tools.len() {
        None
    } else if tools[i].name@ == name && id == (if latest {
        tools[i].latest_probe_id
    } else {
        tools[i].version_probe_id
    }) {
        Some(i)
    } else {
        probing_from(tools, name, latest, id, i + 1)
    }
}

impl ToolsView {
    /// The list with what a probe of the installed version has found, where it
    /// is the newest probe of that tool.
    pub open spec fn version_resolved(
        self,
        name: Seq<char>,
        id: u64,
        version: Option<String>,
    ) -> ToolsView {
        match probing_from(self.items, name, false, id, 0) {
            Some(i) => self.with_item(
                i,
                ToolItem {
                    version: match version {
                        Some(v) => VersionState::Available(v),
                        None => VersionState::Unavailable,
                    },
                    ..self.items[i]
                },
            ),
            None => self,
        }
    }

    /// The list with what a probe of the latest version has found, where it is
    /// the newest probe of that tool.
    pub open spec fn latest_resolved(
        self,
        name: Seq<char>,
        id: u64,
        result: Result<String, LatestVersionError>,
    ) -> ToolsView {
        match probing_from(self.items, name, true, id, 0) {
            Some(i) => self.with_item(
                i,
                ToolItem {
                    latest_version: match result {
                        Ok(v) => VersionState::Available(v),
                        Err(e) => VersionState::Failed(e),
                    },
                    ..self.items[i]
                },
            ),
            None => self,
        }
    }
}

/// What an old probe has found changes nothing.
pub proof fn law_stale_probes_are_ignored(
    tools: ToolsView,
    name: Seq<char>,
    id: u64,
    version: Option<String>,
    result: Result<String, LatestVersionError>,
)
    ensures
        (forall|i: int|
            0 <= i < tools.items.len() && (#[trigger] tools.items[i]).name@ == name
                ==> tools.items[i].version_probe_id != id) ==> tools.version_resolved(
            name,
            id,
            version,
        ) == tools,
        (forall|i: int|
            0 <= i < tools.items.len() && (#[trigger] tools.items[i]).name@ == name
                ==> tools.items[i].latest_probe_id != id) ==> tools.latest_resolved(
            name,
            id,
            result,
        ) == tools,
{
    lemma_probing(tools.items, name, false, id, 0);
    lemma_probing(tools.items, name, true, id, 0);
}

/// What `probing_from` finds is a tool that waits for the probe.
proof fn lemma_probing(tools: Seq<ToolItem>, name: Seq<char>, latest: bool, id: u64, i: int)
    requires
        0 <= i,
    ensures
        probing_from(tools, name, latest, id, i) matches Some(k) ==> {
            &&& i <= k < tools.len()
            &&& tools[k].name@ == name
            &&& id == (if latest {
                tools[k].latest_probe_id
            } else {
                tools[k].version_probe_id
            })
        },
    decreases tools.len() - i,
{
    if i < tools.len() {
        lemma_probing(tools, name, latest, id, i + 1);
    }
}

/// Probing changes neither the number of tools nor the list.
proof fn lemma_probing_keeps(a: ToolsView, n: int)
    requires
        0 <= n <= a.items.len(),
    ensures
        a.installed_probed(n).items.len() == a.items.len(),
        a.installed_probed(n).visible == a.visible,
        a.releases_probed(n).items.len() == a.items.len(),
        a.releases_probed(n).visible == a.visible,
    decreases n,
{
    if n > 0 {
        lemma_probing_keeps(a, n - 1);
    }
}

/// Every name of a request stands in exactly one of the two parts that it is
/// split into: the tools to update, and those known to be current.
pub proof fn law_updates_are_split(tools: Seq<ToolItem>, names: Seq<Seq<char>>, name: Seq<char>)
    ensures
        split_names(tools, names, false).len() + split_names(tools, names, true).len()
            == names.len(),
        names.contains(name) <==> split_names(tools, names, false).contains(name) || split_names(
            tools,
            names,
            true,
        ).contains(name),
        split_names(tools, names, true).contains(name) ==> named_current(tools, name),
        split_names(tools, names, false).contains(name) ==> !named_current(tools, name),
    decreases names.len(),
{
    if names.len() > 0 {
        let rest = names.drop_last();
        law_updates_are_split(tools, rest, name);
        lemma_push_contains(rest, names.last(), name);
        assert(rest.push(names.last()) =~= names);
        lemma_push_contains(split_names(tools, rest, true), names.last(), name);
        lemma_push_contains(split_names(tools, rest, false), names.last(), name);
    }
}

pub proof fn lemma_push_contains<A>(s: Seq<A>, x: A, y: A)
    ensures
        s.push(x).contains(y) <==> s.contains(y) || x == y,
{
    if s.contains(y) {
        let i = choose|i: int| 0 <= i < s.len() && s[i] == y;
        assert(s.push(x)[i] == y);
    }
    if x == y {
        assert(s.push(x)[s.len() as int] == y);
    }
    if s.push(x).contains(y) && x != y {
        let i = choose|i: int| 0 <= i < s.push(x).len() && s.push(x)[i] == y;
        assert(s[i] == y);
    }
}

impl ToolsView {
    /// Nothing yet.
    pub open spec fn blank() -> ToolsView {
        ToolsView {
            items: Seq::empty(),
            visible: Seq::empty(),
            index: 0,
            viewport: ListViewport::none(),
            view: ToolView::Commands,
            next_version_probe_id: 0,
            next_latest_probe_id: 0,
            agent_ready: true,
            probes: Seq::empty(),
        }
    }
}

impl Tools {
    /// The list shows tools that are there.
    pub open spec fn wf(self) -> bool {
        list_fits(self.visible@, self.items@)
    }

    /// A list without tools.
    pub fn empty() -> (r: Tools)
        ensures
            r.wf(),
            r@ == ToolsView::blank(),
    {
        Tools {
            items: Vec::new(),
            visible: Vec::new(),
            index: 0,
            viewport: ListViewport::empty(),
            view: ToolView::Commands,
            next_version_probe_id: 0,
            next_latest_probe_id: 0,
            agent_ready: true,
            probes: Vec::new(),
        }
    }

    pub fn focused_tool_index(&self) -> (r: Option<usize>)
        requires
            self.wf(),
        ensures
            r is Some <==> self@.focus() is Some,
            r matches Some(i) ==> self@.focus() == Some(i as int) && i < self.items@.len(),
    {
        if self.index < self.visible.len() {
            Some(self.visible[self.index])
        } else {
            None
        }
    }

    pub fn focused_tool(&self) -> (r: Option<&ToolItem>)
        requires
            self.wf(),
        ensures
            r is Some <==> self@.focus() is Some,
            r matches Some(tool) ==> *tool == self.items@[self@.focus()->0],
    {
        match self.focused_tool_index() {
            Some(i) => Some(&self.items[i]),
            None => None,
        }
    }

    /// The name of the tool in focus.
    pub fn focused_name(&self) -> (r: Option<String>)
        requires
            self.wf(),
        ensures
            text_of(r) == self@.focused_name(),
    {
        match self.focused_tool() {
            Some(tool) => Some(tool.name.clone()),
            None => None,
        }
    }

    /// Where in the list the tool of that name stands.
    fn listed_position(&self, name: &str) -> (r: Option<usize>)
        requires
            self.wf(),
        ensures
            r is Some <==> listed_from(self.items@, self.visible@, name@, 0) is Some,
            r matches Some(k) ==> listed_from(self.items@, self.visible@, name@, 0) == Some(
                k as int,
            ) && k < self.visible@.len(),
    {
        let mut k: usize = 0;
        while k < self.visible.len()
            invariant
                k <= self.visible@.len(),
                self.wf(),
                listed_from(self.items@, self.visible@, name@, 0) == listed_from(
                    self.items@,
                    self.visible@,
                    name@,
                    k as int,
                ),
            decreases self.visible@.len() - k,
        {
            let i: usize = self.visible[k];
            if same(self.items[i].name.as_str(), name) {
                return Some(k);
            }
            k += 1;
        }
        None
    }

    /// Makes the list anew, with the tool of the preferred name in focus where
    /// it is shown.
    pub fn rebuild_visible_tool_indices(&mut self, hide: bool, preferred_name: Option<&str>)
        ensures
            final(self).wf(),
            final(self)@ == old(self)@.relisted(
                hide,
                match preferred_name {
                    Some(name) => Some(name@),
                    None => None,
                },
            ),
    {
        let mut visible: Vec<usize> = Vec::new();
        let mut i: usize = 0;
        while i < self.items.len()
            invariant
                i <= self.items@.len(),
                visible@ == shown_tools(self.items@, hide, i as int),
            decreases self.items@.len() - i,
        {
            if !(hide && self.items[i].availability.is_hideable()) {
                visible.push(i);
            }
            i += 1;
        }
        proof {
            lemma_shown_tools(self.items@, hide, self.items@.len() as int);
        }
        self.visible = visible;
        let found = match preferred_name {
            Some(name) => self.listed_position(name),
            None => None,
        };
        let last: usize = if self.visible.len() > 0 {
            self.visible.len() - 1
        } else {
            0
        };
        self.index = match found {
            Some(k) => k,
            None => smaller(self.index, last),
        };
    }

    /// Puts the tool of that name in focus, where the list shows it.
    pub fn focus_tool_named(&mut self, name: &str)
        requires
            old(self).wf(),
        ensures
            final(self).wf(),
            final(self)@ == old(self)@.focused_on(name@),
    {
        if let Some(k) = self.listed_position(name) {
            self.index = k;
        }
    }

    /// Asks for the installed version of a tool.
    pub fn start_version_probe(&mut self, index: usize)
        requires
            old(self).wf(),
        ensures
            final(self).wf(),
            final(self)@ == old(self)@.version_probed(index as int),
    {
        if index < self.items.len() {
            let ghost before = self@;
            let id: u64 = following_probe(self.next_version_probe_id);
            self.next_version_probe_id = id;
            self.items[index].version = VersionState::Loading;
            self.items[index].version_probe_id = id;
            self.probes.push(Probe::Installed { tool: index, probe_id: id });
            assert(self.items@ =~= before.version_probed(index as int).items);
        }
    }

    /// Asks for the latest version of a tool, where it is known whom to ask.
    pub fn start_latest_version_probe(&mut self, index: usize)
        requires
            old(self).wf(),
        ensures
            final(self).wf(),
            final(self)@ == old(self)@.latest_probed(index as int),
    {
        if index < self.items.len() {
            let ghost before = self@;
            if self.items[index].latest_source.is_none() || !self.agent_ready {
                self.items[index].latest_version = VersionState::Unavailable;
            } else {
                let id: u64 = following_probe(self.next_latest_probe_id);
                self.next_latest_probe_id = id;
                self.items[index].latest_version = VersionState::Loading;
                self.items[index].latest_probe_id = id;
                self.probes.push(Probe::Latest { tool: index, probe_id: id });
            }
            assert(self.items@ =~= before.latest_probed(index as int).items);
        }
    }

    /// Forgets the versions of a tool.
    fn forget_versions(&mut self, index: usize)
        requires
            old(self).wf(),
            index < old(self).items@.len(),
        ensures
            final(self).wf(),
            final(self)@ == old(self)@.unversioned(index as int),
    {
        let ghost before = self@;
        self.items[index].version = VersionState::Unavailable;
        self.items[index].latest_version = VersionState::Unavailable;
        assert(self.items@ =~= before.unversioned(index as int).items);
    }

    /// Asks for both versions of a tool that can have any.
    pub fn start_tool_version_probes(&mut self, index: usize)
        requires
            old(self).wf(),
        ensures
            final(self).wf(),
            final(self)@ == old(self)@.tool_probed(index as int),
    {
        if index < self.items.len() {
            if !self.items[index].availability.allows_version_checks() {
                self.forget_versions(index);
            } else {
                self.start_version_probe(index);
                self.start_latest_version_probe(index);
            }
        }
    }

    /// Asks for all versions of all tools.
    pub fn start_all_tool_version_probes(&mut self)
        requires
            old(self).wf(),
        ensures
            final(self).wf(),
            final(self)@ == old(self)@.all_probed(),
    {
        let ghost before = self@;
        let count: usize = self.items.len();
        let mut index: usize = 0;
        while index < count
            invariant
                index <= count,
                count == before.items.len(),
                self.wf(),
                self@ == before.installed_probed(index as int),
            decreases count - index,
        {
            proof {
                lemma_probing_keeps(before, index as int);
            }
            if self.items[index].availability.allows_version_checks() {
                self.start_version_probe(index);
            } else {
                self.forget_versions(index);
            }
            index += 1;
        }
        let ghost middle = self@;
        proof {
            lemma_probing_keeps(before, count as int);
        }
        index = 0;
        while index < count
            invariant
                index <= count,
                count == middle.items.len(),
                self.wf(),
                self@ == middle.releases_probed(index as int),
            decreases count - index,
        {
            proof {
                lemma_probing_keeps(middle, index as int);
            }
            if self.items[index].availability.allows_version_checks() {
                self.start_latest_version_probe(index);
            }
            index += 1;
        }
    }

    /// Asks for both versions of the tool of that name.
    pub fn refresh_tool_version(&mut self, name: &str)
        requires
            old(self).wf(),
        ensures
            final(self).wf(),
            final(self)@ == old(self)@.named_probed(name@),
    {
        if let Some(index) = tool_position(&self.items, name) {
            self.start_tool_version_probes(index);
        }
    }

    /// Asks for both versions of the tools of those names.
    pub fn refresh_versions(&mut self, names: &Vec<String>)
        requires
            old(self).wf(),
        ensures
            final(self).wf(),
            final(self)@ == old(self)@.names_probed(texts(names@)),
    {
        let ghost all = texts(names@);
        let ghost before = self@;
        let mut i: usize = 0;
        assert(all.take(0) =~= Seq::<Seq<char>>::empty());
        while i < names.len()
            invariant
                i <= names@.len(),
                all == texts(names@),
                self.wf(),
                self@ == before.names_probed(all.take(i as int)),
            decreases names@.len() - i,
        {
            assert(all.take(i + 1).drop_last() =~= all.take(i as int));
            assert(all[i as int] == names@[i as int]@);
            self.refresh_tool_version(names[i].as_str());
            i += 1;
        }
        assert(all.take(i as int) =~= all);
    }

    /// Takes the tools as they were loaded.
    pub fn refresh(&mut self, tools: Vec<ToolItem>, hide: bool)
        requires
            old(self).wf(),
        ensures
            final(self).wf(),
            final(self)@ == old(self)@.reloaded(tools@, hide),
    {
        let ghost before = self@;
        let focused = self.focused_name();
        let ghost given = tools@;
        let mut loaded = tools;
        let mut i: usize = 0;
        while i < loaded.len()
            invariant
                i <= loaded@.len(),
                loaded@.len() == given.len(),
                self@ == before,
                forall|k: int|
                    0 <= k < i ==> #[trigger] loaded@[k] == carried_tool(given[k], before.items),
                forall|k: int| i <= k < loaded@.len() ==> #[trigger] loaded@[k] == given[k],
            decreases loaded@.len() - i,
        {
            match tool_position(&self.items, loaded[i].name.as_str()) {
                Some(k) => {
                    loaded[i].selected = self.items[k].selected;
                    loaded[i].run_state = self.items[k].run_state;
                    loaded[i].elapsed = match &self.items[k].elapsed {
                        Some(elapsed) => Some(elapsed.clone()),
                        None => None,
                    };
                },
                None => {
                    loaded[i].selected = false;
                    loaded[i].run_state = RunState::Idle;
                    loaded[i].elapsed = None;
                },
            }
            i += 1;
        }
        assert(loaded@ =~= carried_over(given, before.items));
        self.items = loaded;
        match &focused {
            Some(name) => self.rebuild_visible_tool_indices(hide, Some(name.as_str())),
            None => self.rebuild_visible_tool_indices(hide, None),
        }
        self.start_all_tool_version_probes();
    }

    /// The names of the tools to update: those selected, or else the one in
    /// focus, where they can start.
    pub fn selected_for_update(&self) -> (r: Vec<String>)
        requires
            self.wf(),
        ensures
            texts(r@) == self@.wanted(),
    {
        let mut names: Vec<String> = Vec::new();
        let mut i: usize = 0;
        assert(texts(names@) =~= Seq::<Seq<char>>::empty());
        while i < self.items.len()
            invariant
                i <= self.items@.len(),
                texts(names@) == selected_names(self.items@, i as int),
            decreases self.items@.len() - i,
        {
            let tool = &self.items[i];
            if tool.selected && tool.availability == Availability::Installed && tool.run_state
                != RunState::Running {
                let name = tool.name.clone();
                proof {
                    lemma_texts_push(names@, name);
                }
                names.push(name);
            }
            i += 1;
        }
        if names.len() == 0 {
            if let Some(tool) = self.focused_tool() {
                if tool.availability == Availability::Installed && tool.run_state
                    != RunState::Running {
                    let name = tool.name.clone();
                    proof {
                        lemma_texts_push(names@, name);
                    }
                    names.push(name);
                    assert(texts(names@) =~= seq![name@]);
                }
            }
        }
        names
    }

    /// Splits the names into those of tools to update and those of tools that
    /// are known to be current.
    pub fn partition_latest_updates(&self, requested: &Vec<String>) -> (r: (
        Vec<String>,
        Vec<String>,
    ))
        ensures
            texts(r.0@) == split_names(self.items@, texts(requested@), false),
            texts(r.1@) == split_names(self.items@, texts(requested@), true),
    {
        let ghost all = texts(requested@);
        let mut wanted: Vec<String> = Vec::new();
        let mut current: Vec<String> = Vec::new();
        let mut i: usize = 0;
        assert(all.take(0) =~= Seq::<Seq<char>>::empty());
        assert(texts(wanted@) =~= Seq::<Seq<char>>::empty());
        assert(texts(current@) =~= Seq::<Seq<char>>::empty());
        while i < requested.len()
            invariant
                i <= requested@.len(),
                all == texts(requested@),
                texts(wanted@) == split_names(self.items@, all.take(i as int), false),
                texts(current@) == split_names(self.items@, all.take(i as int), true),
            decreases requested@.len() - i,
        {
            let name = requested[i].clone();
            assert(all.take(i + 1).drop_last() =~= all.take(i as int));
            assert(all[i as int] == name@);
            let up_to_date = match tool_position(&self.items, name.as_str()) {
                Some(k) => tool_is_up_to_date(&self.items[k]),
                None => false,
            };
            if up_to_date {
                proof {
                    lemma_texts_push(current@, name);
                }
                current.push(name);
            } else {
                proof {
                    lemma_texts_push(wanted@, name);
                }
                wanted.push(name);
            }
            i += 1;
        }
        assert(all.take(i as int) =~= all);
        (wanted, current)
    }

    /// Marks the tools of those names as current.
    pub fn mark_tools_up_to_date(&mut self, names: &Vec<String>)
        requires
            old(self).wf(),
        ensures
            final(self).wf(),
            final(self)@ == old(self)@.marked(texts(names@)),
    {
        let ghost before = self@;
        let mut i: usize = 0;
        while i < self.items.len()
            invariant
                i <= self.items@.len(),
                self.items@.len() == before.items.len(),
                self@ == (ToolsView { items: self.items@, ..before }),
                forall|k: int|
                    0 <= k < i ==> #[trigger] self.items@[k] == marked_current(
                        before.items[k],
                        texts(names@),
                    ),
                forall|k: int|
                    i <= k < self.items@.len() ==> #[trigger] self.items@[k] == before.items[k],
            decreases self.items@.len() - i,
        {
            let mut listed: bool = false;
            let mut j: usize = 0;
            while j < names.len()
                invariant
                    j <= names@.len(),
                    i < self.items@.len(),
                    listed == texts(names@).take(j as int).contains(self.items@[i as int].name@),
                decreases names@.len() - j,
            {
                assert(texts(names@).take(j + 1) =~= texts(names@).take(j as int).push(
                    names@[j as int]@,
                ));
                proof {
                    lemma_push_contains(
                        texts(names@).take(j as int),
                        names@[j as int]@,
                        self.items@[i as int].name@,
                    );
                }
                if same(names[j].as_str(), self.items[i].name.as_str()) {
                    listed = true;
                }
                j += 1;
            }
            assert(texts(names@).take(j as int) =~= texts(names@));
            if listed {
                self.items[i].run_state = RunState::UpToDate;
                self.items[i].selected = false;
                self.items[i].elapsed = None;
            }
            i += 1;
        }
        assert(self.items@ =~= before.marked(texts(names@)).items);
    }

    /// Selects all installed tools, or none if they were all selected.
    pub fn toggle_all(&mut self)
        requires
            old(self).wf(),
        ensures
            final(self).wf(),
            final(self)@ == old(self)@.toggled_all(),
    {
        let ghost before = self@;
        let mut select: bool = false;
        let mut i: usize = 0;
        while i < self.items.len()
            invariant
                i <= self.items@.len(),
                self@ == before,
                select == exists|k: int|
                    0 <= k < i && (#[trigger] before.items[k]).availability
                        == Availability::Installed && !before.items[k].selected,
            decreases self.items@.len() - i,
        {
            if self.items[i].availability == Availability::Installed && !self.items[i].selected {
                select = true;
            }
            i += 1;
        }
        i = 0;
        while i < self.items.len()
            invariant
                i <= self.items@.len(),
                self.items@.len() == before.items.len(),
                self@ == (ToolsView { items: self.items@, ..before }),
                forall|k: int|
                    0 <= k < i ==> #[trigger] self.items@[k] == (if before.items[k].availability
                        == Availability::Installed {
                        ToolItem { selected: select, ..before.items[k] }
                    } else {
                        before.items[k]
                    }),
                forall|k: int|
                    i <= k < self.items@.len() ==> #[trigger] self.items@[k] == before.items[k],
            decreases self.items@.len() - i,
        {
            if self.items[i].availability == Availability::Installed {
                self.items[i].selected = select;
            }
            i += 1;
        }
        assert(self.items@ =~= before.toggled_all().items);
    }

    /// Takes every tool for idle.
    pub fn make_idle(&mut self)
        requires
            old(self).wf(),
        ensures
            final(self).wf(),
            final(self)@ == old(self)@.idle(),
    {
        let ghost before = self@;
        let mut i: usize = 0;
        while i < self.items.len()
            invariant
                i <= self.items@.len(),
                self.items@.len() == before.items.len(),
                self@ == (ToolsView { items: self.items@, ..before }),
                forall|k: int|
                    0 <= k < i ==> #[trigger] self.items@[k] == (ToolItem {
                        run_state: RunState::Idle,
                        elapsed: None,
                        ..before.items[k]
                    }),
                forall|k: int|
                    i <= k < self.items@.len() ==> #[trigger] self.items@[k] == before.items[k],
            decreases self.items@.len() - i,
        {
            self.items[i].run_state = RunState::Idle;
            self.items[i].elapsed = None;
            i += 1;
        }
        assert(self.items@ =~= before.idle().items);
    }

    /// Notes that the update of the tool of that name runs.
    pub fn start(&mut self, name: &str)
        requires
            old(self).wf(),
        ensures
            final(self).wf(),
            final(self)@ == old(self)@.started(name@),
    {
        if let Some(i) = tool_position(&self.items, name) {
            let ghost before = self@;
            self.items[i].run_state = RunState::Running;
            self.items[i].selected = false;
            assert(self.items@ =~= before.started(name@).items);
        }
    }

    /// Notes what came of the update of the tool of that name, and how long it
    /// took.
    pub fn finish(&mut self, name: &str, state: RunState, elapsed: &String)
        requires
            old(self).wf(),
        ensures
            final(self).wf(),
            final(self)@ == old(self)@.ended(name@, state, *elapsed),
    {
        if let Some(i) = tool_position(&self.items, name) {
            let ghost before = self@;
            self.items[i].run_state = state;
            self.items[i].elapsed = Some(elapsed.clone());
            assert(self.items@ =~= before.ended(name@, state, *elapsed).items);
        }
    }

    /// The number of tools in that state.
    pub fn count(&self, state: RunState) -> (r: usize)
        ensures
            r == count_in(self.items@, state, self.items@.len() as int),
    {
        let mut n: usize = 0;
        let mut i: usize = 0;
        while i < self.items.len()
            invariant
                i <= self.items@.len(),
                self.items@.len() == self.items.len(),
                n <= i,
                n == count_in(self.items@, state, i as int),
            decreases self.items@.len() - i,
        {
            if self.items[i].run_state == state {
                n += 1;
            }
            i += 1;
        }
        n
    }

    /// The tool of that name that waits for that probe.
    fn probing_position(&self, name: &str, latest: bool, id: u64) -> (r: Option<usize>)
        ensures
            r is Some <==> probing_from(self.items@, name@, latest, id, 0) is Some,
            r matches Some(i) ==> probing_from(self.items@, name@, latest, id, 0) == Some(i as int)
                && i < self.items@.len(),
    {
        let mut i: usize = 0;
        while i < self.items.len()
            invariant
                i <= self.items@.len(),
                probing_from(self.items@, name@, latest, id, 0) == probing_from(
                    self.items@,
                    name@,
                    latest,
                    id,
                    i as int,
                ),
            decreases self.items@.len() - i,
        {
            let waits_for: u64 = if latest {
                self.items[i].latest_probe_id
            } else {
                self.items[i].version_probe_id
            };
            if waits_for == id && same(self.items[i].name.as_str(), name) {
                return Some(i);
            }
            i += 1;
        }
        None
    }

    /// Takes what a probe of an installed version has found.
    pub fn resolve_version(&mut self, name: &str, probe_id: u64, version: Option<String>)
        requires
            old(self).wf(),
        ensures
            final(self).wf(),
            final(self)@ == old(self)@.version_resolved(name@, probe_id, version),
    {
        if let Some(i) = self.probing_position(name, false, probe_id) {
            let ghost before = self@;
            self.items[i].version = match version {
                Some(v) => VersionState::Available(v),
                None => VersionState::Unavailable,
            };
            assert(self.items@ =~= before.version_resolved(name@, probe_id, version).items);
        }
    }

    /// Takes what a probe of a latest version has found; tells whether it was
    /// waited for.
    pub fn resolve_latest(
        &mut self,
        name: &str,
        probe_id: u64,
        result: Result<String, LatestVersionError>,
    ) -> (r: bool)
        requires
            old(self).wf(),
        ensures
            final(self).wf(),
            final(self)@ == old(self)@.latest_resolved(name@, probe_id, result),
            r == (probing_from(old(self).items@, name@, true, probe_id, 0) is Some),
    {
        if let Some(i) = self.probing_position(name, true, probe_id) {
            let ghost before = self@;
            self.items[i].latest_version = match result {
                Ok(v) => VersionState::Available(v),
                Err(e) => VersionState::Failed(e),
            };
            assert(self.items@ =~= before.latest_resolved(name@, probe_id, result).items);
            true
        } else {
            false
        }
    }
}

} // verus!
