//! Dialogs over the view, and what is to be done outside of the interface.

use crate::language::Language;
use crate::search::texts;
use crate::text::{is_boundary, same};
use crate::tui::editor::TomlEditor;
use crate::tui::form::{
    CommandForm, CommandFormMode, CommandFormView, MonitorForm, MonitorFormView, ProxyForm,
    ProxyFormView,
};
use crate::tui::geometry::{Rect, before};
use crate::tui::input::{InputView, TextInput};
use crate::tui::labels::Operation;
use crate::tui::model::{
    GithubReleaseMonitor, MonitorView, NetworkSettings, NetworkView, has_monitor, monitor_listed,
    text_of,
};
use vstd::prelude::*;
use vstd::string::*;

verus! {

/// The dialog that lies over the view, if any.
#[allow(inconsistent_fields)]
#[derive(Debug)]
pub enum Modal {
    Closed,
    ConfirmUpdate {
        tools: Vec<String>,
        target_version: Option<String>,
        current_tools: Vec<String>,
    },
    ConfirmGithubMonitorUpdate { monitors: Vec<String> },
    TargetVersion { name: String, version: TextInput },
    AddCommand { form: CommandForm },
    ConfirmAdd {
        mode: CommandFormMode,
        original_name: Option<String>,
        name: String,
        command: String,
    },
    ConfirmDelete { name: String },
    ConfirmUninstall { name: String, command: String, derived: bool },
    TomlEditor { editor: TomlEditor },
    NetworkProxy { form: ProxyForm },
    GithubApiKey { api_key: TextInput },
    GithubMonitorForm { form: MonitorForm },
    ConfirmDeleteGithubMonitor { index: usize },
    GithubPollInterval { seconds: TextInput },
}

/// What the dialog over the view holds.
#[allow(inconsistent_fields)]
pub enum ModalView {
    Closed,
    ConfirmUpdate {
        tools: Seq<Seq<char>>,
        target_version: Option<Seq<char>>,
        current_tools: Seq<Seq<char>>,
    },
    ConfirmGithubMonitorUpdate { monitors: Seq<Seq<char>> },
    TargetVersion { name: Seq<char>, version: InputView },
    AddCommand { form: CommandFormView },
    ConfirmAdd {
        mode: CommandFormMode,
        original_name: Option<Seq<char>>,
        name: Seq<char>,
        command: Seq<char>,
    },
    ConfirmDelete { name: Seq<char> },
    ConfirmUninstall { name: Seq<char>, command: Seq<char>, derived: bool },
    TomlEditor { editor: TomlEditor },
    NetworkProxy { form: ProxyFormView },
    GithubApiKey { api_key: InputView },
    GithubMonitorForm { form: MonitorFormView },
    ConfirmDeleteGithubMonitor { index: usize },
    GithubPollInterval { seconds: InputView },
}

impl View for Modal {
    type V = ModalView;

    open spec fn view(&self) -> ModalView {
        match self {
            Modal::Closed => ModalView::Closed,
            Modal::ConfirmUpdate {
                tools,
                target_version,
                current_tools,
            } => ModalView::ConfirmUpdate {
                tools: texts(tools@),
                target_version: text_of(*target_version),
                current_tools: texts(current_tools@),
            },
            Modal::ConfirmGithubMonitorUpdate {
                monitors,
            } => ModalView::ConfirmGithubMonitorUpdate { monitors: texts(monitors@) },
            Modal::TargetVersion { name, version } => ModalView::TargetVersion {
                name: name@,
                version: version@,
            },
            Modal::AddCommand { form } => ModalView::AddCommand { form: form@ },
            Modal::ConfirmAdd {
                mode,
                original_name,
                name,
                command,
            } => ModalView::ConfirmAdd {
                mode: *mode,
                original_name: text_of(*original_name),
                name: name@,
                command: command@,
            },
            Modal::ConfirmDelete { name } => ModalView::ConfirmDelete { name: name@ },
            Modal::ConfirmUninstall { name, command, derived } => ModalView::ConfirmUninstall {
                name: name@,
                command: command@,
                derived: *derived,
            },
            Modal::TomlEditor { editor } => ModalView::TomlEditor { editor: *editor },
            Modal::NetworkProxy { form } => ModalView::NetworkProxy { form: form@ },
            Modal::GithubApiKey { api_key } => ModalView::GithubApiKey { api_key: api_key@ },
            Modal::GithubMonitorForm { form } => ModalView::GithubMonitorForm { form: form@ },
            Modal::ConfirmDeleteGithubMonitor {
                index,
            } => ModalView::ConfirmDeleteGithubMonitor { index: *index },
            Modal::GithubPollInterval { seconds } => ModalView::GithubPollInterval {
                seconds: seconds@,
            },
        }
    }
}

impl Modal {
    /// Every line of text in the dialog has its cursor between characters, and
    /// a version is asked for one tool only.
    pub open spec fn wf(self) -> bool {
        match self {
            Modal::ConfirmUpdate { tools, target_version, current_tools } => {
                &&& tools@.len() + current_tools@.len() <= usize::MAX
                &&& target_version is Some ==> tools@.len() == 1
            },
            Modal::TargetVersion { version, .. } => version.wf(),
            Modal::AddCommand { form } => form.wf(),
            Modal::TomlEditor { editor } => editor.wf(),
            Modal::NetworkProxy { form } => form.wf(),
            Modal::GithubApiKey { api_key } => api_key.wf(),
            Modal::GithubMonitorForm { form } => form.wf(),
            Modal::GithubPollInterval { seconds } => seconds.wf(),
            _ => true,
        }
    }

    pub fn is_open(&self) -> (r: bool)
        ensures
            r == (self@ !is Closed),
    {
        !matches!(self, Modal::Closed)
    }
}

/// A part of the settings that is changed.
#[derive(Debug)]
pub enum SettingsChange {
    AutoDiagnose(bool),
    HideUnavailable(bool),
    Language(Language),
    Network(NetworkSettings),
    PollInterval(u64),
}

/// A part of the settings that is changed.
pub enum SettingsChangeView {
    AutoDiagnose(bool),
    HideUnavailable(bool),
    Language(Language),
    Network(NetworkView),
    PollInterval(u64),
}

impl View for SettingsChange {
    type V = SettingsChangeView;

    open spec fn view(&self) -> SettingsChangeView {
        match self {
            SettingsChange::AutoDiagnose(on) => SettingsChangeView::AutoDiagnose(*on),
            SettingsChange::HideUnavailable(on) => SettingsChangeView::HideUnavailable(*on),
            SettingsChange::Language(language) => SettingsChangeView::Language(*language),
            SettingsChange::Network(network) => SettingsChangeView::Network(network@),
            SettingsChange::PollInterval(secs) => SettingsChangeView::PollInterval(*secs),
        }
    }
}

/// Why the tools are loaded again.
#[derive(Clone, Copy, Debug, PartialEq, Eq, Structural)]
pub enum ReloadPurpose {
    /// The user asked for it.
    Refresh,
    /// The network settings have changed.
    NetworkChanged,
    /// The TOML editor has saved its file.
    TomlSaved,
}

/// Something that is to be done outside of the interface.
#[allow(inconsistent_fields)]
#[derive(Debug)]
pub enum Effect {
    LoadInitial,
    CheckCredential { probe_id: u64 },
    FetchRateLimit { probe_id: u64 },
    TestNetwork { probe_id: u64 },
    LoadManifest { quiet: bool },
    Diagnose { probe_id: u64 },
    ProbeReleases,
    InstallReleases { names: Vec<String> },
    ReloadTools(ReloadPurpose),
    ReloadJobs { report: bool },
    SaveSettings(SettingsChange),
    SaveApiKey { key: Option<String> },
    SaveMonitor { original_index: Option<usize>, monitor: GithubReleaseMonitor },
    DeleteMonitor { index: usize },
    Spawn { arguments: Vec<String>, name: String, operation: Operation },
    LoadCustomCommand { name: String },
    OpenToml,
    OpenSystemEditor,
    SaveToml { path: String, text: String },
    CopyText { text: String },
    PasteClipboard,
    ReadJobLog { id: String },
    TerminateWaits,
}

/// Something that is to be done outside of the interface.
#[allow(inconsistent_fields)]
pub enum EffectView {
    LoadInitial,
    CheckCredential { probe_id: u64 },
    FetchRateLimit { probe_id: u64 },
    TestNetwork { probe_id: u64 },
    LoadManifest { quiet: bool },
    Diagnose { probe_id: u64 },
    ProbeReleases,
    InstallReleases { names: Seq<Seq<char>> },
    ReloadTools(ReloadPurpose),
    ReloadJobs { report: bool },
    SaveSettings(SettingsChangeView),
    SaveApiKey { key: Option<Seq<char>> },
    SaveMonitor { original_index: Option<usize>, monitor: MonitorView },
    DeleteMonitor { index: usize },
    Spawn { arguments: Seq<Seq<char>>, name: Seq<char>, operation: Operation },
    LoadCustomCommand { name: Seq<char> },
    OpenToml,
    OpenSystemEditor,
    SaveToml { path: Seq<char>, text: Seq<char> },
    CopyText { text: Seq<char> },
    PasteClipboard,
    ReadJobLog { id: Seq<char> },
    TerminateWaits,
}

impl View for Effect {
    type V = EffectView;

    open spec fn view(&self) -> EffectView {
        match self {
            Effect::LoadInitial => EffectView::LoadInitial,
            Effect::CheckCredential { probe_id } => EffectView::CheckCredential {
                probe_id: *probe_id,
            },
            Effect::FetchRateLimit { probe_id } => EffectView::FetchRateLimit {
                probe_id: *probe_id,
            },
            Effect::TestNetwork { probe_id } => EffectView::TestNetwork { probe_id: *probe_id },
            Effect::LoadManifest { quiet } => EffectView::LoadManifest { quiet: *quiet },
            Effect::Diagnose { probe_id } => EffectView::Diagnose { probe_id: *probe_id },
            Effect::ProbeReleases => EffectView::ProbeReleases,
            Effect::InstallReleases { names } => EffectView::InstallReleases {
                names: texts(names@),
            },
            Effect::ReloadTools(purpose) => EffectView::ReloadTools(*purpose),
            Effect::ReloadJobs { report } => EffectView::ReloadJobs { report: *report },
            Effect::SaveSettings(change) => EffectView::SaveSettings(change@),
            Effect::SaveApiKey { key } => EffectView::SaveApiKey { key: text_of(*key) },
            Effect::SaveMonitor { original_index, monitor } => EffectView::SaveMonitor {
                original_index: *original_index,
                monitor: monitor@,
            },
            Effect::DeleteMonitor { index } => EffectView::DeleteMonitor { index: *index },
            Effect::Spawn { arguments, name, operation } => EffectView::Spawn {
                arguments: texts(arguments@),
                name: name@,
                operation: *operation,
            },
            Effect::LoadCustomCommand { name } => EffectView::LoadCustomCommand { name: name@ },
            Effect::OpenToml => EffectView::OpenToml,
            Effect::OpenSystemEditor => EffectView::OpenSystemEditor,
            Effect::SaveToml { path, text } => EffectView::SaveToml { path: path@, text: text@ },
            Effect::CopyText { text } => EffectView::CopyText { text: text@ },
            Effect::PasteClipboard => EffectView::PasteClipboard,
            Effect::ReadJobLog { id } => EffectView::ReadJobLog { id: id@ },
            Effect::TerminateWaits => EffectView::TerminateWaits,
        }
    }
}

/// What some effects are.
pub open spec fn effect_views(effects: Seq<Effect>) -> Seq<EffectView> {
    effects.map_values(|e: Effect| e@)
}

pub proof fn lemma_effects_push(effects: Seq<Effect>, effect: Effect)
    ensures
        effect_views(effects.push(effect)) == effect_views(effects).push(effect@),
{
    assert(effect_views(effects.push(effect)) =~= effect_views(effects).push(effect@));
}

/// Where a line of text of a dialog stands, and which bytes of it are seen.
#[derive(Clone, Copy, Debug, PartialEq, Eq, Structural)]
pub struct ModalInputHitbox {
    pub area: Rect,
    pub field: usize,
    pub visible_start: usize,
    pub visible_end: usize,
}

impl ModalInputHitbox {
    /// Whether the bytes that are seen lie in `chars`.
    pub open spec fn fits(self, chars: Seq<char>) -> bool {
        &&& self.visible_start <= self.visible_end
        &&& is_boundary(chars, self.visible_start as int)
        &&& is_boundary(chars, self.visible_end as int)
    }
}

/// What the mouse can hit, as it was drawn last.
#[derive(Debug)]
pub struct Hitboxes {
    pub tabs: Vec<(Rect, usize)>,
    pub tool_views: Vec<(Rect, usize)>,
    pub tools: Vec<(Rect, usize)>,
    pub github_monitors: Vec<(Rect, usize)>,
    pub activity: Vec<(Rect, usize)>,
    pub jobs: Vec<(Rect, usize)>,
    pub job_detail: Option<Rect>,
    pub doctor: Vec<(Rect, usize)>,
    pub doctor_detail: Option<Rect>,
    pub settings: Vec<(Rect, usize)>,
    pub modal_inputs: Vec<ModalInputHitbox>,
}

impl Hitboxes {
    /// Nothing to hit.
    pub open spec fn is_empty(self) -> bool {
        &&& self.tabs@.len() == 0
        &&& self.tool_views@.len() == 0
        &&& self.tools@.len() == 0
        &&& self.github_monitors@.len() == 0
        &&& self.activity@.len() == 0
        &&& self.jobs@.len() == 0
        &&& self.job_detail is None
        &&& self.doctor@.len() == 0
        &&& self.doctor_detail is None
        &&& self.settings@.len() == 0
        &&& self.modal_inputs@.len() == 0
    }

    pub fn none() -> (r: Hitboxes)
        ensures
            r.is_empty(),
    {
        Hitboxes {
            tabs: Vec::new(),
            tool_views: Vec::new(),
            tools: Vec::new(),
            github_monitors: Vec::new(),
            activity: Vec::new(),
            jobs: Vec::new(),
            job_detail: None,
            doctor: Vec::new(),
            doctor_detail: None,
            settings: Vec::new(),
            modal_inputs: Vec::new(),
        }
    }
}

/// The texts in a list of strings, as a set.
pub open spec fn text_set(v: Seq<String>) -> Set<Seq<char>> {
    Set::new(|t: Seq<char>| exists|k: int| 0 <= k < v.len() && #[trigger] v[k]@ == t)
}

/// A text is among a list with one more exactly if it was there or is that.
pub proof fn lemma_text_set_push(v: Seq<String>, s: String, t: Seq<char>)
    ensures
        text_set(v.push(s)).contains(t) <==> text_set(v).contains(t) || t == s@,
{
    if t == s@ {
        assert(v.push(s)[v.len() as int]@ == t);
    }
    if text_set(v).contains(t) {
        let k = choose|k: int| 0 <= k < v.len() && #[trigger] v[k]@ == t;
        assert(v.push(s)[k]@ == t);
    }
    if text_set(v.push(s)).contains(t) && t != s@ {
        let k = choose|k: int| 0 <= k < v.push(s).len() && #[trigger] v.push(s)[k]@ == t;
        assert(v[k]@ == t);
    }
}

/// Whether `name` is among `names`.
pub fn holds_text(names: &Vec<String>, name: &str) -> (r: bool)
    ensures
        r == text_set(names@).contains(name@),
{
    let mut j: usize = 0;
    while j < names.len()
        invariant
            j <= names@.len(),
            forall|k: int| 0 <= k < j ==> (#[trigger] names@[k])@ != name@,
        decreases names@.len() - j,
    {
        if same(names[j].as_str(), name) {
            return true;
        }
        j += 1;
    }
    false
}

/// Adds a name to a set of names.
pub fn add_text(names: &mut Vec<String>, name: String)
    ensures
        text_set(final(names)@) == text_set(old(names)@).insert(name@),
{
    let ghost before = names@;
    names.push(name);
    assert forall|t: Seq<char>| #[trigger]
        text_set(names@).contains(t) <==> text_set(before).insert(name@).contains(t) by {
        lemma_text_set_push(before, name, t);
    }
    assert(text_set(names@) =~= text_set(before).insert(name@));
}

/// Takes a name out of a set of names.
pub fn remove_text(names: &mut Vec<String>, name: &str)
    ensures
        text_set(final(names)@) == text_set(old(names)@).remove(name@),
{
    let mut kept: Vec<String> = Vec::new();
    let mut j: usize = 0;
    while j < names.len()
        invariant
            j <= names@.len(),
            names@ == old(names)@,
            forall|t: Seq<char>| #[trigger]
                text_set(kept@).contains(t) <==> t != name@ && text_set(
                    names@.take(j as int),
                ).contains(t),
        decreases names@.len() - j,
    {
        let ghost before = kept@;
        let ghost seen = names@.take(j as int);
        let entry = names[j].clone();
        if !same(entry.as_str(), name) {
            kept.push(entry);
        }
        assert(names@.take(j + 1) =~= seen.push(entry));
        assert forall|t: Seq<char>| #[trigger]
            text_set(kept@).contains(t) <==> t != name@ && text_set(names@.take(j + 1)).contains(
                t,
            ) by {
            lemma_text_set_push(seen, entry, t);
            lemma_text_set_push(before, entry, t);
        }
        j += 1;
    }
    assert(names@.take(j as int) =~= names@);
    assert(text_set(kept@) =~= text_set(names@).remove(name@));
    *names = kept;
}

/// Leaves those names that a repository has.
pub fn retain_monitors(names: &mut Vec<String>, monitors: &Vec<GithubReleaseMonitor>)
    ensures
        text_set(final(names)@) == text_set(old(names)@).filter(
            |t: Seq<char>| monitor_listed(monitors@, t),
        ),
{
    let mut kept: Vec<String> = Vec::new();
    let mut j: usize = 0;
    while j < names.len()
        invariant
            j <= names@.len(),
            names@ == old(names)@,
            forall|t: Seq<char>| #[trigger]
                text_set(kept@).contains(t) <==> monitor_listed(monitors@, t) && text_set(
                    names@.take(j as int),
                ).contains(t),
        decreases names@.len() - j,
    {
        let ghost before = kept@;
        let ghost seen = names@.take(j as int);
        let entry = names[j].clone();
        if has_monitor(monitors, entry.as_str()) {
            kept.push(entry);
        }
        assert(names@.take(j + 1) =~= seen.push(entry));
        assert forall|t: Seq<char>| #[trigger]
            text_set(kept@).contains(t) <==> monitor_listed(monitors@, t) && text_set(
                names@.take(j + 1),
            ).contains(t) by {
            lemma_text_set_push(seen, entry, t);
            lemma_text_set_push(before, entry, t);
        }
        j += 1;
    }
    assert(names@.take(j as int) =~= names@);
    assert(text_set(kept@) =~= text_set(names@).filter(
        |t: Seq<char>| monitor_listed(monitors@, t),
    ));
    *names = kept;
}

} // verus!
