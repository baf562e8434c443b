//! What the interface holds of tools, jobs, repositories and settings.

use crate::job::{CommandSpec, JobStatus};
use crate::language::Language;
use crate::search::{lemma_texts_push, texts};
use crate::text::{char_count, join4, same, slice};
use crate::tui::labels::{
    Availability, RunState, ToolKind, VersionState, versions_agree, versions_equal,
};
use crate::tui::style::{Color, Style};
use crate::version::{LatestVersionSource, without_v};
use vstd::prelude::*;
use vstd::string::*;

verus! {

/// What removes a tool from the machine: the command as it is shown, and whether
/// it was worked out from the command that updates the tool, with nothing said
/// of it in the tool's declaration.
#[derive(Debug)]
pub struct UninstallCommand {
    pub text: String,
    pub derived: bool,
}

/// A tool that can be updated. The time that its last update took is in
/// seconds with one decimal.
#[derive(Debug)]
pub struct ToolItem {
    pub name: String,
    pub command: String,
    pub version: VersionState,
    pub version_command: CommandSpec,
    pub version_probe_id: u64,
    pub latest_version: VersionState,
    pub latest_source: Option<LatestVersionSource>,
    pub latest_probe_id: u64,
    pub supports_target_version: bool,
    pub uninstall: Option<UninstallCommand>,
    pub availability: Availability,
    pub kind: ToolKind,
    pub selected: bool,
    pub run_state: RunState,
    pub elapsed: Option<String>,
}

impl ToolItem {
    /// Whether the installed version is known to be the latest one.
    pub open spec fn is_current(self) -> bool {
        versions_agree(self.version, self.latest_version)
    }

    /// Whether an update of the tool can start.
    pub open spec fn can_start(self) -> bool {
        self.availability == Availability::Installed && self.run_state != RunState::Running
    }
}

pub fn tool_is_up_to_date(tool: &ToolItem) -> (r: bool)
    ensures
        r == tool.is_current(),
{
    versions_equal(&tool.version, &tool.latest_version)
}

/// What the tool list says of the last update.
pub open spec fn run_result(tool: ToolItem, frame: u64, language: Language) -> Seq<char> {
    let name = tool.run_state.name(frame, language);
    match tool.elapsed {
        Some(elapsed) if tool.run_state != RunState::Running => name + " "@ + elapsed@ + "s"@,
        _ => name,
    }
}

/// What the tool list says of the last update.
pub fn format_run_result(tool: &ToolItem, frame: u64, language: Language) -> (r: String)
    ensures
        r@ == run_result(*tool, frame, language),
{
    let label = tool.run_state.label(frame, language);
    match &tool.elapsed {
        Some(elapsed) => if tool.run_state != RunState::Running {
            join4(label, " ", elapsed.as_str(), "s")
        } else {
            label.to_owned()
        },
        None => label.to_owned(),
    }
}

/// The first tool from `i` on that has that name.
pub open spec fn tool_from(tools: Seq<ToolItem>, name: Seq<char>, i: int) -> Option<int>
    decreases tools.len() - i,
{
    if i >= tools.len() {
        None
    } else if tools[i].name@ == name {
        Some(i)
    } else {
        tool_from(tools, name, i + 1)
    }
}

/// The first tool that has that name.
pub open spec fn tool_named(tools: Seq<ToolItem>, name: Seq<char>) -> Option<int> {
    tool_from(tools, name, 0)
}

/// The first tool that has that name.
pub fn tool_position(tools: &Vec<ToolItem>, name: &str) -> (r: Option<usize>)
    ensures
        r is Some <==> tool_named(tools@, name@) is Some,
        r matches Some(i) ==> i < tools@.len() && tool_named(tools@, name@) == Some(i as int)
            && tools@[i as int].name@ == name@,
{
    let mut i: usize = 0;
    while i < tools.len()
        invariant
            i <= tools@.len(),
            tool_named(tools@, name@) == tool_from(tools@, name@, i as int),
        decreases tools@.len() - i,
    {
        if same(tools[i].name.as_str(), name) {
            return Some(i);
        }
        i += 1;
    }
    None
}

/// A background job in the list of jobs.
#[derive(Debug)]
pub struct JobItem {
    pub id: String,
    pub name: String,
    pub status: JobStatus,
    pub updated_at_unix_ms: u128,
}

/// Whether a job of that id is among `jobs`.
pub open spec fn job_listed(jobs: Seq<JobItem>, id: Seq<char>) -> bool {
    exists|i: int| 0 <= i < jobs.len() && (#[trigger] jobs[i]).id@ == id
}

pub fn has_job(jobs: &Vec<JobItem>, id: &str) -> (r: bool)
    ensures
        r == job_listed(jobs@, id@),
{
    let mut i: usize = 0;
    while i < jobs.len()
        invariant
            i <= jobs@.len(),
            forall|k: int| 0 <= k < i ==> (#[trigger] jobs@[k]).id@ != id@,
        decreases jobs@.len() - i,
    {
        if same(jobs[i].id.as_str(), id) {
            return true;
        }
        i += 1;
    }
    false
}

/// Whether a job of that id is among `jobs` and has not ended.
pub open spec fn job_active(jobs: Seq<JobItem>, id: Seq<char>) -> bool {
    exists|i: int|
        0 <= i < jobs.len() && (#[trigger] jobs[i]).id@ == id && !jobs[i].status.terminal()
}

pub fn has_active_job(jobs: &Vec<JobItem>, id: &str) -> (r: bool)
    ensures
        r == job_active(jobs@, id@),
{
    let mut i: usize = 0;
    while i < jobs.len()
        invariant
            i <= jobs@.len(),
            forall|k: int|
                0 <= k < i ==> (#[trigger] jobs@[k]).id@ != id@ || jobs@[k].status.terminal(),
        decreases jobs@.len() - i,
    {
        if !jobs[i].status.is_terminal() && same(jobs[i].id.as_str(), id) {
            return true;
        }
        i += 1;
    }
    false
}

/// Whether any job has not ended.
pub open spec fn any_active(jobs: Seq<JobItem>) -> bool {
    exists|i: int| 0 <= i < jobs.len() && !(#[trigger] jobs[i]).status.terminal()
}

pub fn has_any_active_job(jobs: &Vec<JobItem>) -> (r: bool)
    ensures
        r == any_active(jobs@),
{
    let mut i: usize = 0;
    while i < jobs.len()
        invariant
            i <= jobs@.len(),
            forall|k: int| 0 <= k < i ==> (#[trigger] jobs@[k]).status.terminal(),
        decreases jobs@.len() - i,
    {
        if !jobs[i].status.is_terminal() {
            return true;
        }
        i += 1;
    }
    false
}

/// How requests reach the network.
#[derive(Clone, Copy, Debug, PartialEq, Eq, Structural)]
pub enum ProxyMode {
    Environment,
    Explicit,
    Direct,
}

impl ProxyMode {
    pub open spec fn following(self) -> ProxyMode {
        match self {
            ProxyMode::Environment => ProxyMode::Explicit,
            ProxyMode::Explicit => ProxyMode::Direct,
            ProxyMode::Direct => ProxyMode::Environment,
        }
    }

    pub open spec fn preceding(self) -> ProxyMode {
        match self {
            ProxyMode::Environment => ProxyMode::Direct,
            ProxyMode::Explicit => ProxyMode::Environment,
            ProxyMode::Direct => ProxyMode::Explicit,
        }
    }

    pub fn next(self) -> (r: ProxyMode)
        ensures
            r == self.following(),
    {
        match self {
            ProxyMode::Environment => ProxyMode::Explicit,
            ProxyMode::Explicit => ProxyMode::Direct,
            ProxyMode::Direct => ProxyMode::Environment,
        }
    }

    pub fn previous(self) -> (r: ProxyMode)
        ensures
            r == self.preceding(),
    {
        match self {
            ProxyMode::Environment => ProxyMode::Direct,
            ProxyMode::Explicit => ProxyMode::Environment,
            ProxyMode::Direct => ProxyMode::Explicit,
        }
    }

    pub open spec fn name(self) -> Seq<char> {
        match self {
            ProxyMode::Environment => "environment"@,
            ProxyMode::Explicit => "explicit"@,
            ProxyMode::Direct => "direct"@,
        }
    }

    pub fn label(self) -> (r: &'static str)
        ensures
            r@ == self.name(),
    {
        match self {
            ProxyMode::Environment => "environment",
            ProxyMode::Explicit => "explicit",
            ProxyMode::Direct => "direct",
        }
    }
}

#[derive(Debug)]
pub struct NetworkSettings {
    pub proxy_mode: ProxyMode,
    pub proxy_url: Option<String>,
    pub no_proxy: Vec<String>,
}

/// What network settings say.
pub struct NetworkView {
    pub mode: ProxyMode,
    pub url: Option<Seq<char>>,
    pub bypass: Seq<Seq<char>>,
}

/// What an optional text says.
pub open spec fn text_of(value: Option<String>) -> Option<Seq<char>> {
    match value {
        Some(text) => Some(text@),
        None => None,
    }
}

impl View for NetworkSettings {
    type V = NetworkView;

    open spec fn view(&self) -> NetworkView {
        NetworkView {
            mode: self.proxy_mode,
            url: text_of(self.proxy_url),
            bypass: texts(self.no_proxy@),
        }
    }
}

#[derive(Debug)]
pub struct GithubSettings {
    pub encrypted_api_key: Option<String>,
    pub poll_interval_secs: u64,
}

#[derive(Debug)]
pub struct AppSettings {
    pub language: Language,
    pub auto_diagnose_on_startup: bool,
    pub hide_unsupported_and_missing_tools: bool,
    pub network: NetworkSettings,
    pub github: GithubSettings,
}

/// What a repository publishes its releases as.
#[derive(Clone, Copy, Debug, PartialEq, Eq, Structural)]
pub enum ReleaseAssetFormat {
    File,
    Zip,
    TarGz,
    Dmg,
}

pub open spec fn format_name(format: ReleaseAssetFormat) -> Seq<char> {
    match format {
        ReleaseAssetFormat::File => "file"@,
        ReleaseAssetFormat::Zip => "zip"@,
        ReleaseAssetFormat::TarGz => "tar_gz"@,
        ReleaseAssetFormat::Dmg => "dmg"@,
    }
}

pub fn release_format_label(format: ReleaseAssetFormat) -> (r: &'static str)
    ensures
        r@ == format_name(format),
{
    match format {
        ReleaseAssetFormat::File => "file",
        ReleaseAssetFormat::Zip => "zip",
        ReleaseAssetFormat::TarGz => "tar_gz",
        ReleaseAssetFormat::Dmg => "dmg",
    }
}

pub open spec fn format_after(format: ReleaseAssetFormat) -> ReleaseAssetFormat {
    match format {
        ReleaseAssetFormat::File => ReleaseAssetFormat::Zip,
        ReleaseAssetFormat::Zip => ReleaseAssetFormat::TarGz,
        ReleaseAssetFormat::TarGz => ReleaseAssetFormat::Dmg,
        ReleaseAssetFormat::Dmg => ReleaseAssetFormat::File,
    }
}

pub fn next_release_format(format: ReleaseAssetFormat) -> (r: ReleaseAssetFormat)
    ensures
        r == format_after(format),
{
    match format {
        ReleaseAssetFormat::File => ReleaseAssetFormat::Zip,
        ReleaseAssetFormat::Zip => ReleaseAssetFormat::TarGz,
        ReleaseAssetFormat::TarGz => ReleaseAssetFormat::Dmg,
        ReleaseAssetFormat::Dmg => ReleaseAssetFormat::File,
    }
}

pub open spec fn format_before(format: ReleaseAssetFormat) -> ReleaseAssetFormat {
    match format {
        ReleaseAssetFormat::File => ReleaseAssetFormat::Dmg,
        ReleaseAssetFormat::Zip => ReleaseAssetFormat::File,
        ReleaseAssetFormat::TarGz => ReleaseAssetFormat::Zip,
        ReleaseAssetFormat::Dmg => ReleaseAssetFormat::TarGz,
    }
}

pub fn previous_release_format(format: ReleaseAssetFormat) -> (r: ReleaseAssetFormat)
    ensures
        r == format_before(format),
{
    match format {
        ReleaseAssetFormat::File => ReleaseAssetFormat::Dmg,
        ReleaseAssetFormat::Zip => ReleaseAssetFormat::File,
        ReleaseAssetFormat::TarGz => ReleaseAssetFormat::Zip,
        ReleaseAssetFormat::Dmg => ReleaseAssetFormat::TarGz,
    }
}

/// Whether new releases are installed without asking.
#[derive(Clone, Copy, Debug, PartialEq, Eq, Structural)]
pub enum ReleaseUpdatePolicy {
    Manual,
    Automatic,
}

pub open spec fn policy_name(policy: ReleaseUpdatePolicy, language: Language) -> Seq<char> {
    match policy {
        ReleaseUpdatePolicy::Manual => language.pick("manual"@, "手动确认"@),
        ReleaseUpdatePolicy::Automatic => language.pick("automatic"@, "自动安装"@),
    }
}

pub fn release_update_policy_label(policy: ReleaseUpdatePolicy, language: Language) -> (r:
    &'static str)
    ensures
        r@ == policy_name(policy, language),
{
    match policy {
        ReleaseUpdatePolicy::Manual => language.text("manual", "手动确认"),
        ReleaseUpdatePolicy::Automatic => language.text("automatic", "自动安装"),
    }
}

pub open spec fn policy_after(policy: ReleaseUpdatePolicy) -> ReleaseUpdatePolicy {
    match policy {
        ReleaseUpdatePolicy::Manual => ReleaseUpdatePolicy::Automatic,
        ReleaseUpdatePolicy::Automatic => ReleaseUpdatePolicy::Manual,
    }
}

pub fn next_release_update_policy(policy: ReleaseUpdatePolicy) -> (r: ReleaseUpdatePolicy)
    ensures
        r == policy_after(policy),
{
    match policy {
        ReleaseUpdatePolicy::Manual => ReleaseUpdatePolicy::Automatic,
        ReleaseUpdatePolicy::Automatic => ReleaseUpdatePolicy::Manual,
    }
}

/// The choices of a form go round, and going one way and back changes nothing.
pub proof fn law_choices_go_round(
    format: ReleaseAssetFormat,
    policy: ReleaseUpdatePolicy,
    mode: ProxyMode,
)
    ensures
        format_before(format_after(format)) == format,
        format_after(format_before(format)) == format,
        format_after(format_after(format_after(format_after(format)))) == format,
        policy_after(policy_after(policy)) == policy,
        mode.following().preceding() == mode,
        mode.preceding().following() == mode,
        mode.following().following().following() == mode,
{
}

/// A GitHub repository whose releases are installed.
#[derive(Debug)]
pub struct GithubReleaseMonitor {
    pub name: String,
    pub repository: String,
    pub asset_regex: String,
    pub target_directory: String,
    pub format: ReleaseAssetFormat,
    pub update_policy: ReleaseUpdatePolicy,
    pub cleanup_installer: bool,
    pub max_download_bytes: u64,
    pub max_extracted_bytes: u64,
    pub max_extracted_files: usize,
    pub strip_components: usize,
    pub enabled: bool,
}

/// What is known of a repository.
pub struct MonitorView {
    pub name: Seq<char>,
    pub repository: Seq<char>,
    pub asset_regex: Seq<char>,
    pub target_directory: Seq<char>,
    pub format: ReleaseAssetFormat,
    pub update_policy: ReleaseUpdatePolicy,
    pub cleanup_installer: bool,
    pub max_download_bytes: u64,
    pub max_extracted_bytes: u64,
    pub max_extracted_files: usize,
    pub strip_components: usize,
    pub enabled: bool,
}

impl View for GithubReleaseMonitor {
    type V = MonitorView;

    open spec fn view(&self) -> MonitorView {
        MonitorView {
            name: self.name@,
            repository: self.repository@,
            asset_regex: self.asset_regex@,
            target_directory: self.target_directory@,
            format: self.format,
            update_policy: self.update_policy,
            cleanup_installer: self.cleanup_installer,
            max_download_bytes: self.max_download_bytes,
            max_extracted_bytes: self.max_extracted_bytes,
            max_extracted_files: self.max_extracted_files,
            strip_components: self.strip_components,
            enabled: self.enabled,
        }
    }
}

/// What the last look at a repository found.
#[derive(Debug)]
pub struct MonitorStatus {
    pub name: String,
    pub installed_tag: Option<String>,
    pub latest_tag: Option<String>,
    pub asset: Option<String>,
    pub error: Option<String>,
}

/// What became of a repository whose release was to be installed.
#[derive(Debug)]
pub enum MonitorOutcome {
    Updated { name: String, tag: String, asset: String },
    Failed { name: String, error: String },
    Current { name: String, tag: String },
}

/// Whether two release tags name the same version: they are the same text but
/// for a leading v.
pub open spec fn same_release(a: Seq<char>, b: Seq<char>) -> bool {
    without_v(a) == without_v(b)
}

fn tag_version<'a>(tag: &'a str) -> (r: &'a str)
    ensures
        r@ == without_v(tag@),
{
    let length: usize = char_count(tag);
    if length > 0 {
        let first = tag.get_char(0);
        if first == 'v' || first == 'V' {
            let rest = slice(tag, 1, length);
            assert(rest@ =~= tag@.drop_first());
            return rest;
        }
    }
    tag
}

pub fn release_versions_match(installed: &str, latest: &str) -> (r: bool)
    ensures
        r == same_release(installed@, latest@),
{
    same(tag_version(installed), tag_version(latest))
}

impl MonitorStatus {
    /// Whether the latest release is installed.
    pub open spec fn is_current(self) -> bool {
        self.installed_tag matches Some(installed) && self.latest_tag matches Some(latest)
            && same_release(installed@, latest@)
    }

    /// Whether there is a release that is not installed.
    pub open spec fn is_outdated(self) -> bool {
        self.latest_tag is Some && !self.is_current()
    }
}

pub fn monitor_status_is_current(status: &MonitorStatus) -> (r: bool)
    ensures
        r == status.is_current(),
{
    match (&status.installed_tag, &status.latest_tag) {
        (Some(installed), Some(latest)) => release_versions_match(
            installed.as_str(),
            latest.as_str(),
        ),
        _ => false,
    }
}

/// The first status from `i` on that is of that name.
pub open spec fn status_from(statuses: Seq<MonitorStatus>, name: Seq<char>, i: int) -> Option<int>
    decreases statuses.len() - i,
{
    if i >= statuses.len() {
        None
    } else if statuses[i].name@ == name {
        Some(i)
    } else {
        status_from(statuses, name, i + 1)
    }
}

/// The first status that is of that name.
pub open spec fn status_named(statuses: Seq<MonitorStatus>, name: Seq<char>) -> Option<int> {
    status_from(statuses, name, 0)
}

pub fn status_position(statuses: &Vec<MonitorStatus>, name: &str) -> (r: Option<usize>)
    ensures
        r is Some <==> status_named(statuses@, name@) is Some,
        r matches Some(i) ==> i < statuses@.len() && status_named(statuses@, name@) == Some(
            i as int,
        ) && statuses@[i as int].name@ == name@,
{
    let mut i: usize = 0;
    while i < statuses.len()
        invariant
            i <= statuses@.len(),
            status_named(statuses@, name@) == status_from(statuses@, name@, i as int),
        decreases statuses@.len() - i,
    {
        if same(statuses[i].name.as_str(), name) {
            return Some(i);
        }
        i += 1;
    }
    None
}

/// Whether the release of the repository is installed without asking.
pub open spec fn updates_itself(
    monitor: GithubReleaseMonitor,
    statuses: Seq<MonitorStatus>,
) -> bool {
    &&& monitor.enabled
    &&& monitor.update_policy == ReleaseUpdatePolicy::Automatic
    &&& status_named(statuses, monitor.name@) matches Some(i)
    &&& statuses[i].error is None
    &&& statuses[i].is_outdated()
}

/// The names of the first `n` repositories whose releases are installed
/// without asking.
pub open spec fn automatic_names(
    monitors: Seq<GithubReleaseMonitor>,
    statuses: Seq<MonitorStatus>,
    n: int,
) -> Seq<Seq<char>>
    decreases n,
{
    if n <= 0 {
        Seq::empty()
    } else {
        let before = automatic_names(monitors, statuses, n - 1);
        if updates_itself(monitors[n - 1], statuses) {
            before.push(monitors[n - 1].name@)
        } else {
            before
        }
    }
}

/// The names of the repositories whose releases are installed without asking.
pub fn automatic_release_update_names(
    monitors: &Vec<GithubReleaseMonitor>,
    statuses: &Vec<MonitorStatus>,
) -> (r: Vec<String>)
    ensures
        texts(r@) == automatic_names(monitors@, statuses@, monitors@.len() as int),
{
    let mut names: Vec<String> = Vec::new();
    let mut i: usize = 0;
    assert(texts(names@) =~= Seq::<Seq<char>>::empty());
    while i < monitors.len()
        invariant
            i <= monitors@.len(),
            texts(names@) == automatic_names(monitors@, statuses@, i as int),
        decreases monitors@.len() - i,
    {
        let monitor = &monitors[i];
        let mut wanted: bool = false;
        if monitor.enabled && monitor.update_policy == ReleaseUpdatePolicy::Automatic {
            if let Some(k) = status_position(statuses, monitor.name.as_str()) {
                let status = &statuses[k];
                wanted = status.error.is_none() && status.latest_tag.is_some()
                    && !monitor_status_is_current(status);
            }
        }
        assert(wanted == updates_itself(*monitor, statuses@));
        if wanted {
            let name = monitor.name.clone();
            proof {
                lemma_texts_push(names@, name);
            }
            names.push(name);
        }
        i += 1;
    }
    names
}

/// The statuses once the release `tag` of `name` is installed.
pub open spec fn with_release(
    statuses: Seq<MonitorStatus>,
    name: String,
    tag: String,
    asset: Option<String>,
) -> Seq<MonitorStatus> {
    match status_named(statuses, name@) {
        Some(i) => statuses.update(
            i,
            MonitorStatus {
                installed_tag: Some(tag),
                latest_tag: Some(tag),
                asset: if asset is Some {
                    asset
                } else {
                    statuses[i].asset
                },
                error: None,
                ..statuses[i]
            },
        ),
        None => statuses.push(
            MonitorStatus {
                name,
                installed_tag: Some(tag),
                latest_tag: Some(tag),
                asset,
                error: None,
            },
        ),
    }
}

/// Notes that the release `tag` of `name` is installed.
pub fn update_monitor_status(
    statuses: &mut Vec<MonitorStatus>,
    name: &String,
    tag: &String,
    asset: Option<&String>,
)
    ensures
        final(statuses)@ == with_release(
            old(statuses)@,
            *name,
            *tag,
            match asset {
                Some(a) => Some(*a),
                None => None,
            },
        ),
{
    if let Some(i) = status_position(statuses, name.as_str()) {
        let ghost before = statuses@;
        statuses[i].installed_tag = Some(tag.clone());
        statuses[i].latest_tag = Some(tag.clone());
        if let Some(a) = asset {
            statuses[i].asset = Some(a.clone());
        }
        statuses[i].error = None;
        assert(statuses@ =~= with_release(
            before,
            *name,
            *tag,
            match asset {
                Some(a) => Some(*a),
                None => None,
            },
        ));
        return;
    }
    statuses.push(
        MonitorStatus {
            name: name.clone(),
            installed_tag: Some(tag.clone()),
            latest_tag: Some(tag.clone()),
            asset: match asset {
                Some(a) => Some(a.clone()),
                None => None,
            },
            error: None,
        },
    );
}

/// The statuses once installing a release of `name` has failed.
pub open spec fn with_failure(
    statuses: Seq<MonitorStatus>,
    name: String,
    error: String,
) -> Seq<MonitorStatus> {
    match status_named(statuses, name@) {
        Some(i) => statuses.update(i, MonitorStatus { error: Some(error), ..statuses[i] }),
        None => statuses.push(
            MonitorStatus {
                name,
                installed_tag: None,
                latest_tag: None,
                asset: None,
                error: Some(error),
            },
        ),
    }
}

/// Notes that installing a release of `name` has failed.
pub fn note_monitor_failure(statuses: &mut Vec<MonitorStatus>, name: &String, error: &String)
    ensures
        final(statuses)@ == with_failure(old(statuses)@, *name, *error),
{
    if let Some(i) = status_position(statuses, name.as_str()) {
        let ghost before = statuses@;
        statuses[i].error = Some(error.clone());
        assert(statuses@ =~= with_failure(before, *name, *error));
        return;
    }
    statuses.push(
        MonitorStatus {
            name: name.clone(),
            installed_tag: None,
            latest_tag: None,
            asset: None,
            error: Some(error.clone()),
        },
    );
}

/// Whether a repository of that name is among `monitors`.
pub open spec fn monitor_listed(monitors: Seq<GithubReleaseMonitor>, name: Seq<char>) -> bool {
    exists|i: int| 0 <= i < monitors.len() && (#[trigger] monitors[i]).name@ == name
}

pub fn has_monitor(monitors: &Vec<GithubReleaseMonitor>, name: &str) -> (r: bool)
    ensures
        r == monitor_listed(monitors@, name@),
{
    let mut i: usize = 0;
    while i < monitors.len()
        invariant
            i <= monitors@.len(),
            forall|k: int| 0 <= k < i ==> (#[trigger] monitors@[k]).name@ != name@,
        decreases monitors@.len() - i,
    {
        if same(monitors[i].name.as_str(), name) {
            return true;
        }
        i += 1;
    }
    false
}

/// One place where an executable was found.
#[derive(Debug)]
pub struct ExecutableCandidate {
    pub path: String,
    pub source: String,
    pub version: Option<String>,
}

/// Where an executable was found, in the order of the search path.
#[derive(Debug)]
pub struct ExecutableDiagnosis {
    pub program: String,
    pub candidates: Vec<ExecutableCandidate>,
    pub versions_differ: bool,
}

/// What diagnosing a tool has found.
#[derive(Debug)]
pub struct ToolDiagnosis {
    pub name: String,
    pub supported: bool,
    pub has_conflict: bool,
    pub target: ExecutableDiagnosis,
    pub updater: Option<ExecutableDiagnosis>,
}

#[derive(Clone, Copy, Debug, PartialEq, Eq, Structural)]
pub enum DoctorStatus {
    Fine,
    Conflict,
    Missing,
    Unsupported,
}

impl DoctorStatus {
    pub open spec fn name(self, language: Language) -> Seq<char> {
        match self {
            DoctorStatus::Fine => language.pick("OK"@, "正常"@),
            DoctorStatus::Conflict => language.pick("WARN"@, "冲突"@),
            DoctorStatus::Missing => language.pick("NOT FOUND"@, "未找到"@),
            DoctorStatus::Unsupported => language.pick("UNSUPPORTED"@, "不支持"@),
        }
    }

    pub fn label(self, language: Language) -> (r: &'static str)
        ensures
            r@ == self.name(language),
    {
        match self {
            DoctorStatus::Fine => language.text("OK", "正常"),
            DoctorStatus::Conflict => language.text("WARN", "冲突"),
            DoctorStatus::Missing => language.text("NOT FOUND", "未找到"),
            DoctorStatus::Unsupported => language.text("UNSUPPORTED", "不支持"),
        }
    }

    pub open spec fn look(self) -> Style {
        match self {
            DoctorStatus::Fine => Style::of(Some(Color::Success), None),
            DoctorStatus::Conflict => Style::of(Some(Color::Warning), None).heavy(),
            DoctorStatus::Missing => Style::of(Some(Color::Subtle), None),
            DoctorStatus::Unsupported => Style::of(Some(Color::Warning), None),
        }
    }

    pub fn style(self) -> (r: Style)
        ensures
            r == self.look(),
    {
        match self {
            DoctorStatus::Fine => Style::with_fg(Color::Success),
            DoctorStatus::Conflict => Style::with_fg(Color::Warning).bold(),
            DoctorStatus::Missing => Style::with_fg(Color::Subtle),
            DoctorStatus::Unsupported => Style::with_fg(Color::Warning),
        }
    }
}

/// What a diagnosis comes to.
pub open spec fn verdict(diagnosis: ToolDiagnosis) -> DoctorStatus {
    if !diagnosis.supported {
        DoctorStatus::Unsupported
    } else if diagnosis.has_conflict {
        DoctorStatus::Conflict
    } else if diagnosis.target.candidates@.len() == 0 {
        DoctorStatus::Missing
    } else {
        DoctorStatus::Fine
    }
}

pub fn doctor_status(diagnosis: &ToolDiagnosis) -> (r: DoctorStatus)
    ensures
        r == verdict(*diagnosis),
{
    if !diagnosis.supported {
        DoctorStatus::Unsupported
    } else if diagnosis.has_conflict {
        DoctorStatus::Conflict
    } else if diagnosis.target.candidates.len() == 0 {
        DoctorStatus::Missing
    } else {
        DoctorStatus::Fine
    }
}

/// Whether a diagnosis is shown.
pub open spec fn is_shown(diagnosis: ToolDiagnosis, hide: bool) -> bool {
    !hide || (diagnosis.supported && diagnosis.target.candidates@.len() > 0)
}

pub fn diagnosis_is_visible(diagnosis: &ToolDiagnosis, hide_unsupported_and_missing: bool) -> (r:
    bool)
    ensures
        r == is_shown(*diagnosis, hide_unsupported_and_missing),
{
    !hide_unsupported_and_missing || (diagnosis.supported && diagnosis.target.candidates.len() > 0)
}

/// The positions of the first `n` diagnoses that are shown.
pub open spec fn shown_of(diagnoses: Seq<ToolDiagnosis>, hide: bool, n: int) -> Seq<int>
    decreases n,
{
    if n <= 0 {
        Seq::empty()
    } else if is_shown(diagnoses[n - 1], hide) {
        shown_of(diagnoses, hide, n - 1).push(n - 1)
    } else {
        shown_of(diagnoses, hide, n - 1)
    }
}

/// The positions of the diagnoses that are shown.
pub open spec fn shown_diagnoses(diagnoses: Seq<ToolDiagnosis>, hide: bool) -> Seq<int> {
    shown_of(diagnoses, hide, diagnoses.len() as int)
}

proof fn lemma_shown_of(diagnoses: Seq<ToolDiagnosis>, hide: bool, n: int)
    requires
        0 <= n <= diagnoses.len(),
    ensures
        forall|k: int|
            0 <= k < shown_of(diagnoses, hide, n).len() ==> 0 <= #[trigger] shown_of(
                diagnoses,
                hide,
                n,
            )[k] < n && is_shown(diagnoses[shown_of(diagnoses, hide, n)[k]], hide),
        forall|j: int, k: int|
            0 <= j < k < shown_of(diagnoses, hide, n).len() ==> #[trigger] shown_of(
                diagnoses,
                hide,
                n,
            )[j] < #[trigger] shown_of(diagnoses, hide, n)[k],
        forall|i: int|
            0 <= i < n && is_shown(#[trigger] diagnoses[i], hide) ==> shown_of(
                diagnoses,
                hide,
                n,
            ).contains(i),
    decreases n,
{
    if n > 0 {
        lemma_shown_of(diagnoses, hide, n - 1);
        let before = shown_of(diagnoses, hide, n - 1);
        let all = shown_of(diagnoses, hide, n);
        assert forall|i: int| 0 <= i < n && is_shown(#[trigger] diagnoses[i], hide) implies all.contains(
            i,
        ) by {
            if i < n - 1 {
                let k = choose|k: int| 0 <= k < before.len() && before[k] == i;
                assert(all[k] == i);
            } else {
                assert(all[all.len() - 1] == i);
            }
        }
    }
}

/// The list of diagnoses leaves out those of tools that are missing or not
/// supported, if told to, and no others; the rest keep their order.
pub proof fn law_only_unavailable_diagnoses_are_hidden(diagnoses: Seq<ToolDiagnosis>, hide: bool)
    ensures
        forall|i: int|
            0 <= i < diagnoses.len() ==> (shown_diagnoses(diagnoses, hide).contains(i) <==> !hide || (
            #[trigger] diagnoses[i].supported && diagnoses[i].target.candidates@.len() > 0)),
        forall|j: int, k: int|
            0 <= j < k < shown_diagnoses(diagnoses, hide).len() ==> #[trigger] shown_diagnoses(
                diagnoses,
                hide,
            )[j] < #[trigger] shown_diagnoses(diagnoses, hide)[k],
        !hide ==> shown_diagnoses(diagnoses, hide).len() == diagnoses.len(),
{
    lemma_shown_of(diagnoses, hide, diagnoses.len() as int);
    if !hide {
        lemma_all_shown(diagnoses, diagnoses.len() as int);
    }
}

proof fn lemma_all_shown(diagnoses: Seq<ToolDiagnosis>, n: int)
    requires
        0 <= n <= diagnoses.len(),
    ensures
        shown_of(diagnoses, false, n).len() == n,
    decreases n,
{
    if n > 0 {
        lemma_all_shown(diagnoses, n - 1);
    }
}

/// The positions of the diagnoses that are shown.
pub fn visible_diagnoses(diagnoses: &Vec<ToolDiagnosis>, hide: bool) -> (r: Vec<usize>)
    ensures
        r@.len() == shown_diagnoses(diagnoses@, hide).len(),
        forall|k: int|
            0 <= k < r@.len() ==> r@[k] == shown_diagnoses(diagnoses@, hide)[k] && #[trigger] r@[k]
                < diagnoses@.len(),
{
    let mut positions: Vec<usize> = Vec::new();
    let mut i: usize = 0;
    while i < diagnoses.len()
        invariant
            i <= diagnoses@.len(),
            positions@.len() == shown_of(diagnoses@, hide, i as int).len(),
            forall|k: int|
                0 <= k < positions@.len() ==> positions@[k] == shown_of(
                    diagnoses@,
                    hide,
                    i as int,
                )[k] && #[trigger] positions@[k] < i,
        decreases diagnoses@.len() - i,
    {
        if diagnosis_is_visible(&diagnoses[i], hide) {
            positions.push(i);
        }
        i += 1;
    }
    positions
}

/// The first of the shown diagnoses from the `k`-th on that is of that name,
/// by its place among those shown.
pub open spec fn shown_from(
    diagnoses: Seq<ToolDiagnosis>,
    places: Seq<int>,
    name: Seq<char>,
    k: int,
) -> Option<int>
    decreases places.len() - k,
{
    if k >= places.len() {
        None
    } else if diagnoses[places[k]].name@ == name {
        Some(k)
    } else {
        shown_from(diagnoses, places, name, k + 1)
    }
}

/// Where among the shown diagnoses the one of that name stands.
pub open spec fn shown_named(
    diagnoses: Seq<ToolDiagnosis>,
    hide: bool,
    name: Seq<char>,
) -> Option<int> {
    shown_from(diagnoses, shown_diagnoses(diagnoses, hide), name, 0)
}

pub fn visible_diagnosis_position(
    diagnoses: &Vec<ToolDiagnosis>,
    hide: bool,
    name: &str,
) -> (r: Option<usize>)
    ensures
        r is Some <==> shown_named(diagnoses@, hide, name@) is Some,
        r matches Some(k) ==> shown_named(diagnoses@, hide, name@) == Some(k as int) && k < shown_diagnoses(
            diagnoses@,
            hide,
        ).len(),
{
    let positions = visible_diagnoses(diagnoses, hide);
    let ghost places = shown_diagnoses(diagnoses@, hide);
    let mut k: usize = 0;
    while k < positions.len()
        invariant
            k <= positions@.len(),
            places == shown_diagnoses(diagnoses@, hide),
            positions@.len() == places.len(),
            forall|j: int|
                0 <= j < positions@.len() ==> positions@[j] == places[j] && #[trigger] positions@[j]
                    < diagnoses@.len(),
            shown_named(diagnoses@, hide, name@) == shown_from(diagnoses@, places, name@, k as int),
        decreases positions@.len() - k,
    {
        let i: usize = positions[k];
        if same(diagnoses[i].name.as_str(), name) {
            return Some(k);
        }
        k += 1;
    }
    None
}

/// The number of shown conflicts among the first `n` shown diagnoses.
pub open spec fn conflicts_of(diagnoses: Seq<ToolDiagnosis>, places: Seq<int>, n: int) -> nat
    decreases n,
{
    if n <= 0 {
        0
    } else {
        conflicts_of(diagnoses, places, n - 1) + if diagnoses[places[n - 1]].has_conflict {
            1nat
        } else {
            0nat
        }
    }
}

/// How many of the shown diagnoses are conflicts.
pub open spec fn shown_conflicts(diagnoses: Seq<ToolDiagnosis>, hide: bool) -> nat {
    conflicts_of(diagnoses, shown_diagnoses(diagnoses, hide), shown_diagnoses(diagnoses, hide).len() as int)
}

pub fn count_visible_conflicts(diagnoses: &Vec<ToolDiagnosis>, hide: bool) -> (r: usize)
    ensures
        r == shown_conflicts(diagnoses@, hide),
{
    let positions = visible_diagnoses(diagnoses, hide);
    let ghost places = shown_diagnoses(diagnoses@, hide);
    let mut count: usize = 0;
    let mut k: usize = 0;
    while k < positions.len()
        invariant
            k <= positions@.len(),
            positions@.len() == positions.len(),
            places == shown_diagnoses(diagnoses@, hide),
            positions@.len() == places.len(),
            forall|j: int|
                0 <= j < positions@.len() ==> positions@[j] == places[j] && #[trigger] positions@[j]
                    < diagnoses@.len(),
            count <= k,
            count == conflicts_of(diagnoses@, places, k as int),
        decreases positions@.len() - k,
    {
        let i: usize = positions[k];
        if diagnoses[i].has_conflict {
            count += 1;
        }
        k += 1;
    }
    count
}

/// What the list says of a repository, and how.
pub open spec fn monitor_result(
    monitor: GithubReleaseMonitor,
    status: Option<MonitorStatus>,
    language: Language,
) -> (Seq<char>, Style) {
    let unchecked = (
        language.pick("not checked"@, "尚未检查"@),
        Style::of(Some(Color::Dim), None),
    );
    if !monitor.enabled {
        (language.pick("disabled"@, "已停用"@), Style::of(Some(Color::Subtle), None))
    } else {
        match status {
            None => unchecked,
            Some(s) => if s.error is Some {
                (language.pick("fetch failed"@, "获取失败"@), Style::of(Some(Color::Error), None))
            } else if s.is_current() {
                (language.pick("up to date"@, "已是最新"@), Style::of(Some(Color::Success), None))
            } else if s.latest_tag is Some {
                (
                    language.pick("update available"@, "可更新"@),
                    Style::of(Some(Color::Warning), None),
                )
            } else {
                unchecked
            },
        }
    }
}

/// What the list says of a repository, and how.
pub fn github_monitor_result(
    monitor: &GithubReleaseMonitor,
    status: Option<&MonitorStatus>,
    language: Language,
) -> (r: (String, Style))
    ensures
        (r.0@, r.1) == monitor_result(
            *monitor,
            match status {
                Some(s) => Some(*s),
                None => None,
            },
            language,
        ),
{
    if !monitor.enabled {
        return (language.text("disabled", "已停用").to_owned(), Style::with_fg(Color::Subtle));
    }
    match status {
        None => (language.text("not checked", "尚未检查").to_owned(), Style::with_fg(Color::Dim)),
        Some(s) => if s.error.is_some() {
            (language.text("fetch failed", "获取失败").to_owned(), Style::with_fg(Color::Error))
        } else if monitor_status_is_current(s) {
            (language.text("up to date", "已是最新").to_owned(), Style::with_fg(Color::Success))
        } else if s.latest_tag.is_some() {
            (
                language.text("update available", "可更新").to_owned(),
                Style::with_fg(Color::Warning),
            )
        } else {
            (language.text("not checked", "尚未检查").to_owned(), Style::with_fg(Color::Dim))
        },
    }
}

} // verus!
