//! What the interface learns from what runs in the background.

use crate::language::Language;
use crate::number::{count_text, decimal_text};
use crate::terminal::{output_was_queued, says_queued};
use crate::text::{join2, join4, join5, join6, join7};
use crate::tui::activity::{activity_outcome_label, outcome_name};
use crate::tui::app::{App, AppView, InitialLoadData, LoadedTools, NetworkTestView};
use crate::tui::github::{
    GithubView, Quota, count_failed, count_outcomes, count_outdated, failed_count,
    failed_outcomes, note_outcome, outdated_count, updated_outcomes, with_outcome,
};
use crate::tui::jobs::JobsRead;
use crate::tui::labels::{
    InitialLoadProgress, Operation, RunState, completion_text, latest_error_text,
    latest_version_error_message,
};
use crate::tui::modal::text_set;
use crate::tui::model::{
    GithubReleaseMonitor, MonitorOutcome, MonitorStatus, ReleaseUpdatePolicy, ToolDiagnosis,
    automatic_names, automatic_release_update_names, count_visible_conflicts, shown_conflicts,
    shown_diagnoses, text_of, updates_itself,
};
use crate::tui::tools::{lemma_push_contains, probing_from};
use crate::version::{GithubRateLimit, LatestVersionError, NetworkTestResult};
use vstd::prelude::*;
use vstd::string::*;

verus! {

/// An operation on a tool that has ended, with what was loaded and read when
/// it had. Times are in seconds with one decimal.
#[derive(Debug)]
pub struct FinishedOperation {
    pub name: String,
    pub success: bool,
    pub output: String,
    pub operation: Operation,
    pub elapsed: String,
    pub batch_elapsed: String,
    pub tools: Result<LoadedTools, String>,
    pub jobs: JobsRead,
}

/// Something that the background reports.
#[allow(inconsistent_fields)]
#[derive(Debug)]
pub enum AppEvent {
    InitialLoadProgress(InitialLoadProgress),
    InitialLoadFinished(Result<InitialLoadData, String>),
    Finished(FinishedOperation),
    VersionResolved { name: String, probe_id: u64, version: Option<String> },
    LatestVersionResolved {
        name: String,
        probe_id: u64,
        result: Result<String, LatestVersionError>,
    },
    DoctorResolved { probe_id: u64, diagnoses: Vec<ToolDiagnosis>, error: Option<String> },
    NetworkTestResolved { probe_id: u64, results: Result<Vec<NetworkTestResult>, String> },
    ReleaseMonitorsProbed(Result<Vec<MonitorStatus>, String>),
    ReleaseMonitorsResolved(Result<Vec<MonitorOutcome>, String>),
    GithubCredentialResolved { probe_id: u64, result: Result<bool, String> },
    GithubRateLimitResolved { probe_id: u64, result: Result<GithubRateLimit, String> },
}

/// What came of an update.
pub open spec fn update_state(success: bool, queued: bool) -> RunState {
    if !success {
        RunState::Failed
    } else if queued {
        RunState::Queued
    } else {
        RunState::Updated
    }
}

/// The number of the first `n` results that are failures.
pub open spec fn failed_tests(results: Seq<NetworkTestResult>, n: int) -> nat
    decreases n,
{
    if n <= 0 {
        0
    } else {
        failed_tests(results, n - 1) + if results[n - 1].error is Some {
            1nat
        } else {
            0nat
        }
    }
}

/// There are at most as many failures as results.
proof fn lemma_failed_tests(results: Seq<NetworkTestResult>, n: int)
    requires
        0 <= n <= results.len(),
    ensures
        failed_tests(results, n) <= n,
    decreases n,
{
    if n > 0 {
        lemma_failed_tests(results, n - 1);
    }
}

/// What the log says of an outcome, if anything.
pub open spec fn outcome_line(outcome: MonitorOutcome, language: Language) -> Option<Seq<char>> {
    match (outcome, language) {
        (MonitorOutcome::Updated { name, tag, asset }, Language::English) => Some(
            "GitHub Release updated "@ + name@ + " to "@ + tag@ + " from "@ + asset@,
        ),
        (MonitorOutcome::Updated { name, tag, asset }, Language::Chinese) => Some(
            "GitHub Release 已将 "@ + name@ + " 更新到 "@ + tag@ + "（"@ + asset@ + "）"@,
        ),
        (MonitorOutcome::Failed { name, error }, Language::English) => Some(
            "GitHub Release monitor "@ + name@ + " failed: "@ + error@,
        ),
        (MonitorOutcome::Failed { name, error }, Language::Chinese) => Some(
            "GitHub Release 监控 "@ + name@ + " 失败："@ + error@,
        ),
        (MonitorOutcome::Current { .. }, _) => None,
    }
}

impl AppView {
    /// Whether an operation has only been put in line.
    pub open spec fn was_queued(self, done: FinishedOperation) -> bool {
        done.operation.may_wait() && done.success && says_queued(
            done.name@,
            done.output@,
        )
    }

    /// The state with an operation counted and its output logged.
    pub open spec fn operation_logged(self, done: FinishedOperation) -> AppView {
        let queued = self.was_queued(done);
        AppView {
            running: if self.running > 0 {
                (self.running - 1) as usize
            } else {
                0
            },
            tools: if done.operation == Operation::Update {
                self.tools.ended(
                    done.name@,
                    update_state(done.success, queued),
                    done.elapsed,
                )
            } else {
                self.tools
            },
            ..self
        }.logged(
            "\n=== "@ + done.operation.name(self.language) + " "@ + done.name@ + ": "@
                + outcome_name(done.success, queued, self.language) + " ==="@,
        ).logged_output(done.output@)
    }

    /// The state with the tools loaded anew after they were changed.
    pub open spec fn operation_applied(self, done: FinishedOperation) -> AppView {
        let a = if done.operation == Operation::Update {
            self
        } else {
            match done.tools {
                Ok(data) => self.reloaded(data),
                Err(error) => self.logged(
                    self.language.pick("refresh failed: "@, "刷新失败："@) + error@,
                ),
            }
        };
        if (done.operation == Operation::Add || done.operation == Operation::Edit)
            && done.success {
            AppView { tools: a.tools.focused_on(done.name@), ..a }
        } else {
            a
        }
    }

    /// The state with the end of an operation told, and the jobs read.
    pub open spec fn operation_told(self, done: FinishedOperation, queued: bool) -> AppView {
        let a = if done.operation == Operation::Uninstall && queued {
            self.said(
                done.name@ + self.language.pick(
                    " will be uninstalled once nothing uses it"@,
                    " 将在不再被占用后卸载"@,
                ),
            )
        } else {
            self.said(
                completion_text(
                    done.operation,
                    done.name@,
                    done.success,
                    done.elapsed@,
                    self.running as nat,
                    self.language,
                ),
            )
        };
        let b = if done.operation == Operation::Update && done.success && !queued {
            AppView { tools: a.tools.named_probed(done.name@), ..a }
        } else {
            a
        };
        b.jobs_read(done.jobs)
    }

    /// The state once an operation has ended.
    pub open spec fn operation_finished(self, done: FinishedOperation) -> AppView {
        let a = self.operation_logged(done).operation_applied(done).operation_told(
            done,
            self.was_queued(done),
        );
        if a.running == 0 {
            a.batch_finished(done.batch_elapsed@)
        } else {
            a
        }
    }

    /// The state once a latest version was found, or not.
    pub open spec fn latest_resolved(
        self,
        name: Seq<char>,
        id: u64,
        result: Result<String, LatestVersionError>,
    ) -> AppView {
        let a = AppView { tools: self.tools.latest_resolved(name, id, result), ..self };
        match result {
            Err(error) => if probing_from(self.tools.items, name, true, id, 0) is Some {
                a.said(latest_error_text(name, error.kind, error.detail@, self.language))
            } else {
                a
            },
            Ok(_) => a,
        }
    }

    /// The state once the installations were scanned.
    pub open spec fn diagnosed(
        self,
        id: u64,
        diagnoses: Seq<ToolDiagnosis>,
        error: Option<Seq<char>>,
    ) -> AppView {
        if self.doctor.probe_id != id {
            self
        } else {
            match error {
                Some(text) => AppView { doctor: self.doctor.failed(self.now_text), ..self }.said(
                    self.language.pick("Diagnostics failed: "@, "诊断失败："@) + text,
                ),
                None => {
                    let count = decimal_text(shown_diagnoses(diagnoses, self.hides()).len());
                    let conflicts = decimal_text(shown_conflicts(diagnoses, self.hides()));
                    AppView {
                        doctor: self.doctor.found(diagnoses, self.hides(), self.now_text),
                        ..self
                    }.said(
                        match self.language {
                            Language::English => "Diagnostics complete: "@ + count + " tool(s), "@
                                + conflicts + " conflict(s)"@,
                            Language::Chinese => "诊断完成："@ + count + " 个工具，"@ + conflicts
                                + " 项冲突"@,
                        },
                    )
                },
            }
        }
    }

    /// The state once the network was tested.
    pub open spec fn network_tested(
        self,
        id: u64,
        results: Result<Vec<NetworkTestResult>, String>,
    ) -> AppView {
        if self.network_test.probe_id != id {
            self
        } else {
            match results {
                Ok(list) => {
                    let failed = failed_tests(list@, list@.len() as int);
                    let passed = decimal_text((list@.len() - failed) as nat);
                    AppView {
                        network_test: NetworkTestView {
                            loading: false,
                            results: list@,
                            ..self.network_test
                        },
                        ..self
                    }.said(
                        match self.language {
                            Language::English => "Network test complete: "@ + passed
                                + " succeeded, "@ + decimal_text(failed) + " failed"@,
                            Language::Chinese => "网络测试完成："@ + passed + " 项成功，"@
                                + decimal_text(failed) + " 项失败"@,
                        },
                    )
                },
                Err(error) => AppView {
                    network_test: NetworkTestView {
                        loading: false,
                        results: Seq::empty(),
                        ..self.network_test
                    },
                    ..self
                }.said(
                    self.language.pick("Network test failed: "@, "网络测试失败："@) + error@,
                ),
            }
        }
    }

    /// The state once the repositories were looked at. Releases of repositories
    /// that update themselves are installed.
    pub open spec fn releases_probed(
        self,
        results: Result<Vec<MonitorStatus>, String>,
    ) -> AppView {
        let github = GithubView {
            probe_running: false,
            last_refresh: self.now_ms,
            ..self.github
        };
        match results {
            Err(error) => AppView { github, ..self }.said(
                self.language.pick(
                    "GitHub repository refresh failed: "@,
                    "GitHub 仓库刷新失败："@,
                ) + error@,
            ),
            Ok(list) => {
                let n = list@.len() as int;
                let available = decimal_text(outdated_count(list@, n));
                let failed = decimal_text(failed_count(list@, n));
                let automatic = automatic_names(
                    self.github.monitors,
                    list@,
                    self.github.monitors.len() as int,
                );
                let a = AppView {
                    github: GithubView { statuses: list@, ..github },
                    ..self
                }.said(
                    match self.language {
                        Language::English => "GitHub repositories refreshed: "@ + available
                            + " update(s), "@ + failed + " failed"@,
                        Language::Chinese => "GitHub 仓库刷新完成："@ + available
                            + " 项可更新，"@ + failed + " 项失败"@,
                    },
                );
                if automatic.len() > 0 {
                    a.installs_started(automatic)
                } else {
                    a
                }
            },
        }
    }

    /// The state with the first `n` outcomes noted.
    pub open spec fn outcomes_noted(self, outcomes: Seq<MonitorOutcome>, n: int) -> AppView
        decreases n,
    {
        if n <= 0 {
            self
        } else {
            let before = self.outcomes_noted(outcomes, n - 1);
            let a = AppView {
                github: GithubView {
                    statuses: with_outcome(before.github.statuses, outcomes[n - 1]),
                    ..before.github
                },
                ..before
            };
            match outcome_line(outcomes[n - 1], a.language) {
                Some(line) => a.logged(line),
                None => a,
            }
        }
    }

    /// The state once releases were installed.
    pub open spec fn releases_installed(
        self,
        results: Result<Vec<MonitorOutcome>, String>,
    ) -> AppView {
        let github = GithubView {
            install_running: false,
            last_refresh: self.now_ms,
            ..self.github
        };
        match results {
            Err(error) => AppView { github, ..self }.said(
                self.language.pick("Release check failed: "@, "Release 检查失败："@) + error@,
            ),
            Ok(list) => {
                let n = list@.len() as int;
                let updated = decimal_text(updated_outcomes(list@, n));
                let failed = decimal_text(failed_outcomes(list@, n));
                let a = AppView { github, ..self }.outcomes_noted(list@, n);
                AppView {
                    github: GithubView { selected: Set::empty(), ..a.github },
                    ..a
                }.said(
                    match a.language {
                        Language::English => "Release check complete: "@ + updated + " updated, "@
                            + failed + " failed"@,
                        Language::Chinese => "Release 检查完成："@ + updated + " 项更新，"@
                            + failed + " 项失败"@,
                    },
                )
            },
        }
    }

    /// The state once the key for GitHub was looked up.
    pub open spec fn credential_resolved(self, id: u64, result: Result<bool, String>) -> AppView {
        if self.quota.credential_probe_id != id {
            self
        } else {
            match result {
                Ok(configured) => {
                    let a = AppView {
                        quota: Quota {
                            key_configured: configured,
                            credential_error: None,
                            ..self.quota
                        },
                        ..self
                    };
                    if configured {
                        a.quota_asked()
                    } else {
                        a.quota_forgotten()
                    }
                },
                Err(error) => AppView {
                    quota: Quota {
                        key_configured: false,
                        credential_error: Some(error),
                        ..self.quota
                    },
                    ..self
                }.quota_forgotten(),
            }
        }
    }

    /// The state once the quota of the GitHub API was asked for.
    pub open spec fn quota_resolved(
        self,
        id: u64,
        result: Result<GithubRateLimit, String>,
    ) -> AppView {
        if self.quota.probe_id != id {
            self
        } else {
            AppView {
                quota: match result {
                    Ok(limit) => Quota {
                        loading: false,
                        rate_limit: Some(limit),
                        error: None,
                        ..self.quota
                    },
                    Err(error) => Quota { loading: false, error: Some(error), ..self.quota },
                },
                ..self
            }
        }
    }

    /// The state after an event.
    pub open spec fn after_event(self, event: AppEvent) -> AppView {
        match event {
            AppEvent::InitialLoadProgress(progress) => if self.initial_load is Some {
                AppView { initial_load: Some(progress), ..self }
            } else {
                self
            },
            AppEvent::InitialLoadFinished(Ok(data)) => self.loaded(data),
            AppEvent::InitialLoadFinished(Err(error)) => AppView {
                initial_load: None,
                initial_load_error: Some(error),
                ..self
            },
            AppEvent::Finished(done) => self.operation_finished(done),
            AppEvent::VersionResolved { name, probe_id, version } => AppView {
                tools: self.tools.version_resolved(name@, probe_id, version),
                ..self
            },
            AppEvent::LatestVersionResolved { name, probe_id, result } => self.latest_resolved(
                name@,
                probe_id,
                result,
            ),
            AppEvent::DoctorResolved { probe_id, diagnoses, error } => self.diagnosed(
                probe_id,
                diagnoses@,
                text_of(error),
            ),
            AppEvent::NetworkTestResolved { probe_id, results } => self.network_tested(
                probe_id,
                results,
            ),
            AppEvent::ReleaseMonitorsProbed(results) => self.releases_probed(results),
            AppEvent::ReleaseMonitorsResolved(results) => self.releases_installed(results),
            AppEvent::GithubCredentialResolved { probe_id, result } => self.credential_resolved(
                probe_id,
                result,
            ),
            AppEvent::GithubRateLimitResolved { probe_id, result } => self.quota_resolved(
                probe_id,
                result,
            ),
        }
    }

    /// The state after some events.
    pub open spec fn after_events(self, events: Seq<AppEvent>) -> AppView
        decreases events.len(),
    {
        if events.len() == 0 {
            self
        } else {
            self.after_event(events[0]).after_events(events.drop_first())
        }
    }
}

/// What an old scan, test or lookup has found changes nothing.
pub proof fn law_stale_results_are_ignored(
    a: AppView,
    id: u64,
    diagnoses: Seq<ToolDiagnosis>,
    error: Option<Seq<char>>,
    tests: Result<Vec<NetworkTestResult>, String>,
    credential: Result<bool, String>,
    limit: Result<GithubRateLimit, String>,
)
    ensures
        id != a.doctor.probe_id ==> a.diagnosed(id, diagnoses, error) == a,
        id != a.network_test.probe_id ==> a.network_tested(id, tests) == a,
        id != a.quota.credential_probe_id ==> a.credential_resolved(id, credential) == a,
        id != a.quota.probe_id ==> a.quota_resolved(id, limit) == a,
{
}

/// Looking at the repositories never has anything installed of those that are
/// disabled or that ask first.
pub proof fn law_only_automatic_monitors_install_themselves(
    monitors: Seq<GithubReleaseMonitor>,
    statuses: Seq<MonitorStatus>,
    n: int,
    name: Seq<char>,
)
    requires
        0 <= n <= monitors.len(),
        automatic_names(monitors, statuses, n).contains(name),
    ensures
        exists|i: int|
            0 <= i < n && (#[trigger] monitors[i]).name@ == name && monitors[i].enabled
                && monitors[i].update_policy == ReleaseUpdatePolicy::Automatic && updates_itself(
                monitors[i],
                statuses,
            ),
    decreases n,
{
    if n > 0 {
        let before = automatic_names(monitors, statuses, n - 1);
        if before.contains(name) {
            law_only_automatic_monitors_install_themselves(monitors, statuses, n - 1, name);
        } else {
            lemma_push_contains(before, monitors[n - 1].name@, name);
            assert(monitors[n - 1].name@ == name);
        }
    }
}

impl App {
    /// Counts an operation that has ended and logs its output.
    fn log_operation(&mut self, done: &FinishedOperation, queued: bool)
        requires
            old(self).wf(),
            queued == old(self)@.was_queued(*done),
        ensures
            final(self).wf(),
            final(self)@ == old(self)@.operation_logged(*done),
    {
        self.running = if self.running > 0 {
            self.running - 1
        } else {
            0
        };
        if done.operation == Operation::Update {
            let state = if !done.success {
                RunState::Failed
            } else if queued {
                RunState::Queued
            } else {
                RunState::Updated
            };
            self.tools.finish(done.name.as_str(), state, &done.elapsed);
        }
        let line = join7(
            "\n=== ",
            done.operation.label(self.language),
            " ",
            done.name.as_str(),
            ": ",
            activity_outcome_label(done.success, queued, self.language),
            " ===",
        );
        self.push_activity(line);
        self.push_activity_output(done.output.as_str());
    }

    /// Takes the tools that were loaded after an operation has changed them.
    fn apply_operation(
        &mut self,
        operation: Operation,
        name: &str,
        success: bool,
        tools: Result<LoadedTools, String>,
    )
        requires
            old(self).wf(),
        ensures
            final(self).wf(),
            forall|done: FinishedOperation|
                done.operation == operation && done.name@ == name@ && done.success == success
                    && done.tools == tools ==> final(self)@ == #[trigger] old(
                    self,
                )@.operation_applied(done),
    {
        if operation != Operation::Update {
            match tools {
                Ok(data) => self.refresh_tools(data),
                Err(error) => {
                    let line = join2(
                        self.language.text("refresh failed: ", "刷新失败："),
                        error.as_str(),
                    );
                    self.push_activity(line);
                },
            }
        }
        if (operation == Operation::Add || operation == Operation::Edit) && success {
            self.tools.focus_tool_named(name);
        }
    }

    /// Notes that an operation has ended.
    pub fn finish_operation(&mut self, done: FinishedOperation)
        requires
            old(self).wf(),
        ensures
            final(self).wf(),
            final(self)@ == old(self)@.operation_finished(done),
    {
        let ghost whole = done;
        let ghost before = self@;
        let queued = done.operation.can_wait() && done.success && output_was_queued(
            done.name.as_str(),
            done.output.as_str(),
        );
        self.log_operation(&done, queued);
        let ghost logged = self@;
        self.apply_operation(done.operation, done.name.as_str(), done.success, done.tools);
        assert(self@ == logged.operation_applied(whole));
        let ghost applied = self@;
        self.message = if done.operation == Operation::Uninstall && queued {
            join2(
                done.name.as_str(),
                self.language.text(
                    " will be uninstalled once nothing uses it",
                    " 将在不再被占用后卸载",
                ),
            )
        } else {
            done.operation.completion_message(
                done.name.as_str(),
                done.success,
                done.elapsed.as_str(),
                self.running,
                self.language,
            )
        };
        if done.operation == Operation::Update && done.success && !queued {
            self.tools.refresh_tool_version(done.name.as_str());
        }
        let _ = self.refresh_jobs(done.jobs);
        assert(self@ == applied.operation_told(whole, queued));
        if self.running == 0 {
            self.finish_update_batch(done.batch_elapsed.as_str());
        }
    }

    /// Takes a latest version that was found, or tells why it was not.
    fn resolve_latest(
        &mut self,
        name: &str,
        probe_id: u64,
        result: Result<String, LatestVersionError>,
    )
        requires
            old(self).wf(),
        ensures
            final(self).wf(),
            final(self)@ == old(self)@.latest_resolved(name@, probe_id, result),
    {
        let message: Option<String> = match &result {
            Ok(_) => None,
            Err(error) => Some(latest_version_error_message(name, error, self.language)),
        };
        let expected = self.tools.resolve_latest(name, probe_id, result);
        if expected {
            if let Some(text) = message {
                self.message = text;
            }
        }
    }

    /// Takes what a scan of the installations has found.
    fn resolve_doctor(
        &mut self,
        probe_id: u64,
        diagnoses: Vec<ToolDiagnosis>,
        error: Option<String>,
    )
        requires
            old(self).wf(),
        ensures
            final(self).wf(),
            final(self)@ == old(self)@.diagnosed(probe_id, diagnoses@, text_of(error)),
    {
        if self.doctor.probe_id != probe_id {
            return;
        }
        match error {
            Some(text) => {
                self.doctor.fail_scan(&self.now_text);
                self.tell_with("Diagnostics failed: ", "诊断失败：", text.as_str());
            },
            None => {
                let hide = self.hides_unavailable();
                self.doctor.take_diagnoses(diagnoses, hide, &self.now_text);
                let conflicts = count_text(count_visible_conflicts(&self.doctor.diagnoses, hide));
                let count = count_text(self.doctor.visible_count(hide));
                self.message = match self.language {
                    Language::English => join5(
                        "Diagnostics complete: ",
                        count.as_str(),
                        " tool(s), ",
                        conflicts.as_str(),
                        " conflict(s)",
                    ),
                    Language::Chinese => join5(
                        "诊断完成：",
                        count.as_str(),
                        " 个工具，",
                        conflicts.as_str(),
                        " 项冲突",
                    ),
                };
            },
        }
    }

    /// Takes what a test of the network has found.
    fn resolve_network_test(
        &mut self,
        probe_id: u64,
        results: Result<Vec<NetworkTestResult>, String>,
    )
        requires
            old(self).wf(),
        ensures
            final(self).wf(),
            final(self)@ == old(self)@.network_tested(probe_id, results),
    {
        if self.network_test.probe_id != probe_id {
            return;
        }
        self.network_test.loading = false;
        match results {
            Ok(list) => {
                let failed: usize = count_failed_tests(&list);
                proof {
                    lemma_failed_tests(list@, list@.len() as int);
                }
                let passed = count_text(list.len() - failed);
                let failed = count_text(failed);
                self.network_test.results = list;
                self.message = match self.language {
                    Language::English => join5(
                        "Network test complete: ",
                        passed.as_str(),
                        " succeeded, ",
                        failed.as_str(),
                        " failed",
                    ),
                    Language::Chinese => join5(
                        "网络测试完成：",
                        passed.as_str(),
                        " 项成功，",
                        failed.as_str(),
                        " 项失败",
                    ),
                };
            },
            Err(error) => {
                self.network_test.results = Vec::new();
                self.tell_with("Network test failed: ", "网络测试失败：", error.as_str());
            },
        }
    }

    /// Takes what a look at the repositories has found.
    fn resolve_release_probe(&mut self, results: Result<Vec<MonitorStatus>, String>)
        requires
            old(self).wf(),
        ensures
            final(self).wf(),
            final(self)@ == old(self)@.releases_probed(results),
    {
        self.github.probe_running = false;
        self.github.last_refresh = self.now_ms;
        match results {
            Ok(list) => {
                let automatic = automatic_release_update_names(&self.github.monitors, &list);
                let failed = count_text(count_failed(&list));
                let available = count_text(count_outdated(&list));
                self.github.statuses = list;
                self.message = match self.language {
                    Language::English => join5(
                        "GitHub repositories refreshed: ",
                        available.as_str(),
                        " update(s), ",
                        failed.as_str(),
                        " failed",
                    ),
                    Language::Chinese => join5(
                        "GitHub 仓库刷新完成：",
                        available.as_str(),
                        " 项可更新，",
                        failed.as_str(),
                        " 项失败",
                    ),
                };
                if automatic.len() > 0 {
                    self.start_release_updates(automatic);
                }
            },
            Err(error) => self.tell_with(
                "GitHub repository refresh failed: ",
                "GitHub 仓库刷新失败：",
                error.as_str(),
            ),
        }
    }

    /// Notes what became of the repositories, and logs it.
    fn note_outcomes(&mut self, outcomes: &Vec<MonitorOutcome>)
        requires
            old(self).wf(),
        ensures
            final(self).wf(),
            final(self)@ == old(self)@.outcomes_noted(outcomes@, outcomes@.len() as int),
    {
        let ghost before = self@;
        let mut i: usize = 0;
        while i < outcomes.len()
            invariant
                i <= outcomes@.len(),
                self.wf(),
                self@ == before.outcomes_noted(outcomes@, i as int),
            decreases outcomes@.len() - i,
        {
            note_outcome(&mut self.github.statuses, &outcomes[i]);
            if let Some(line) = outcome_log_line(&outcomes[i], self.language) {
                self.push_activity(line);
            }
            i += 1;
        }
    }

    /// Takes what came of installing releases.
    fn resolve_release_updates(&mut self, results: Result<Vec<MonitorOutcome>, String>)
        requires
            old(self).wf(),
        ensures
            final(self).wf(),
            final(self)@ == old(self)@.releases_installed(results),
    {
        self.github.install_running = false;
        self.github.last_refresh = self.now_ms;
        match results {
            Ok(list) => {
                let (updated, failed) = count_outcomes(&list);
                self.note_outcomes(&list);
                self.github.selected = Vec::new();
                assert(text_set(self.github.selected@) =~= Set::empty());
                let updated = count_text(updated);
                let failed = count_text(failed);
                self.message = match self.language {
                    Language::English => join5(
                        "Release check complete: ",
                        updated.as_str(),
                        " updated, ",
                        failed.as_str(),
                        " failed",
                    ),
                    Language::Chinese => join5(
                        "Release 检查完成：",
                        updated.as_str(),
                        " 项更新，",
                        failed.as_str(),
                        " 项失败",
                    ),
                };
            },
            Err(error) => self.tell_with(
                "Release check failed: ",
                "Release 检查失败：",
                error.as_str(),
            ),
        }
    }

    /// Takes what looking up the key for GitHub has found.
    fn resolve_credential(&mut self, probe_id: u64, result: Result<bool, String>)
        requires
            old(self).wf(),
        ensures
            final(self).wf(),
            final(self)@ == old(self)@.credential_resolved(probe_id, result),
    {
        if self.quota.credential_probe_id != probe_id {
            return;
        }
        match result {
            Ok(configured) => {
                self.quota.key_configured = configured;
                self.quota.credential_error = None;
                if configured {
                    self.start_github_rate_limit_refresh();
                } else {
                    self.clear_github_rate_limit();
                }
            },
            Err(error) => {
                self.quota.key_configured = false;
                self.quota.credential_error = Some(error);
                self.clear_github_rate_limit();
            },
        }
    }

    /// Takes the quota of the GitHub API.
    fn resolve_quota(&mut self, probe_id: u64, result: Result<GithubRateLimit, String>)
        requires
            old(self).wf(),
        ensures
            final(self).wf(),
            final(self)@ == old(self)@.quota_resolved(probe_id, result),
    {
        if self.quota.probe_id != probe_id {
            return;
        }
        self.quota.loading = false;
        match result {
            Ok(limit) => {
                self.quota.rate_limit = Some(limit);
                self.quota.error = None;
            },
            Err(error) => {
                self.quota.error = Some(error);
            },
        }
    }

    /// Takes an event from the background.
    pub fn process_event(&mut self, event: AppEvent)
        requires
            old(self).wf(),
        ensures
            final(self).wf(),
            final(self)@ == old(self)@.after_event(event),
    {
        match event {
            AppEvent::InitialLoadProgress(progress) => {
                if self.initial_load.is_some() {
                    self.initial_load = Some(progress);
                }
            },
            AppEvent::InitialLoadFinished(result) => match result {
                Ok(data) => self.apply_initial_load(data),
                Err(error) => {
                    self.initial_load = None;
                    self.initial_load_error = Some(error);
                },
            },
            AppEvent::Finished(done) => self.finish_operation(done),
            AppEvent::VersionResolved { name, probe_id, version } => {
                self.tools.resolve_version(name.as_str(), probe_id, version);
            },
            AppEvent::LatestVersionResolved { name, probe_id, result } => {
                self.resolve_latest(name.as_str(), probe_id, result);
            },
            AppEvent::DoctorResolved { probe_id, diagnoses, error } => {
                self.resolve_doctor(probe_id, diagnoses, error);
            },
            AppEvent::NetworkTestResolved { probe_id, results } => {
                self.resolve_network_test(probe_id, results);
            },
            AppEvent::ReleaseMonitorsProbed(results) => self.resolve_release_probe(results),
            AppEvent::ReleaseMonitorsResolved(results) => self.resolve_release_updates(results),
            AppEvent::GithubCredentialResolved { probe_id, result } => {
                self.resolve_credential(probe_id, result);
            },
            AppEvent::GithubRateLimitResolved { probe_id, result } => {
                self.resolve_quota(probe_id, result);
            },
        }
    }

    /// Takes some events from the background, in order.
    pub fn process_events(&mut self, events: Vec<AppEvent>)
        requires
            old(self).wf(),
        ensures
            final(self).wf(),
            final(self)@ == old(self)@.after_events(events@),
    {
        let ghost before = self@;
        let ghost all = events@;
        let mut rest = events;
        while rest.len() > 0
            invariant
                self.wf(),
                before.after_events(all) == self@.after_events(rest@),
            decreases rest@.len(),
        {
            let ghost queue = rest@;
            let event = rest.remove(0);
            assert(rest@ =~= queue.drop_first());
            self.process_event(event);
        }
    }
}

/// What the log says of an outcome, if anything.
fn outcome_log_line(outcome: &MonitorOutcome, language: Language) -> (r: Option<String>)
    ensures
        text_of(r) == outcome_line(*outcome, language),
{
    match (outcome, language) {
        (MonitorOutcome::Updated { name, tag, asset }, Language::English) => Some(
            join6(
                "GitHub Release updated ",
                name.as_str(),
                " to ",
                tag.as_str(),
                " from ",
                asset.as_str(),
            ),
        ),
        (MonitorOutcome::Updated { name, tag, asset }, Language::Chinese) => Some(
            join7(
                "GitHub Release 已将 ",
                name.as_str(),
                " 更新到 ",
                tag.as_str(),
                "（",
                asset.as_str(),
                "）",
            ),
        ),
        (MonitorOutcome::Failed { name, error }, Language::English) => Some(
            join4("GitHub Release monitor ", name.as_str(), " failed: ", error.as_str()),
        ),
        (MonitorOutcome::Failed { name, error }, Language::Chinese) => Some(
            join4("GitHub Release 监控 ", name.as_str(), " 失败：", error.as_str()),
        ),
        (MonitorOutcome::Current { .. }, _) => None,
    }
}

/// The number of results that are failures.
fn count_failed_tests(results: &Vec<NetworkTestResult>) -> (r: usize)
    ensures
        r == failed_tests(results@, results@.len() as int),
{
    let mut n: usize = 0;
    let mut i: usize = 0;
    while i < results.len()
        invariant
            i <= results@.len(),
            results@.len() == results.len(),
            n <= i,
            n == failed_tests(results@, i as int),
        decreases results@.len() - i,
    {
        if results[i].error.is_some() {
            n += 1;
        }
        i += 1;
    }
    n
}

} // verus!
