//! Background jobs.

use crate::tui::model::NetworkSettings;
use vstd::prelude::*;
use vstd::string::*;

verus! {

/// A command to run.
#[derive(Debug)]
pub struct CommandSpec {
    pub program: String,
    pub args: Vec<String>,
    pub working_directory: String,
}

/// A process that stands in the way of a job.
#[derive(Debug)]
pub struct LockingProcess {
    pub pid: u32,
    pub name: String,
    pub start_time: u64,
}

impl LockingProcess {
    pub fn copy(&self) -> (r: LockingProcess)
        ensures
            r == *self,
    {
        LockingProcess { pid: self.pid, name: self.name.clone(), start_time: self.start_time }
    }
}

/// What a rule says to do about a process.
#[derive(Clone, Copy, Debug, PartialEq, Eq, Structural)]
pub enum ProcessAction {
    Wait,
    Terminate,
    Fail,
}

/// A rule of a job on the processes that stand in its way.
#[derive(Debug)]
pub struct ProcessRule {
    pub name: String,
    pub action: ProcessAction,
    pub terminate_grace_secs: u64,
}

/// A process that a rule of a job speaks of.
#[derive(Debug)]
pub struct MatchedProcess {
    pub action: ProcessAction,
    pub process: LockingProcess,
    pub terminate_grace_secs: u64,
}

impl MatchedProcess {
    pub fn copy(&self) -> (r: MatchedProcess)
        ensures
            r == *self,
    {
        MatchedProcess {
            action: self.action,
            process: self.process.copy(),
            terminate_grace_secs: self.terminate_grace_secs,
        }
    }
}

#[allow(inconsistent_fields)]
#[derive(Debug)]
pub enum JobStatus {
    Pending,
    WaitingForLocks { processes: Vec<LockingProcess> },
    TerminatingProcesses { processes: Vec<LockingProcess> },
    Running { attempt: u32 },
    /// The command ended well; `warned` where its output still told of a file in
    /// use or of a lack of permission.
    Succeeded { exit_code: i32, warned: bool },
    Failed { message: String, exit_code: Option<i32> },
}

impl JobStatus {
    /// Whether nothing more happens to a job in this state.
    pub open spec fn terminal(self) -> bool {
        self is Succeeded || self is Failed
    }

    pub fn is_terminal(&self) -> (r: bool)
        ensures
            r == self.terminal(),
    {
        matches!(self, JobStatus::Succeeded { .. } | JobStatus::Failed { .. })
    }

    /// Whether a job in this state has neither ended nor begun to run.
    pub open spec fn waits(self) -> bool {
        self is Pending || self is WaitingForLocks || self is TerminatingProcesses
    }

    pub fn is_waiting(&self) -> (r: bool)
        ensures
            r == self.waits(),
    {
        matches!(
            self,
            JobStatus::Pending
            | JobStatus::WaitingForLocks { .. }
            | JobStatus::TerminatingProcesses { .. }
        )
    }
}

/// A command that runs in the background.
#[derive(Debug)]
pub struct Job {
    pub id: String,
    pub name: String,
    pub status: JobStatus,
    pub process_rules: Vec<ProcessRule>,
    pub resource_group: String,
    pub command: CommandSpec,
    pub network: NetworkSettings,
    pub lock_timeout_secs: u64,
    pub retries: u32,
    pub retry_delay_secs: u64,
}

} // verus!
