//! Ending processes one by one: each is asked to end, given time to, and killed
//! where it has not; the first one that cannot be ended stops it all.

use crate::job::{LockingProcess, MatchedProcess};
use crate::worker::{TerminationStep, process_text, terminate_process, termination_result};
use vstd::prelude::*;
use vstd::string::*;

verus! {

/// What is waited for about the process that is being ended.
#[derive(Clone, Copy, Debug, PartialEq, Eq, Structural)]
pub enum EndingStage {
    /// It was asked to end.
    Requesting,
    /// It has time to end by itself.
    Waiting,
    /// Is it still there after that?
    Looking,
    /// The log is told that it is killed.
    Logging,
    /// It is killed.
    Killing,
    /// Is it still there although it could not be killed?
    Checking,
    /// Nothing: there is no process left, or one could not be ended.
    Over,
}

/// What happened to the process that is being ended.
#[derive(Debug)]
pub enum EndingEvent {
    /// Whether it could be asked to end.
    Requested(bool),
    /// It has ended, or its time is up.
    Waited,
    /// Whether it is still there.
    Alive(bool),
    /// Whether the log could be told.
    Logged(Result<(), String>),
    /// Whether it could be killed.
    Killed(bool),
}

/// What is to be done about the process at `index`, or what came of all of them.
#[allow(inconsistent_fields)]
#[derive(Debug)]
pub enum EndingAsk {
    Request { index: usize },
    Wait { index: usize, secs: u64 },
    Look { index: usize },
    Log { line: String },
    Kill { index: usize },
    Done(Result<(), String>),
    Nothing,
}

/// Processes that are being ended, and how far that is.
#[derive(Debug)]
pub struct Ending {
    pub targets: Vec<MatchedProcess>,
    pub index: usize,
    pub stage: EndingStage,
}

impl Ending {
    pub open spec fn wf(self) -> bool {
        &&& self.targets@.len() <= usize::MAX
        &&& self.stage != EndingStage::Over ==> self.index < self.targets@.len()
    }

    /// The process that is being ended.
    pub open spec fn target(self) -> LockingProcess {
        self.targets@[self.index as int].process
    }

    /// Whether the process is done with: the next one is asked to end, or all
    /// have ended.
    pub open spec fn went_on(self, new: Ending, ask: EndingAsk) -> bool {
        if self.index + 1 < self.targets@.len() {
            &&& new == (Ending {
                index: (self.index + 1) as usize,
                stage: EndingStage::Requesting,
                ..self
            })
            &&& ask == (EndingAsk::Request { index: new.index })
        } else {
            &&& new == (Ending { stage: EndingStage::Over, ..self })
            &&& ask == EndingAsk::Done(Ok(()))
        }
    }

    /// Whether it goes on with `stage` about the same process.
    pub open spec fn at(self, new: Ending, stage: EndingStage) -> bool {
        new == (Ending { stage, ..self })
    }
}

/// Whether ending `targets` begins like this.
pub open spec fn ending_begun(targets: Seq<MatchedProcess>, new: Ending, ask: EndingAsk) -> bool {
    &&& new.targets@ == targets
    &&& new.index == 0
    &&& if targets.len() > 0 {
        &&& new.stage == EndingStage::Requesting
        &&& ask == (EndingAsk::Request { index: 0 })
    } else {
        &&& new.stage == EndingStage::Over
        &&& ask == EndingAsk::Done(Ok(()))
    }
}

/// One step of ending processes: from `old`, when `event` is told, to `new`, with
/// what is to be done then.
pub open spec fn ending_stepped(
    old: Ending,
    event: EndingEvent,
    new: Ending,
    ask: EndingAsk,
) -> bool {
    match (old.stage, event) {
        (EndingStage::Requesting, EndingEvent::Requested(asked)) => if asked {
            &&& old.at(new, EndingStage::Waiting)
            &&& ask == (EndingAsk::Wait {
                index: old.index,
                secs: old.targets@[old.index as int].terminate_grace_secs,
            })
        } else {
            &&& old.at(new, EndingStage::Looking)
            &&& ask == (EndingAsk::Look { index: old.index })
        },
        (EndingStage::Waiting, EndingEvent::Waited) => {
            &&& old.at(new, EndingStage::Looking)
            &&& ask == (EndingAsk::Look { index: old.index })
        },
        (EndingStage::Looking, EndingEvent::Alive(alive)) => if alive {
            &&& old.at(new, EndingStage::Logging)
            &&& ask matches EndingAsk::Log { line } && line@ == "process "@ + process_text(
                old.target(),
            ) + " did not exit gracefully; forcing termination"@
        } else {
            old.went_on(new, ask)
        },
        (EndingStage::Logging, EndingEvent::Logged(told)) => match told {
            Ok(_) => {
                &&& old.at(new, EndingStage::Killing)
                &&& ask == (EndingAsk::Kill { index: old.index })
            },
            Err(error) => {
                &&& old.at(new, EndingStage::Over)
                &&& ask == EndingAsk::Done(Err(error))
            },
        },
        (EndingStage::Killing, EndingEvent::Killed(killed)) => if killed {
            old.went_on(new, ask)
        } else {
            &&& old.at(new, EndingStage::Checking)
            &&& ask == (EndingAsk::Look { index: old.index })
        },
        (EndingStage::Checking, EndingEvent::Alive(alive)) => if alive {
            &&& old.at(new, EndingStage::Over)
            &&& ask matches EndingAsk::Done(Err(message)) && message@ == "failed to terminate "@
                + process_text(old.target())
        } else {
            old.went_on(new, ask)
        },
        _ => new == old && ask is Nothing,
    }
}

/// Begins to end `targets`, in order.
pub fn begin_ending(targets: Vec<MatchedProcess>) -> (r: (Ending, EndingAsk))
    ensures
        r.0.wf(),
        ending_begun(targets@, r.0, r.1),
{
    if targets.len() > 0 {
        (
            Ending { targets, index: 0, stage: EndingStage::Requesting },
            EndingAsk::Request { index: 0 },
        )
    } else {
        (Ending { targets, index: 0, stage: EndingStage::Over }, EndingAsk::Done(Ok(())))
    }
}

/// Goes on behind the process that is done with.
fn go_on(ending: &mut Ending) -> (r: EndingAsk)
    requires
        old(ending).wf(),
        old(ending).stage != EndingStage::Over,
    ensures
        final(ending).wf(),
        old(ending).went_on(*final(ending), r),
{
    if ending.index + 1 < ending.targets.len() {
        ending.index += 1;
        ending.stage = EndingStage::Requesting;
        EndingAsk::Request { index: ending.index }
    } else {
        ending.stage = EndingStage::Over;
        EndingAsk::Done(Ok(()))
    }
}

/// Takes one step of ending processes.
pub fn end_step(ending: &mut Ending, event: EndingEvent) -> (r: EndingAsk)
    requires
        old(ending).wf(),
    ensures
        final(ending).wf(),
        ending_stepped(*old(ending), event, *final(ending), r),
{
    let index = ending.index;
    match (ending.stage, event) {
        (EndingStage::Requesting, EndingEvent::Requested(asked)) => {
            if asked {
                ending.stage = EndingStage::Waiting;
                EndingAsk::Wait { index, secs: ending.targets[index].terminate_grace_secs }
            } else {
                ending.stage = EndingStage::Looking;
                EndingAsk::Look { index }
            }
        },
        (EndingStage::Waiting, EndingEvent::Waited) => {
            ending.stage = EndingStage::Looking;
            EndingAsk::Look { index }
        },
        (EndingStage::Looking, EndingEvent::Alive(alive)) => {
            match terminate_process(&ending.targets[index].process, alive) {
                TerminationStep::Gone => go_on(ending),
                TerminationStep::Force(line) => {
                    ending.stage = EndingStage::Logging;
                    EndingAsk::Log { line }
                },
            }
        },
        (EndingStage::Logging, EndingEvent::Logged(told)) => match told {
            Ok(_) => {
                ending.stage = EndingStage::Killing;
                EndingAsk::Kill { index }
            },
            Err(error) => {
                ending.stage = EndingStage::Over;
                EndingAsk::Done(Err(error))
            },
        },
        (EndingStage::Killing, EndingEvent::Killed(killed)) => {
            if killed {
                go_on(ending)
            } else {
                ending.stage = EndingStage::Checking;
                EndingAsk::Look { index }
            }
        },
        (EndingStage::Checking, EndingEvent::Alive(alive)) => {
            match termination_result(&ending.targets[index].process, false, alive) {
                Ok(_) => go_on(ending),
                Err(message) => {
                    ending.stage = EndingStage::Over;
                    EndingAsk::Done(Err(message))
                },
            }
        },
        _ => EndingAsk::Nothing,
    }
}

/// A process is killed only when it was found still there after it was asked to
/// end and had its time, and the log has been told; and once one could not be
/// ended, or none is left, nothing more is done.
pub proof fn law_killing_is_the_last_resort(
    old: Ending,
    event: EndingEvent,
    new: Ending,
    ask: EndingAsk,
)
    requires
        old.wf(),
        ending_stepped(old, event, new, ask),
    ensures
        new.wf(),
        ask is Kill ==> old.stage == EndingStage::Logging && ask->Kill_index == old.index,
        new.stage == EndingStage::Logging ==> old == new || (old.stage == EndingStage::Looking
            && event == EndingEvent::Alive(true) && new.index == old.index),
        ask is Done && ask->0 is Err ==> new.index == old.index && new.stage == EndingStage::Over,
        old.stage == EndingStage::Over ==> new == old && ask is Nothing,
        old.index <= new.index <= old.index + 1,
{
}

} // verus!
