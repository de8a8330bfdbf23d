//! The client process ends in one of two ways: it exits by itself, or a
//! request to shut down arrives and it is killed. [`RDPTaskInstance`] polls
//! for both, the request first, and rests between two rounds.

use crate::process::{texts, CommandLine, CommandLineView};
use vstd::prelude::*;
use vstd::string::*;

verus! {

/// The time to rest between two rounds of polling, in milliseconds.
pub const POLL_INTERVAL_MILLIS: u64 = 100;

/// The step of the supervisor in which a failure arose.
#[derive(Clone, Copy, Debug, PartialEq, Eq, Structural)]
pub enum RDPErrorKind {
    /// The client process could not be killed.
    Kill,
    /// The client process could not be launched.
    Spawn,
}

/// A failure of the supervisor.
#[derive(Debug)]
pub struct RDPError {
    pub kind: RDPErrorKind,
    pub msg: String,
}

/// An [`RDPError`] with its message as a sequence of characters.
#[verifier::ext_equal]
pub ghost struct RDPErrorView {
    pub kind: RDPErrorKind,
    pub msg: Seq<char>,
}

impl View for RDPError {
    type V = RDPErrorView;

    open spec fn view(&self) -> RDPErrorView {
        RDPErrorView { kind: self.kind, msg: self.msg@ }
    }
}

impl Clone for RDPError {
    fn clone(&self) -> (copy: Self)
        ensures
            copy@ == self@,
    {
        RDPError { kind: self.kind, msg: self.msg.clone() }
    }
}

/// An outcome of the supervisor with its failure, if any, by its view.
pub open spec fn client_outcome_view(outcome: Result<(), RDPError>) -> Result<(), RDPErrorView> {
    match outcome {
        Ok(()) => Ok(()),
        Err(e) => Err(e@),
    }
}

/// The failure reported when the client process does not start; `reason` is
/// what the launch said.
pub open spec fn launch_failure(reason: Seq<char>) -> RDPErrorView {
    RDPErrorView { kind: RDPErrorKind::Spawn, msg: "Failed to start RDP task, "@ + reason }
}

/// The failure reported when the client process cannot be killed.
pub open spec fn client_kill_failure() -> RDPErrorView {
    RDPErrorView { kind: RDPErrorKind::Kill, msg: "Error while trying to kill RDP task"@ }
}

/// The command line that opens the connection file at `path` in the remote
/// desktop client and waits for the client to close.
pub open spec fn client_command(path: Seq<char>) -> CommandLineView {
    CommandLineView {
        program: "cmd"@,
        arguments: seq!["/c"@, "start"@, "/wait"@, "mstsc"@, path],
    }
}

/// What a query of the client process found.
#[derive(Clone, Copy, Debug, PartialEq, Eq, Structural)]
pub enum ProcessStatus {
    /// The process is running.
    Running,
    /// The process has exited.
    Exited,
    /// The query itself failed.
    Unknown,
}

/// The supervisor of a launched client process, by the step it is at.
#[derive(Debug)]
pub enum RDPTaskInstance {
    /// The request to shut down is being looked for.
    CheckingShutdown,
    /// No request was there, and the process is being queried.
    CheckingProcess,
    /// The process runs, and the supervisor rests before the next round.
    Sleeping,
    /// The request to shut down arrived, and the process is being killed.
    Killing,
    /// The supervisor has ended.
    Finished { outcome: Result<(), RDPError> },
}

/// An [`RDPTaskInstance`] with its texts as sequences of characters.
#[verifier::ext_equal]
pub ghost enum RDPTaskInstanceView {
    CheckingShutdown,
    CheckingProcess,
    Sleeping,
    Killing,
    Finished { outcome: Result<(), RDPErrorView> },
}

impl View for RDPTaskInstance {
    type V = RDPTaskInstanceView;

    open spec fn view(&self) -> RDPTaskInstanceView {
        match *self {
            RDPTaskInstance::CheckingShutdown => RDPTaskInstanceView::CheckingShutdown,
            RDPTaskInstance::CheckingProcess => RDPTaskInstanceView::CheckingProcess,
            RDPTaskInstance::Sleeping => RDPTaskInstanceView::Sleeping,
            RDPTaskInstance::Killing => RDPTaskInstanceView::Killing,
            RDPTaskInstance::Finished { outcome } => RDPTaskInstanceView::Finished {
                outcome: client_outcome_view(outcome),
            },
        }
    }
}

/// What the driver reports back to the supervisor.
#[derive(Clone, Copy, Debug, PartialEq, Eq, Structural)]
pub enum ClientEvent {
    /// Whether a request to shut down has arrived. That none has is the normal
    /// case, also where its sender is gone.
    ShutdownChecked { requested: bool },
    /// What the query of the process found.
    ProcessChecked(ProcessStatus),
    /// The rest is over.
    Slept,
    /// The process was killed or had already exited, or the kill failed.
    Killed { killed: bool },
}

/// What the supervisor asks of its driver.
#[derive(Debug)]
pub enum ClientAction {
    /// Look for the request to shut down, without waiting.
    CheckShutdown,
    /// Query the process, without waiting.
    CheckProcess,
    /// Rest for this many milliseconds.
    Sleep { millis: u64 },
    /// Kill the process.
    Kill,
    /// Report the outcome; nothing is left to do.
    Finish(Result<(), RDPError>),
}

/// A [`ClientAction`] with its texts as sequences of characters.
#[verifier::ext_equal]
pub ghost enum ClientActionView {
    CheckShutdown,
    CheckProcess,
    Sleep { millis: u64 },
    Kill,
    Finish(Result<(), RDPErrorView>),
}

impl View for ClientAction {
    type V = ClientActionView;

    open spec fn view(&self) -> ClientActionView {
        match *self {
            ClientAction::CheckShutdown => ClientActionView::CheckShutdown,
            ClientAction::CheckProcess => ClientActionView::CheckProcess,
            ClientAction::Sleep { millis } => ClientActionView::Sleep { millis },
            ClientAction::Kill => ClientActionView::Kill,
            ClientAction::Finish(outcome) => ClientActionView::Finish(client_outcome_view(outcome)),
        }
    }
}

/// The supervisor of a process that was just launched.
pub open spec fn client_start() -> RDPTaskInstanceView {
    RDPTaskInstanceView::CheckingShutdown
}

/// The supervisor for a launch that succeeded, or [`launch_failure`] with what
/// the launch said.
pub open spec fn supervised(launched: Result<(), Seq<char>>) -> Result<
    RDPTaskInstanceView,
    RDPErrorView,
> {
    match launched {
        Ok(()) => Ok(client_start()),
        Err(reason) => Err(launch_failure(reason)),
    }
}

/// The action that the supervisor waits for in state `client`.
pub open spec fn client_pending(client: RDPTaskInstanceView) -> ClientActionView {
    match client {
        RDPTaskInstanceView::CheckingShutdown => ClientActionView::CheckShutdown,
        RDPTaskInstanceView::CheckingProcess => ClientActionView::CheckProcess,
        RDPTaskInstanceView::Sleeping => ClientActionView::Sleep { millis: POLL_INTERVAL_MILLIS },
        RDPTaskInstanceView::Killing => ClientActionView::Kill,
        RDPTaskInstanceView::Finished { outcome } => ClientActionView::Finish(outcome),
    }
}

/// Whether `event` is a reply to the action pending in `client`.
pub open spec fn client_answers(client: RDPTaskInstanceView, event: ClientEvent) -> bool {
    match client {
        RDPTaskInstanceView::CheckingShutdown => event is ShutdownChecked,
        RDPTaskInstanceView::CheckingProcess => event is ProcessChecked,
        RDPTaskInstanceView::Sleeping => event is Slept,
        RDPTaskInstanceView::Killing => event is Killed,
        RDPTaskInstanceView::Finished { .. } => false,
    }
}

/// The state after `event` in state `client`. A request to shut down leads to
/// the kill, whatever the process does. Without one, a process that has exited
/// or cannot be queried ends the supervisor well, and a running one lets it
/// rest. A kill that fails is the only failure. An event that is no reply to
/// the pending action changes nothing.
pub open spec fn client_next(client: RDPTaskInstanceView, event: ClientEvent) -> RDPTaskInstanceView {
    match (client, event) {
        (RDPTaskInstanceView::CheckingShutdown, ClientEvent::ShutdownChecked { requested }) => {
            if requested {
                RDPTaskInstanceView::Killing
            } else {
                RDPTaskInstanceView::CheckingProcess
            }
        },
        (RDPTaskInstanceView::CheckingProcess, ClientEvent::ProcessChecked(status)) => {
            match status {
                ProcessStatus::Running => RDPTaskInstanceView::Sleeping,
                ProcessStatus::Exited => RDPTaskInstanceView::Finished { outcome: Ok(()) },
                ProcessStatus::Unknown => RDPTaskInstanceView::Finished { outcome: Ok(()) },
            }
        },
        (RDPTaskInstanceView::Sleeping, ClientEvent::Slept) => RDPTaskInstanceView::CheckingShutdown,
        (RDPTaskInstanceView::Killing, ClientEvent::Killed { killed }) => {
            if killed {
                RDPTaskInstanceView::Finished { outcome: Ok(()) }
            } else {
                RDPTaskInstanceView::Finished { outcome: Err(client_kill_failure()) }
            }
        },
        _ => client,
    }
}

/// A supervisor or a failure, each by its view.
pub open spec fn spawned_view(spawned: Result<RDPTaskInstance, RDPError>) -> Result<
    RDPTaskInstanceView,
    RDPErrorView,
> {
    match spawned {
        Ok(client) => Ok(client@),
        Err(e) => Err(e@),
    }
}

/// What a launch said, as a sequence of characters.
pub open spec fn launched_view(launched: Result<(), String>) -> Result<(), Seq<char>> {
    match launched {
        Ok(()) => Ok(()),
        Err(reason) => Err(reason@),
    }
}

/// The command line that launches the client on the connection file at
/// `path`.
pub fn spawn_rdp(path: String) -> (command: CommandLine)
    ensures
        command@ == client_command(path@),
{
    let mut arguments: Vec<String> = Vec::new();
    arguments.push(String::from_str("/c"));
    arguments.push(String::from_str("start"));
    arguments.push(String::from_str("/wait"));
    arguments.push(String::from_str("mstsc"));
    arguments.push(path);
    assert(texts(arguments@) =~= seq!["/c"@, "start"@, "/wait"@, "mstsc"@, path@]);
    CommandLine { program: String::from_str("cmd"), arguments }
}

impl RDPTaskInstance {
    /// Takes what the launch of the client process gave: a launched process
    /// gets its supervisor, and a launch that failed gives a failure of kind
    /// `Spawn` that ends in what the launch said.
    pub fn spawn(launched: Result<(), String>) -> (spawned: Result<RDPTaskInstance, RDPError>)
        ensures
            spawned_view(spawned) == supervised(launched_view(launched)),
    {
        match launched {
            Ok(()) => Ok(RDPTaskInstance::CheckingShutdown),
            Err(reason) => Err(
                RDPError {
                    kind: RDPErrorKind::Spawn,
                    msg: String::from_str("Failed to start RDP task, ").concat(reason.as_str()),
                },
            ),
        }
    }

    /// The action that the driver is to perform next.
    pub fn pending(&self) -> (action: ClientAction)
        ensures
            action@ == client_pending(self@),
    {
        match self {
            RDPTaskInstance::CheckingShutdown => ClientAction::CheckShutdown,
            RDPTaskInstance::CheckingProcess => ClientAction::CheckProcess,
            RDPTaskInstance::Sleeping => ClientAction::Sleep { millis: POLL_INTERVAL_MILLIS },
            RDPTaskInstance::Killing => ClientAction::Kill,
            RDPTaskInstance::Finished { outcome } => ClientAction::Finish(
                match outcome {
                    Ok(()) => Ok(()),
                    Err(e) => Err(e.clone()),
                },
            ),
        }
    }

    /// Whether the supervisor has ended.
    pub fn is_finished(&self) -> (finished: bool)
        ensures
            finished == (self@ is Finished),
    {
        match self {
            RDPTaskInstance::Finished { .. } => true,
            _ => false,
        }
    }

    /// One step of the polling loop: takes the driver's reply to the pending
    /// action and moves on. A reply to anything else is ignored.
    pub fn wait_for_exit_or_task_done(self, event: ClientEvent) -> (next: RDPTaskInstance)
        ensures
            next@ == client_next(self@, event),
    {
        match (self, event) {
            (RDPTaskInstance::CheckingShutdown, ClientEvent::ShutdownChecked { requested }) => {
                if requested {
                    RDPTaskInstance::Killing
                } else {
                    RDPTaskInstance::CheckingProcess
                }
            },
            (RDPTaskInstance::CheckingProcess, ClientEvent::ProcessChecked(status)) => {
                match status {
                    ProcessStatus::Running => RDPTaskInstance::Sleeping,
                    ProcessStatus::Exited => RDPTaskInstance::Finished { outcome: Ok(()) },
                    ProcessStatus::Unknown => RDPTaskInstance::Finished { outcome: Ok(()) },
                }
            },
            (RDPTaskInstance::Sleeping, ClientEvent::Slept) => RDPTaskInstance::CheckingShutdown,
            (RDPTaskInstance::Killing, ClientEvent::Killed { killed }) => {
                if killed {
                    RDPTaskInstance::Finished { outcome: Ok(()) }
                } else {
                    RDPTaskInstance::Finished {
                        outcome: Err(
                            RDPError {
                                kind: RDPErrorKind::Kill,
                                msg: String::from_str("Error while trying to kill RDP task"),
                            },
                        ),
                    }
                }
            },
            (client, _) => client,
        }
    }
}

} // verus!
