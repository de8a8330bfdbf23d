//! The tunnel's background protocol: negotiate the remote session, launch the
//! forwarding process, signal readiness, wait for the request to stop,
//! acknowledge it, and tear everything down, whatever failed on the way.
//!
//! [`TunnelTask`] is the protocol's state. Its driver performs the action that
//! [`TunnelTask::pending`] names and hands the reply to [`TunnelTask::step`].

use crate::messages::{ApplicationExitedMessage, SSMTunnelLaunchedMessage};
use crate::process::{CommandLine, CommandLineView};
use crate::ssm::channel::send_failure;
use crate::ssm::error::{outcome_view, SSMError, SSMErrorKind, SSMErrorView};
use crate::ssm::plugin::{
    initiate_ssm_port_forwarding, port_forwarding, spawn_error, spawn_failure, SessionHandle,
    SessionHandleView,
};
use vstd::prelude::*;
use vstd::string::*;

verus! {

/// The port of the remote desktop service on the target.
pub const REMOTE_PORT_NUMBER: &'static str = "3389";

/// The failure reported when the remote session cannot be negotiated.
pub open spec fn negotiation_failure() -> SSMErrorView {
    SSMErrorView {
        kind: SSMErrorKind::StartSession,
        msg: "launch_ssm_tunnel : Error when starting session"@,
    }
}

/// The failure reported when the remote session cannot be terminated.
pub open spec fn termination_failure() -> SSMErrorView {
    SSMErrorView {
        kind: SSMErrorKind::TerminateSession,
        msg: "SSM Tunnel : Error while trying to terminate session"@,
    }
}

/// The failure reported when the forwarding process cannot be killed.
pub open spec fn kill_failure() -> SSMErrorView {
    SSMErrorView {
        kind: SSMErrorKind::CommandKill,
        msg: "Unable to kill tunnel command task"@,
    }
}

/// The failure reported when, after `cause`, the remote session could not be
/// terminated either and may be left behind: it keeps the message of `cause`.
pub open spec fn orphaned_session(cause: SSMErrorView) -> SSMErrorView {
    SSMErrorView {
        kind: SSMErrorKind::TerminateSession,
        msg: "terminate_session_with_error : Error while trying to terminate SSM session AND "@
            + cause.msg,
    }
}

/// What is reported for a failure once the remote session was cleaned up, or
/// was not.
pub open spec fn after_cleanup(cause: SSMErrorView, terminated: bool) -> SSMErrorView {
    if terminated {
        cause
    } else {
        orphaned_session(cause)
    }
}

/// The first failure of a run: `earlier` if there is one, else `failure` where
/// the step at hand did not succeed.
pub open spec fn first_failure(
    earlier: Option<SSMErrorView>,
    succeeded: bool,
    failure: SSMErrorView,
) -> Option<SSMErrorView> {
    if earlier is Some || succeeded {
        earlier
    } else {
        Some(failure)
    }
}

/// The outcome of a run whose first failure, if any, is `failure`.
pub open spec fn reported(failure: Option<SSMErrorView>) -> Result<(), SSMErrorView> {
    match failure {
        None => Ok(()),
        Some(e) => Err(e),
    }
}

/// The tunnel's protocol, by the step it is at.
#[derive(Debug)]
pub enum TunnelTask {
    /// The remote session is being negotiated.
    StartingSession { target: String, local_port_number: String, region: String },
    /// The session is held and the forwarding process is being launched.
    LaunchingPlugin { session_id: String, command: CommandLine },
    /// The forwarding process runs and the readiness token is being sent.
    SignallingReady { session_id: String },
    /// The tunnel is in use until the request to stop arrives.
    AwaitingStop { session_id: String },
    /// The request to stop is being acknowledged.
    Acknowledging { session_id: String, failure: Option<SSMError> },
    /// The remote session is being terminated; the forwarding process is next.
    TerminatingSession { session_id: String, failure: Option<SSMError> },
    /// The forwarding process never started, and the remote session is being
    /// terminated before `cause` is reported.
    AbortingSession { session_id: String, cause: SSMError },
    /// The forwarding process is being killed.
    KillingPlugin { failure: Option<SSMError> },
    /// The protocol has ended.
    Finished { outcome: Result<(), SSMError> },
}

/// A [`TunnelTask`] with its texts as sequences of characters.
#[verifier::ext_equal]
pub ghost enum TunnelTaskView {
    StartingSession { target: Seq<char>, local_port_number: Seq<char>, region: Seq<char> },
    LaunchingPlugin { session_id: Seq<char>, command: CommandLineView },
    SignallingReady { session_id: Seq<char> },
    AwaitingStop { session_id: Seq<char> },
    Acknowledging { session_id: Seq<char>, failure: Option<SSMErrorView> },
    TerminatingSession { session_id: Seq<char>, failure: Option<SSMErrorView> },
    AbortingSession { session_id: Seq<char>, cause: SSMErrorView },
    KillingPlugin { failure: Option<SSMErrorView> },
    Finished { outcome: Result<(), SSMErrorView> },
}

/// A failure that may be absent, by its view.
pub open spec fn failure_view(failure: Option<SSMError>) -> Option<SSMErrorView> {
    match failure {
        None => None,
        Some(e) => Some(e@),
    }
}

impl View for TunnelTask {
    type V = TunnelTaskView;

    open spec fn view(&self) -> TunnelTaskView {
        match *self {
            TunnelTask::StartingSession { target, local_port_number, region } => {
                TunnelTaskView::StartingSession {
                    target: target@,
                    local_port_number: local_port_number@,
                    region: region@,
                }
            },
            TunnelTask::LaunchingPlugin { session_id, command } => {
                TunnelTaskView::LaunchingPlugin { session_id: session_id@, command: command@ }
            },
            TunnelTask::SignallingReady { session_id } => {
                TunnelTaskView::SignallingReady { session_id: session_id@ }
            },
            TunnelTask::AwaitingStop { session_id } => {
                TunnelTaskView::AwaitingStop { session_id: session_id@ }
            },
            TunnelTask::Acknowledging { session_id, failure } => {
                TunnelTaskView::Acknowledging {
                    session_id: session_id@,
                    failure: failure_view(failure),
                }
            },
            TunnelTask::TerminatingSession { session_id, failure } => {
                TunnelTaskView::TerminatingSession {
                    session_id: session_id@,
                    failure: failure_view(failure),
                }
            },
            TunnelTask::AbortingSession { session_id, cause } => {
                TunnelTaskView::AbortingSession { session_id: session_id@, cause: cause@ }
            },
            TunnelTask::KillingPlugin { failure } => {
                TunnelTaskView::KillingPlugin { failure: failure_view(failure) }
            },
            TunnelTask::Finished { outcome } => {
                TunnelTaskView::Finished { outcome: outcome_view(outcome) }
            },
        }
    }
}

/// What the driver reports back to the tunnel.
#[derive(Debug)]
pub enum TunnelEvent {
    /// The remote session was negotiated, or refused (`None`).
    SessionNegotiation(Option<SessionHandle>),
    /// The forwarding process was started, or could not be.
    PluginLaunch { spawned: bool },
    /// The readiness token was handed over, or its receiver was gone.
    ReadySignal { delivered: bool },
    /// The request to stop arrived, or its sender went away without one.
    StopRequest { received: bool },
    /// The acknowledgement was handed over, or its receiver was gone.
    Acknowledgement { delivered: bool },
    /// The remote session was terminated, or could not be.
    SessionTermination { terminated: bool },
    /// The forwarding process was killed or had already exited, or the kill
    /// failed.
    PluginKill { killed: bool },
}

/// A [`TunnelEvent`] with its texts as sequences of characters.
#[verifier::ext_equal]
pub ghost enum TunnelEventView {
    SessionNegotiation(Option<SessionHandleView>),
    PluginLaunch { spawned: bool },
    ReadySignal { delivered: bool },
    StopRequest { received: bool },
    Acknowledgement { delivered: bool },
    SessionTermination { terminated: bool },
    PluginKill { killed: bool },
}

impl View for TunnelEvent {
    type V = TunnelEventView;

    open spec fn view(&self) -> TunnelEventView {
        match *self {
            TunnelEvent::SessionNegotiation(None) => TunnelEventView::SessionNegotiation(None),
            TunnelEvent::SessionNegotiation(Some(session)) => {
                TunnelEventView::SessionNegotiation(Some(session@))
            },
            TunnelEvent::PluginLaunch { spawned } => TunnelEventView::PluginLaunch { spawned },
            TunnelEvent::ReadySignal { delivered } => TunnelEventView::ReadySignal { delivered },
            TunnelEvent::StopRequest { received } => TunnelEventView::StopRequest { received },
            TunnelEvent::Acknowledgement { delivered } => {
                TunnelEventView::Acknowledgement { delivered }
            },
            TunnelEvent::SessionTermination { terminated } => {
                TunnelEventView::SessionTermination { terminated }
            },
            TunnelEvent::PluginKill { killed } => TunnelEventView::PluginKill { killed },
        }
    }
}

/// What the tunnel asks of its driver.
#[derive(Debug)]
pub enum TunnelAction {
    /// Negotiate a port-forwarding session to `target`.
    StartSession { target: String, local_port_number: String, remote_port_number: String },
    /// Start the forwarding process.
    SpawnPlugin(CommandLine),
    /// Send the readiness token.
    SignalReady(SSMTunnelLaunchedMessage),
    /// Wait for the request to stop.
    AwaitStop,
    /// Acknowledge the request to stop.
    Acknowledge(ApplicationExitedMessage),
    /// Terminate the remote session.
    TerminateSession { session_id: String },
    /// Kill the forwarding process.
    KillPlugin,
    /// Report the outcome; nothing is left to do.
    Finish(Result<(), SSMError>),
}

/// A [`TunnelAction`] with its texts as sequences of characters.
#[verifier::ext_equal]
pub ghost enum TunnelActionView {
    StartSession {
        target: Seq<char>,
        local_port_number: Seq<char>,
        remote_port_number: Seq<char>,
    },
    SpawnPlugin(CommandLineView),
    SignalReady(SSMTunnelLaunchedMessage),
    AwaitStop,
    Acknowledge(ApplicationExitedMessage),
    TerminateSession { session_id: Seq<char> },
    KillPlugin,
    Finish(Result<(), SSMErrorView>),
}

impl View for TunnelAction {
    type V = TunnelActionView;

    open spec fn view(&self) -> TunnelActionView {
        match *self {
            TunnelAction::StartSession { target, local_port_number, remote_port_number } => {
                TunnelActionView::StartSession {
                    target: target@,
                    local_port_number: local_port_number@,
                    remote_port_number: remote_port_number@,
                }
            },
            TunnelAction::SpawnPlugin(command) => TunnelActionView::SpawnPlugin(command@),
            TunnelAction::SignalReady(token) => TunnelActionView::SignalReady(token),
            TunnelAction::AwaitStop => TunnelActionView::AwaitStop,
            TunnelAction::Acknowledge(message) => TunnelActionView::Acknowledge(message),
            TunnelAction::TerminateSession { session_id } => {
                TunnelActionView::TerminateSession { session_id: session_id@ }
            },
            TunnelAction::KillPlugin => TunnelActionView::KillPlugin,
            TunnelAction::Finish(outcome) => TunnelActionView::Finish(outcome_view(outcome)),
        }
    }
}

/// The tunnel before anything was done for it.
pub open spec fn tunnel_start(
    target: Seq<char>,
    local_port_number: Seq<char>,
    region: Seq<char>,
) -> TunnelTaskView {
    TunnelTaskView::StartingSession { target, local_port_number, region }
}

/// The action that the tunnel waits for in state `task`.
pub open spec fn tunnel_pending(task: TunnelTaskView) -> TunnelActionView {
    match task {
        TunnelTaskView::StartingSession { target, local_port_number, region } => {
            TunnelActionView::StartSession {
                target,
                local_port_number,
                remote_port_number: REMOTE_PORT_NUMBER@,
            }
        },
        TunnelTaskView::LaunchingPlugin { session_id, command } => {
            TunnelActionView::SpawnPlugin(command)
        },
        TunnelTaskView::SignallingReady { session_id } => {
            TunnelActionView::SignalReady(SSMTunnelLaunchedMessage { ok: true })
        },
        TunnelTaskView::AwaitingStop { session_id } => TunnelActionView::AwaitStop,
        TunnelTaskView::Acknowledging { session_id, failure } => {
            TunnelActionView::Acknowledge(ApplicationExitedMessage)
        },
        TunnelTaskView::TerminatingSession { session_id, failure } => {
            TunnelActionView::TerminateSession { session_id }
        },
        TunnelTaskView::AbortingSession { session_id, cause } => {
            TunnelActionView::TerminateSession { session_id }
        },
        TunnelTaskView::KillingPlugin { failure } => TunnelActionView::KillPlugin,
        TunnelTaskView::Finished { outcome } => TunnelActionView::Finish(outcome),
    }
}

/// Whether `event` is a reply to the action pending in `task`.
pub open spec fn tunnel_answers(task: TunnelTaskView, event: TunnelEventView) -> bool {
    match task {
        TunnelTaskView::StartingSession { .. } => event is SessionNegotiation,
        TunnelTaskView::LaunchingPlugin { .. } => event is PluginLaunch,
        TunnelTaskView::SignallingReady { .. } => event is ReadySignal,
        TunnelTaskView::AwaitingStop { .. } => event is StopRequest,
        TunnelTaskView::Acknowledging { .. } => event is Acknowledgement,
        TunnelTaskView::TerminatingSession { .. } => event is SessionTermination,
        TunnelTaskView::AbortingSession { .. } => event is SessionTermination,
        TunnelTaskView::KillingPlugin { .. } => event is PluginKill,
        TunnelTaskView::Finished { .. } => false,
    }
}

/// The state after `event` in state `task`.
///
/// A session that is refused ends the protocol at once; there is nothing to
/// clean up. With the session held, a forwarding process that cannot be
/// prepared or started leads to the termination of the session, and then to
/// the end, with what [`after_cleanup`] makes of the failure. With the process
/// running, a readiness token that finds no receiver is the first failure and
/// skips the wait; the end of the wait, with a request or without, leads to
/// the acknowledgement; the acknowledgement, delivered or not, leads to the
/// termination of the session; the termination, done or not, leads to the kill
/// of the process; and the kill ends the protocol with the first failure of
/// the run, or with success where there was none. An event that is no reply to
/// the pending action changes nothing.
pub open spec fn tunnel_next(task: TunnelTaskView, event: TunnelEventView) -> TunnelTaskView {
    match (task, event) {
        (
            TunnelTaskView::StartingSession { target, local_port_number, region },
            TunnelEventView::SessionNegotiation(None),
        ) => TunnelTaskView::Finished { outcome: Err(negotiation_failure()) },
        (
            TunnelTaskView::StartingSession { target, local_port_number, region },
            TunnelEventView::SessionNegotiation(Some(session)),
        ) => match port_forwarding(session, region) {
            Ok(command) => TunnelTaskView::LaunchingPlugin {
                session_id: session.session_id,
                command,
            },
            Err(cause) => TunnelTaskView::AbortingSession { session_id: session.session_id, cause },
        },
        (
            TunnelTaskView::LaunchingPlugin { session_id, command },
            TunnelEventView::PluginLaunch { spawned },
        ) => if spawned {
            TunnelTaskView::SignallingReady { session_id }
        } else {
            TunnelTaskView::AbortingSession { session_id, cause: spawn_failure() }
        },
        (
            TunnelTaskView::AbortingSession { session_id, cause },
            TunnelEventView::SessionTermination { terminated },
        ) => TunnelTaskView::Finished { outcome: Err(after_cleanup(cause, terminated)) },
        (
            TunnelTaskView::SignallingReady { session_id },
            TunnelEventView::ReadySignal { delivered },
        ) => if delivered {
            TunnelTaskView::AwaitingStop { session_id }
        } else {
            TunnelTaskView::Acknowledging { session_id, failure: Some(send_failure()) }
        },
        (TunnelTaskView::AwaitingStop { session_id }, TunnelEventView::StopRequest { received }) => {
            TunnelTaskView::Acknowledging { session_id, failure: None }
        },
        (
            TunnelTaskView::Acknowledging { session_id, failure },
            TunnelEventView::Acknowledgement { delivered },
        ) => TunnelTaskView::TerminatingSession { session_id, failure },
        (
            TunnelTaskView::TerminatingSession { session_id, failure },
            TunnelEventView::SessionTermination { terminated },
        ) => TunnelTaskView::KillingPlugin {
            failure: first_failure(failure, terminated, termination_failure()),
        },
        (TunnelTaskView::KillingPlugin { failure }, TunnelEventView::PluginKill { killed }) => {
            TunnelTaskView::Finished {
                outcome: reported(first_failure(failure, killed, kill_failure())),
            }
        },
        _ => task,
    }
}

/// The failure of a step, unless an earlier one stands or the step succeeded.
fn note_failure(earlier: Option<SSMError>, succeeded: bool, kind: SSMErrorKind, msg: &str) -> (failure:
    Option<SSMError>)
    ensures
        failure_view(failure) == first_failure(
            failure_view(earlier),
            succeeded,
            SSMErrorView { kind, msg: msg@ },
        ),
{
    match earlier {
        Some(e) => Some(e),
        None => if succeeded {
            None
        } else {
            Some(SSMError { kind, msg: String::from_str(msg) })
        },
    }
}

/// What is reported for `err` once the attempt to terminate the remote session
/// has ended: `err` itself where the session is gone, and a failure of kind
/// `TerminateSession` that keeps the message of `err` where it may be left
/// behind.
pub fn terminate_session_with_error(err: SSMError, terminated: bool) -> (reported: SSMError)
    ensures
        reported@ == after_cleanup(err@, terminated),
{
    if terminated {
        err
    } else {
        let msg = String::from_str(
            "terminate_session_with_error : Error while trying to terminate SSM session AND ",
        ).concat(err.msg.as_str());
        SSMError { kind: SSMErrorKind::TerminateSession, msg }
    }
}

/// Begins the tunnel's protocol for `vm_target`: the remote session is the
/// first thing to ask for.
pub fn launch_ssm_tunnel(vm_target: String, local_port_number: String, region: String) -> (task:
    TunnelTask)
    ensures
        task@ == tunnel_start(vm_target@, local_port_number@, region@),
{
    TunnelTask::StartingSession { target: vm_target, local_port_number, region }
}

impl TunnelTask {
    /// The action that the driver is to perform next.
    pub fn pending(&self) -> (action: TunnelAction)
        ensures
            action@ == tunnel_pending(self@),
    {
        match self {
            TunnelTask::StartingSession { target, local_port_number, region } => {
                TunnelAction::StartSession {
                    target: target.clone(),
                    local_port_number: local_port_number.clone(),
                    remote_port_number: String::from_str(REMOTE_PORT_NUMBER),
                }
            },
            TunnelTask::LaunchingPlugin { session_id, command } => {
                TunnelAction::SpawnPlugin(command.clone())
            },
            TunnelTask::SignallingReady { session_id } => {
                TunnelAction::SignalReady(SSMTunnelLaunchedMessage { ok: true })
            },
            TunnelTask::AwaitingStop { session_id } => TunnelAction::AwaitStop,
            TunnelTask::Acknowledging { session_id, failure } => {
                TunnelAction::Acknowledge(ApplicationExitedMessage)
            },
            TunnelTask::TerminatingSession { session_id, failure } => {
                TunnelAction::TerminateSession { session_id: session_id.clone() }
            },
            TunnelTask::AbortingSession { session_id, cause } => {
                TunnelAction::TerminateSession { session_id: session_id.clone() }
            },
            TunnelTask::KillingPlugin { failure } => TunnelAction::KillPlugin,
            TunnelTask::Finished { outcome } => TunnelAction::Finish(
                match outcome {
                    Ok(()) => Ok(()),
                    Err(e) => Err(e.clone()),
                },
            ),
        }
    }

    /// Whether the protocol has ended.
    pub fn is_finished(&self) -> (finished: bool)
        ensures
            finished == (self@ is Finished),
    {
        match self {
            TunnelTask::Finished { .. } => true,
            _ => false,
        }
    }

    /// Takes the driver's reply to the pending action and moves on. A reply to
    /// anything else is ignored.
    pub fn step(self, event: TunnelEvent) -> (next: TunnelTask)
        ensures
            next@ == tunnel_next(self@, event@),
    {
        match (self, event) {
            (
                TunnelTask::StartingSession { target, local_port_number, region },
                TunnelEvent::SessionNegotiation(None),
            ) => TunnelTask::Finished {
                outcome: Err(
                    SSMError {
                        kind: SSMErrorKind::StartSession,
                        msg: String::from_str("launch_ssm_tunnel : Error when starting session"),
                    },
                ),
            },
            (
                TunnelTask::StartingSession { target, local_port_number, region },
                TunnelEvent::SessionNegotiation(Some(session)),
            ) => match initiate_ssm_port_forwarding(&session, region.as_str()) {
                Ok(command) => TunnelTask::LaunchingPlugin {
                    session_id: session.session_id,
                    command,
                },
                Err(cause) => TunnelTask::AbortingSession { session_id: session.session_id, cause },
            },
            (
                TunnelTask::LaunchingPlugin { session_id, command },
                TunnelEvent::PluginLaunch { spawned },
            ) => if spawned {
                TunnelTask::SignallingReady { session_id }
            } else {
                TunnelTask::AbortingSession { session_id, cause: spawn_error() }
            },
            (
                TunnelTask::AbortingSession { session_id, cause },
                TunnelEvent::SessionTermination { terminated },
            ) => TunnelTask::Finished {
                outcome: Err(terminate_session_with_error(cause, terminated)),
            },
            (
                TunnelTask::SignallingReady { session_id },
                TunnelEvent::ReadySignal { delivered },
            ) => if delivered {
                TunnelTask::AwaitingStop { session_id }
            } else {
                TunnelTask::Acknowledging {
                    session_id,
                    failure: note_failure(
                        None,
                        false,
                        SSMErrorKind::TokioChannel,
                        "Unable to send message, channel down",
                    ),
                }
            },
            (TunnelTask::AwaitingStop { session_id }, TunnelEvent::StopRequest { received }) => {
                TunnelTask::Acknowledging { session_id, failure: None }
            },
            (
                TunnelTask::Acknowledging { session_id, failure },
                TunnelEvent::Acknowledgement { delivered },
            ) => TunnelTask::TerminatingSession { session_id, failure },
            (
                TunnelTask::TerminatingSession { session_id, failure },
                TunnelEvent::SessionTermination { terminated },
            ) => TunnelTask::KillingPlugin {
                failure: note_failure(
                    failure,
                    terminated,
                    SSMErrorKind::TerminateSession,
                    "SSM Tunnel : Error while trying to terminate session",
                ),
            },
            (TunnelTask::KillingPlugin { failure }, TunnelEvent::PluginKill { killed }) => {
                let failure = note_failure(
                    failure,
                    killed,
                    SSMErrorKind::CommandKill,
                    "Unable to kill tunnel command task",
                );
                TunnelTask::Finished {
                    outcome: match failure {
                        None => Ok(()),
                        Some(e) => Err(e),
                    },
                }
            },
            (task, _) => task,
        }
    }
}

} // verus!
