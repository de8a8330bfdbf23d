//! The handler's protocol. [`TaskHandler`] is its state; the driver performs
//! the action that [`TaskHandler::pending`] names and hands the reply to
//! [`TaskHandler::step`]. The client's supervisor and the handshake that stops
//! the tunnel run inside it, one after the other.

use crate::messages::SSMTunnelLaunchedMessage;
use crate::process::{CommandLine, CommandLineView};
use crate::rdp::supervisor::{
    client_answers, client_command, client_next, client_outcome_view, client_pending,
    launched_view, spawn_rdp, supervised, ClientAction, ClientActionView, ClientEvent, RDPError,
    RDPErrorView, RDPTaskInstance, RDPTaskInstanceView,
};
use crate::ssm::instance::{
    stop_answers, stop_next, stop_pending, StopAction, StopActionView, StopEvent, StopEventView,
    StopHandshake, StopHandshakeView, TunnelTaskInstance,
};
use crate::ssm::tunnel::{tunnel_start, TunnelTask};
use crate::tasks_handler::error::{
    combine_ssm_rdp_results, handler_outcome_view, merged, TaskHandlerError, TaskHandlerErrorKind,
    TaskHandlerErrorView,
};
use vstd::prelude::*;
use vstd::string::*;

verus! {

/// The failure reported when the tunnel says that it is not ready.
pub open spec fn tunnel_not_ready() -> TaskHandlerErrorView {
    TaskHandlerErrorView {
        kind: TaskHandlerErrorKind::SSM,
        msg: "Failed to start SSM tunnel (task created msg received with ok false)"@,
    }
}

/// The failure reported when the tunnel went away without a readiness token;
/// `reason` is what the channel said.
pub open spec fn tunnel_lost(reason: Seq<char>) -> TaskHandlerErrorView {
    TaskHandlerErrorView { kind: TaskHandlerErrorKind::SSM, msg: reason }
}

/// The handler's protocol, by the step it is at.
#[derive(Debug)]
pub enum TaskHandler {
    /// The tunnel was spawned and its readiness token is awaited.
    AwaitingTunnel { tunnel: TunnelTaskInstance, rdp_file_path: String },
    /// The tunnel is ready and the client process is being launched.
    SpawningClient { tunnel: TunnelTaskInstance, command: CommandLine },
    /// The client runs under its supervisor.
    Supervising { tunnel: TunnelTaskInstance, client: RDPTaskInstance },
    /// The client is done with, and the tunnel is being stopped.
    Stopping { handshake: StopHandshake, client_outcome: Result<(), RDPError> },
    /// The protocol has ended.
    Finished { outcome: Result<(), TaskHandlerError> },
}

/// A [`TaskHandler`] with its texts as sequences of characters.
#[verifier::ext_equal]
pub ghost enum TaskHandlerView {
    AwaitingTunnel { tunnel: TunnelTaskInstance, rdp_file_path: Seq<char> },
    SpawningClient { tunnel: TunnelTaskInstance, command: CommandLineView },
    Supervising { tunnel: TunnelTaskInstance, client: RDPTaskInstanceView },
    Stopping { handshake: StopHandshakeView, client_outcome: Result<(), RDPErrorView> },
    Finished { outcome: Result<(), TaskHandlerErrorView> },
}

impl View for TaskHandler {
    type V = TaskHandlerView;

    open spec fn view(&self) -> TaskHandlerView {
        match *self {
            TaskHandler::AwaitingTunnel { tunnel, rdp_file_path } => {
                TaskHandlerView::AwaitingTunnel { tunnel, rdp_file_path: rdp_file_path@ }
            },
            TaskHandler::SpawningClient { tunnel, command } => {
                TaskHandlerView::SpawningClient { tunnel, command: command@ }
            },
            TaskHandler::Supervising { tunnel, client } => {
                TaskHandlerView::Supervising { tunnel, client: client@ }
            },
            TaskHandler::Stopping { handshake, client_outcome } => {
                TaskHandlerView::Stopping {
                    handshake: handshake@,
                    client_outcome: client_outcome_view(client_outcome),
                }
            },
            TaskHandler::Finished { outcome } => {
                TaskHandlerView::Finished { outcome: handler_outcome_view(outcome) }
            },
        }
    }
}

/// What the driver reports back to the handler.
#[derive(Debug)]
pub enum HandlerEvent {
    /// The readiness token arrived, or its sender went away without one; the
    /// text is what the channel said.
    TunnelCreated(Result<SSMTunnelLaunchedMessage, String>),
    /// The client process was launched, or could not be; the text is what the
    /// launch said.
    ClientLaunched(Result<(), String>),
    /// A reply to the supervisor.
    Client(ClientEvent),
    /// A reply to the handshake that stops the tunnel.
    Tunnel(StopEvent),
}

/// A [`HandlerEvent`] with its texts as sequences of characters.
#[verifier::ext_equal]
pub ghost enum HandlerEventView {
    TunnelCreated(Result<SSMTunnelLaunchedMessage, Seq<char>>),
    ClientLaunched(Result<(), Seq<char>>),
    Client(ClientEvent),
    Tunnel(StopEventView),
}

impl View for HandlerEvent {
    type V = HandlerEventView;

    open spec fn view(&self) -> HandlerEventView {
        match *self {
            HandlerEvent::TunnelCreated(Ok(token)) => HandlerEventView::TunnelCreated(Ok(token)),
            HandlerEvent::TunnelCreated(Err(reason)) => {
                HandlerEventView::TunnelCreated(Err(reason@))
            },
            HandlerEvent::ClientLaunched(launched) => {
                HandlerEventView::ClientLaunched(launched_view(launched))
            },
            HandlerEvent::Client(event) => HandlerEventView::Client(event),
            HandlerEvent::Tunnel(event) => HandlerEventView::Tunnel(event@),
        }
    }
}

/// What the handler asks of its driver.
#[derive(Debug)]
pub enum HandlerAction {
    /// Wait for the tunnel's readiness token.
    AwaitTunnelCreated,
    /// Launch the client process.
    SpawnClient(CommandLine),
    /// Do what the supervisor asks.
    Client(ClientAction),
    /// Do what the handshake that stops the tunnel asks.
    Tunnel(StopAction),
    /// Report the outcome; nothing is left to do.
    Finish(Result<(), TaskHandlerError>),
}

/// A [`HandlerAction`] with its texts as sequences of characters.
#[verifier::ext_equal]
pub ghost enum HandlerActionView {
    AwaitTunnelCreated,
    SpawnClient(CommandLineView),
    Client(ClientActionView),
    Tunnel(StopActionView),
    Finish(Result<(), TaskHandlerErrorView>),
}

impl View for HandlerAction {
    type V = HandlerActionView;

    open spec fn view(&self) -> HandlerActionView {
        match *self {
            HandlerAction::AwaitTunnelCreated => HandlerActionView::AwaitTunnelCreated,
            HandlerAction::SpawnClient(command) => HandlerActionView::SpawnClient(command@),
            HandlerAction::Client(action) => HandlerActionView::Client(action@),
            HandlerAction::Tunnel(action) => HandlerActionView::Tunnel(action@),
            HandlerAction::Finish(outcome) => HandlerActionView::Finish(
                handler_outcome_view(outcome),
            ),
        }
    }
}

/// The handler that has just spawned its tunnel.
pub open spec fn handler_start(rdp_file_path: Seq<char>) -> TaskHandlerView {
    TaskHandlerView::AwaitingTunnel {
        tunnel: TunnelTaskInstance { tunnel_created_outstanding: true },
        rdp_file_path,
    }
}

/// The action that the handler waits for in state `handler`.
pub open spec fn handler_pending(handler: TaskHandlerView) -> HandlerActionView {
    match handler {
        TaskHandlerView::AwaitingTunnel { .. } => HandlerActionView::AwaitTunnelCreated,
        TaskHandlerView::SpawningClient { tunnel, command } => HandlerActionView::SpawnClient(
            command,
        ),
        TaskHandlerView::Supervising { tunnel, client } => HandlerActionView::Client(
            client_pending(client),
        ),
        TaskHandlerView::Stopping { handshake, client_outcome } => HandlerActionView::Tunnel(
            stop_pending(handshake),
        ),
        TaskHandlerView::Finished { outcome } => HandlerActionView::Finish(outcome),
    }
}

/// Whether `event` is a reply to the action pending in `handler`.
pub open spec fn handler_answers(handler: TaskHandlerView, event: HandlerEventView) -> bool {
    match (handler, event) {
        (TaskHandlerView::AwaitingTunnel { .. }, HandlerEventView::TunnelCreated(_)) => true,
        (TaskHandlerView::SpawningClient { .. }, HandlerEventView::ClientLaunched(_)) => true,
        (TaskHandlerView::Supervising { tunnel, client }, HandlerEventView::Client(reply)) => {
            client_answers(client, reply)
        },
        (
            TaskHandlerView::Stopping { handshake, client_outcome },
            HandlerEventView::Tunnel(reply),
        ) => stop_answers(handshake, reply),
        _ => false,
    }
}

/// The handler once the client is done with, well or not: the tunnel is to be
/// stopped.
pub open spec fn client_done(client_outcome: Result<(), RDPErrorView>) -> TaskHandlerView {
    TaskHandlerView::Stopping { handshake: StopHandshakeView::SendingRequest, client_outcome }
}

/// The state after `event` in state `handler`.
///
/// A tunnel that is not ready, or that went away, ends the handler at once
/// with a failure of the tunnel, and no client is launched. A client that
/// cannot be launched, and a supervisor that has ended, both lead to the
/// handshake that stops the tunnel. The end of the handshake ends the handler
/// with the merge of both outcomes. An event that is no reply to the pending
/// action changes nothing.
pub open spec fn handler_next(handler: TaskHandlerView, event: HandlerEventView) -> TaskHandlerView {
    if !handler_answers(handler, event) {
        handler
    } else {
        match (handler, event) {
            (
                TaskHandlerView::AwaitingTunnel { tunnel, rdp_file_path },
                HandlerEventView::TunnelCreated(Err(reason)),
            ) => TaskHandlerView::Finished { outcome: Err(tunnel_lost(reason)) },
            (
                TaskHandlerView::AwaitingTunnel { tunnel, rdp_file_path },
                HandlerEventView::TunnelCreated(Ok(token)),
            ) => if token.ok {
                TaskHandlerView::SpawningClient {
                    tunnel: TunnelTaskInstance { tunnel_created_outstanding: false },
                    command: client_command(rdp_file_path),
                }
            } else {
                TaskHandlerView::Finished { outcome: Err(tunnel_not_ready()) }
            },
            (
                TaskHandlerView::SpawningClient { tunnel, command },
                HandlerEventView::ClientLaunched(launched),
            ) => match supervised(launched) {
                Ok(client) => TaskHandlerView::Supervising { tunnel, client },
                Err(e) => client_done(Err(e)),
            },
            (TaskHandlerView::Supervising { tunnel, client }, HandlerEventView::Client(reply)) => {
                match client_next(client, reply) {
                    RDPTaskInstanceView::Finished { outcome } => client_done(outcome),
                    next => TaskHandlerView::Supervising { tunnel, client: next },
                }
            },
            (
                TaskHandlerView::Stopping { handshake, client_outcome },
                HandlerEventView::Tunnel(reply),
            ) => match stop_next(handshake, reply) {
                StopHandshakeView::Stopped { outcome } => TaskHandlerView::Finished {
                    outcome: merged(outcome, client_outcome),
                },
                next => TaskHandlerView::Stopping { handshake: next, client_outcome },
            },
            _ => handler,
        }
    }
}

/// Starts the handler for the connection file at `rdp_file_path`: spawns the
/// tunnel to `target`, and gives the handler, which waits for the tunnel to
/// be ready, and the tunnel's protocol, which is to run in the background.
pub fn start(
    target: String,
    rdp_file_path: String,
    local_port_number: String,
    region: String,
) -> (started: (TaskHandler, TunnelTask))
    ensures
        started.0@ == handler_start(rdp_file_path@),
        started.1@ == tunnel_start(target@, local_port_number@, region@),
{
    let (tunnel, task) = TunnelTaskInstance::spawn(target, local_port_number, region);
    (TaskHandler::AwaitingTunnel { tunnel, rdp_file_path }, task)
}

impl TaskHandler {
    /// The action that the driver is to perform next.
    pub fn pending(&self) -> (action: HandlerAction)
        ensures
            action@ == handler_pending(self@),
    {
        match self {
            TaskHandler::AwaitingTunnel { .. } => HandlerAction::AwaitTunnelCreated,
            TaskHandler::SpawningClient { tunnel, command } => HandlerAction::SpawnClient(
                command.clone(),
            ),
            TaskHandler::Supervising { tunnel, client } => HandlerAction::Client(client.pending()),
            TaskHandler::Stopping { handshake, client_outcome } => HandlerAction::Tunnel(
                handshake.pending(),
            ),
            TaskHandler::Finished { outcome } => HandlerAction::Finish(
                match outcome {
                    Ok(()) => Ok(()),
                    Err(e) => Err(e.clone()),
                },
            ),
        }
    }

    /// Whether the protocol has ended.
    pub fn is_finished(&self) -> (finished: bool)
        ensures
            finished == (self@ is Finished),
    {
        match self {
            TaskHandler::Finished { .. } => true,
            _ => false,
        }
    }

    /// Takes the driver's reply to the pending action and moves on. A reply to
    /// anything else is ignored.
    pub fn step(self, event: HandlerEvent) -> (next: TaskHandler)
        ensures
            next@ == handler_next(self@, event@),
    {
        match (self, event) {
            (
                TaskHandler::AwaitingTunnel { tunnel, rdp_file_path },
                HandlerEvent::TunnelCreated(Err(reason)),
            ) => TaskHandler::Finished {
                outcome: Err(TaskHandlerError { kind: TaskHandlerErrorKind::SSM, msg: reason }),
            },
            (
                TaskHandler::AwaitingTunnel { tunnel, rdp_file_path },
                HandlerEvent::TunnelCreated(Ok(token)),
            ) => if token.ok {
                TaskHandler::SpawningClient {
                    tunnel: TunnelTaskInstance { tunnel_created_outstanding: false },
                    command: spawn_rdp(rdp_file_path),
                }
            } else {
                TaskHandler::Finished {
                    outcome: Err(
                        TaskHandlerError {
                            kind: TaskHandlerErrorKind::SSM,
                            msg: String::from_str(
                                "Failed to start SSM tunnel (task created msg received with ok false)",
                            ),
                        },
                    ),
                }
            },
            (
                TaskHandler::SpawningClient { tunnel, command },
                HandlerEvent::ClientLaunched(launched),
            ) => match RDPTaskInstance::spawn(launched) {
                Ok(client) => TaskHandler::Supervising { tunnel, client },
                Err(e) => TaskHandler::Stopping {
                    handshake: tunnel.stop(),
                    client_outcome: Err(e),
                },
            },
            (TaskHandler::Supervising { tunnel, client }, HandlerEvent::Client(reply)) => {
                let ended = client.is_finished();
                match client.wait_for_exit_or_task_done(reply) {
                    RDPTaskInstance::Finished { outcome } => if ended {
                        TaskHandler::Supervising {
                            tunnel,
                            client: RDPTaskInstance::Finished { outcome },
                        }
                    } else {
                        TaskHandler::Stopping { handshake: tunnel.stop(), client_outcome: outcome }
                    },
                    next => TaskHandler::Supervising { tunnel, client: next },
                }
            },
            (TaskHandler::Stopping { handshake, client_outcome }, HandlerEvent::Tunnel(reply)) => {
                let ended = handshake.is_stopped();
                match handshake.step(reply) {
                    StopHandshake::Stopped { outcome } => if ended {
                        TaskHandler::Stopping {
                            handshake: StopHandshake::Stopped { outcome },
                            client_outcome,
                        }
                    } else {
                        TaskHandler::Finished {
                            outcome: combine_ssm_rdp_results(outcome, client_outcome),
                        }
                    },
                    next => TaskHandler::Stopping { handshake: next, client_outcome },
                }
            },
            (handler, _) => handler,
        }
    }
}

} // verus!
