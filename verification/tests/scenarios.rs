//! Whole connections, from the spawn of the tunnel to the merged outcome. The
//! handler and the tunnel run side by side over real one-shot channels; the
//! remote service, the two processes and the clock are scripted.

use tokio::sync::oneshot::error::TryRecvError;
use tokio::sync::oneshot::{channel, Receiver, Sender};
use vm_connect::messages::{ApplicationExitedMessage, SSMTunnelLaunchedMessage};
use vm_connect::rdp::{ClientAction, ClientEvent, ProcessStatus};
use vm_connect::ssm::{
    send, SSMError, SSMErrorKind, SessionHandle, StopAction, StopEvent, TunnelAction, TunnelEvent,
    TunnelTask,
};
use vm_connect::tasks_handler::{
    start, HandlerAction, HandlerEvent, TaskHandler, TaskHandlerError, TaskHandlerErrorKind,
};

/// What the outside does when asked.
struct Script {
    negotiation: bool,
    plugin_launch: bool,
    termination: bool,
    plugin_kill: bool,
    client_launch: Result<(), String>,
    client_kill: bool,
    client_query: bool,
    client_exits_at: Option<u64>,
    shutdown_at: Option<u64>,
}

fn all_well() -> Script {
    Script {
        negotiation: true,
        plugin_launch: true,
        termination: true,
        plugin_kill: true,
        client_launch: Ok(()),
        client_kill: true,
        client_query: true,
        client_exits_at: None,
        shutdown_at: None,
    }
}

struct World {
    script: Script,
    clock: u64,
    journal: Vec<String>,
    tx_ready: Option<Sender<SSMTunnelLaunchedMessage>>,
    rx_stop: Option<Receiver<ApplicationExitedMessage>>,
    tx_ack: Option<Sender<ApplicationExitedMessage>>,
    rx_ready: Option<Receiver<SSMTunnelLaunchedMessage>>,
    tx_stop: Option<Sender<ApplicationExitedMessage>>,
    rx_ack: Option<Receiver<ApplicationExitedMessage>>,
    tx_app_exit: Option<Sender<ApplicationExitedMessage>>,
    rx_app_exit: Receiver<ApplicationExitedMessage>,
    tunnel_outcome: Option<Result<(), SSMError>>,
    handler_outcome: Option<Result<(), TaskHandlerError>>,
}

/// A receive that does not wait: the message, `Err` for a sender that is gone,
/// `None` where there is nothing yet.
fn poll<T>(rx: &mut Option<Receiver<T>>) -> Option<Result<T, String>> {
    match rx.as_mut().expect("the receiver was used before").try_recv() {
        Ok(message) => Some(Ok(message)),
        Err(TryRecvError::Closed) => Some(Err(TryRecvError::Closed.to_string())),
        Err(TryRecvError::Empty) => None,
    }
}

impl World {
    fn new(script: Script) -> World {
        let (tx_ready, rx_ready) = channel();
        let (tx_stop, rx_stop) = channel();
        let (tx_ack, rx_ack) = channel();
        let (tx_app_exit, rx_app_exit) = channel();
        World {
            script,
            clock: 0,
            journal: Vec::new(),
            tx_ready: Some(tx_ready),
            rx_stop: Some(rx_stop),
            tx_ack: Some(tx_ack),
            rx_ready: Some(rx_ready),
            tx_stop: Some(tx_stop),
            rx_ack: Some(rx_ack),
            tx_app_exit: Some(tx_app_exit),
            rx_app_exit,
            tunnel_outcome: None,
            handler_outcome: None,
        }
    }

    fn note(&mut self, what: &str) {
        self.journal.push(what.to_string());
    }

    /// Performs the tunnel's action; `None` where it has to wait.
    fn for_tunnel(&mut self, action: TunnelAction) -> Option<TunnelEvent> {
        match action {
            TunnelAction::StartSession { target, local_port_number, remote_port_number } => {
                self.note(&format!(
                    "start_session {} {} {}",
                    target, local_port_number, remote_port_number
                ));
                let session = SessionHandle {
                    session_id: "session-1".to_string(),
                    token_value: "token".to_string(),
                    stream_url: "wss://stream".to_string(),
                };
                Some(TunnelEvent::SessionNegotiation(
                    if self.script.negotiation { Some(session) } else { None },
                ))
            }
            TunnelAction::SpawnPlugin(command) => {
                self.note(&format!("spawn_plugin {}", command.program));
                Some(TunnelEvent::PluginLaunch { spawned: self.script.plugin_launch })
            }
            TunnelAction::SignalReady(token) => {
                self.note("signal_ready");
                let tx = self.tx_ready.take().expect("the readiness token was sent before");
                Some(TunnelEvent::ReadySignal { delivered: send(tx, token).is_ok() })
            }
            TunnelAction::AwaitStop => {
                let received = poll(&mut self.rx_stop)?.is_ok();
                self.note("stop_observed");
                Some(TunnelEvent::StopRequest { received })
            }
            TunnelAction::Acknowledge(message) => {
                self.note("acknowledge");
                let tx = self.tx_ack.take().expect("the acknowledgement was sent before");
                Some(TunnelEvent::Acknowledgement { delivered: send(tx, message).is_ok() })
            }
            TunnelAction::TerminateSession { session_id } => {
                self.note(&format!("terminate_session {}", session_id));
                Some(TunnelEvent::SessionTermination { terminated: self.script.termination })
            }
            TunnelAction::KillPlugin => {
                self.note("kill_plugin");
                Some(TunnelEvent::PluginKill { killed: self.script.plugin_kill })
            }
            TunnelAction::Finish(outcome) => {
                if self.tunnel_outcome.is_none() {
                    self.note("tunnel_finished");
                    self.tunnel_outcome = Some(outcome);
                    self.tx_ready = None;
                    self.rx_stop = None;
                    self.tx_ack = None;
                }
                None
            }
        }
    }

    /// Performs the handler's action; `None` where it has to wait.
    fn for_handler(&mut self, action: HandlerAction) -> Option<HandlerEvent> {
        match action {
            HandlerAction::AwaitTunnelCreated => {
                let token = poll(&mut self.rx_ready)?;
                self.note("ready_observed");
                Some(HandlerEvent::TunnelCreated(token))
            }
            HandlerAction::SpawnClient(command) => {
                self.note(&format!("spawn_client {}", command.arguments.join(" ")));
                Some(HandlerEvent::ClientLaunched(self.script.client_launch.clone()))
            }
            HandlerAction::Client(ClientAction::CheckShutdown) => {
                if self.script.shutdown_at.is_some_and(|at| self.clock >= at) {
                    if let Some(tx) = self.tx_app_exit.take() {
                        tx.send(ApplicationExitedMessage).expect("the supervisor is gone");
                    }
                }
                let requested = self.rx_app_exit.try_recv().is_ok();
                Some(HandlerEvent::Client(ClientEvent::ShutdownChecked { requested }))
            }
            HandlerAction::Client(ClientAction::CheckProcess) => {
                let status = if !self.script.client_query {
                    ProcessStatus::Unknown
                } else if self.script.client_exits_at.is_some_and(|at| self.clock >= at) {
                    self.note("client_exit_observed");
                    ProcessStatus::Exited
                } else {
                    ProcessStatus::Running
                };
                Some(HandlerEvent::Client(ClientEvent::ProcessChecked(status)))
            }
            HandlerAction::Client(ClientAction::Sleep { millis }) => {
                self.clock += millis;
                Some(HandlerEvent::Client(ClientEvent::Slept))
            }
            HandlerAction::Client(ClientAction::Kill) => {
                self.note("kill_client");
                Some(HandlerEvent::Client(ClientEvent::Killed { killed: self.script.client_kill }))
            }
            HandlerAction::Client(ClientAction::Finish(_)) => {
                panic!("the handler moves on when the supervisor ends")
            }
            HandlerAction::Tunnel(StopAction::SendRequest(message)) => {
                self.note("send_stop");
                let tx = self.tx_stop.take().expect("the request to stop was sent before");
                let delivered = send(tx, message).is_ok();
                Some(HandlerEvent::Tunnel(StopEvent::RequestSent { delivered }))
            }
            HandlerAction::Tunnel(StopAction::AwaitAcknowledgement) => {
                let arrived = poll(&mut self.rx_ack)?.is_ok();
                self.note("ack_observed");
                Some(HandlerEvent::Tunnel(StopEvent::AcknowledgementReceived { arrived }))
            }
            HandlerAction::Tunnel(StopAction::Join) => {
                let outcome = self.tunnel_outcome.clone()?;
                self.note("joined");
                Some(HandlerEvent::Tunnel(StopEvent::Joined(Some(outcome))))
            }
            HandlerAction::Tunnel(StopAction::Finish(_)) => {
                panic!("the handler ends when the handshake ends")
            }
            HandlerAction::Finish(outcome) => {
                if self.handler_outcome.is_none() {
                    self.note("handler_finished");
                    self.handler_outcome = Some(outcome);
                    self.rx_ready = None;
                    self.tx_stop = None;
                    self.rx_ack = None;
                }
                None
            }
        }
    }

    fn count(&self, what: &str) -> usize {
        self.journal.iter().filter(|line| line.starts_with(what)).count()
    }

    fn position(&self, what: &str) -> usize {
        self.journal
            .iter()
            .position(|line| line.starts_with(what))
            .unwrap_or_else(|| panic!("{} is not in the journal {:?}", what, self.journal))
    }
}

/// Runs a connection to its end and gives the world as it was left.
fn connect(target: &str, rdp_file_path: &str, local_port_number: &str, script: Script) -> World {
    let mut world = World::new(script);
    let (mut handler, mut tunnel): (TaskHandler, TunnelTask) = start(
        target.to_string(),
        rdp_file_path.to_string(),
        local_port_number.to_string(),
        "eu-west-1".to_string(),
    );
    let mut rounds = 0;
    while world.handler_outcome.is_none() || world.tunnel_outcome.is_none() {
        rounds += 1;
        assert!(rounds < 10_000, "the connection does not end: {:?}", world.journal);
        if let Some(event) = world.for_tunnel(tunnel.pending()) {
            tunnel = tunnel.step(event);
        }
        if let Some(event) = world.for_handler(handler.pending()) {
            handler = handler.step(event);
        }
    }
    assert!(handler.is_finished());
    assert!(tunnel.is_finished());
    world
}

#[test]
fn test_task_handler_start_with_wrong_target() {
    let script = Script { negotiation: false, ..all_well() };
    let world = connect("NO TARGET", "NO RDP FILE", "9090", script);
    let start_res = world.handler_outcome.unwrap();
    assert!(
        start_res.is_err_and(|e| e.kind == TaskHandlerErrorKind::SSM),
        "Calling task_handler::start with incorrect target did not return SSM error"
    );
}

#[test]
fn negotiation_failure_is_a_tunnel_failure_without_client() {
    let world = connect("i-0", "a.rdp", "9090", Script { negotiation: false, ..all_well() });
    let tunnel = world.tunnel_outcome.clone().unwrap().unwrap_err();
    assert_eq!(tunnel.kind, SSMErrorKind::StartSession);
    assert_eq!(tunnel.msg, "launch_ssm_tunnel : Error when starting session");
    let outcome = world.handler_outcome.clone().unwrap().unwrap_err();
    assert_eq!(outcome.kind, TaskHandlerErrorKind::SSM);
    assert_eq!(outcome.msg, "channel closed");
    assert_eq!(world.count("spawn_client"), 0);
    assert_eq!(world.count("terminate_session"), 0);
    assert_eq!(world.count("spawn_plugin"), 0);
    assert_eq!(world.count("send_stop"), 0);
}

#[test]
fn launch_failure_terminates_the_session_once() {
    let world = connect("i-0", "a.rdp", "9090", Script { plugin_launch: false, ..all_well() });
    let tunnel = world.tunnel_outcome.clone().unwrap().unwrap_err();
    assert_eq!(tunnel.kind, SSMErrorKind::CommandSpawn);
    assert_eq!(
        tunnel.msg,
        "initiate_ssm_port_forwarding : Error when attempting to spawn session manager plugin command thread"
    );
    assert_eq!(world.count("terminate_session"), 1);
    assert_eq!(world.count("terminate_session session-1"), 1);
    assert_eq!(world.count("kill_plugin"), 0);
    assert_eq!(world.count("signal_ready"), 0);
    assert!(world.position("terminate_session") < world.position("tunnel_finished"));
    let outcome = world.handler_outcome.clone().unwrap().unwrap_err();
    assert_eq!(outcome.kind, TaskHandlerErrorKind::SSM);
    assert_eq!(world.count("spawn_client"), 0);
}

#[test]
fn launch_failure_with_failed_cleanup_is_told_apart() {
    let script = Script { plugin_launch: false, termination: false, ..all_well() };
    let world = connect("i-0", "a.rdp", "9090", script);
    let tunnel = world.tunnel_outcome.clone().unwrap().unwrap_err();
    assert_eq!(tunnel.kind, SSMErrorKind::TerminateSession);
    assert_eq!(
        tunnel.msg,
        "terminate_session_with_error : Error while trying to terminate SSM session AND \
         initiate_ssm_port_forwarding : Error when attempting to spawn session manager plugin \
         command thread"
    );
    assert_eq!(world.count("terminate_session"), 1);
}

#[test]
fn natural_exit_succeeds_and_still_stops_the_tunnel() {
    let world = connect("i-0", "a.rdp", "9090", Script { client_exits_at: Some(50), ..all_well() });
    assert!(world.handler_outcome.clone().unwrap().is_ok());
    assert!(world.tunnel_outcome.clone().unwrap().is_ok());
    assert_eq!(world.clock, 100);
    assert_eq!(world.count("kill_client"), 0);
    assert_eq!(world.count("client_exit_observed"), 1);
    assert_eq!(world.count("send_stop"), 1);
    assert_eq!(world.count("terminate_session"), 1);
    assert_eq!(world.count("kill_plugin"), 1);
    assert!(world.position("client_exit_observed") < world.position("send_stop"));
    assert!(world.position("send_stop") < world.position("terminate_session"));
}

#[test]
fn shutdown_request_kills_the_client_then_stops_the_tunnel() {
    let world = connect("i-0", "a.rdp", "9090", Script { shutdown_at: Some(200), ..all_well() });
    assert!(world.handler_outcome.clone().unwrap().is_ok());
    assert!(world.tunnel_outcome.clone().unwrap().is_ok());
    assert_eq!(world.clock, 200);
    assert_eq!(world.count("kill_client"), 1);
    assert_eq!(world.count("terminate_session"), 1);
    assert!(world.position("kill_client") < world.position("send_stop"));
    assert!(world.position("kill_client") < world.position("terminate_session"));
}

#[test]
fn shutdown_request_wins_over_an_exit_seen_in_the_same_round() {
    let script = Script { shutdown_at: Some(100), client_exits_at: Some(100), ..all_well() };
    let world = connect("i-0", "a.rdp", "9090", script);
    assert!(world.handler_outcome.clone().unwrap().is_ok());
    assert_eq!(world.count("kill_client"), 1);
    assert_eq!(world.count("client_exit_observed"), 0);
}

#[test]
fn failed_client_kill_is_a_client_failure_and_the_tunnel_stops_well() {
    let script = Script { shutdown_at: Some(0), client_kill: false, ..all_well() };
    let world = connect("i-0", "a.rdp", "9090", script);
    let outcome = world.handler_outcome.clone().unwrap().unwrap_err();
    assert_eq!(outcome.kind, TaskHandlerErrorKind::RDP);
    assert_eq!(outcome.msg, "Error while trying to kill RDP task");
    assert!(world.tunnel_outcome.clone().unwrap().is_ok());
    assert_eq!(world.count("terminate_session"), 1);
    assert_eq!(world.count("kill_plugin"), 1);
    assert_eq!(world.count("send_stop"), 1);
}

#[test]
fn client_that_does_not_start_still_stops_the_tunnel() {
    let script = Script { client_launch: Err("no such file".to_string()), ..all_well() };
    let world = connect("i-0", "a.rdp", "9090", script);
    let outcome = world.handler_outcome.clone().unwrap().unwrap_err();
    assert_eq!(outcome.kind, TaskHandlerErrorKind::RDP);
    assert_eq!(outcome.msg, "Failed to start RDP task, no such file");
    assert!(world.tunnel_outcome.clone().unwrap().is_ok());
    assert_eq!(world.count("send_stop"), 1);
    assert_eq!(world.count("terminate_session"), 1);
    assert_eq!(world.count("kill_client"), 0);
}

#[test]
fn both_sides_failing_keeps_both_messages() {
    let script = Script {
        shutdown_at: Some(0),
        client_kill: false,
        plugin_kill: false,
        ..all_well()
    };
    let world = connect("i-0", "a.rdp", "9090", script);
    let outcome = world.handler_outcome.clone().unwrap().unwrap_err();
    assert_eq!(outcome.kind, TaskHandlerErrorKind::RDPAndSSM);
    assert_eq!(
        outcome.msg,
        "SSM Error : Unable to kill tunnel command task\nRDP Error : Error while trying to kill RDP task"
    );
    assert!(outcome.msg.contains("Unable to kill tunnel command task"));
    assert!(outcome.msg.contains("Error while trying to kill RDP task"));
}

#[test]
fn failed_termination_is_reported_and_the_plugin_is_still_killed() {
    let script = Script { client_exits_at: Some(0), termination: false, ..all_well() };
    let world = connect("i-0", "a.rdp", "9090", script);
    let tunnel = world.tunnel_outcome.clone().unwrap().unwrap_err();
    assert_eq!(tunnel.kind, SSMErrorKind::TerminateSession);
    assert_eq!(tunnel.msg, "SSM Tunnel : Error while trying to terminate session");
    assert_eq!(world.count("kill_plugin"), 1);
    assert!(world.position("terminate_session") < world.position("kill_plugin"));
    let outcome = world.handler_outcome.clone().unwrap().unwrap_err();
    assert_eq!(outcome.kind, TaskHandlerErrorKind::SSM);
    assert_eq!(outcome.msg, "SSM Tunnel : Error while trying to terminate session");
}

#[test]
fn first_failure_of_the_teardown_is_the_one_reported() {
    let script = Script {
        client_exits_at: Some(0),
        termination: false,
        plugin_kill: false,
        ..all_well()
    };
    let world = connect("i-0", "a.rdp", "9090", script);
    let tunnel = world.tunnel_outcome.clone().unwrap().unwrap_err();
    assert_eq!(tunnel.kind, SSMErrorKind::TerminateSession);
    assert_eq!(world.count("kill_plugin"), 1);
}

#[test]
fn unanswered_query_counts_as_a_finished_client() {
    let world = connect("i-0", "a.rdp", "9090", Script { client_query: false, ..all_well() });
    assert!(world.handler_outcome.clone().unwrap().is_ok());
    assert_eq!(world.clock, 0);
    assert_eq!(world.count("kill_client"), 0);
    assert_eq!(world.count("terminate_session"), 1);
}

#[test]
fn readiness_is_signalled_after_the_launch_and_before_the_client() {
    let world = connect("i-0", "a.rdp", "9090", Script { client_exits_at: Some(0), ..all_well() });
    assert!(world.position("spawn_plugin") < world.position("signal_ready"));
    assert!(world.position("signal_ready") < world.position("ready_observed"));
    assert!(world.position("ready_observed") < world.position("spawn_client"));
    assert!(world.position("stop_observed") < world.position("acknowledge"));
    assert!(world.position("acknowledge") < world.position("terminate_session"));
    assert!(world.position("terminate_session") < world.position("kill_plugin"));
    assert!(world.position("ack_observed") < world.position("joined"));
    assert_eq!(world.count("start_session i-0 9090 3389"), 1);
    assert_eq!(world.count("spawn_plugin session-manager-plugin"), 1);
    assert_eq!(world.count("spawn_client /c start /wait mstsc a.rdp"), 1);
}
