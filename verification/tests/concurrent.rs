//! Connections with the tunnel as a task of its own on a runtime, the handler
//! beside it, and real waits on the channels and on the clock. The remote
//! service and the two processes are played by the test.

use std::sync::{Arc, Mutex};
use std::time::{Duration, Instant};
use tokio::sync::oneshot::{channel, Receiver, Sender};
use tokio::task::JoinHandle;
use vm_connect::messages::{ApplicationExitedMessage, SSMTunnelLaunchedMessage};
use vm_connect::rdp::{ClientAction, ClientEvent, ProcessStatus};
use vm_connect::ssm::{
    launch_ssm_tunnel, send, SSMError, SSMErrorKind, SessionHandle, StopAction, StopEvent,
    TunnelAction, TunnelEvent, TunnelTask,
};
use vm_connect::tasks_handler::{
    start, HandlerAction, HandlerEvent, TaskHandlerError, TaskHandlerErrorKind,
};

type Journal = Arc<Mutex<Vec<&'static str>>>;

fn note(journal: &Journal, what: &'static str) {
    journal.lock().unwrap().push(what);
}

fn count(journal: &Journal, what: &str) -> usize {
    journal.lock().unwrap().iter().filter(|line| **line == what).count()
}

fn place(journal: &Journal, what: &str) -> usize {
    journal.lock().unwrap().iter().position(|line| *line == what).unwrap()
}

async fn run_tunnel(
    mut task: TunnelTask,
    tx_tunnel_launched: Sender<SSMTunnelLaunchedMessage>,
    rx_app_exit: Receiver<ApplicationExitedMessage>,
    tx_app_exit_ack: Sender<ApplicationExitedMessage>,
    negotiation: bool,
    journal: Journal,
) -> Result<(), SSMError> {
    let mut tx_tunnel_launched = Some(tx_tunnel_launched);
    let mut rx_app_exit = Some(rx_app_exit);
    let mut tx_app_exit_ack = Some(tx_app_exit_ack);
    loop {
        let event = match task.pending() {
            TunnelAction::StartSession { .. } => {
                note(&journal, "start_session");
                TunnelEvent::SessionNegotiation(negotiation.then(|| SessionHandle {
                    session_id: "s".to_string(),
                    token_value: "t".to_string(),
                    stream_url: "u".to_string(),
                }))
            }
            TunnelAction::SpawnPlugin(_) => {
                note(&journal, "spawn_plugin");
                TunnelEvent::PluginLaunch { spawned: true }
            }
            TunnelAction::SignalReady(token) => TunnelEvent::ReadySignal {
                delivered: send(tx_tunnel_launched.take().unwrap(), token).is_ok(),
            },
            TunnelAction::AwaitStop => TunnelEvent::StopRequest {
                received: rx_app_exit.take().unwrap().await.is_ok(),
            },
            TunnelAction::Acknowledge(message) => TunnelEvent::Acknowledgement {
                delivered: send(tx_app_exit_ack.take().unwrap(), message).is_ok(),
            },
            TunnelAction::TerminateSession { .. } => {
                note(&journal, "terminate_session");
                TunnelEvent::SessionTermination { terminated: true }
            }
            TunnelAction::KillPlugin => {
                note(&journal, "kill_plugin");
                TunnelEvent::PluginKill { killed: true }
            }
            TunnelAction::Finish(outcome) => return outcome,
        };
        task = task.step(event);
    }
}

async fn run_connection(
    target: &str,
    rdp_file_path: &str,
    local_port_number: &str,
    mut rx_exit: Receiver<ApplicationExitedMessage>,
    negotiation: bool,
    client_runs_for: Option<Duration>,
    journal: Journal,
) -> Result<(), TaskHandlerError> {
    let (mut handler, task) = start(
        target.to_string(),
        rdp_file_path.to_string(),
        local_port_number.to_string(),
        "eu-west-1".to_string(),
    );
    let (tx_tunnel_launched, rx_tunnel_launched) = channel();
    let (tx_exit_ssm, rx_exit_ssm) = channel();
    let (tx_exit_ssm_ack, rx_exit_ssm_ack) = channel();
    let mut tunnel: Option<JoinHandle<Result<(), SSMError>>> = Some(tokio::spawn(run_tunnel(
        task,
        tx_tunnel_launched,
        rx_exit_ssm,
        tx_exit_ssm_ack,
        negotiation,
        journal.clone(),
    )));
    let mut rx_tunnel_launched = Some(rx_tunnel_launched);
    let mut tx_exit_ssm = Some(tx_exit_ssm);
    let mut rx_exit_ssm_ack = Some(rx_exit_ssm_ack);
    let mut client_started = Instant::now();
    loop {
        let event = match handler.pending() {
            HandlerAction::AwaitTunnelCreated => HandlerEvent::TunnelCreated(
                rx_tunnel_launched.take().unwrap().await.map_err(|e| e.to_string()),
            ),
            HandlerAction::SpawnClient(_) => {
                note(&journal, "spawn_client");
                client_started = Instant::now();
                HandlerEvent::ClientLaunched(Ok(()))
            }
            HandlerAction::Client(ClientAction::CheckShutdown) => {
                HandlerEvent::Client(ClientEvent::ShutdownChecked {
                    requested: rx_exit.try_recv().is_ok(),
                })
            }
            HandlerAction::Client(ClientAction::CheckProcess) => {
                let exited = client_runs_for.is_some_and(|d| client_started.elapsed() >= d);
                HandlerEvent::Client(ClientEvent::ProcessChecked(if exited {
                    ProcessStatus::Exited
                } else {
                    ProcessStatus::Running
                }))
            }
            HandlerAction::Client(ClientAction::Sleep { millis }) => {
                tokio::time::sleep(Duration::from_millis(millis)).await;
                HandlerEvent::Client(ClientEvent::Slept)
            }
            HandlerAction::Client(ClientAction::Kill) => {
                note(&journal, "kill_client");
                HandlerEvent::Client(ClientEvent::Killed { killed: true })
            }
            HandlerAction::Client(ClientAction::Finish(_)) => unreachable!(),
            HandlerAction::Tunnel(StopAction::SendRequest(message)) => {
                note(&journal, "send_stop");
                HandlerEvent::Tunnel(StopEvent::RequestSent {
                    delivered: send(tx_exit_ssm.take().unwrap(), message).is_ok(),
                })
            }
            HandlerAction::Tunnel(StopAction::AwaitAcknowledgement) => {
                HandlerEvent::Tunnel(StopEvent::AcknowledgementReceived {
                    arrived: rx_exit_ssm_ack.take().unwrap().await.is_ok(),
                })
            }
            HandlerAction::Tunnel(StopAction::Join) => {
                HandlerEvent::Tunnel(StopEvent::Joined(tunnel.take().unwrap().await.ok()))
            }
            HandlerAction::Tunnel(StopAction::Finish(_)) => unreachable!(),
            HandlerAction::Finish(outcome) => return outcome,
        };
        handler = handler.step(event);
    }
}

fn runtime() -> tokio::runtime::Runtime {
    tokio::runtime::Builder::new_multi_thread().enable_all().build().unwrap()
}

#[test]
fn a_wrong_target_is_a_tunnel_failure_on_a_runtime() {
    let (_tx, rx) = channel();
    let journal = Journal::default();
    let start_res = runtime().block_on(run_connection(
        "NO TARGET",
        "NO RDP FILE",
        "9090",
        rx,
        false,
        None,
        journal.clone(),
    ));
    assert!(start_res.is_err_and(|e| e.kind == TaskHandlerErrorKind::SSM));
    assert_eq!(count(&journal, "spawn_client"), 0);
    assert_eq!(count(&journal, "terminate_session"), 0);
}

#[test]
fn a_client_that_exits_after_fifty_milliseconds_ends_the_connection_well() {
    let (_tx, rx) = channel();
    let journal = Journal::default();
    let began = Instant::now();
    let outcome = runtime().block_on(run_connection(
        "i-0",
        "a.rdp",
        "9090",
        rx,
        true,
        Some(Duration::from_millis(50)),
        journal.clone(),
    ));
    assert!(outcome.is_ok());
    assert!(began.elapsed() >= Duration::from_millis(100));
    assert_eq!(count(&journal, "kill_client"), 0);
    assert_eq!(count(&journal, "send_stop"), 1);
    assert_eq!(count(&journal, "terminate_session"), 1);
    assert_eq!(count(&journal, "kill_plugin"), 1);
    assert!(place(&journal, "spawn_plugin") < place(&journal, "spawn_client"));
    assert!(place(&journal, "send_stop") < place(&journal, "terminate_session"));
}

#[test]
fn a_request_to_shut_down_from_outside_kills_the_running_client() {
    let (tx, rx) = channel();
    let journal = Journal::default();
    let rt = runtime();
    let outcome = rt.block_on(async {
        let asking = tokio::spawn(async move {
            tokio::time::sleep(Duration::from_millis(150)).await;
            tx.send(ApplicationExitedMessage).is_ok()
        });
        let outcome = run_connection("i-0", "a.rdp", "9090", rx, true, None, journal.clone()).await;
        assert!(asking.await.unwrap());
        outcome
    });
    assert!(outcome.is_ok());
    assert_eq!(count(&journal, "kill_client"), 1);
    assert_eq!(count(&journal, "terminate_session"), 1);
    assert!(place(&journal, "kill_client") < place(&journal, "send_stop"));
    assert!(place(&journal, "kill_client") < place(&journal, "terminate_session"));
}

#[test]
fn a_tunnel_left_alone_cleans_up_and_reports_the_lost_receiver() {
    let journal = Journal::default();
    let (tx_ready, rx_ready) = channel();
    let (tx_stop, rx_stop) = channel();
    let (tx_ack, rx_ack) = channel();
    drop(rx_ready);
    drop(tx_stop);
    drop(rx_ack);
    let task = launch_ssm_tunnel("i-0".to_string(), "9090".to_string(), "eu-west-1".to_string());
    let outcome =
        runtime().block_on(run_tunnel(task, tx_ready, rx_stop, tx_ack, true, journal.clone()));
    let e = outcome.unwrap_err();
    assert_eq!(e.kind, SSMErrorKind::TokioChannel);
    assert_eq!(e.msg, "Unable to send message, channel down");
    assert_eq!(count(&journal, "terminate_session"), 1);
    assert_eq!(count(&journal, "kill_plugin"), 1);
}

#[test]
fn a_tunnel_whose_handler_goes_away_after_readiness_stops_by_itself() {
    let journal = Journal::default();
    let (tx_ready, mut rx_ready) = channel();
    let (tx_stop, rx_stop) = channel::<ApplicationExitedMessage>();
    let (tx_ack, rx_ack) = channel();
    let task = launch_ssm_tunnel("i-0".to_string(), "9090".to_string(), "eu-west-1".to_string());
    let rt = runtime();
    let outcome = rt.block_on(async {
        let tunnel = tokio::spawn(run_tunnel(task, tx_ready, rx_stop, tx_ack, true, journal.clone()));
        tokio::time::sleep(Duration::from_millis(50)).await;
        assert_eq!(rx_ready.try_recv().unwrap(), SSMTunnelLaunchedMessage { ok: true });
        drop(tx_stop);
        drop(rx_ack);
        tunnel.await.unwrap()
    });
    assert!(outcome.is_ok());
    assert_eq!(count(&journal, "terminate_session"), 1);
    assert_eq!(count(&journal, "kill_plugin"), 1);
}
