//! The handshake that stops the tunnel.

use vm_connect::messages::ApplicationExitedMessage;
use vm_connect::ssm::{
    SSMError, SSMErrorKind, StopAction, StopEvent, StopHandshake, TunnelTaskInstance,
    TunnelAction,
};

fn begun() -> StopHandshake {
    let (instance, _task) = TunnelTaskInstance::spawn(
        "i-0".to_string(),
        "9090".to_string(),
        "eu-west-1".to_string(),
    );
    instance.stop()
}

fn outcome(handshake: &StopHandshake) -> Result<(), SSMError> {
    match handshake.pending() {
        StopAction::Finish(outcome) => outcome,
        other => panic!("the handshake has not ended: {:?}", other),
    }
}

#[test]
fn spawn_gives_the_handle_and_the_protocol_at_its_first_step() {
    let (instance, task) = TunnelTaskInstance::spawn(
        "i-9".to_string(),
        "7000".to_string(),
        "eu-west-3".to_string(),
    );
    assert!(instance.tunnel_created_outstanding);
    match task.pending() {
        TunnelAction::StartSession { target, local_port_number, remote_port_number } => {
            assert_eq!(target, "i-9");
            assert_eq!(local_port_number, "7000");
            assert_eq!(remote_port_number, "3389");
        }
        other => panic!("unexpected {:?}", other),
    }
}

#[test]
fn the_handshake_sends_then_waits_then_joins() {
    let handshake = begun();
    assert!(matches!(handshake.pending(), StopAction::SendRequest(ApplicationExitedMessage)));
    assert!(!handshake.is_stopped());
    let handshake = handshake.step(StopEvent::RequestSent { delivered: true });
    assert!(matches!(handshake.pending(), StopAction::AwaitAcknowledgement));
    let handshake = handshake.step(StopEvent::AcknowledgementReceived { arrived: true });
    assert!(matches!(handshake.pending(), StopAction::Join));
    let handshake = handshake.step(StopEvent::Joined(Some(Ok(()))));
    assert!(handshake.is_stopped());
    assert!(outcome(&handshake).is_ok());
}

#[test]
fn the_tunnel_s_own_failure_is_handed_on() {
    let failure = SSMError { kind: SSMErrorKind::CommandKill, msg: "still there".to_string() };
    let handshake = begun()
        .step(StopEvent::RequestSent { delivered: true })
        .step(StopEvent::AcknowledgementReceived { arrived: true })
        .step(StopEvent::Joined(Some(Err(failure))));
    let e = outcome(&handshake).unwrap_err();
    assert_eq!(e.kind, SSMErrorKind::CommandKill);
    assert_eq!(e.msg, "still there");
}

#[test]
fn an_undelivered_request_ends_the_handshake_as_a_channel_failure() {
    let handshake = begun().step(StopEvent::RequestSent { delivered: false });
    let e = outcome(&handshake).unwrap_err();
    assert_eq!(e.kind, SSMErrorKind::TokioChannel);
    assert_eq!(e.msg, "Unable to send message, channel down");
}

#[test]
fn a_missing_acknowledgement_ends_the_handshake_as_a_channel_failure() {
    let handshake = begun()
        .step(StopEvent::RequestSent { delivered: true })
        .step(StopEvent::AcknowledgementReceived { arrived: false });
    let e = outcome(&handshake).unwrap_err();
    assert_eq!(e.kind, SSMErrorKind::TokioChannel);
    assert_eq!(e.msg, "Unable to receive message, channel down");
}

#[test]
fn a_task_that_cannot_be_joined_is_a_channel_failure() {
    let handshake = begun()
        .step(StopEvent::RequestSent { delivered: true })
        .step(StopEvent::AcknowledgementReceived { arrived: true })
        .step(StopEvent::Joined(None));
    let e = outcome(&handshake).unwrap_err();
    assert_eq!(e.kind, SSMErrorKind::TokioChannel);
    assert_eq!(e.msg, "Unable to receive message, channel down");
}

#[test]
fn the_handshake_ignores_replies_out_of_turn() {
    let handshake = begun()
        .step(StopEvent::Joined(Some(Ok(()))))
        .step(StopEvent::AcknowledgementReceived { arrived: false });
    assert!(matches!(handshake.pending(), StopAction::SendRequest(_)));
    let handshake = handshake
        .step(StopEvent::RequestSent { delivered: false })
        .step(StopEvent::RequestSent { delivered: true })
        .step(StopEvent::Joined(Some(Ok(()))));
    assert!(outcome(&handshake).is_err());
}
