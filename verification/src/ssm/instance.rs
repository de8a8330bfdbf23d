//! The handler's side of the tunnel: the handle it gets when the tunnel is
//! spawned, and the handshake by which it stops the tunnel.

use crate::messages::ApplicationExitedMessage;
use crate::ssm::channel::{receive, receive_failure, send_failure, send_outcome};
use crate::ssm::error::{outcome_view, SSMError, SSMErrorView};
use crate::ssm::tunnel::{launch_ssm_tunnel, tunnel_start, TunnelTask};
use vstd::prelude::*;

verus! {

/// The handle of a spawned tunnel. It stands for the three channel ends and the
/// task handle that the handler holds; each of them is good for one use.
#[derive(Debug, PartialEq, Eq, Structural)]
pub struct TunnelTaskInstance {
    /// Whether the readiness token is still to be received.
    pub tunnel_created_outstanding: bool,
}

/// The handshake that stops a tunnel, by the step it is at.
#[derive(Debug)]
pub enum StopHandshake {
    /// The request to stop is being sent.
    SendingRequest,
    /// The request was handed over and the acknowledgement is awaited.
    AwaitingAcknowledgement,
    /// The tunnel acknowledged and its task is being joined.
    Joining,
    /// The handshake has ended.
    Stopped { outcome: Result<(), SSMError> },
}

/// A [`StopHandshake`] with its texts as sequences of characters.
#[verifier::ext_equal]
pub ghost enum StopHandshakeView {
    SendingRequest,
    AwaitingAcknowledgement,
    Joining,
    Stopped { outcome: Result<(), SSMErrorView> },
}

impl View for StopHandshake {
    type V = StopHandshakeView;

    open spec fn view(&self) -> StopHandshakeView {
        match *self {
            StopHandshake::SendingRequest => StopHandshakeView::SendingRequest,
            StopHandshake::AwaitingAcknowledgement => StopHandshakeView::AwaitingAcknowledgement,
            StopHandshake::Joining => StopHandshakeView::Joining,
            StopHandshake::Stopped { outcome } => StopHandshakeView::Stopped {
                outcome: outcome_view(outcome),
            },
        }
    }
}

/// What the driver reports back to the handshake.
#[derive(Debug)]
pub enum StopEvent {
    /// The request to stop was handed over, or its receiver was gone.
    RequestSent { delivered: bool },
    /// The acknowledgement arrived, or its sender went away without one.
    AcknowledgementReceived { arrived: bool },
    /// The tunnel's task ended with this outcome, or could not be joined
    /// (`None`).
    Joined(Option<Result<(), SSMError>>),
}

/// A [`StopEvent`] with its texts as sequences of characters.
#[verifier::ext_equal]
pub ghost enum StopEventView {
    RequestSent { delivered: bool },
    AcknowledgementReceived { arrived: bool },
    Joined(Option<Result<(), SSMErrorView>>),
}

impl View for StopEvent {
    type V = StopEventView;

    open spec fn view(&self) -> StopEventView {
        match *self {
            StopEvent::RequestSent { delivered } => StopEventView::RequestSent { delivered },
            StopEvent::AcknowledgementReceived { arrived } => {
                StopEventView::AcknowledgementReceived { arrived }
            },
            StopEvent::Joined(None) => StopEventView::Joined(None),
            StopEvent::Joined(Some(outcome)) => StopEventView::Joined(Some(outcome_view(outcome))),
        }
    }
}

/// What the handshake asks of its driver.
#[derive(Debug)]
pub enum StopAction {
    /// Send the request to stop.
    SendRequest(ApplicationExitedMessage),
    /// Wait for the acknowledgement.
    AwaitAcknowledgement,
    /// Wait for the tunnel's task to end.
    Join,
    /// Report the outcome; nothing is left to do.
    Finish(Result<(), SSMError>),
}

/// A [`StopAction`] with its texts as sequences of characters.
#[verifier::ext_equal]
pub ghost enum StopActionView {
    SendRequest(ApplicationExitedMessage),
    AwaitAcknowledgement,
    Join,
    Finish(Result<(), SSMErrorView>),
}

impl View for StopAction {
    type V = StopActionView;

    open spec fn view(&self) -> StopActionView {
        match *self {
            StopAction::SendRequest(message) => StopActionView::SendRequest(message),
            StopAction::AwaitAcknowledgement => StopActionView::AwaitAcknowledgement,
            StopAction::Join => StopActionView::Join,
            StopAction::Finish(outcome) => StopActionView::Finish(outcome_view(outcome)),
        }
    }
}

/// The action that the handshake waits for in state `handshake`.
pub open spec fn stop_pending(handshake: StopHandshakeView) -> StopActionView {
    match handshake {
        StopHandshakeView::SendingRequest => StopActionView::SendRequest(ApplicationExitedMessage),
        StopHandshakeView::AwaitingAcknowledgement => StopActionView::AwaitAcknowledgement,
        StopHandshakeView::Joining => StopActionView::Join,
        StopHandshakeView::Stopped { outcome } => StopActionView::Finish(outcome),
    }
}

/// Whether `event` is a reply to the action pending in `handshake`.
pub open spec fn stop_answers(handshake: StopHandshakeView, event: StopEventView) -> bool {
    match handshake {
        StopHandshakeView::SendingRequest => event is RequestSent,
        StopHandshakeView::AwaitingAcknowledgement => event is AcknowledgementReceived,
        StopHandshakeView::Joining => event is Joined,
        StopHandshakeView::Stopped { .. } => false,
    }
}

/// The state after `event` in state `handshake`. A channel whose other end is
/// gone ends the handshake at once with the channel's failure; a task that
/// cannot be joined counts as a sender that went away; a task that ended hands
/// on its own outcome. An event that is no reply to the pending action changes
/// nothing.
pub open spec fn stop_next(handshake: StopHandshakeView, event: StopEventView) -> StopHandshakeView {
    match (handshake, event) {
        (StopHandshakeView::SendingRequest, StopEventView::RequestSent { delivered }) => {
            if delivered {
                StopHandshakeView::AwaitingAcknowledgement
            } else {
                StopHandshakeView::Stopped { outcome: Err(send_failure()) }
            }
        },
        (
            StopHandshakeView::AwaitingAcknowledgement,
            StopEventView::AcknowledgementReceived { arrived },
        ) => {
            if arrived {
                StopHandshakeView::Joining
            } else {
                StopHandshakeView::Stopped { outcome: Err(receive_failure()) }
            }
        },
        (StopHandshakeView::Joining, StopEventView::Joined(None)) => {
            StopHandshakeView::Stopped { outcome: Err(receive_failure()) }
        },
        (StopHandshakeView::Joining, StopEventView::Joined(Some(outcome))) => {
            StopHandshakeView::Stopped { outcome }
        },
        _ => handshake,
    }
}

impl TunnelTaskInstance {
    /// Spawns a tunnel for `target`: gives the handle that the handler keeps
    /// and the protocol that is to run in the background, at its first step.
    pub fn spawn(target: String, local_port_number: String, region: String) -> (spawned: (
        TunnelTaskInstance,
        TunnelTask,
    ))
        ensures
            spawned.0.tunnel_created_outstanding,
            spawned.1@ == tunnel_start(target@, local_port_number@, region@),
    {
        (
            TunnelTaskInstance { tunnel_created_outstanding: true },
            launch_ssm_tunnel(target, local_port_number, region),
        )
    }

    /// Gives the handle up for the handshake that stops the tunnel: the request
    /// to stop is the first thing to send.
    pub fn stop(self) -> (handshake: StopHandshake)
        ensures
            handshake@ == StopHandshakeView::SendingRequest,
    {
        StopHandshake::SendingRequest
    }
}

impl StopHandshake {
    /// The action that the driver is to perform next.
    pub fn pending(&self) -> (action: StopAction)
        ensures
            action@ == stop_pending(self@),
    {
        match self {
            StopHandshake::SendingRequest => StopAction::SendRequest(ApplicationExitedMessage),
            StopHandshake::AwaitingAcknowledgement => StopAction::AwaitAcknowledgement,
            StopHandshake::Joining => StopAction::Join,
            StopHandshake::Stopped { outcome } => StopAction::Finish(
                match outcome {
                    Ok(()) => Ok(()),
                    Err(e) => Err(e.clone()),
                },
            ),
        }
    }

    /// Whether the handshake has ended.
    pub fn is_stopped(&self) -> (stopped: bool)
        ensures
            stopped == (self@ is Stopped),
    {
        match self {
            StopHandshake::Stopped { .. } => true,
            _ => false,
        }
    }

    /// Takes the driver's reply to the pending action and moves on. A reply to
    /// anything else is ignored.
    pub fn step(self, event: StopEvent) -> (next: StopHandshake)
        ensures
            next@ == stop_next(self@, event@),
    {
        match (self, event) {
            (StopHandshake::SendingRequest, StopEvent::RequestSent { delivered }) => {
                if delivered {
                    StopHandshake::AwaitingAcknowledgement
                } else {
                    StopHandshake::Stopped { outcome: send_outcome(false) }
                }
            },
            (
                StopHandshake::AwaitingAcknowledgement,
                StopEvent::AcknowledgementReceived { arrived },
            ) => {
                if arrived {
                    StopHandshake::Joining
                } else {
                    StopHandshake::Stopped { outcome: receive::<(), ()>(Err(())) }
                }
            },
            (StopHandshake::Joining, StopEvent::Joined(None)) => {
                StopHandshake::Stopped { outcome: receive::<(), ()>(Err(())) }
            },
            (StopHandshake::Joining, StopEvent::Joined(Some(outcome))) => {
                StopHandshake::Stopped { outcome }
            },
            (handshake, _) => handshake,
        }
    }
}

} // verus!
