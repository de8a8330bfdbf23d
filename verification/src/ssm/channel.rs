//! Sending and receiving on the single-use notification channels.

use crate::ssm::error::{SSMError, SSMErrorKind, SSMErrorView};
use vstd::prelude::*;
use vstd::string::*;

verus! {

/// `tokio::sync::oneshot::Sender`: the sending end of a channel that is good
/// for one message. Nothing is known of what is inside.
#[verifier::external_type_specification]
#[verifier::external_body]
#[verifier::reject_recursive_types(T)]
pub struct ExOneshotSender<T>(tokio::sync::oneshot::Sender<T>);

/// The failure reported when a message finds no receiver.
pub open spec fn send_failure() -> SSMErrorView {
    SSMErrorView {
        kind: SSMErrorKind::TokioChannel,
        msg: "Unable to send message, channel down"@,
    }
}

/// The failure reported when the sender went away without a message.
pub open spec fn receive_failure() -> SSMErrorView {
    SSMErrorView {
        kind: SSMErrorKind::TokioChannel,
        msg: "Unable to receive message, channel down"@,
    }
}

/// What a send means for the tunnel, by whether the message was delivered.
pub open spec fn sent(delivered: bool) -> Result<(), SSMErrorView> {
    if delivered {
        Ok(())
    } else {
        Err(send_failure())
    }
}

/// What a receive means for the tunnel, by whether a message arrived.
pub open spec fn received(arrived: bool) -> Result<(), SSMErrorView> {
    if arrived {
        Ok(())
    } else {
        Err(receive_failure())
    }
}

/// `tokio::sync::oneshot::Sender::send`: hands `content` to the channel, and
/// hands it back where the receiver is gone. Nothing is claimed about which of
/// the two happens.
#[verifier::external_body]
fn oneshot_send<T>(tx: tokio::sync::oneshot::Sender<T>, content: T) -> (answer: Result<(), T>)
    ensures
        answer matches Err(returned) ==> returned == content,
{
    tx.send(content)
}

/// The outcome of a send whose delivery is known.
pub fn send_outcome(delivered: bool) -> (outcome: Result<(), SSMError>)
    ensures
        crate::ssm::error::outcome_view(outcome) == sent(delivered),
{
    if delivered {
        Ok(())
    } else {
        Err(
            SSMError {
                kind: SSMErrorKind::TokioChannel,
                msg: String::from_str("Unable to send message, channel down"),
            },
        )
    }
}

/// Sends `content` on `tx`. A receiver that is gone gives [`send_failure`].
pub fn send<T>(tx: tokio::sync::oneshot::Sender<T>, content: T) -> (outcome: Result<
    (),
    SSMError,
>)
    ensures
        outcome matches Err(e) ==> e@ == send_failure(),
{
    let answer = oneshot_send(tx, content);
    send_outcome(answer.is_ok())
}

/// The outcome of a receive: any message is a success, and a sender that went
/// away is [`receive_failure`].
pub fn receive<T, E>(res: Result<T, E>) -> (outcome: Result<(), SSMError>)
    ensures
        crate::ssm::error::outcome_view(outcome) == received(res is Ok),
{
    match res {
        Ok(_) => Ok(()),
        Err(_) => Err(
            SSMError {
                kind: SSMErrorKind::TokioChannel,
                msg: String::from_str("Unable to receive message, channel down"),
            },
        ),
    }
}

} // verus!
