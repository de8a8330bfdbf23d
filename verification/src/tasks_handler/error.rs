//! The handler's failures, and the merge of the outcomes of its two sides.

use crate::rdp::supervisor::{RDPError, RDPErrorView};
use crate::ssm::error::{SSMError, SSMErrorView};
use vstd::prelude::*;
use vstd::string::*;

verus! {

/// The side, or sides, that a failure of the handler came from.
#[derive(Clone, Copy, Debug, PartialEq, Eq, Structural)]
pub enum TaskHandlerErrorKind {
    /// The tunnel failed.
    SSM,
    /// The client failed.
    RDP,
    /// Both failed.
    RDPAndSSM,
}

/// A failure of the handler.
#[derive(Debug)]
pub struct TaskHandlerError {
    pub kind: TaskHandlerErrorKind,
    pub msg: String,
}

/// A [`TaskHandlerError`] with its message as a sequence of characters.
#[verifier::ext_equal]
pub ghost struct TaskHandlerErrorView {
    pub kind: TaskHandlerErrorKind,
    pub msg: Seq<char>,
}

impl View for TaskHandlerError {
    type V = TaskHandlerErrorView;

    open spec fn view(&self) -> TaskHandlerErrorView {
        TaskHandlerErrorView { kind: self.kind, msg: self.msg@ }
    }
}

impl Clone for TaskHandlerError {
    fn clone(&self) -> (copy: Self)
        ensures
            copy@ == self@,
    {
        TaskHandlerError { kind: self.kind, msg: self.msg.clone() }
    }
}

/// An outcome of the handler with its failure, if any, by its view.
pub open spec fn handler_outcome_view(outcome: Result<(), TaskHandlerError>) -> Result<
    (),
    TaskHandlerErrorView,
> {
    match outcome {
        Ok(()) => Ok(()),
        Err(e) => Err(e@),
    }
}

/// The name of a kind, as it is shown.
pub open spec fn kind_name(kind: TaskHandlerErrorKind) -> Seq<char> {
    match kind {
        TaskHandlerErrorKind::SSM => "SSM Error"@,
        TaskHandlerErrorKind::RDP => "RDP Error"@,
        TaskHandlerErrorKind::RDPAndSSM => "SSM and RDP Error"@,
    }
}

/// The message of a failure of both sides: both messages, each under the name
/// of its side.
pub open spec fn both_messages(ssm_msg: Seq<char>, rdp_msg: Seq<char>) -> Seq<char> {
    "SSM Error : "@ + ssm_msg + "\nRDP Error : "@ + rdp_msg
}

/// The handler's failure for a failure of the tunnel alone.
pub open spec fn tunnel_failed(ssm_err: SSMErrorView) -> TaskHandlerErrorView {
    TaskHandlerErrorView { kind: TaskHandlerErrorKind::SSM, msg: ssm_err.msg }
}

/// The handler's failure for a failure of the client alone.
pub open spec fn client_failed(rdp_err: RDPErrorView) -> TaskHandlerErrorView {
    TaskHandlerErrorView { kind: TaskHandlerErrorKind::RDP, msg: rdp_err.msg }
}

/// The handler's failure for a failure of both.
pub open spec fn both_failed(ssm_err: SSMErrorView, rdp_err: RDPErrorView) -> TaskHandlerErrorView {
    TaskHandlerErrorView {
        kind: TaskHandlerErrorKind::RDPAndSSM,
        msg: both_messages(ssm_err.msg, rdp_err.msg),
    }
}

/// The merge of the tunnel's outcome and the client's.
pub open spec fn merged(ssm_res: Result<(), SSMErrorView>, rdp_res: Result<(), RDPErrorView>) -> Result<
    (),
    TaskHandlerErrorView,
> {
    match (ssm_res, rdp_res) {
        (Ok(()), Ok(())) => Ok(()),
        (Ok(()), Err(rdp_err)) => Err(client_failed(rdp_err)),
        (Err(ssm_err), Ok(())) => Err(tunnel_failed(ssm_err)),
        (Err(ssm_err), Err(rdp_err)) => Err(both_failed(ssm_err, rdp_err)),
    }
}

impl TaskHandlerErrorKind {
    /// The name of the kind, as it is shown.
    pub fn to_string(&self) -> (name: String)
        ensures
            name@ == kind_name(*self),
    {
        match self {
            TaskHandlerErrorKind::SSM => String::from_str("SSM Error"),
            TaskHandlerErrorKind::RDP => String::from_str("RDP Error"),
            TaskHandlerErrorKind::RDPAndSSM => String::from_str("SSM and RDP Error"),
        }
    }
}

/// Merges a failure of the tunnel and a failure of the client into one that
/// keeps both messages.
pub fn combine_ssm_rdp_errors(ssm_err: SSMError, rdp_err: RDPError) -> (combined: TaskHandlerError)
    ensures
        combined@ == both_failed(ssm_err@, rdp_err@),
{
    let mut msg = String::from_str("SSM Error : ");
    msg.append(ssm_err.msg.as_str());
    msg.append("\nRDP Error : ");
    msg.append(rdp_err.msg.as_str());
    TaskHandlerError { kind: TaskHandlerErrorKind::RDPAndSSM, msg }
}

/// Merges the tunnel's outcome and the client's: success where both
/// succeeded, the failure of the one that failed, or both failures in one.
pub fn combine_ssm_rdp_results(
    ssm_res: Result<(), SSMError>,
    rdp_res: Result<(), RDPError>,
) -> (combined: Result<(), TaskHandlerError>)
    ensures
        handler_outcome_view(combined) == merged(
            crate::ssm::error::outcome_view(ssm_res),
            crate::rdp::supervisor::client_outcome_view(rdp_res),
        ),
{
    match (ssm_res, rdp_res) {
        (Ok(_), Ok(_)) => Ok(()),
        (Ok(_), Err(e)) => Err(transform_rdp_error(e)),
        (Err(e), Ok(_)) => Err(transform_ssm_error(e)),
        (Err(e_ssm), Err(e_rdp)) => Err(combine_ssm_rdp_errors(e_ssm, e_rdp)),
    }
}

/// The handler's failure for a failure of the tunnel alone: the same message.
pub fn transform_ssm_error(ssm_err: SSMError) -> (transformed: TaskHandlerError)
    ensures
        transformed@ == tunnel_failed(ssm_err@),
{
    TaskHandlerError { kind: TaskHandlerErrorKind::SSM, msg: ssm_err.msg }
}

/// The handler's failure for a failure of the client alone: the same message.
pub fn transform_rdp_error(rdp_err: RDPError) -> (transformed: TaskHandlerError)
    ensures
        transformed@ == client_failed(rdp_err@),
{
    TaskHandlerError { kind: TaskHandlerErrorKind::RDP, msg: rdp_err.msg }
}

} // verus!
