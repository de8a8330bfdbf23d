//! Failures of the tunnel, each tagged with the step it came from.

use vstd::prelude::*;

verus! {

/// The step of the tunnel's protocol in which a failure arose.
#[derive(Clone, Copy, Debug, PartialEq, Eq, Structural)]
pub enum SSMErrorKind {
    /// The remote session could not be negotiated.
    StartSession,
    /// The forwarding process could not be launched.
    CommandSpawn,
    /// The session document for the forwarding process could not be written.
    Serde,
    /// The forwarding process could not be read from.
    IO,
    /// The remote session could not be terminated.
    TerminateSession,
    /// The other end of a notification channel is gone.
    TokioChannel,
    /// The forwarding process could not be killed.
    CommandKill,
}

/// A failure of the tunnel.
#[derive(Debug)]
pub struct SSMError {
    pub kind: SSMErrorKind,
    pub msg: String,
}

/// An [`SSMError`] with its message as a sequence of characters.
#[verifier::ext_equal]
pub ghost struct SSMErrorView {
    pub kind: SSMErrorKind,
    pub msg: Seq<char>,
}

impl View for SSMError {
    type V = SSMErrorView;

    open spec fn view(&self) -> SSMErrorView {
        SSMErrorView { kind: self.kind, msg: self.msg@ }
    }
}

impl Clone for SSMError {
    fn clone(&self) -> (copy: Self)
        ensures
            copy@ == self@,
    {
        SSMError { kind: self.kind, msg: self.msg.clone() }
    }
}

/// An outcome of the tunnel with its failure, if any, by its view.
pub open spec fn outcome_view(outcome: Result<(), SSMError>) -> Result<(), SSMErrorView> {
    match outcome {
        Ok(()) => Ok(()),
        Err(e) => Err(e@),
    }
}

} // verus!
