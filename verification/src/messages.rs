//! Payloads of the single-use notification channels.

use vstd::prelude::*;

verus! {

/// The request to shut down, and its acknowledgement: a signal without content.
#[derive(Clone, Copy, Debug, PartialEq, Eq, Structural)]
pub struct ApplicationExitedMessage;

/// The readiness token: `ok` says whether the forwarding process is listening.
#[derive(Clone, Copy, Debug, PartialEq, Eq, Structural)]
pub struct SSMTunnelLaunchedMessage {
    pub ok: bool,
}

} // verus!
