//! The supervisor of the local client process.

pub mod laws;
pub mod supervisor;

pub use self::supervisor::{
    spawn_rdp, ClientAction, ClientEvent, ProcessStatus, RDPError, RDPErrorKind, RDPErrorView,
    RDPTaskInstance, POLL_INTERVAL_MILLIS,
};
