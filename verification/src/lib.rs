//! Lifecycle coordination for a remote-desktop connection carried over a
//! port-forwarding session: the tunnel that owns the remote session and its
//! forwarding process, the supervisor of the local client process, and the
//! handler that sequences the two and merges their outcomes.
//!
//! Every protocol here is a state machine from state and event to next state.
//! The driver performs the pending action (a network call, a process spawn, a
//! wait on a channel) and feeds the reply back; the machines decide. What
//! holds of every run of a machine is stated and proved beside it, and what
//! holds of the handler and the tunnel together is in [`connection`].

pub mod connection;
pub mod discovery;
pub mod ledger;
pub mod messages;
pub mod process;
pub mod rdp;
pub mod ssm;
pub mod tasks_handler;
pub mod text;
