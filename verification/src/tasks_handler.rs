//! The handler: starts the tunnel, waits until it is ready, runs the client
//! under its supervisor, stops the tunnel whatever the client did, and merges
//! the two outcomes.

pub mod error;
pub mod handler;
pub mod laws;

pub use self::error::{
    combine_ssm_rdp_errors, combine_ssm_rdp_results, transform_rdp_error, transform_ssm_error,
    TaskHandlerError, TaskHandlerErrorKind, TaskHandlerErrorView,
};
pub use self::handler::{start, HandlerAction, HandlerEvent, TaskHandler};
