//! The tunnel: the remote session, its forwarding process and the shutdown
//! handshake.

pub mod channel;
pub mod error;
pub mod instance;
pub mod laws;
pub mod output;
pub mod plugin;
pub mod tunnel;

pub use self::channel::{receive, send};
pub use self::error::{SSMError, SSMErrorKind, SSMErrorView};
pub use self::instance::{StopAction, StopEvent, StopHandshake, TunnelTaskInstance};
pub use self::output::{output_tunnel, OutputAction, TunnelOutput};
pub use self::plugin::{initiate_ssm_port_forwarding, SessionHandle, SessionHandleView};
pub use self::tunnel::{
    launch_ssm_tunnel, terminate_session_with_error, TunnelAction, TunnelEvent, TunnelTask,
};
