//! Core of a connection-multiplexing command server and of the client that
//! discovers it: message types, the binary wire protocol in its blocking and
//! stream forms, the connection registry, and the decisions taken by the
//! per-connection pumps, the router and the lifecycle manager.
//!
//! Nothing here opens a socket, starts a task or looks at the network. The
//! embedding program does that: it reports what happened as plain values and
//! carries out the actions that come back.
//!
//! - `message`, `payload`, `wire`, `frame`, `codec`: what goes over the wire.
//! - `connection`, `registry`, `pump`, `router`: who is connected, and what
//!   goes to whom.
//! - `lifecycle`: the one running server instance and its adapter.
//! - `discovery`, `cli_args`: how a client finds its server.

pub mod cli_args;
pub mod codec;
pub mod connection;
pub mod discovery;
pub mod frame;
pub mod lifecycle;
pub mod message;
pub mod payload;
pub mod pump;
pub mod registry;
pub mod router;
pub mod wire;

pub use cli_args::{get_cli_args, CliArgs, DiscoveryArgs};
pub use codec::{AsyncHeteroCodec, ClientCodec, ServerCodec, SyncHeteroCodec};
pub use connection::ConnectionId;
pub use discovery::{
    MDNS_SERVICE_NAME,
    PROJECT_NAME_PROP_KEY,
    PROJECT_PATH_PROP_KEY,
    UNITY_VERSION_PROP_KEY,
};
pub use message::{ClientMessage, ServerMessage, UnityLogType};
pub use payload::{CodecError, Payload};
