//! Transport configuration, session bookkeeping and protocol decisions of a
//! unified TCP / UDP / serial transport layer: addresses and settings and
//! their text forms, the error type, the registry of live sessions, and what
//! a session's background task does with each command and read result.
use vstd::prelude::*;

pub mod address;
pub mod commands;
pub mod config;
pub mod error;
pub mod registry;
pub mod serial_params;
pub mod session;
pub mod text;
pub mod transport;

pub use address::{Ipv4Address, Ipv6Address, SocketAddress};
pub use commands::{SessionInfo, TransportResult, TransportStateInfo};
pub use config::{AsyncTransportConfig, TransportConfig, TransportConnectConfig};
pub use error::{SerialError, SerialErrorKind, TransportError};
pub use registry::{OpenedTransport, SessionEntry, SessionRegistry};
pub use serial_params::{DataBits, FlowControl, Parity, StopBits};
pub use session::{BroadcastSocket, EventDrain, SessionCommand, SessionEvent, SessionTransport, UdpOperation};
pub use transport::TransportKind;

verus! {

/// The state of a transport channel.
#[derive(Debug, Clone, Copy, PartialEq, Eq, Structural)]
pub enum ConnectionState {
    /// The channel is established and can carry data.
    Connected,
    /// The channel is closed or lost.
    Disconnected,
    /// The channel is being established.
    Connecting,
    /// The state cannot be told.
    Unknown,
}

impl ConnectionState {
    /// The state that a transport reports from whether it holds a live connection.
    pub fn from_connected(connected: bool) -> (state: ConnectionState)
        ensures
            state == (if connected { ConnectionState::Connected } else { ConnectionState::Disconnected }),
    {
        if connected {
            ConnectionState::Connected
        } else {
            ConnectionState::Disconnected
        }
    }
}

} // verus!
