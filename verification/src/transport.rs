//! What the concrete transports decide before and around their I/O: which
//! transport a configuration calls for, what endpoint it names, default
//! timeouts, and when a datagram socket refuses plain reads and writes.
use vstd::prelude::*;
use crate::address::SocketAddress;
use crate::config::{AsyncTransportConfig, TransportConfig};
use crate::error::TransportError;
use crate::serial_params::{DataBits, FlowControl, Parity, StopBits};

verus! {

/// Read and write timeout, in seconds, that TCP and UDP transports start with.
pub const DEFAULT_SOCKET_TIMEOUT_SECS: u64 = 5;

/// Interval, in milliseconds, at which a session's background task polls its
/// connection for data (at most 5).
pub const SESSION_READ_INTERVAL_MILLIS: u64 = 5;

/// Timeout, in milliseconds, that a serial line starts with and falls back
/// to when no timeout is given.
pub const DEFAULT_SERIAL_TIMEOUT_MILLIS: u64 = 100;

/// The transport family that a configuration calls for.
#[derive(Debug, Clone, Copy, PartialEq, Eq, Structural)]
pub enum TransportKind {
    Tcp,
    Udp,
    Serial,
}

/// Where a TCP transport gets its connection from.
#[derive(Debug, Clone, Copy, PartialEq, Eq, Structural)]
pub enum TcpEndpoint {
    /// Connect to this server address.
    Connect(SocketAddress),
    /// Listen on this address and take the first client.
    Accept(SocketAddress),
}

/// The addresses of a UDP transport.
#[derive(Debug, Clone, Copy, PartialEq, Eq, Structural)]
pub struct UdpEndpoint {
    pub bind_addr: SocketAddress,
    /// The fixed peer for plain reads and writes, if any.
    pub peer_addr: Option<SocketAddress>,
}

/// The settings a serial line is opened with.
#[derive(Debug, Clone)]
pub struct SerialSettings {
    pub port: String,
    pub baud_rate: u32,
    pub data_bits: DataBits,
    pub stop_bits: StopBits,
    pub parity: Parity,
    pub flow_control: FlowControl,
}

/// Whether `r` is the configuration error with detail `detail`.
pub open spec fn is_config_error<T>(r: Result<T, TransportError>, detail: Seq<char>) -> bool {
    r matches Err(TransportError::Config(m)) && m@ == detail
}

impl TransportConfig {
    /// The transport family the configuration calls for.
    pub fn kind(&self) -> (k: TransportKind)
        ensures
            k == match *self {
                TransportConfig::TcpClient { .. } => TransportKind::Tcp,
                TransportConfig::TcpServer { .. } => TransportKind::Tcp,
                TransportConfig::Udp { .. } => TransportKind::Udp,
                TransportConfig::Serial { .. } => TransportKind::Serial,
            },
    {
        match self {
            TransportConfig::TcpClient { .. } => TransportKind::Tcp,
            TransportConfig::TcpServer { .. } => TransportKind::Tcp,
            TransportConfig::Udp { .. } => TransportKind::Udp,
            TransportConfig::Serial { .. } => TransportKind::Serial,
        }
    }

    /// The endpoint of a TCP configuration; any other configuration is
    /// refused.
    pub fn tcp_endpoint(&self) -> (r: Result<TcpEndpoint, TransportError>)
        ensures
            match *self {
                TransportConfig::TcpClient { addr } => r == Ok::<TcpEndpoint, TransportError>(
                    TcpEndpoint::Connect(addr),
                ),
                TransportConfig::TcpServer { bind_addr } => r == Ok::<TcpEndpoint, TransportError>(
                    TcpEndpoint::Accept(bind_addr),
                ),
                _ => is_config_error(r, "Expected TCP config"@),
            },
    {
        match self {
            TransportConfig::TcpClient { addr } => Ok(TcpEndpoint::Connect(*addr)),
            TransportConfig::TcpServer { bind_addr } => Ok(TcpEndpoint::Accept(*bind_addr)),
            _ => Err(TransportError::Config(String::from_str("Expected TCP config"))),
        }
    }

    /// The addresses of a UDP configuration; any other configuration is
    /// refused.
    pub fn udp_endpoint(&self) -> (r: Result<UdpEndpoint, TransportError>)
        ensures
            match *self {
                TransportConfig::Udp { bind_addr, peer_addr } => r == Ok::<
                    UdpEndpoint,
                    TransportError,
                >(UdpEndpoint { bind_addr, peer_addr }),
                _ => is_config_error(r, "Expected UDP config"@),
            },
    {
        match self {
            TransportConfig::Udp { bind_addr, peer_addr } => Ok(
                UdpEndpoint { bind_addr: *bind_addr, peer_addr: *peer_addr },
            ),
            _ => Err(TransportError::Config(String::from_str("Expected UDP config"))),
        }
    }

    /// The settings of a serial configuration; any other configuration is
    /// refused.
    pub fn into_serial_settings(self) -> (r: Result<SerialSettings, TransportError>)
        ensures
            match self {
                TransportConfig::Serial {
                    port,
                    baud_rate,
                    data_bits,
                    stop_bits,
                    parity,
                    flow_control,
                } => r == Ok::<SerialSettings, TransportError>(
                    SerialSettings { port, baud_rate, data_bits, stop_bits, parity, flow_control },
                ),
                _ => is_config_error(r, "Expected Serial config"@),
            },
    {
        match self {
            TransportConfig::Serial {
                port,
                baud_rate,
                data_bits,
                stop_bits,
                parity,
                flow_control,
            } => Ok(SerialSettings { port, baud_rate, data_bits, stop_bits, parity, flow_control }),
            _ => Err(TransportError::Config(String::from_str("Expected Serial config"))),
        }
    }
}

impl AsyncTransportConfig {
    /// The transport family the configuration calls for.
    pub fn kind(&self) -> (k: TransportKind)
        ensures
            k == match *self {
                AsyncTransportConfig::TcpClient { .. } => TransportKind::Tcp,
                AsyncTransportConfig::TcpServer { .. } => TransportKind::Tcp,
                AsyncTransportConfig::Udp { .. } => TransportKind::Udp,
                AsyncTransportConfig::Serial { .. } => TransportKind::Serial,
            },
    {
        match self {
            AsyncTransportConfig::TcpClient { .. } => TransportKind::Tcp,
            AsyncTransportConfig::TcpServer { .. } => TransportKind::Tcp,
            AsyncTransportConfig::Udp { .. } => TransportKind::Udp,
            AsyncTransportConfig::Serial { .. } => TransportKind::Serial,
        }
    }

    /// The endpoint of a TCP configuration; any other configuration is
    /// refused.
    pub fn tcp_endpoint(&self) -> (r: Result<TcpEndpoint, TransportError>)
        ensures
            match *self {
                AsyncTransportConfig::TcpClient { addr } => r == Ok::<TcpEndpoint, TransportError>(
                    TcpEndpoint::Connect(addr),
                ),
                AsyncTransportConfig::TcpServer { bind_addr } => r == Ok::<
                    TcpEndpoint,
                    TransportError,
                >(TcpEndpoint::Accept(bind_addr)),
                _ => is_config_error(r, "Expected TCP config"@),
            },
    {
        match self {
            AsyncTransportConfig::TcpClient { addr } => Ok(TcpEndpoint::Connect(*addr)),
            AsyncTransportConfig::TcpServer { bind_addr } => Ok(TcpEndpoint::Accept(*bind_addr)),
            _ => Err(TransportError::Config(String::from_str("Expected TCP config"))),
        }
    }

    /// The addresses of a UDP configuration; any other configuration is
    /// refused.
    pub fn udp_endpoint(&self) -> (r: Result<UdpEndpoint, TransportError>)
        ensures
            match *self {
                AsyncTransportConfig::Udp { bind_addr, peer_addr } => r == Ok::<
                    UdpEndpoint,
                    TransportError,
                >(UdpEndpoint { bind_addr, peer_addr }),
                _ => is_config_error(r, "Expected UDP config"@),
            },
    {
        match self {
            AsyncTransportConfig::Udp { bind_addr, peer_addr } => Ok(
                UdpEndpoint { bind_addr: *bind_addr, peer_addr: *peer_addr },
            ),
            _ => Err(TransportError::Config(String::from_str("Expected UDP config"))),
        }
    }

    /// The settings of a serial configuration; any other configuration is
    /// refused.
    pub fn into_serial_settings(self) -> (r: Result<SerialSettings, TransportError>)
        ensures
            match self {
                AsyncTransportConfig::Serial {
                    port,
                    baud_rate,
                    data_bits,
                    stop_bits,
                    parity,
                    flow_control,
                } => r == Ok::<SerialSettings, TransportError>(
                    SerialSettings { port, baud_rate, data_bits, stop_bits, parity, flow_control },
                ),
                _ => is_config_error(r, "Expected Serial config"@),
            },
    {
        match self {
            AsyncTransportConfig::Serial {
                port,
                baud_rate,
                data_bits,
                stop_bits,
                parity,
                flow_control,
            } => Ok(SerialSettings { port, baud_rate, data_bits, stop_bits, parity, flow_control }),
            _ => Err(TransportError::Config(String::from_str("Expected Serial config"))),
        }
    }
}

/// A plain read or write on a datagram socket.
#[derive(Debug, Clone, Copy, PartialEq, Eq, Structural)]
pub enum DatagramIo {
    /// `read` on the blocking socket.
    Read,
    /// `write` on the blocking socket.
    Write,
    /// `poll_read` or `poll_write` on the asynchronous socket.
    Poll,
}

/// Whether a plain read or write may go to the socket: only when it has a
/// fixed peer; otherwise the text of the `NotConnected` error to report.
pub fn datagram_gate(connected: bool, io: DatagramIo) -> (r: Result<(), &'static str>)
    ensures
        connected ==> r is Ok,
        !connected ==> (r matches Err(m) && m@ == (if io == DatagramIo::Write {
            "UDP socket not connected, use send_to() instead"@
        } else {
            "UDP socket not connected"@
        })),
{
    if connected {
        Ok(())
    } else {
        match io {
            DatagramIo::Write => Err("UDP socket not connected, use send_to() instead"),
            _ => Err("UDP socket not connected"),
        }
    }
}

} // verus!
