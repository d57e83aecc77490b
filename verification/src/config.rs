//! Transport configurations: the typed ones that transports are built from,
//! and the textual one that a front end submits.
use vstd::prelude::*;
use crate::address::{
    parse_socket_address,
    spec_parse_socket_address,
    SocketAddress,
};
use crate::serial_params::{
    parse_data_bits,
    parse_flow_control,
    parse_parity,
    parse_stop_bits,
    spec_data_bits,
    spec_flow_control_of_upper,
    spec_parity_of_upper,
    spec_stop_bits,
    data_bit_count,
    stop_bit_count,
    DataBits,
    FlowControl,
    Parity,
    StopBits,
    data_bits_error,
    flow_control_error,
    parity_error,
    stop_bits_error,
};
use crate::text::upper_text;

verus! {

/// Configuration of a blocking transport.
#[derive(Debug, Clone)]
pub enum TransportConfig {
    /// A TCP client connecting to `addr`.
    TcpClient { addr: SocketAddress },
    /// A TCP server bound to `bind_addr` that serves the first client.
    TcpServer { bind_addr: SocketAddress },
    /// A UDP socket bound to `bind_addr`, connected to `peer_addr` when given.
    Udp { bind_addr: SocketAddress, peer_addr: Option<SocketAddress> },
    /// A serial line.
    Serial {
        port: String,
        baud_rate: u32,
        data_bits: DataBits,
        stop_bits: StopBits,
        parity: Parity,
        flow_control: FlowControl,
    },
}

/// Configuration of an asynchronous transport; the same choices as
/// [`TransportConfig`].
#[derive(Debug, Clone)]
pub enum AsyncTransportConfig {
    /// A TCP client connecting to `addr`.
    TcpClient { addr: SocketAddress },
    /// A TCP server bound to `bind_addr` that serves the first client.
    TcpServer { bind_addr: SocketAddress },
    /// A UDP socket bound to `bind_addr`, connected to `peer_addr` when given.
    Udp { bind_addr: SocketAddress, peer_addr: Option<SocketAddress> },
    /// A serial line.
    Serial {
        port: String,
        baud_rate: u32,
        data_bits: DataBits,
        stop_bits: StopBits,
        parity: Parity,
        flow_control: FlowControl,
    },
}

/// A connection request as a front end submits it: addresses and serial
/// settings as text and small numbers.
#[derive(Debug, Clone)]
pub enum TransportConnectConfig {
    /// A TCP client connecting to `addr`.
    TcpClient { addr: String },
    /// A TCP server bound to `bind_addr`.
    TcpServer { bind_addr: String },
    /// A UDP socket bound to `bind_addr`, connected to `peer_addr` when given.
    Udp { bind_addr: String, peer_addr: Option<String> },
    /// A serial line; a front end that leaves a setting out gets the
    /// `default_*` value of `serial_params`.
    Serial {
        port: String,
        baud_rate: u32,
        data_bits: u8,
        stop_bits: u8,
        parity: String,
        flow_control: String,
    },
}

/// The message for a TCP client address that does not parse.
pub open spec fn tcp_address_error(addr: Seq<char>, cause: Seq<char>) -> Seq<char> {
    "Invalid TCP address '"@ + addr + "': "@ + cause
}

/// The message for a TCP server address that does not parse.
pub open spec fn bind_address_error(addr: Seq<char>, cause: Seq<char>) -> Seq<char> {
    "Invalid bind address '"@ + addr + "': "@ + cause
}

/// The message for a UDP bind address that does not parse.
pub open spec fn udp_bind_address_error(addr: Seq<char>, cause: Seq<char>) -> Seq<char> {
    "Invalid UDP bind address '"@ + addr + "': "@ + cause
}

/// The message for a UDP peer address that does not parse.
pub open spec fn udp_peer_address_error(addr: Seq<char>, cause: Seq<char>) -> Seq<char> {
    "Invalid UDP peer address '"@ + addr + "': "@ + cause
}

/// `"<opening><text>': <cause>"`, the shape of every address error message.
fn quoted_error(opening: &str, text: &str, cause: &str) -> (m: String)
    ensures
        m@ == opening@ + text@ + "': "@ + cause@,
{
    String::from_str(opening).concat(text).concat("': ").concat(cause)
}

/// What converting a front-end request yields, when it succeeds; the error
/// messages are given by [`AsyncTransportConfig::from_connect_config`]'s contract.
pub open spec fn converts_to(value: TransportConnectConfig, config: AsyncTransportConfig) -> bool {
    match value {
        TransportConnectConfig::TcpClient { addr } => spec_parse_socket_address(addr@) matches Ok(
            a,
        ) && config == AsyncTransportConfig::TcpClient { addr: a },
        TransportConnectConfig::TcpServer { bind_addr } => spec_parse_socket_address(
            bind_addr@,
        ) matches Ok(a) && config == AsyncTransportConfig::TcpServer { bind_addr: a },
        TransportConnectConfig::Udp { bind_addr, peer_addr } => {
            &&& spec_parse_socket_address(bind_addr@) is Ok
            &&& match peer_addr {
                Some(p) => spec_parse_socket_address(p@) is Ok,
                None => true,
            }
            &&& config == AsyncTransportConfig::Udp {
                bind_addr: spec_parse_socket_address(bind_addr@)->Ok_0,
                peer_addr: match peer_addr {
                    Some(p) => Some(spec_parse_socket_address(p@)->Ok_0),
                    None => None,
                },
            }
        },
        TransportConnectConfig::Serial {
            port,
            baud_rate,
            data_bits,
            stop_bits,
            parity,
            flow_control,
        } => {
            &&& spec_data_bits(data_bits) is Some
            &&& spec_stop_bits(stop_bits) is Some
            &&& spec_parity_of_upper(upper_text(parity@)) is Some
            &&& spec_flow_control_of_upper(upper_text(flow_control@)) is Some
            &&& config == AsyncTransportConfig::Serial {
                port,
                baud_rate,
                data_bits: spec_data_bits(data_bits)->Some_0,
                stop_bits: spec_stop_bits(stop_bits)->Some_0,
                parity: spec_parity_of_upper(upper_text(parity@))->Some_0,
                flow_control: spec_flow_control_of_upper(upper_text(flow_control@))->Some_0,
            }
        },
    }
}

/// The error message that converting a front-end request yields, when one
/// of its fields is refused; the first refused field, in field order, decides.
pub open spec fn conversion_error(value: TransportConnectConfig) -> Option<Seq<char>> {
    match value {
        TransportConnectConfig::TcpClient { addr } => match spec_parse_socket_address(addr@) {
            Ok(_) => None,
            Err(e) => Some(tcp_address_error(addr@, e)),
        },
        TransportConnectConfig::TcpServer { bind_addr } => match spec_parse_socket_address(
            bind_addr@,
        ) {
            Ok(_) => None,
            Err(e) => Some(bind_address_error(bind_addr@, e)),
        },
        TransportConnectConfig::Udp { bind_addr, peer_addr } => match spec_parse_socket_address(
            bind_addr@,
        ) {
            Err(e) => Some(udp_bind_address_error(bind_addr@, e)),
            Ok(_) => match peer_addr {
                Some(p) => match spec_parse_socket_address(p@) {
                    Err(e) => Some(udp_peer_address_error(p@, e)),
                    Ok(_) => None,
                },
                None => None,
            },
        },
        TransportConnectConfig::Serial {
            port,
            baud_rate,
            data_bits,
            stop_bits,
            parity,
            flow_control,
        } => if spec_data_bits(data_bits) is None {
            Some(data_bits_error(data_bits))
        } else if spec_stop_bits(stop_bits) is None {
            Some(stop_bits_error(stop_bits))
        } else if spec_parity_of_upper(upper_text(parity@)) is None {
            Some(parity_error(upper_text(parity@)))
        } else if spec_flow_control_of_upper(upper_text(flow_control@)) is None {
            Some(flow_control_error(upper_text(flow_control@)))
        } else {
            None
        },
    }
}

impl AsyncTransportConfig {
    /// The protocol family of the configuration, as text.
    pub open spec fn protocol_name_spec(&self) -> Seq<char> {
        match *self {
            AsyncTransportConfig::TcpClient { .. } => "tcp"@,
            AsyncTransportConfig::TcpServer { .. } => "tcp"@,
            AsyncTransportConfig::Udp { .. } => "udp"@,
            AsyncTransportConfig::Serial { .. } => "serial"@,
        }
    }

    /// The role of the local end, as text.
    pub open spec fn role_name_spec(&self) -> Seq<char> {
        if *self is TcpServer { "server"@ } else { "client"@ }
    }

    /// The protocol family of the configuration: `"tcp"`, `"udp"` or `"serial"`.
    pub fn protocol_name(&self) -> (name: &'static str)
        ensures
            name@ == self.protocol_name_spec(),
    {
        match self {
            AsyncTransportConfig::TcpClient { .. } => "tcp",
            AsyncTransportConfig::TcpServer { .. } => "tcp",
            AsyncTransportConfig::Udp { .. } => "udp",
            AsyncTransportConfig::Serial { .. } => "serial",
        }
    }

    /// The role of the local end: `"server"` for a TCP server, `"client"`
    /// for everything else.
    pub fn role_name(&self) -> (name: &'static str)
        ensures
            name@ == self.role_name_spec(),
    {
        match self {
            AsyncTransportConfig::TcpServer { .. } => "server",
            _ => "client",
        }
    }

    /// The name of the configuration's variant.
    pub fn variant_name(&self) -> (name: &'static str)
        ensures
            name@ == match *self {
                AsyncTransportConfig::TcpClient { .. } => "TcpClient"@,
                AsyncTransportConfig::TcpServer { .. } => "TcpServer"@,
                AsyncTransportConfig::Udp { .. } => "Udp"@,
                AsyncTransportConfig::Serial { .. } => "Serial"@,
            },
    {
        match self {
            AsyncTransportConfig::TcpClient { .. } => "TcpClient",
            AsyncTransportConfig::TcpServer { .. } => "TcpServer",
            AsyncTransportConfig::Udp { .. } => "Udp",
            AsyncTransportConfig::Serial { .. } => "Serial",
        }
    }

    /// Converts a front-end request into a typed configuration: addresses
    /// are parsed, serial settings are read by number or by name.
    pub fn from_connect_config(value: TransportConnectConfig) -> (r: Result<AsyncTransportConfig, String>)
        ensures
            match conversion_error(value) {
                Some(m) => r matches Err(e) && e@ == m,
                None => r matches Ok(c) && converts_to(value, c),
            },
    {
        match value {
            TransportConnectConfig::TcpClient { addr } => {
                match parse_socket_address(addr.as_str()) {
                    Ok(a) => Ok(AsyncTransportConfig::TcpClient { addr: a }),
                    Err(e) => Err(quoted_error("Invalid TCP address '", addr.as_str(), e.as_str())),
                }
            },
            TransportConnectConfig::TcpServer { bind_addr } => {
                match parse_socket_address(bind_addr.as_str()) {
                    Ok(a) => Ok(AsyncTransportConfig::TcpServer { bind_addr: a }),
                    Err(e) => Err(
                        quoted_error("Invalid bind address '", bind_addr.as_str(), e.as_str()),
                    ),
                }
            },
            TransportConnectConfig::Udp { bind_addr, peer_addr } => {
                let parsed_bind = match parse_socket_address(bind_addr.as_str()) {
                    Ok(a) => a,
                    Err(e) => {
                        return Err(
                            quoted_error("Invalid UDP bind address '", bind_addr.as_str(), e.as_str()),
                        );
                    },
                };
                let parsed_peer = match &peer_addr {
                    Some(p) => match parse_socket_address(p.as_str()) {
                        Ok(a) => Some(a),
                        Err(e) => {
                            return Err(
                                quoted_error("Invalid UDP peer address '", p.as_str(), e.as_str()),
                            );
                        },
                    },
                    None => None,
                };
                Ok(AsyncTransportConfig::Udp { bind_addr: parsed_bind, peer_addr: parsed_peer })
            },
            TransportConnectConfig::Serial {
                port,
                baud_rate,
                data_bits,
                stop_bits,
                parity,
                flow_control,
            } => {
                let data_bits = match parse_data_bits(data_bits) {
                    Ok(b) => b,
                    Err(e) => {
                        return Err(e);
                    },
                };
                let stop_bits = match parse_stop_bits(stop_bits) {
                    Ok(b) => b,
                    Err(e) => {
                        return Err(e);
                    },
                };
                let parity = match parse_parity(parity.as_str()) {
                    Ok(p) => p,
                    Err(e) => {
                        return Err(e);
                    },
                };
                let flow_control = match parse_flow_control(flow_control.as_str()) {
                    Ok(f) => f,
                    Err(e) => {
                        return Err(e);
                    },
                };
                Ok(
                    AsyncTransportConfig::Serial {
                        port,
                        baud_rate,
                        data_bits,
                        stop_bits,
                        parity,
                        flow_control,
                    },
                )
            },
        }
    }
}

impl TryFrom<TransportConnectConfig> for AsyncTransportConfig {
    type Error = String;

    /// See [`AsyncTransportConfig::from_connect_config`].
    fn try_from(value: TransportConnectConfig) -> (r: Result<AsyncTransportConfig, String>)
        ensures
            match conversion_error(value) {
                Some(m) => r matches Err(e) && e@ == m,
                None => r matches Ok(c) && converts_to(value, c),
            },
    {
        AsyncTransportConfig::from_connect_config(value)
    }
}

/// The conversion's result is stated on `try_from` itself; its error texts
/// are `String` values, which a specification cannot build from their views,
/// so nothing is promised through the generic `TryFrom` specification.
impl vstd::std_specs::convert::TryFromSpecImpl<TransportConnectConfig> for AsyncTransportConfig {
    open spec fn obeys_try_from_spec() -> bool {
        false
    }

    open spec fn try_from_spec(v: TransportConnectConfig) -> Result<AsyncTransportConfig, String> {
        arbitrary()
    }
}

/// The protocol name tells the transport family and nothing else: `"tcp"`
/// exactly for TCP clients and servers, `"udp"` exactly for UDP sockets,
/// `"serial"` exactly for serial lines; the role is `"server"` exactly for a
/// TCP server and `"client"` otherwise.
pub proof fn lemma_protocol_and_role_names(config: AsyncTransportConfig)
    ensures
        config.protocol_name_spec() == "tcp"@ <==> (config is TcpClient || config is TcpServer),
        config.protocol_name_spec() == "udp"@ <==> config is Udp,
        config.protocol_name_spec() == "serial"@ <==> config is Serial,
        config.role_name_spec() == "server"@ <==> config is TcpServer,
        config.role_name_spec() == "client"@ <==> !(config is TcpServer),
{
    reveal_strlit("tcp");
    reveal_strlit("udp");
    reveal_strlit("serial");
    reveal_strlit("server");
    reveal_strlit("client");
    assert("tcp"@[0] != "udp"@[0]);
    assert("tcp"@.len() != "serial"@.len());
    assert("udp"@.len() != "serial"@.len());
    assert("server"@[0] != "client"@[0]);
}

/// A converted request keeps every field of the request: the same transport
/// family, each address the standard parser reads from its text (the UDP
/// peer present exactly when the request names one), and for a serial line
/// the same port and baud rate, the data and stop bits of the given numbers,
/// and the parity and flow control that the given names denote.
pub proof fn lemma_conversion_keeps_request(value: TransportConnectConfig, config: AsyncTransportConfig)
    requires
        converts_to(value, config),
    ensures
        match value {
            TransportConnectConfig::TcpClient { addr } => config matches AsyncTransportConfig::TcpClient {
                addr: a,
            } && spec_parse_socket_address(addr@) == Ok::<SocketAddress, Seq<char>>(a),
            TransportConnectConfig::TcpServer { bind_addr } => config matches AsyncTransportConfig::TcpServer {
                bind_addr: a,
            } && spec_parse_socket_address(bind_addr@) == Ok::<SocketAddress, Seq<char>>(a),
            TransportConnectConfig::Udp { bind_addr, peer_addr } => config matches AsyncTransportConfig::Udp {
                bind_addr: b,
                peer_addr: p,
            } && spec_parse_socket_address(bind_addr@) == Ok::<SocketAddress, Seq<char>>(b) && (
            peer_addr is Some <==> p is Some) && (peer_addr matches Some(t) ==> spec_parse_socket_address(t@)
                == Ok::<SocketAddress, Seq<char>>(p->0)),
            TransportConnectConfig::Serial {
                port,
                baud_rate,
                data_bits,
                stop_bits,
                parity,
                flow_control,
            } => config matches AsyncTransportConfig::Serial {
                port: q,
                baud_rate: r,
                data_bits: d,
                stop_bits: st,
                parity: pa,
                flow_control: f,
            } && q == port && r == baud_rate && data_bit_count(d) == data_bits && stop_bit_count(st)
                == stop_bits && spec_parity_of_upper(upper_text(parity@)) == Some(pa)
                && spec_flow_control_of_upper(upper_text(flow_control@)) == Some(f),
        },
{
    match value {
        TransportConnectConfig::Serial { data_bits, stop_bits, .. } => {
            crate::serial_params::lemma_data_bits_read_as_their_number(data_bits);
            crate::serial_params::lemma_stop_bits_read_as_their_number(stop_bits);
        },
        _ => {},
    }
}

} // verus!
