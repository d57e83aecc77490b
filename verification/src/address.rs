//! Network addresses as plain values, and the parsing of their text forms.
use vstd::prelude::*;

verus! {

/// An IPv4 address, held as the big-endian number of its four octets
/// (`127.0.0.1` is `0x7f00_0001`).
#[derive(Debug, Clone, Copy, PartialEq, Eq, Structural)]
pub struct Ipv4Address {
    pub bits: u32,
}

/// An IPv6 address, held as the big-endian number of its sixteen octets
/// (`::1` is `1`).
#[derive(Debug, Clone, Copy, PartialEq, Eq, Structural)]
pub struct Ipv6Address {
    pub bits: u128,
}

/// An IP address with a port: the value of a socket address.
#[derive(Debug, Clone, Copy, PartialEq, Eq, Structural)]
pub enum SocketAddress {
    V4 { ip: Ipv4Address, port: u16 },
    V6 { ip: Ipv6Address, port: u16, flowinfo: u32, scope_id: u32 },
}

impl SocketAddress {
    /// The port of the address.
    pub fn port(&self) -> (port: u16)
        ensures
            port == match *self {
                SocketAddress::V4 { port, .. } => port,
                SocketAddress::V6 { port, .. } => port,
            },
    {
        match self {
            SocketAddress::V4 { port, .. } => *port,
            SocketAddress::V6 { port, .. } => *port,
        }
    }
}

/// What the standard library's `FromStr` for socket addresses makes of
/// `text`: the address, or the text of its parse error.
pub uninterp spec fn spec_parse_socket_address(text: Seq<char>) -> Result<SocketAddress, Seq<char>>;

/// What the standard library's `FromStr` for IPv4 addresses makes of `text`.
pub uninterp spec fn spec_parse_ipv4_address(text: Seq<char>) -> Result<Ipv4Address, Seq<char>>;

/// What the standard library's `FromStr` for IPv6 addresses makes of `text`.
pub uninterp spec fn spec_parse_ipv6_address(text: Seq<char>) -> Result<Ipv6Address, Seq<char>>;

/// Parses `text` with `str::parse::<core::net::SocketAddr>`, the standard
/// socket-address grammar (`a.b.c.d:port`, `[v6]:port`, `[v6%scope]:port`).
///
/// Claims that the outcome is a function of the text alone, named
/// `spec_parse_socket_address`; on failure the text is the `Display` of the
/// `AddrParseError`.
#[verifier::external_body]
pub(crate) fn parse_socket_address(text: &str) -> (r: Result<SocketAddress, String>)
    ensures
        match r {
            Ok(a) => spec_parse_socket_address(text@) == Ok::<SocketAddress, Seq<char>>(a),
            Err(m) => spec_parse_socket_address(text@) == Err::<SocketAddress, Seq<char>>(m@),
        },
{
    match text.parse::<core::net::SocketAddr>() {
        Ok(core::net::SocketAddr::V4(a)) => Ok(
            SocketAddress::V4 { ip: Ipv4Address { bits: u32::from(*a.ip()) }, port: a.port() },
        ),
        Ok(core::net::SocketAddr::V6(a)) => Ok(SocketAddress::V6 {
            ip: Ipv6Address { bits: u128::from(*a.ip()) },
            port: a.port(),
            flowinfo: a.flowinfo(),
            scope_id: a.scope_id(),
        }),
        Err(e) => Err(e.to_string()),
    }
}

/// Parses `text` with `str::parse::<core::net::Ipv4Addr>` (dotted decimal).
///
/// Claims that the outcome is a function of the text alone, named
/// `spec_parse_ipv4_address`; on failure the text is the error's `Display`.
#[verifier::external_body]
pub(crate) fn parse_ipv4_address(text: &str) -> (r: Result<Ipv4Address, String>)
    ensures
        match r {
            Ok(a) => spec_parse_ipv4_address(text@) == Ok::<Ipv4Address, Seq<char>>(a),
            Err(m) => spec_parse_ipv4_address(text@) == Err::<Ipv4Address, Seq<char>>(m@),
        },
{
    match text.parse::<core::net::Ipv4Addr>() {
        Ok(a) => Ok(Ipv4Address { bits: u32::from(a) }),
        Err(e) => Err(e.to_string()),
    }
}

/// Parses `text` with `str::parse::<core::net::Ipv6Addr>`.
///
/// Claims that the outcome is a function of the text alone, named
/// `spec_parse_ipv6_address`; on failure the text is the error's `Display`.
#[verifier::external_body]
pub(crate) fn parse_ipv6_address(text: &str) -> (r: Result<Ipv6Address, String>)
    ensures
        match r {
            Ok(a) => spec_parse_ipv6_address(text@) == Ok::<Ipv6Address, Seq<char>>(a),
            Err(m) => spec_parse_ipv6_address(text@) == Err::<Ipv6Address, Seq<char>>(m@),
        },
{
    match text.parse::<core::net::Ipv6Addr>() {
        Ok(a) => Ok(Ipv6Address { bits: u128::from(a) }),
        Err(e) => Err(e.to_string()),
    }
}

/// The text that the standard library's `Display` for socket addresses
/// gives `address` (`127.0.0.1:8080`, `[::1]:443`).
pub uninterp spec fn spec_socket_address_text(address: SocketAddress) -> Seq<char>;

/// Formats `address` with `ToString::to_string` on the equal
/// `core::net::SocketAddr`.
///
/// Claims that the text is a function of the address alone, named
/// `spec_socket_address_text`.
#[verifier::external_body]
pub(crate) fn socket_address_text(address: &SocketAddress) -> (text: String)
    ensures
        text@ == spec_socket_address_text(*address),
{
    let std_address = match *address {
        SocketAddress::V4 { ip, port } => core::net::SocketAddr::V4(
            core::net::SocketAddrV4::new(core::net::Ipv4Addr::from(ip.bits), port),
        ),
        SocketAddress::V6 { ip, port, flowinfo, scope_id } => core::net::SocketAddr::V6(
            core::net::SocketAddrV6::new(core::net::Ipv6Addr::from(ip.bits), port, flowinfo, scope_id),
        ),
    };
    std_address.to_string()
}

} // verus!
