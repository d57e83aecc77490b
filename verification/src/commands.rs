//! What the front-end commands decide and report, apart from the session
//! plumbing that carries them out.
use vstd::prelude::*;
use crate::address::{
    parse_ipv4_address,
    parse_ipv6_address,
    parse_socket_address,
    socket_address_text,
    spec_parse_ipv4_address,
    spec_socket_address_text,
    spec_parse_ipv6_address,
    spec_parse_socket_address,
    Ipv4Address,
    Ipv6Address,
    SocketAddress,
};
use crate::config::{conversion_error, converts_to, AsyncTransportConfig, TransportConnectConfig};
use crate::text::{is_blank, lemma_trim_empty_iff_blank, trim};
use crate::ConnectionState;

verus! {

/// The answer to a connection request.
#[derive(Debug, Clone)]
pub struct TransportResult {
    /// Whether the session was created.
    pub success: bool,
    /// The session the answer is about.
    pub session_id: String,
    /// A human-readable explanation.
    pub message: String,
}

/// The state of a session as a front end queries it.
#[derive(Debug, Clone)]
pub struct TransportStateInfo {
    pub session_id: String,
    /// Whether the state is `Connected`.
    pub connected: bool,
    /// The state's name.
    pub connection_state: String,
    pub local_addr: Option<String>,
    pub peer_addr: Option<String>,
}

/// A line of the session list.
#[derive(Debug, Clone)]
pub struct SessionInfo {
    pub session_id: String,
    /// `"tcp"`, `"udp"` or `"serial"`.
    pub protocol: String,
    /// `"client"` or `"server"`.
    pub role: String,
}

/// How a connection request proceeds.
#[derive(Debug)]
pub enum ConnectPlan {
    /// The request is answered at once with this result (no session made).
    Rejected(TransportResult),
    /// A session is to be opened under this id with this configuration.
    Open { session_id: String, config: AsyncTransportConfig },
}

/// Checks a connection request: a session id made only of white space
/// is answered with an unsuccessful result; otherwise the configuration is
/// converted, and a conversion error is the request's error.
pub fn plan_connect(session_id: String, config: TransportConnectConfig) -> (r: Result<
    ConnectPlan,
    String,
>)
    ensures
        is_blank(session_id@) ==> (r matches Ok(ConnectPlan::Rejected(res))
            && !res.success && res.session_id == session_id && res.message@
            == "session_id must not be empty"@),
        !is_blank(session_id@) ==> match conversion_error(config) {
            Some(m) => r matches Err(e) && e@ == m,
            None => r matches Ok(ConnectPlan::Open { session_id: id, config: c }) && id
                == session_id && converts_to(config, c),
        },
{
    let trimmed = trim(session_id.as_str());
    proof {
        lemma_trim_empty_iff_blank(trimmed@, session_id@);
    }
    let blank = trimmed.unicode_len() == 0;
    if blank {
        return Ok(
            ConnectPlan::Rejected(
                TransportResult {
                    success: false,
                    session_id,
                    message: String::from_str("session_id must not be empty"),
                },
            ),
        );
    }
    let c = AsyncTransportConfig::from_connect_config(config)?;
    Ok(ConnectPlan::Open { session_id, config: c })
}

/// The answer to a connection request whose session was created.
pub fn connect_accepted(session_id: String) -> (res: TransportResult)
    ensures
        res.success,
        res.session_id == session_id,
        res.message@ == "Session created and connecting"@,
{
    TransportResult {
        success: true,
        session_id,
        message: String::from_str("Session created and connecting"),
    }
}

/// The name of a connection state.
pub open spec fn state_name(state: ConnectionState) -> Seq<char> {
    match state {
        ConnectionState::Connected => "Connected"@,
        ConnectionState::Disconnected => "Disconnected"@,
        ConnectionState::Connecting => "Connecting"@,
        ConnectionState::Unknown => "Unknown"@,
    }
}

/// Whether `text` reports `address` as its standard text form, or is
/// absent when there is no address.
pub open spec fn reports_address(text: Option<String>, address: Option<SocketAddress>) -> bool {
    match address {
        Some(a) => text matches Some(t) && t@ == spec_socket_address_text(a),
        None => text is None,
    }
}

fn address_text(address: &Option<SocketAddress>) -> (text: Option<String>)
    ensures
        reports_address(text, *address),
{
    match address {
        Some(a) => Some(socket_address_text(a)),
        None => None,
    }
}

/// The state report of a session: the state's name, whether it is
/// `Connected`, and the session's local and peer addresses where it has them.
pub fn state_info(
    session_id: String,
    state: ConnectionState,
    local_addr: &Option<SocketAddress>,
    peer_addr: &Option<SocketAddress>,
) -> (info: TransportStateInfo)
    ensures
        info.session_id == session_id,
        info.connected == (state == ConnectionState::Connected),
        info.connection_state@ == state_name(state),
        reports_address(info.local_addr, *local_addr),
        reports_address(info.peer_addr, *peer_addr),
{
    let (name, connected) = match state {
        ConnectionState::Connected => ("Connected", true),
        ConnectionState::Disconnected => ("Disconnected", false),
        ConnectionState::Connecting => ("Connecting", false),
        ConnectionState::Unknown => ("Unknown", false),
    };
    TransportStateInfo {
        session_id,
        connected,
        connection_state: String::from_str(name),
        local_addr: address_text(local_addr),
        peer_addr: address_text(peer_addr),
    }
}

/// The chunks of `chunks`, one after another.
pub open spec fn concatenation(chunks: Seq<Seq<u8>>) -> Seq<u8>
    decreases chunks.len(),
{
    if chunks.len() == 0 {
        Seq::empty()
    } else {
        concatenation(chunks.drop_last()) + chunks.last()
    }
}

/// Joins the chunks a read collected into one byte string.
pub fn concat_chunks(chunks: &Vec<Vec<u8>>) -> (bytes: Vec<u8>)
    requires
        concatenation(chunks@.map_values(|c: Vec<u8>| c@)).len() <= usize::MAX,
    ensures
        bytes@ == concatenation(chunks@.map_values(|c: Vec<u8>| c@)),
{
    let ghost views = chunks@.map_values(|c: Vec<u8>| c@);
    let mut bytes: Vec<u8> = Vec::new();
    let mut i: usize = 0;
    while i < chunks.len()
        invariant
            i <= chunks@.len(),
            views == chunks@.map_values(|c: Vec<u8>| c@),
            bytes@ == concatenation(views.take(i as int)),
        decreases chunks@.len() - i,
    {
        assert(views.take(i + 1).drop_last() =~= views.take(i as int));
        let chunk = &chunks[i];
        let mut j: usize = 0;
        let ghost start = bytes@;
        while j < chunk.len()
            invariant
                j <= chunk@.len(),
                bytes@ == start + chunk@.take(j as int),
            decreases chunk@.len() - j,
        {
            bytes.push(chunk[j]);
            j = j + 1;
            assert(bytes@ =~= start + chunk@.take(j as int));
        }
        assert(chunk@.take(j as int) =~= chunk@);
        i = i + 1;
    }
    assert(views.take(i as int) =~= views);
    bytes
}

/// The session list as the front end shows it.
pub fn session_infos(list: Vec<(String, String, String)>) -> (infos: Vec<SessionInfo>)
    ensures
        infos@.len() == list@.len(),
        forall|i: int|
            0 <= i < list@.len() ==> {
                &&& #[trigger] infos@[i].session_id == list@[i].0
                &&& infos@[i].protocol == list@[i].1
                &&& infos@[i].role == list@[i].2
            },
{
    let mut infos: Vec<SessionInfo> = Vec::new();
    let mut i: usize = 0;
    while i < list.len()
        invariant
            i <= list@.len(),
            infos@.len() == i,
            forall|j: int|
                0 <= j < i ==> {
                    &&& #[trigger] infos@[j].session_id == list@[j].0
                    &&& infos@[j].protocol == list@[j].1
                    &&& infos@[j].role == list@[j].2
                },
        decreases list@.len() - i,
    {
        let item = &list[i];
        infos.push(
            SessionInfo {
                session_id: item.0.clone(),
                protocol: item.1.clone(),
                role: item.2.clone(),
            },
        );
        i = i + 1;
    }
    infos
}

/// The message for a destination address that does not parse.
pub open spec fn send_to_address_error(addr: Seq<char>, cause: Seq<char>) -> Seq<char> {
    "Invalid address '"@ + addr + "': "@ + cause
}

/// Reads the destination address of a datagram.
pub fn parse_send_to_address(addr: &str) -> (r: Result<SocketAddress, String>)
    ensures
        match spec_parse_socket_address(addr@) {
            Ok(a) => r == Ok::<SocketAddress, String>(a),
            Err(e) => r matches Err(m) && m@ == send_to_address_error(addr@, e),
        },
{
    match parse_socket_address(addr) {
        Ok(a) => Ok(a),
        Err(e) => Err(
            String::from_str("Invalid address '").concat(addr).concat("': ").concat(e.as_str()),
        ),
    }
}

/// Reads an IPv4 multicast group address and the local interface address.
pub fn parse_multicast_v4(multiaddr: &str, iface: &str) -> (r: Result<
    (Ipv4Address, Ipv4Address),
    String,
>)
    ensures
        match (spec_parse_ipv4_address(multiaddr@), spec_parse_ipv4_address(iface@)) {
            (Err(e), _) => r matches Err(m) && m@ == "Invalid multicast address: "@ + e,
            (Ok(_), Err(e)) => r matches Err(m) && m@ == "Invalid interface address: "@ + e,
            (Ok(g), Ok(i)) => r == Ok::<(Ipv4Address, Ipv4Address), String>((g, i)),
        },
{
    let group = match parse_ipv4_address(multiaddr) {
        Ok(a) => a,
        Err(e) => {
            return Err(String::from_str("Invalid multicast address: ").concat(e.as_str()));
        },
    };
    match parse_ipv4_address(iface) {
        Ok(i) => Ok((group, i)),
        Err(e) => Err(String::from_str("Invalid interface address: ").concat(e.as_str())),
    }
}

/// Reads an IPv6 multicast group address.
pub fn parse_multicast_v6(multiaddr: &str) -> (r: Result<Ipv6Address, String>)
    ensures
        match spec_parse_ipv6_address(multiaddr@) {
            Err(e) => r matches Err(m) && m@ == "Invalid IPv6 multicast address: "@ + e,
            Ok(g) => r == Ok::<Ipv6Address, String>(g),
        },
{
    match parse_ipv6_address(multiaddr) {
        Ok(a) => Ok(a),
        Err(e) => Err(String::from_str("Invalid IPv6 multicast address: ").concat(e.as_str())),
    }
}

/// Each connection state has its own name, and a name belongs to one state
/// only: `"Connected"` exactly for `Connected`, `"Disconnected"` exactly for
/// `Disconnected`, `"Connecting"` exactly for `Connecting`, `"Unknown"`
/// exactly for `Unknown`.
pub proof fn lemma_state_names(state: ConnectionState, other: ConnectionState)
    ensures
        state_name(state) == state_name(other) <==> state == other,
        state_name(state) == "Connected"@ <==> state == ConnectionState::Connected,
        state_name(state) == "Disconnected"@ <==> state == ConnectionState::Disconnected,
        state_name(state) == "Connecting"@ <==> state == ConnectionState::Connecting,
        state_name(state) == "Unknown"@ <==> state == ConnectionState::Unknown,
{
    reveal_strlit("Connected");
    reveal_strlit("Disconnected");
    reveal_strlit("Connecting");
    reveal_strlit("Unknown");
    assert("Connected"@.len() != "Disconnected"@.len());
    assert("Connected"@[3] != "Connecting"@[3] || "Connected"@[7] != "Connecting"@[7]);
    assert("Connected"@[0] != "Unknown"@[0]);
    assert("Disconnected"@.len() != "Connecting"@.len());
    assert("Disconnected"@[0] != "Unknown"@[0]);
    assert("Connecting"@[0] != "Unknown"@[0]);
}

/// Joining one more chunk appends exactly that chunk, whatever it holds.
pub proof fn lemma_concatenation_push(chunks: Seq<Seq<u8>>, chunk: Seq<u8>)
    ensures
        concatenation(chunks.push(chunk)) == concatenation(chunks) + chunk,
{
    assert(chunks.push(chunk).drop_last() =~= chunks);
}

/// Joining two runs of chunks gives the join of the first followed by the
/// join of the second; in particular nothing is dropped or reordered.
pub proof fn lemma_concatenation_append(first: Seq<Seq<u8>>, second: Seq<Seq<u8>>)
    ensures
        concatenation(first + second) == concatenation(first) + concatenation(second),
    decreases second.len(),
{
    if second.len() == 0 {
        assert(first + second =~= first);
        assert(concatenation(first) + Seq::<u8>::empty() =~= concatenation(first));
    } else {
        let init = second.drop_last();
        lemma_concatenation_append(first, init);
        assert((first + second).drop_last() =~= first + init);
        assert(concatenation(first) + concatenation(init) + second.last() =~= concatenation(first)
            + (concatenation(init) + second.last()));
    }
}

/// The join is as long as all the chunks together.
pub proof fn lemma_concatenation_len(chunks: Seq<Seq<u8>>)
    ensures
        concatenation(chunks).len() == chunks.fold_left(0int, |n: int, c: Seq<u8>| n + c.len()),
    decreases chunks.len(),
{
    if chunks.len() > 0 {
        lemma_concatenation_len(chunks.drop_last());
    }
}

} // verus!
