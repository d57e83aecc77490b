use connect_io::commands::{
    concat_chunks, connect_accepted, parse_multicast_v4, parse_multicast_v6, plan_connect,
    session_infos, state_info, ConnectPlan,
};
use connect_io::session::{
    command_ends_session, command_failure_event, command_outcome, decide_read, shutdown_event,
    started_event, ReadDecision, ReadOutcome,
};
use connect_io::transport::{datagram_gate, DatagramIo};
use connect_io::{
    AsyncTransportConfig, BroadcastSocket, ConnectionState, EventDrain, Ipv4Address, Ipv6Address,
    OpenedTransport, SessionCommand, SessionEvent, SessionRegistry, SessionTransport, SocketAddress, TransportConnectConfig,
    TransportError, UdpOperation,
};

fn udp_config() -> AsyncTransportConfig {
    AsyncTransportConfig::Udp {
        bind_addr: SocketAddress::V4 { ip: Ipv4Address { bits: 0 }, port: 0 },
        peer_addr: None,
    }
}

fn tcp_config() -> AsyncTransportConfig {
    AsyncTransportConfig::TcpClient {
        addr: SocketAddress::V4 { ip: Ipv4Address { bits: 0x7f00_0001 }, port: 8080 },
    }
}

fn opened(local_port: u16) -> Result<OpenedTransport<&'static str>, TransportError> {
    Ok(OpenedTransport {
        transport: "link",
        local_addr: Some(SocketAddress::V4 { ip: Ipv4Address { bits: 0x7f00_0001 }, port: local_port }),
        peer_addr: None,
    })
}

fn create(reg: &mut SessionRegistry<u32>, id: &str, config: AsyncTransportConfig, h: u32) -> Result<&'static str, String> {
    reg.create_session(id.to_string(), config, opened(1000), h)
}

#[test]
fn registry_create_find_close() {
    let mut reg: SessionRegistry<u32> = SessionRegistry::new();
    assert_eq!(create(&mut reg, "a", tcp_config(), 1), Ok("link"));
    assert!(reg.contains("a"));
    assert_eq!(reg.session("a").unwrap().handle, 1);
    assert_eq!(reg.session("a").unwrap().local_addr.unwrap().port(), 1000);
    assert_eq!(reg.check_available("a"), Err("Session 'a' already exists".to_string()));
    assert_eq!(reg.check_available("b"), Ok(()));
    assert_eq!(
        create(&mut reg, "a", udp_config(), 2),
        Err("Session 'a' already exists".to_string())
    );
    assert_eq!(reg.session("a").unwrap().handle, 1);
    assert!(create(&mut reg, "b", udp_config(), 2).is_ok());
    let failed: Result<OpenedTransport<&'static str>, TransportError> =
        Err(TransportError::ConnectionFailed("refused".into()));
    assert_eq!(
        reg.create_session("c".to_string(), tcp_config(), failed, 3),
        Err("Failed to create transport: Connection failed: refused".to_string())
    );
    assert!(!reg.contains("c"));
    assert_eq!(reg.close("a"), Ok(1));
    assert!(!reg.contains("a"));
    assert_eq!(reg.session("b").unwrap().handle, 2);
    match reg.session("a") {
        Err(m) => assert_eq!(m, "Session 'a' not found"),
        Ok(_) => panic!("closed session still found"),
    }
    assert_eq!(reg.close("a"), Err("Session 'a' not found".to_string()));
}

#[test]
fn registry_udp_only_operations() {
    let mut reg: SessionRegistry<u32> = SessionRegistry::new();
    create(&mut reg, "t", tcp_config(), 1).unwrap();
    create(&mut reg, "u", udp_config(), 2).unwrap();
    assert_eq!(reg.udp_session("u", UdpOperation::SetBroadcast).unwrap().handle, 2);
    match reg.udp_session("t", UdpOperation::SetBroadcast) {
        Err(m) => assert_eq!(m, "set_broadcast is only available for UDP sessions"),
        Ok(_) => panic!("tcp session accepted"),
    }
    match reg.udp_session("t", UdpOperation::JoinMulticastV6) {
        Err(m) => assert_eq!(m, "join_multicast_v6 is only available for UDP sessions"),
        Ok(_) => panic!("tcp session accepted"),
    }
    match reg.udp_session("zz", UdpOperation::SendTo) {
        Err(m) => assert_eq!(m, "Session 'zz' not found"),
        Ok(_) => panic!("missing session accepted"),
    }
}

#[test]
fn registry_list_and_cleanup() {
    let mut reg: SessionRegistry<u32> = SessionRegistry::new();
    create(&mut reg, "t", tcp_config(), 1).unwrap();
    create(&mut reg, "u", udp_config(), 2).unwrap();
    let server = AsyncTransportConfig::TcpServer {
        bind_addr: SocketAddress::V4 { ip: Ipv4Address { bits: 0 }, port: 80 },
    };
    create(&mut reg, "s", server, 3).unwrap();
    let mut list = reg.list_sessions();
    list.sort();
    assert_eq!(
        list,
        vec![
            ("s".to_string(), "tcp".to_string(), "server".to_string()),
            ("t".to_string(), "tcp".to_string(), "client".to_string()),
            ("u".to_string(), "udp".to_string(), "client".to_string()),
        ]
    );
    let infos = session_infos(list);
    assert_eq!(infos.len(), 3);
    assert_eq!(infos[0].session_id, "s");
    assert_eq!(infos[0].role, "server");
    let mut drained = reg.cleanup();
    drained.sort();
    assert_eq!(
        drained,
        vec![("s".to_string(), 3), ("t".to_string(), 1), ("u".to_string(), 2)]
    );
    assert!(reg.list_sessions().is_empty());
    assert!(!reg.contains("t"));
}

/// A stand-in socket that remembers the last broadcast setting and refuses
/// to switch when told to.
struct RecordingSocket {
    flag: std::cell::Cell<Option<bool>>,
    refuse: bool,
}

impl BroadcastSocket for RecordingSocket {
    fn set_broadcast(&self, flag: bool) -> Result<(), TransportError> {
        if self.refuse {
            return Err(TransportError::ConnectionFailed("refused".to_string()));
        }
        self.flag.set(Some(flag));
        Ok(())
    }
}

fn recording(refuse: bool) -> RecordingSocket {
    RecordingSocket { flag: std::cell::Cell::new(None), refuse }
}

#[test]
fn session_transport_refuses_udp_operations_elsewhere() {
    let tcp: SessionTransport<u8, RecordingSocket, u32> = SessionTransport::Tcp(1);
    let udp: SessionTransport<u8, RecordingSocket, u32> = SessionTransport::Udp(recording(false));
    assert!(udp.set_broadcast(true).is_ok());
    match &udp {
        SessionTransport::Udp(s) => assert_eq!(s.flag.get(), Some(true)),
        _ => unreachable!(),
    }
    let refusing: SessionTransport<u8, RecordingSocket, u32> = SessionTransport::Udp(recording(true));
    match refusing.set_broadcast(false) {
        Err(TransportError::ConnectionFailed(m)) => assert_eq!(m, "refused"),
        other => panic!("unexpected {:?}", other),
    }
    match tcp.set_broadcast(true) {
        Err(TransportError::Config(m)) => assert_eq!(m, "set_broadcast is only available for UDP"),
        other => panic!("unexpected {:?}", other),
    }
    let serial: SessionTransport<u8, RecordingSocket, u32> = SessionTransport::Serial(3);
    match serial.udp_target(UdpOperation::SendTo) {
        Err(e) => assert_eq!(e.to_string(), "Invalid configuration: send_to is only available for UDP"),
        Ok(_) => panic!("serial accepted send_to"),
    }
}

#[test]
fn task_startup_and_commands() {
    match started_event() {
        SessionEvent::StateChanged { state } => assert_eq!(state, ConnectionState::Connected),
        other => panic!("unexpected {:?}", other),
    }
    assert!(command_outcome(&SessionCommand::SetBroadcast { flag: true }, Ok(())).is_none());
    match command_outcome(&SessionCommand::SetBroadcast { flag: true }, Err("no".to_string())) {
        Some(SessionEvent::Error { message }) => assert_eq!(message, "SetBroadcast error: no"),
        other => panic!("unexpected {:?}", other),
    }
    assert!(matches!(shutdown_event(), SessionEvent::Closed));
    assert!(command_ends_session(&None));
    assert!(command_ends_session(&Some(SessionCommand::Close)));
    assert!(!command_ends_session(&Some(SessionCommand::SetBroadcast { flag: true })));
    match command_failure_event(&SessionCommand::Write { data: vec![1] }, "broken pipe") {
        SessionEvent::Error { message } => assert_eq!(message, "Write error: broken pipe"),
        other => panic!("unexpected {:?}", other),
    }
    match command_failure_event(
        &SessionCommand::JoinMulticastV4 {
            multiaddr: Ipv4Address { bits: 0xe000_0001 },
            iface: Ipv4Address { bits: 0 },
        },
        "x",
    ) {
        SessionEvent::Error { message } => assert_eq!(message, "JoinMulticastV4 error: x"),
        other => panic!("unexpected {:?}", other),
    }
}

#[test]
fn task_read_decisions() {
    let buf = [9u8, 8, 7, 6];
    match decide_read(ReadOutcome::Received(3), &buf) {
        ReadDecision::Deliver(data) => assert_eq!(data, vec![9, 8, 7]),
        other => panic!("unexpected {:?}", other),
    }
    match decide_read(ReadOutcome::Received(0), &buf) {
        ReadDecision::Stop(events) => match events.as_slice() {
            [SessionEvent::StateChanged { state }] => {
                assert_eq!(*state, ConnectionState::Disconnected)
            }
            other => panic!("unexpected {:?}", other),
        },
        other => panic!("unexpected {:?}", other),
    }
    assert!(matches!(decide_read(ReadOutcome::WouldBlock, &buf), ReadDecision::Idle));
    match decide_read(ReadOutcome::Failed("reset".to_string()), &buf) {
        ReadDecision::Stop(events) => match events.as_slice() {
            [SessionEvent::Error { message }, SessionEvent::StateChanged { state }] => {
                assert_eq!(message, "Read error: reset");
                assert_eq!(*state, ConnectionState::Disconnected);
            }
            other => panic!("unexpected {:?}", other),
        },
        other => panic!("unexpected {:?}", other),
    }
}

#[test]
fn read_collects_until_closed() {
    let events = vec![
        SessionEvent::DataReceived { data: vec![1, 2] },
        SessionEvent::StateChanged { state: ConnectionState::Connected },
        SessionEvent::Error { message: "w".to_string() },
        SessionEvent::DataReceived { data: vec![3] },
        SessionEvent::Closed,
        SessionEvent::DataReceived { data: vec![4] },
    ];
    let mut drain = EventDrain::new();
    let mut taken = 0;
    for e in events {
        if !drain.wants_more() {
            break;
        }
        drain.offer(e);
        taken += 1;
    }
    assert_eq!(taken, 5);
    let received = drain.finish();
    assert_eq!(received, vec![vec![1, 2], vec![3]]);
    assert_eq!(concat_chunks(&received), vec![1, 2, 3]);
    assert_eq!(concat_chunks(&Vec::new()), Vec::<u8>::new());
}

#[test]
fn connect_requests() {
    match plan_connect(
        "   ".to_string(),
        TransportConnectConfig::TcpClient { addr: "127.0.0.1:1".to_string() },
    ) {
        Ok(ConnectPlan::Rejected(res)) => {
            assert!(!res.success);
            assert_eq!(res.session_id, "   ");
            assert_eq!(res.message, "session_id must not be empty");
        }
        other => panic!("unexpected {:?}", other),
    }
    match plan_connect(
        "dev".to_string(),
        TransportConnectConfig::TcpClient { addr: "bad".to_string() },
    ) {
        Err(m) => assert!(m.starts_with("Invalid TCP address 'bad': ")),
        other => panic!("unexpected {:?}", other),
    }
    match plan_connect(
        "dev".to_string(),
        TransportConnectConfig::Udp { bind_addr: "0.0.0.0:0".to_string(), peer_addr: None },
    ) {
        Ok(ConnectPlan::Open { session_id, config }) => {
            assert_eq!(session_id, "dev");
            assert!(matches!(config, AsyncTransportConfig::Udp { .. }));
        }
        other => panic!("unexpected {:?}", other),
    }
    let ok = connect_accepted("dev".to_string());
    assert!(ok.success);
    assert_eq!(ok.message, "Session created and connecting");
}

#[test]
fn state_reports() {
    let local = Some(SocketAddress::V4 { ip: Ipv4Address { bits: 0x7f00_0001 }, port: 8080 });
    let peer = Some(SocketAddress::V6 { ip: Ipv6Address { bits: 1 }, port: 443, flowinfo: 0, scope_id: 0 });
    let info = state_info("x".to_string(), ConnectionState::Connected, &local, &peer);
    assert!(info.connected);
    assert_eq!(info.connection_state, "Connected");
    assert_eq!(info.local_addr.as_deref(), Some("127.0.0.1:8080"));
    assert_eq!(info.peer_addr.as_deref(), Some("[::1]:443"));
    let info = state_info("x".to_string(), ConnectionState::Connecting, &None, &None);
    assert!(info.local_addr.is_none() && info.peer_addr.is_none());
    assert!(!info.connected);
    assert_eq!(info.connection_state, "Connecting");
    assert_eq!(ConnectionState::from_connected(true), ConnectionState::Connected);
    assert_eq!(ConnectionState::from_connected(false), ConnectionState::Disconnected);
}

#[test]
fn multicast_addresses() {
    assert_eq!(
        parse_multicast_v4("224.0.0.1", "0.0.0.0"),
        Ok((Ipv4Address { bits: 0xe000_0001 }, Ipv4Address { bits: 0 }))
    );
    let e = parse_multicast_v4("224.0.0.x", "0.0.0.0").unwrap_err();
    assert!(e.starts_with("Invalid multicast address: "), "{}", e);
    let e = parse_multicast_v4("224.0.0.1", "eth0").unwrap_err();
    assert!(e.starts_with("Invalid interface address: "), "{}", e);
    assert_eq!(parse_multicast_v6("ff02::1"), Ok(Ipv6Address { bits: 0xff02_u128 << 112 | 1 }));
    let e = parse_multicast_v6("ff02::zz").unwrap_err();
    assert!(e.starts_with("Invalid IPv6 multicast address: "), "{}", e);
}

#[test]
fn datagram_gates() {
    assert_eq!(datagram_gate(true, DatagramIo::Write), Ok(()));
    assert_eq!(datagram_gate(false, DatagramIo::Read), Err("UDP socket not connected"));
    assert_eq!(
        datagram_gate(false, DatagramIo::Write),
        Err("UDP socket not connected, use send_to() instead")
    );
    assert_eq!(datagram_gate(false, DatagramIo::Poll), Err("UDP socket not connected"));
}
