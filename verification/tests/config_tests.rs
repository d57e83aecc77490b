#![allow(non_snake_case)]

use connect_io::commands::parse_send_to_address;
use connect_io::serial_params::{
    default_baud_rate, default_data_bits, default_flow_control, default_parity,
    default_stop_bits, parse_data_bits, parse_flow_control, parse_parity, parse_stop_bits,
};
use connect_io::transport::{TcpEndpoint, UdpEndpoint};
use connect_io::{
    AsyncTransportConfig, DataBits, FlowControl, Ipv4Address, Ipv6Address, Parity,
    SocketAddress, StopBits, TransportConfig, TransportConnectConfig, TransportError,
    TransportKind,
};

fn addr(text: &str) -> SocketAddress {
    parse_send_to_address(text).expect("parse addr")
}

fn v4(a: u8, b: u8, c: u8, d: u8, port: u16) -> SocketAddress {
    SocketAddress::V4 {
        ip: Ipv4Address { bits: u32::from_be_bytes([a, b, c, d]) },
        port,
    }
}

#[test]
fn FunEvent_config_tcp_client_constructs() {
    let a = addr("127.0.0.1:8080");
    let config = TransportConfig::TcpClient { addr: a };
    match config {
        TransportConfig::TcpClient { addr: got } => {
            assert_eq!(got, v4(127, 0, 0, 1, 8080));
        }
        _ => panic!("expected TcpClient variant"),
    }
}

#[test]
fn FunEvent_config_tcp_server_constructs() {
    let config = TransportConfig::TcpServer { bind_addr: addr("0.0.0.0:9000") };
    match config {
        TransportConfig::TcpServer { bind_addr } => {
            assert_eq!(bind_addr.port(), 9000);
        }
        _ => panic!("expected TcpServer variant"),
    }
}

#[test]
fn FunEvent_config_udp_with_peer_constructs() {
    let bind = addr("0.0.0.0:0");
    let peer = addr("192.168.1.1:5000");
    let config = TransportConfig::Udp { bind_addr: bind, peer_addr: Some(peer) };
    match config {
        TransportConfig::Udp { bind_addr, peer_addr } => {
            assert_eq!(bind_addr.port(), 0);
            assert_eq!(peer_addr, Some(peer));
        }
        _ => panic!("expected Udp variant"),
    }
}

#[test]
fn FunEvent_config_udp_without_peer_constructs() {
    let config = TransportConfig::Udp { bind_addr: addr("0.0.0.0:9999"), peer_addr: None };
    match config {
        TransportConfig::Udp { peer_addr, .. } => {
            assert!(peer_addr.is_none(), "peer_addr should be None");
        }
        _ => panic!("expected Udp variant"),
    }
}

#[test]
fn FunEvent_factory_invalid_config_error() {
    // Every configuration is routed to a transport family; none is refused
    // by the routing itself.
    let tcp = TransportConfig::TcpClient { addr: addr("127.0.0.1:8080") };
    let server = TransportConfig::TcpServer { bind_addr: addr("0.0.0.0:9000") };
    let udp = TransportConfig::Udp { bind_addr: addr("0.0.0.0:0"), peer_addr: None };
    assert_eq!(tcp.kind(), TransportKind::Tcp);
    assert_eq!(server.kind(), TransportKind::Tcp);
    assert_eq!(udp.kind(), TransportKind::Udp);
}

#[test]
fn FunEvent_serial_config_construction_valid() {
    let config = TransportConfig::Serial {
        port: "/dev/ttyUSB0".to_string(),
        baud_rate: 115200,
        data_bits: DataBits::Eight,
        stop_bits: StopBits::One,
        parity: Parity::NoParity,
        flow_control: FlowControl::NoFlowControl,
    };
    match &config {
        TransportConfig::Serial { port, baud_rate, .. } => {
            assert_eq!(port, "/dev/ttyUSB0");
            assert_eq!(*baud_rate, 115200);
        }
        _ => panic!("config should be Serial variant"),
    }
    assert_eq!(config.kind(), TransportKind::Serial);
}

#[test]
fn FunEvent_transport_config_clone_works() {
    let config = TransportConfig::TcpClient { addr: addr("127.0.0.1:8080") };
    let cloned = config.clone();
    match cloned {
        TransportConfig::TcpClient { .. } => {}
        _ => panic!("clone should preserve variant"),
    }
}

#[test]
fn FunEvent_transport_config_debug_format() {
    let config = TransportConfig::TcpServer { bind_addr: addr("10.0.0.1:9000") };
    let debug = format!("{:?}", config);
    assert!(
        debug.contains("TcpServer") || debug.contains("tcp"),
        "Debug output should contain type info, got: {}",
        debug
    );
}

#[test]
fn FunEvent_async_transport_config_clone_works() {
    let config = AsyncTransportConfig::TcpClient { addr: addr("192.168.1.1:8080") };
    match config.clone() {
        AsyncTransportConfig::TcpClient { .. } => {}
        _ => panic!("clone should preserve variant"),
    }
}

#[test]
fn FunEvent_async_transport_config_debug_format() {
    let config = AsyncTransportConfig::Udp { bind_addr: addr("10.0.0.1:9000"), peer_addr: None };
    let debug = format!("{:?}", config);
    assert!(
        debug.contains("Udp") || debug.contains("udp"),
        "Debug output should contain type info, got: {}",
        debug
    );
}

#[test]
fn socket_address_parsing() {
    assert_eq!(addr("127.0.0.1:8080"), v4(127, 0, 0, 1, 8080));
    match addr("[::1]:443") {
        SocketAddress::V6 { ip, port, flowinfo, scope_id } => {
            assert_eq!(ip, Ipv6Address { bits: 1 });
            assert_eq!(port, 443);
            assert_eq!(flowinfo, 0);
            assert_eq!(scope_id, 0);
        }
        other => panic!("expected V6, got {:?}", other),
    }
    let err = parse_send_to_address("not-an-address").unwrap_err();
    assert!(err.starts_with("Invalid address 'not-an-address': "), "{}", err);
    assert!(err.len() > "Invalid address 'not-an-address': ".len());
}

#[test]
fn try_from_tcp_client_parses_address() {
    let c = AsyncTransportConfig::try_from(TransportConnectConfig::TcpClient {
        addr: "127.0.0.1:8080".to_string(),
    })
    .unwrap();
    match c {
        AsyncTransportConfig::TcpClient { addr } => assert_eq!(addr, v4(127, 0, 0, 1, 8080)),
        other => panic!("unexpected {:?}", other),
    }
}

#[test]
fn try_from_reports_bad_addresses() {
    let e = AsyncTransportConfig::try_from(TransportConnectConfig::TcpClient {
        addr: "nope".to_string(),
    })
    .unwrap_err();
    assert!(e.starts_with("Invalid TCP address 'nope': "), "{}", e);
    let e = AsyncTransportConfig::try_from(TransportConnectConfig::TcpServer {
        bind_addr: "nope".to_string(),
    })
    .unwrap_err();
    assert!(e.starts_with("Invalid bind address 'nope': "), "{}", e);
    let e = AsyncTransportConfig::try_from(TransportConnectConfig::Udp {
        bind_addr: "x".to_string(),
        peer_addr: Some("y".to_string()),
    })
    .unwrap_err();
    assert!(e.starts_with("Invalid UDP bind address 'x': "), "{}", e);
    let e = AsyncTransportConfig::try_from(TransportConnectConfig::Udp {
        bind_addr: "0.0.0.0:0".to_string(),
        peer_addr: Some("y".to_string()),
    })
    .unwrap_err();
    assert!(e.starts_with("Invalid UDP peer address 'y': "), "{}", e);
}

#[test]
fn try_from_udp_and_serial() {
    let c = AsyncTransportConfig::try_from(TransportConnectConfig::Udp {
        bind_addr: "0.0.0.0:9000".to_string(),
        peer_addr: None,
    })
    .unwrap();
    match c {
        AsyncTransportConfig::Udp { bind_addr, peer_addr } => {
            assert_eq!(bind_addr, v4(0, 0, 0, 0, 9000));
            assert!(peer_addr.is_none());
        }
        other => panic!("unexpected {:?}", other),
    }
    let c = AsyncTransportConfig::try_from(TransportConnectConfig::Serial {
        port: "COM3".to_string(),
        baud_rate: 115200,
        data_bits: 7,
        stop_bits: 2,
        parity: "odd".to_string(),
        flow_control: "rts/cts".to_string(),
    })
    .unwrap();
    match c {
        AsyncTransportConfig::Serial { port, baud_rate, data_bits, stop_bits, parity, flow_control } => {
            assert_eq!(port, "COM3");
            assert_eq!(baud_rate, 115200);
            assert_eq!(data_bits, DataBits::Seven);
            assert_eq!(stop_bits, StopBits::Two);
            assert_eq!(parity, Parity::Odd);
            assert_eq!(flow_control, FlowControl::Hardware);
        }
        other => panic!("unexpected {:?}", other),
    }
    let e = AsyncTransportConfig::try_from(TransportConnectConfig::Serial {
        port: "COM3".to_string(),
        baud_rate: 9600,
        data_bits: 9,
        stop_bits: 3,
        parity: "x".to_string(),
        flow_control: "y".to_string(),
    })
    .unwrap_err();
    assert_eq!(e, "Invalid data_bits value 9, must be 5-8");
}

#[test]
fn serial_defaults_and_parsers() {
    assert_eq!(default_baud_rate(), 9600);
    assert_eq!(default_data_bits(), 8);
    assert_eq!(default_stop_bits(), 1);
    assert_eq!(default_parity(), "None");
    assert_eq!(default_flow_control(), "None");
    assert_eq!(parse_data_bits(default_data_bits()), Ok(DataBits::Eight));
    assert_eq!(parse_stop_bits(default_stop_bits()), Ok(StopBits::One));
    assert_eq!(parse_parity(&default_parity()), Ok(Parity::NoParity));
    assert_eq!(parse_flow_control(&default_flow_control()), Ok(FlowControl::NoFlowControl));
    assert_eq!(parse_data_bits(5), Ok(DataBits::Five));
    assert_eq!(parse_data_bits(6), Ok(DataBits::Six));
    assert_eq!(parse_data_bits(4), Err("Invalid data_bits value 4, must be 5-8".to_string()));
    assert_eq!(parse_data_bits(200), Err("Invalid data_bits value 200, must be 5-8".to_string()));
    assert_eq!(parse_stop_bits(0), Err("Invalid stop_bits value 0, must be 1 or 2".to_string()));
    assert_eq!(parse_stop_bits(17), Err("Invalid stop_bits value 17, must be 1 or 2".to_string()));
    assert_eq!(parse_parity("e"), Ok(Parity::Even));
    assert_eq!(parse_parity("N"), Ok(Parity::NoParity));
    assert_eq!(
        parse_parity("mark"),
        Err("Invalid parity 'MARK', expected None/Odd/Even".to_string())
    );
    assert_eq!(parse_flow_control("software"), Ok(FlowControl::Software));
    assert_eq!(parse_flow_control("XON/XOFF"), Ok(FlowControl::Software));
    assert_eq!(parse_flow_control("Hardware"), Ok(FlowControl::Hardware));
    assert_eq!(
        parse_flow_control("dtr"),
        Err("Invalid flow_control 'DTR', expected None/Hardware/Software".to_string())
    );
}

#[test]
fn endpoints_of_configurations() {
    let tcp = TransportConfig::TcpClient { addr: v4(1, 2, 3, 4, 5) };
    assert_eq!(tcp.tcp_endpoint().unwrap(), TcpEndpoint::Connect(v4(1, 2, 3, 4, 5)));
    match tcp.udp_endpoint() {
        Err(TransportError::Config(m)) => assert_eq!(m, "Expected UDP config"),
        other => panic!("unexpected {:?}", other),
    }
    let server = AsyncTransportConfig::TcpServer { bind_addr: v4(0, 0, 0, 0, 80) };
    assert_eq!(server.tcp_endpoint().unwrap(), TcpEndpoint::Accept(v4(0, 0, 0, 0, 80)));
    let udp = TransportConfig::Udp { bind_addr: v4(0, 0, 0, 0, 1), peer_addr: None };
    assert_eq!(
        udp.udp_endpoint().unwrap(),
        UdpEndpoint { bind_addr: v4(0, 0, 0, 0, 1), peer_addr: None }
    );
    match udp.tcp_endpoint() {
        Err(TransportError::Config(m)) => assert_eq!(m, "Expected TCP config"),
        other => panic!("unexpected {:?}", other),
    }
    match udp.into_serial_settings() {
        Err(TransportError::Config(m)) => assert_eq!(m, "Expected Serial config"),
        other => panic!("unexpected {:?}", other),
    }
}

#[test]
fn protocol_and_role_names() {
    let server = AsyncTransportConfig::TcpServer { bind_addr: v4(0, 0, 0, 0, 80) };
    assert_eq!(server.protocol_name(), "tcp");
    assert_eq!(server.role_name(), "server");
    assert_eq!(server.variant_name(), "TcpServer");
    let udp = AsyncTransportConfig::Udp { bind_addr: v4(0, 0, 0, 0, 1), peer_addr: None };
    assert_eq!(udp.protocol_name(), "udp");
    assert_eq!(udp.role_name(), "client");
    assert_eq!(udp.kind(), TransportKind::Udp);
}
