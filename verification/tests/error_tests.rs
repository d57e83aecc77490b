#![allow(non_snake_case)]

use connect_io::{SerialError, SerialErrorKind, TransportError};

#[test]
fn FunEvent_display_io_error_format() {
    let io_err = std::io::Error::new(std::io::ErrorKind::NotFound, "device not found");
    let err = TransportError::Io(io_err);
    let display = err.to_string();

    assert!(
        display.contains("IO error"),
        "Io Display should start with 'IO error:', got: '{}'",
        display
    );
    assert!(
        display.contains("device not found"),
        "Io Display should contain original message, got: '{}'",
        display
    );
}

#[test]
fn FunEvent_display_config_error_format() {
    let err = TransportError::Config("bad baud rate".into());
    let display = err.to_string();

    assert!(
        display.contains("Invalid configuration"),
        "Config Display should contain 'Invalid configuration', got: '{}'",
        display
    );
    assert!(
        display.contains("bad baud rate"),
        "Config Display should contain detail, got: '{}'",
        display
    );
}

#[test]
fn FunEvent_display_connection_failed_format() {
    let err = TransportError::ConnectionFailed("timeout after 30s".into());
    let display = err.to_string();

    assert!(
        display.contains("Connection failed"),
        "ConnectionFailed Display should contain 'Connection failed', got: '{}'",
        display
    );
    assert!(
        display.contains("timeout after 30s"),
        "ConnectionFailed Display should contain detail, got: '{}'",
        display
    );
}

#[test]
fn FunEvent_display_serial_error_format() {
    let _dummy_msg = "simulated serial error";
    let _format_check = || -> String {
        let _: TransportError = TransportError::from(serialport::Error::new(
            serialport::ErrorKind::NoDevice,
            "no device",
        ));
        String::new()
    };
    let _ = _format_check;
}

#[test]
fn FunEvent_from_io_broken_pipe() {
    let io_err = std::io::Error::new(std::io::ErrorKind::BrokenPipe, "pipe broken");
    let transport_err = TransportError::from(io_err);

    match transport_err {
        TransportError::Io(inner) => {
            assert_eq!(inner.kind(), std::io::ErrorKind::BrokenPipe);
            let msg = format!("{}", inner);
            assert!(msg.contains("pipe broken"));
        }
        other => panic!("expected Io variant, got: {:?}", other),
    }
}

#[test]
fn FunEvent_from_io_connection_refused() {
    let io_err = std::io::Error::new(std::io::ErrorKind::ConnectionRefused, "connection refused");
    let transport_err = TransportError::from(io_err);

    match transport_err {
        TransportError::Io(inner) => {
            assert_eq!(inner.kind(), std::io::ErrorKind::ConnectionRefused);
        }
        other => panic!("expected Io variant, got: {:?}", other),
    }
}

#[test]
fn FunEvent_from_io_timed_out() {
    let io_err = std::io::Error::new(std::io::ErrorKind::TimedOut, "operation timed out");
    let transport_err = TransportError::from(io_err);

    let display = transport_err.to_string();
    assert!(display.contains("operation timed out"));

    match transport_err {
        TransportError::Io(inner) => {
            assert_eq!(inner.kind(), std::io::ErrorKind::TimedOut);
        }
        other => panic!("expected Io variant, got: {:?}", other),
    }
}

#[test]
fn FunEvent_from_io_addr_in_use() {
    let io_err = std::io::Error::new(std::io::ErrorKind::AddrInUse, "port in use");
    let transport_err = TransportError::from(io_err);

    match transport_err {
        TransportError::Io(inner) => {
            assert_eq!(inner.kind(), std::io::ErrorKind::AddrInUse);
        }
        other => panic!("expected Io variant, got: {:?}", other),
    }
}

#[test]
fn FunEvent_from_io_not_found() {
    let io_err = std::io::Error::new(std::io::ErrorKind::NotFound, "file missing");
    let transport_err = TransportError::from(io_err);

    assert!(matches!(transport_err, TransportError::Io(_)));
    let display = transport_err.to_string();
    assert!(display.contains("file missing"));
}

#[test]
fn FunEvent_from_serial_error_conversion() {
    let serial_err =
        serialport::Error::new(serialport::ErrorKind::InvalidInput, "invalid parameter value");
    let transport_err = TransportError::from(serial_err);

    let display = transport_err.to_string();
    assert!(
        display.contains("Serial port error"),
        "Serial Display should contain 'Serial port error', got: '{}'",
        display
    );
    assert!(
        display.contains("invalid parameter value"),
        "Serial Display should contain original message"
    );

    match transport_err {
        TransportError::Serial(inner) => {
            assert_eq!(inner.kind, SerialErrorKind::InvalidInput);
            assert_eq!(inner.description, "invalid parameter value");
        }
        other => panic!("expected Serial variant, got: {:?}", other),
    }
}

#[test]
fn FunEvent_config_error_manual_construct() {
    let err = TransportError::Config("empty address".to_string());

    match &err {
        TransportError::Config(msg) => {
            assert_eq!(msg, "empty address");
        }
        _ => panic!("expected Config variant"),
    }

    let debug_str = format!("{:?}", err);
    assert!(
        debug_str.contains("Config") || debug_str.contains("config"),
        "Debug output should mention Config variant"
    );
}

#[test]
fn FunEvent_connection_failed_manual_construct() {
    let err = TransportError::ConnectionFailed("host unreachable".to_string());

    match &err {
        TransportError::ConnectionFailed(msg) => {
            assert_eq!(msg, "host unreachable");
        }
        _ => panic!("expected ConnectionFailed variant"),
    }

    let debug_str = format!("{:?}", err);
    assert!(
        debug_str.contains("ConnectionFailed") || debug_str.contains("connection_failed"),
        "Debug output should mention ConnectionFailed variant"
    );
}

#[test]
fn FunEvent_error_is_send_and_sync() {
    fn assert_send_sync<T: Send + Sync>() {}

    assert_send_sync::<TransportError>();
}

#[test]
fn FunEvent_all_variants_covered() {
    let variants: Vec<TransportError> = vec![
        TransportError::Io(std::io::Error::new(std::io::ErrorKind::Other, "generic io")),
        TransportError::Config("config issue".into()),
        TransportError::ConnectionFailed("conn issue".into()),
    ];

    for (i, err) in variants.iter().enumerate() {
        let display = err.to_string();
        assert!(
            !display.is_empty(),
            "variant {} should produce non-empty Display",
            i
        );

        let debug_str = format!("{:?}", err);
        assert!(
            !debug_str.is_empty(),
            "variant {} should produce non-empty Debug",
            i
        );
    }
}

#[test]
fn FunEvent_error_config_variant() {
    let err = TransportError::Config("test config error".into());
    let msg = err.to_string();
    assert!(
        msg.contains("Invalid configuration"),
        "Config error Display should contain 'Invalid configuration', got: {}",
        msg
    );
    assert!(
        msg.contains("test config error"),
        "Config error Display should contain original message"
    );
}

#[test]
fn FunEvent_error_connection_failed_variant() {
    let err = TransportError::ConnectionFailed("peer refused".into());
    let msg = err.to_string();
    assert!(
        msg.contains("Connection failed"),
        "ConnectionFailed Display should contain prefix"
    );
    assert!(
        msg.contains("peer refused"),
        "ConnectionFailed Display should contain detail"
    );
}

#[test]
fn FunEvent_error_io_from_conversion() {
    let io_err = std::io::Error::new(std::io::ErrorKind::BrokenPipe, "pipe broken");
    let transport_err = TransportError::from(io_err);
    let msg = transport_err.to_string();
    assert!(
        msg.contains("IO error"),
        "Io variant Display should contain 'IO error'"
    );
    assert!(
        msg.contains("pipe broken"),
        "Io variant Display should contain original io message"
    );
}

#[test]
fn error_texts_are_exact() {
    assert_eq!(
        TransportError::Config("x".into()).to_string(),
        "Invalid configuration: x"
    );
    assert_eq!(
        TransportError::ConnectionFailed("y".into()).to_string(),
        "Connection failed: y"
    );
    let serial = TransportError::from(serialport::Error::new(
        serialport::ErrorKind::NoDevice,
        "no device",
    ));
    assert_eq!(serial.to_string(), "Serial port error: no device");
    let io_kind = TransportError::from(serialport::Error::new(
        serialport::ErrorKind::Io(std::io::ErrorKind::PermissionDenied),
        "busy",
    ));
    match &io_kind {
        TransportError::Serial(e) => {
            assert_eq!(e.kind, SerialErrorKind::Io(std::io::ErrorKind::PermissionDenied))
        }
        other => panic!("expected Serial variant, got: {:?}", other),
    }
    let direct = TransportError::Serial(SerialError {
        kind: SerialErrorKind::Unknown,
        description: "odd".to_string(),
    });
    assert_eq!(direct.to_string(), "Serial port error: odd");
    let io = TransportError::Io(std::io::Error::new(std::io::ErrorKind::Other, "boom"));
    assert_eq!(io.to_string(), "IO error: boom");
}

#[test]
fn serial_error_conversion_keeps_every_kind_and_description() {
    let cases = [
        (serialport::ErrorKind::NoDevice, SerialErrorKind::NoDevice),
        (serialport::ErrorKind::InvalidInput, SerialErrorKind::InvalidInput),
        (serialport::ErrorKind::Unknown, SerialErrorKind::Unknown),
        (
            serialport::ErrorKind::Io(std::io::ErrorKind::TimedOut),
            SerialErrorKind::Io(std::io::ErrorKind::TimedOut),
        ),
    ];
    for (outside, expected) in cases {
        match TransportError::from(serialport::Error::new(outside, "port gone")) {
            TransportError::Serial(e) => {
                assert_eq!(e.kind, expected);
                assert_eq!(e.description, "port gone");
            }
            other => panic!("expected Serial variant, got: {:?}", other),
        }
    }
}

#[test]
fn io_error_text_carries_the_message() {
    let err = TransportError::Io(std::io::Error::new(std::io::ErrorKind::NotFound, "device not found"));
    assert_eq!(err.to_string(), "IO error: device not found");
}
