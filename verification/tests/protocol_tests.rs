//! Byte-level exercises of the protocol engine: greetings, requests,
//! replies, command outcomes, and the relay, on concrete wire values.

use rhoxy_socks::address::DestAddr;
use rhoxy_socks::address::IpAddress;
use rhoxy_socks::command::Command;
use rhoxy_socks::command::CommandPlan;
use rhoxy_socks::command::CommandResult;
use rhoxy_socks::command::connect_result;
use rhoxy_socks::driver::CloseReason;
use rhoxy_socks::driver::ConnectionEvent;
use rhoxy_socks::driver::ConnectionPhase;
use rhoxy_socks::error::IoErrorKind;
use rhoxy_socks::error::SocksError;
use rhoxy_socks::method::ClientGreeting;
use rhoxy_socks::method::HandshakeError;
use rhoxy_socks::method::Method;
use rhoxy_socks::method::MethodHandler;
use rhoxy_socks::relay::RelayAction;
use rhoxy_socks::relay::relay_step;
use rhoxy_socks::request::SocksRequest;
use rhoxy_socks::wire::encode_error_reply;
use rhoxy_socks::wire::encode_reply;
use rhoxy_socks::wire::encode_socks_error_reply;

#[test]
fn test_greeting_with_no_auth_answered_with_no_auth() {
    // Any well-formed greeting offering no-auth gets exactly [0x05, 0x00].
    let (greeting, used) = MethodHandler::parse_client_greeting(&[0x05, 0x02, 0x00, 0x02])
        .expect("greeting should parse");
    assert_eq!(used, 4);
    assert_eq!(greeting.version, 0x05);
    assert_eq!(greeting.nmethods, 2);
    assert_eq!(greeting.methods, vec![0x00, 0x02]);

    let (frame, outcome) = MethodHandler::handle_client_methods(&greeting.methods, &[0x00]);
    assert_eq!(frame, vec![0x05, 0x00]);
    assert!(outcome.is_ok());
}

#[test]
fn test_greeting_disjoint_from_server_answered_with_ff() {
    // Only GSSAPI offered against a no-auth-only server: exactly [0x05, 0xFF].
    let (greeting, _) =
        MethodHandler::parse_client_greeting(&[0x05, 0x01, 0x01]).expect("greeting should parse");
    let (frame, outcome) = MethodHandler::handle_client_methods(&greeting.methods, &[0x00]);
    assert_eq!(frame, vec![0x05, 0xFF]);
    assert_eq!(outcome, Err(HandshakeError::NoAcceptableMethods));
}

#[test]
fn test_greeting_invalid_version_rejected_without_reply() {
    let result = MethodHandler::parse_client_greeting(&[0x04, 0x01, 0x00]);
    assert_eq!(result.unwrap_err(), HandshakeError::InvalidVersion(0x04));
}

#[test]
fn test_greeting_zero_methods_rejected() {
    let result = MethodHandler::parse_client_greeting(&[0x05, 0x00]);
    assert_eq!(result.unwrap_err(), HandshakeError::NoMethodsProvided);
}

#[test]
fn test_greeting_truncated_reports_eof() {
    assert_eq!(
        MethodHandler::parse_client_greeting(&[]).unwrap_err(),
        HandshakeError::UnexpectedEof
    );
    assert_eq!(
        MethodHandler::parse_client_greeting(&[0x05]).unwrap_err(),
        HandshakeError::UnexpectedEof
    );
    assert_eq!(
        MethodHandler::parse_client_greeting(&[0x05, 0x03, 0x00]).unwrap_err(),
        HandshakeError::UnexpectedEof
    );
}

#[test]
fn test_greeting_max_methods() {
    let mut bytes = vec![0x05, 0xFF];
    bytes.extend(std::iter::repeat(0x00).take(255));
    let (greeting, used) =
        MethodHandler::parse_client_greeting(&bytes).expect("greeting should parse");
    assert_eq!(used, 257);
    assert_eq!(greeting.nmethods, 255);
    assert_eq!(greeting.methods.len(), 255);
}

#[test]
fn test_parse_request_ipv4() {
    let bytes = [0x05, 0x01, 0x00, 0x01, 0x7F, 0x00, 0x00, 0x01, 0x1F, 0x90];
    let (frame, used) = SocksRequest::parse_request(&bytes).expect("request should parse");
    assert_eq!(used, 10);
    assert_eq!(frame.version, 0x05);
    assert_eq!(frame.command, 0x01);
    assert_eq!(frame.reserved, 0x00);
    assert_eq!(frame.address_type, 0x01);
    assert_eq!(frame.dest, DestAddr::Ip(IpAddress::V4(vec![127, 0, 0, 1])));
    assert_eq!(frame.dest_port, 8080);
}

#[test]
fn test_parse_request_ipv6() {
    let mut bytes = vec![0x05, 0x01, 0x00, 0x04];
    bytes.extend([0u8; 15]);
    bytes.push(1);
    bytes.extend([0x01, 0xBB]);
    let (frame, used) = SocksRequest::parse_request(&bytes).expect("request should parse");
    assert_eq!(used, 22);
    let mut expected = vec![0u8; 15];
    expected.push(1);
    assert_eq!(frame.dest, DestAddr::Ip(IpAddress::V6(expected)));
    assert_eq!(frame.dest_port, 443);
}

#[test]
fn test_parse_request_domain() {
    let mut bytes = vec![0x05, 0x01, 0x00, 0x03, 10];
    bytes.extend(b"google.com");
    bytes.extend([0x00, 0x50]);
    let (frame, used) = SocksRequest::parse_request(&bytes).expect("request should parse");
    assert_eq!(used, 17);
    assert_eq!(frame.dest, DestAddr::Domain(b"google.com".to_vec()));
    assert_eq!(frame.dest_port, 80);
    assert_eq!(frame.domain().cloned(), Some(b"google.com".to_vec()));
}

#[test]
fn test_parse_request_domain_empty() {
    let bytes = [0x05, 0x01, 0x00, 0x03, 0x00, 0x00, 0x50];
    assert_eq!(
        SocksRequest::parse_request(&bytes).unwrap_err(),
        SocksError::EmptyDomainName
    );
}

#[test]
fn test_parse_request_domain_invalid_utf8() {
    let bytes = [0x05, 0x01, 0x00, 0x03, 0x03, 0xFF, 0xFE, 0xFD, 0x00, 0x50];
    assert_eq!(
        SocksRequest::parse_request(&bytes).unwrap_err(),
        SocksError::InvalidDomainNameEncoding
    );
}

#[test]
fn test_parse_request_domain_valid_utf8_accepted() {
    // The same shape as the invalid-UTF-8 frame, with decodable bytes: the
    // UTF-8 judgement really looks at the bytes.
    let bytes = [0x05, 0x01, 0x00, 0x03, 0x03, b'a', b'b', b'c', 0x00, 0x50];
    let (frame, _) = SocksRequest::parse_request(&bytes).expect("request should parse");
    assert_eq!(frame.dest, DestAddr::Domain(b"abc".to_vec()));
}

#[test]
fn test_parse_request_unknown_address_type() {
    // A request with an unrecognised address type yields reply code 0x08.
    let bytes = [0x05, 0x01, 0x00, 0x99, 0x7F, 0x00, 0x00, 0x01, 0x1F, 0x90];
    let err = SocksRequest::parse_request(&bytes).unwrap_err();
    assert_eq!(err, SocksError::UnsupportedAddressType(0x99));
    assert_eq!(err.to_reply_code(), 0x08);
    assert_eq!(
        encode_socks_error_reply(&err),
        vec![0x05, 0x08, 0x00, 0x01, 0x00, 0x00, 0x00, 0x00, 0x00, 0x00]
    );
}

#[test]
fn test_parse_request_bad_version_reports_general_failure() {
    // A complete frame with version 4: reply code 0x01 behind a 0x05 header.
    let bytes = [0x04, 0x01, 0x00, 0x01, 0x7F, 0x00, 0x00, 0x01, 0x00, 0x50];
    let err = SocksRequest::parse_request(&bytes).unwrap_err();
    assert_eq!(err, SocksError::InvalidVersion(0x04));
    assert_eq!(err.to_reply_code(), 0x01);
    let reply = encode_socks_error_reply(&err);
    assert_eq!(reply[0], 0x05);
    assert_eq!(reply[1], 0x01);
    assert_eq!(reply.len(), 10);
}

#[test]
fn test_parse_request_bad_reserved_reports_general_failure() {
    let bytes = [0x05, 0x01, 0x01, 0x01, 0x7F, 0x00, 0x00, 0x01, 0x00, 0x50];
    let err = SocksRequest::parse_request(&bytes).unwrap_err();
    assert_eq!(err, SocksError::InvalidReservedByte(0x01));
    assert_eq!(err.to_reply_code(), 0x01);
}

#[test]
fn test_parse_request_truncated_everywhere() {
    // Every prefix short of a complete frame reports end of input.
    let full = [0x05u8, 0x01, 0x00, 0x01, 0x7F, 0x00, 0x00, 0x01, 0x1F, 0x90];
    for n in 0..full.len() {
        assert_eq!(
            SocksRequest::parse_request(&full[..n]).unwrap_err(),
            SocksError::IoError(IoErrorKind::UnexpectedEof),
            "prefix of {} bytes",
            n
        );
    }
}

#[test]
fn test_parse_request_port_boundaries() {
    let zero = [0x05, 0x01, 0x00, 0x01, 0x7F, 0x00, 0x00, 0x01, 0x00, 0x00];
    let (frame, _) = SocksRequest::parse_request(&zero).expect("Should parse port 0");
    assert_eq!(frame.dest_port, 0);

    let max = [0x05, 0x01, 0x00, 0x01, 0x7F, 0x00, 0x00, 0x01, 0xFF, 0xFF];
    let (frame, _) = SocksRequest::parse_request(&max).expect("Should parse port 65535");
    assert_eq!(frame.dest_port, 65535);
}

#[test]
fn test_resolution_outcomes() {
    let make_frame = || {
        let mut bytes = vec![0x05, 0x01, 0x00, 0x03, 7];
        bytes.extend(b"example");
        bytes.extend([0x00, 0x50]);
        SocksRequest::parse_request(&bytes).expect("request should parse").0
    };

    // Resolver failure maps to DNS resolution failed.
    assert_eq!(
        make_frame().resolved_request(None).unwrap_err(),
        SocksError::DnsResolutionFailed
    );

    // An empty answer maps to no addresses resolved.
    assert_eq!(
        make_frame().resolved_request(Some(vec![])).unwrap_err(),
        SocksError::NoAddressesResolved
    );

    // The first resolved address is taken.
    let request = make_frame()
        .resolved_request(Some(vec![
            IpAddress::V4(vec![93, 184, 216, 34]),
            IpAddress::V4(vec![10, 0, 0, 1]),
        ]))
        .expect("resolution should succeed");
    assert_eq!(request.dest_addr, IpAddress::V4(vec![93, 184, 216, 34]));
    assert_eq!(request.dest_port, 80);
    assert_eq!(request.address_type, 0x03);
}

#[test]
fn test_dispatch_connect_and_stubs() {
    let request = SocksRequest {
        version: 5,
        command: 0x01,
        reserved: 0,
        address_type: 1,
        dest_addr: IpAddress::V4(vec![127, 0, 0, 1]),
        dest_port: 8080,
    };
    match Command::Connect.execute(request) {
        CommandPlan::Connect { dest_addr, dest_port } => {
            assert_eq!(dest_addr, IpAddress::V4(vec![127, 0, 0, 1]));
            assert_eq!(dest_port, 8080);
        }
        CommandPlan::Refuse(_) => panic!("CONNECT must open a target"),
    }

    for command in [Command::Bind, Command::UdpAssociate] {
        let request = SocksRequest {
            version: 5,
            command: command.as_u8(),
            reserved: 0,
            address_type: 1,
            dest_addr: IpAddress::V4(vec![127, 0, 0, 1]),
            dest_port: 8080,
        };
        match command.execute(request) {
            CommandPlan::Refuse(result) => {
                assert_eq!(result.reply_code, 0x07);
                assert_eq!(
                    result.encode_reply(),
                    vec![0x05, 0x07, 0x00, 0x01, 0x00, 0x00, 0x00, 0x00, 0x00, 0x00]
                );
            }
            CommandPlan::Connect { .. } => panic!("{} must be refused", command.name()),
        }
    }
}

#[test]
fn test_unknown_command_reply() {
    // An unknown command octet yields the command-not-supported reply.
    assert_eq!(Command::parse_command(0x09), None);
    let err = SocksError::UnsupportedCommand(0x09);
    assert_eq!(err.to_reply_code(), 0x07);
    assert_eq!(
        encode_error_reply(0x07),
        vec![0x05, 0x07, 0x00, 0x01, 0x00, 0x00, 0x00, 0x00, 0x00, 0x00]
    );
}

#[test]
fn test_connect_success_reply_lengths() {
    // A successful CONNECT reply is 4 + len(bind_addr) + 2 octets long.
    let v4 = connect_result(Ok((IpAddress::V4(vec![192, 168, 1, 1]), 3128)));
    assert_eq!(v4.reply_code, 0x00);
    let frame = v4.encode_reply();
    assert_eq!(frame.len(), 10);
    assert_eq!(
        frame,
        vec![0x05, 0x00, 0x00, 0x01, 192, 168, 1, 1, 0x0C, 0x38]
    );

    let mut octets = vec![0u8; 15];
    octets.push(1);
    let v6 = connect_result(Ok((IpAddress::V6(octets.clone()), 8080)));
    let frame = v6.encode_reply();
    assert_eq!(frame.len(), 22);
    assert_eq!(frame[0], 0x05);
    assert_eq!(frame[1], 0x00);
    assert_eq!(frame[3], 0x04);
    assert_eq!(&frame[4..20], octets.as_slice());
    assert_eq!(&frame[20..22], &[0x1F, 0x90]);
}

#[test]
fn test_connect_error_classification() {
    let cases = [
        (IoErrorKind::ConnectionRefused, 0x05u8),
        (IoErrorKind::TimedOut, 0x04),
        (IoErrorKind::AddrNotAvailable, 0x04),
        (IoErrorKind::NetworkUnreachable, 0x03),
        (IoErrorKind::PermissionDenied, 0x02),
        (IoErrorKind::BrokenPipe, 0x01),
    ];
    for (kind, code) in cases {
        let result = connect_result(Err(kind));
        assert_eq!(result.reply_code, code);
        let frame = result.encode_reply();
        assert_eq!(frame[1], code);
        assert_eq!(
            frame[2..],
            [0x00, 0x01, 0x00, 0x00, 0x00, 0x00, 0x00, 0x00]
        );
    }
}

#[test]
fn test_connection_refused_reply_bytes() {
    // Port 1 refused: the reply is 05 05 00 01 00 00 00 00 00 00.
    let result = connect_result(Err(IoErrorKind::ConnectionRefused));
    assert_eq!(
        result.encode_reply(),
        vec![0x05, 0x05, 0x00, 0x01, 0x00, 0x00, 0x00, 0x00, 0x00, 0x00]
    );
}

#[test]
fn test_command_result_accessors() {
    let ok = CommandResult::success(IpAddress::V4(vec![127, 0, 0, 1]), 80);
    assert!(ok.is_success());
    assert!(!ok.is_error());
    assert_eq!(ok.reply_code(), 0x00);

    let err = CommandResult::from_socks_error(&SocksError::EmptyDomainName);
    assert!(err.is_error());
    assert_eq!(err.reply_code(), 0x01);
    assert_eq!(err.bind_addr, IpAddress::V4(vec![0, 0, 0, 0]));
    assert_eq!(err.bind_port, 0);
}

#[test]
fn test_encode_reply_port_boundaries() {
    let addr = vec![127, 0, 0, 1];
    let frame = encode_reply(0x00, 0x01, &addr, 0);
    assert_eq!(&frame[8..10], &[0x00, 0x00]);
    let frame = encode_reply(0x00, 0x01, &addr, 65535);
    assert_eq!(&frame[8..10], &[0xFF, 0xFF]);
}

#[test]
fn test_relay_forwards_bytes_unchanged() {
    // Round trip: every chunk is forwarded byte for byte until end of
    // stream, and the concatenation of forwarded chunks is the input.
    let chunks: Vec<Vec<u8>> = vec![b"hello".to_vec(), b" ".to_vec(), b"world".to_vec()];
    let mut forwarded: Vec<u8> = Vec::new();
    for chunk in &chunks {
        match relay_step(Ok(chunk.clone())) {
            RelayAction::Forward(bytes) => forwarded.extend(bytes),
            _ => panic!("a non-empty chunk must be forwarded"),
        }
    }
    assert_eq!(forwarded, b"hello world".to_vec());

    assert!(matches!(relay_step(Ok(vec![])), RelayAction::Stop));
    assert!(matches!(
        relay_step(Err(IoErrorKind::BrokenPipe)),
        RelayAction::Fail(IoErrorKind::BrokenPipe)
    ));
}

#[test]
fn test_driver_walks_to_completion() {
    let mut phase = ConnectionPhase::Init;
    for event in [
        ConnectionEvent::Accepted,
        ConnectionEvent::GreetingAccepted,
        ConnectionEvent::RequestAccepted,
        ConnectionEvent::ReplySent,
        ConnectionEvent::RelayEnded,
    ] {
        phase = phase.advance(event).expect("transition must exist");
    }
    assert_eq!(phase, ConnectionPhase::Closed(CloseReason::Completed));
    assert!(phase.is_closed());
    assert_eq!(phase.advance(ConnectionEvent::RelayEnded), None);
}

#[test]
fn test_driver_timeouts_classified() {
    assert_eq!(
        ConnectionPhase::Handshake.advance(ConnectionEvent::HandshakeTimedOut),
        Some(ConnectionPhase::Closed(CloseReason::HandshakeTimeout))
    );
    assert_eq!(
        ConnectionPhase::Relay.advance(ConnectionEvent::ConnectionTimedOut),
        Some(ConnectionPhase::Closed(CloseReason::ConnectionTimeout))
    );
    assert_eq!(
        ConnectionPhase::Handshake.advance(ConnectionEvent::GreetingRejected),
        Some(ConnectionPhase::Closed(CloseReason::HandshakeFailed))
    );
}

#[test]
fn test_io_error_message_exact() {
    let io_error = SocksError::InvalidVersion(4).to_io_error();
    assert_eq!(io_error.message, "Invalid SOCKS version: 4");
    let io_error = SocksError::InvalidReservedByte(255).to_io_error();
    assert_eq!(io_error.message, "Invalid reserved byte: 255");
    let io_error = SocksError::UnsupportedCommand(0).to_io_error();
    assert_eq!(io_error.message, "Unsupported command: 0");
}

#[test]
fn test_auth_methods_variants() {
    let config = |methods: &str| rhoxy_socks::config::ProxyConfig {
        host: "localhost".to_string(),
        port: 1080,
        verbose: false,
        max_connections: 1000,
        handshake_timeout: 30,
        connection_timeout: 30,
        buffer_size: 32,
        tcp_nodelay: true,
        auth_methods: methods.to_string(),
    };

    assert_eq!(config("none").supported_auth_methods(), vec![0x00]);
    assert_eq!(config(" None ").supported_auth_methods(), vec![0x00]);
    assert_eq!(config("none,none").supported_auth_methods(), vec![0x00, 0x00]);
    assert_eq!(config("none, userpass").supported_auth_methods(), vec![0x00]);
    // No recognised name: fall back to no-auth.
    assert_eq!(config("userpass,gssapi").supported_auth_methods(), vec![0x00]);
    assert_eq!(config("").supported_auth_methods(), vec![0x00]);
}

#[test]
fn test_validate_messages() {
    let mut config = rhoxy_socks::config::ProxyConfig {
        host: "localhost".to_string(),
        port: 1080,
        verbose: false,
        max_connections: 1000,
        handshake_timeout: 30,
        connection_timeout: 30,
        buffer_size: 32,
        tcp_nodelay: true,
        auth_methods: "none".to_string(),
    };
    config.max_connections = 0;
    assert_eq!(
        config.validate().unwrap_err(),
        "Max connections must be greater than 0"
    );
    config.max_connections = 1000;
    config.buffer_size = 0;
    assert_eq!(config.validate().unwrap_err(), "Buffer size must be greater than 0");
    config.buffer_size = 2048;
    assert_eq!(config.validate().unwrap_err(), "Buffer size cannot exceed 1024 KB");
}

#[test]
fn test_greeting_helpers() {
    let greeting = ClientGreeting {
        version: 0x05,
        nmethods: 3,
        methods: vec![0x00, 0x02, 0x42],
    };
    assert!(greeting.supports_method(Method::NoAuthenticationRequired));
    assert!(greeting.supports_method(Method::UsernamePassword));
    assert!(!greeting.supports_method(Method::Gssapi));
    assert_eq!(
        greeting.get_supported_methods(),
        vec![Method::NoAuthenticationRequired, Method::UsernamePassword]
    );
}
