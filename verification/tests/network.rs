use pg_documentdb_gw::address::{ipv4_text, tcp_listen_address, IpAddress};
use pg_documentdb_gw::clock::{nanos_between, Clock};
use pg_documentdb_gw::connection::{
    ConnectionProfile, Reception, ReceptionAction, ReceptionEvent, TcpAction, TcpConnection,
    TcpEvent, TcpPhase, Transport,
};
use pg_documentdb_gw::error::{DocumentDBError, ErrorKind, Failure};
use pg_documentdb_gw::identity::ConnectionId;
use pg_documentdb_gw::listener::{
    Gateway, GatewayAction, GatewayEvent, SetupConfiguration, StaleSocket, UnixAction, UnixEvent,
    UnixSetup,
};
use pg_documentdb_gw::tls::{
    classify, peek_timeout, DetectAction, DetectEvent, TlsDetection, Verdict,
};

fn configuration(path: Option<&str>) -> SetupConfiguration {
    SetupConfiguration {
        use_local_host: true,
        gateway_listen_port: 10260,
        unix_socket_path: path.map(|p| p.to_string()),
        unix_socket_file_permissions: 0o660,
        enforce_tls: false,
    }
}

#[test]
fn listen_addresses_are_rendered() {
    assert_eq!(tcp_listen_address(true, 10260), "127.0.0.1:10260");
    assert_eq!(tcp_listen_address(false, 0), "[::]:0");
    assert_eq!(tcp_listen_address(false, 65535), "[::]:65535");
    assert_eq!(configuration(None).tcp_address(), "127.0.0.1:10260");
}

#[test]
fn mapped_addresses_are_unwrapped() {
    let cases = [
        (0x0000_ffff_0a01_0203_u128, IpAddress::V4(0x0a01_0203)),
        (0x0000_ffff_ffff_ffff, IpAddress::V4(u32::MAX)),
        (0x0000_ffff_0000_0000, IpAddress::V4(0)),
    ];
    for (number, expected) in cases {
        assert_eq!(IpAddress::V6(number).canonical(), expected);
        assert_eq!(expected.canonical(), expected);
    }
    let kept = [
        1_u128,
        0x0a01_0203,
        0x0000_fffe_0a01_0203,
        0x2001_0db8_0000_0000_0000_ffff_0a01_0203,
        u128::MAX,
    ];
    for number in kept {
        assert_eq!(IpAddress::V6(number).canonical(), IpAddress::V6(number));
    }
}

#[test]
fn clients_are_called_by_their_address() {
    assert_eq!(ipv4_text(0), "0.0.0.0");
    assert_eq!(ipv4_text(0x0a01_0203), "10.1.2.3");
    assert_eq!(ipv4_text(0xc0a8_64ff), "192.168.100.255");
    assert_eq!(ipv4_text(u32::MAX), "255.255.255.255");
    let profile = |peer: IpAddress| ConnectionProfile {
        transport: Transport::Tcp,
        peer: Some(peer.canonical()),
        tls: true,
    };
    assert_eq!(profile(IpAddress::V6(0xffff_0a01_0203)).client_address("::1"), "10.1.2.3");
    assert_eq!(profile(IpAddress::V6(1)).client_address("::1"), "::1");
}

#[test]
fn connection_ids_are_random_and_hyphenated() {
    let id = ConnectionId { value: 0x0123456789abcdef_fedcba9876543210 };
    assert_eq!(id.activity_id(), "01234567-89ab-cdef-fedc-ba9876543210");
    let fresh = ConnectionId::random();
    assert_eq!((fresh.value >> 76) & 0xf, 4);
    assert_eq!((fresh.value >> 62) & 0x3, 2);
    assert!(fresh != ConnectionId::random());
    let text = fresh.activity_id();
    assert_eq!(text.len(), 36);
    assert_eq!(text.as_bytes()[14], b'4');
}

#[test]
fn first_bytes_tell_tls_from_plain() {
    for minor in 1u8..=4 {
        assert_eq!(classify(&[0x16, 0x03, minor]), Verdict::Tls);
    }
    assert_eq!(classify(&[0x16, 0x03, 0x00]), Verdict::Plain);
    assert_eq!(classify(&[0x16, 0x03, 0x05]), Verdict::Plain);
    assert_eq!(classify(&[0x16, 0x02]), Verdict::Plain);
    assert_eq!(classify(&[0x17]), Verdict::Plain);
    assert_eq!(classify(&[0x16]), Verdict::Undecided);
    assert_eq!(classify(&[0x16, 0x03]), Verdict::Undecided);
}

#[test]
fn detection_waits_for_three_bytes() {
    let detection = TlsDetection::Peeking;
    assert_eq!(detection.action(), DetectAction::Peek);
    let detection = detection.step(DetectEvent::Peeked(vec![0x16, 0x03]), 10);
    assert_eq!(detection.action(), DetectAction::Wait);
    let detection = detection.step(DetectEvent::Waited, 110);
    let detection = detection.step(DetectEvent::Peeked(vec![0x16, 0x03, 0x03]), 120);
    assert!(matches!(detection, TlsDetection::Finished(Ok(true))));
    let detection = detection.step(DetectEvent::TimedOut, 130);
    assert!(matches!(detection, TlsDetection::Finished(Ok(true))));
    assert_eq!(detection.action(), DetectAction::Finish);
    let plain = TlsDetection::Peeking.step(DetectEvent::Peeked(vec![0x3a]), 0);
    assert!(matches!(plain, TlsDetection::Finished(Ok(false))));
}

#[test]
fn a_client_that_stalls_runs_out_of_time() {
    let stalled = TlsDetection::Peeking.step(DetectEvent::Peeked(vec![0x16]), 4_999_999_999);
    assert!(matches!(stalled, TlsDetection::Waiting));
    let stalled = stalled.step(DetectEvent::Waited, 5_099_999_999);
    let stalled = stalled.step(DetectEvent::Peeked(vec![0x16, 0x03]), 5_100_000_000);
    match stalled {
        TlsDetection::Finished(Err(error)) => assert_eq!(error, DocumentDBError::ReadTimedOut),
        _ => panic!("still waiting"),
    }
    let late =
        TlsDetection::Peeking.step(DetectEvent::Peeked(vec![0x16, 0x03, 0x04]), 5_000_000_000);
    assert!(matches!(late, TlsDetection::Finished(Ok(true))));
}

#[test]
fn detection_reports_its_errors() {
    let cases = vec![
        (DetectEvent::Peeked(vec![]), "Connection closed"),
        (DetectEvent::TimedOut, "Timeout reading from stream"),
        (DetectEvent::PeekFailed("Reset".to_string()), "Error reading from stream Reset"),
    ];
    for (event, text) in cases {
        match TlsDetection::Peeking.step(event, 0) {
            TlsDetection::Finished(Err(error)) => {
                assert_eq!(error.message(), text);
                assert_eq!(error.kind(), ErrorKind::Internal);
            }
            _ => panic!("no error"),
        }
    }
}

#[test]
fn a_client_has_five_seconds() {
    assert_eq!(peek_timeout(0), 5_000_000_000);
    assert_eq!(peek_timeout(4_999_999_999), 1);
    assert_eq!(peek_timeout(5_000_000_000), 0);
    assert_eq!(peek_timeout(u128::MAX), 0);
    let connection = configured(false, 1_000);
    assert_eq!(connection.peek_time(1_000), 5_000_000_000);
    assert_eq!(connection.peek_time(1_001), 4_999_999_999);
    assert_eq!(connection.peek_time(6_000_000_000), 0);
    assert_eq!(configured(true, 1_000).peek_time(1_000), 0);
    let connection =
        connection.step(TcpEvent::Detect(DetectEvent::Peeked(vec![0x16])), 5_000_001_000);
    match connection.phase {
        TcpPhase::Finished(Err(Failure::Gateway(error))) => {
            assert_eq!(error, DocumentDBError::ReadTimedOut);
        }
        _ => panic!("still waiting"),
    }
}

#[test]
fn a_clock_runs_forward() {
    let mut clock = Clock::start();
    let first = clock.now();
    let mut later = clock.now();
    while later < first + 1_000_000 {
        later = clock.now();
    }
    assert!(nanos_between(first, later) >= 1_000_000);
    assert_eq!(nanos_between(later, first), 0);
    assert_eq!(nanos_between(7, 10), 3);
}

/// A connection whose socket options are set at `now`.
fn configured(enforce_tls: bool, now: u128) -> TcpConnection<&'static str> {
    let connection =
        TcpConnection::accepted(Ok(IpAddress::V6(0xffff_7f00_0001)), enforce_tls).unwrap();
    assert_eq!(connection.action(), TcpAction::SetNoDelay);
    let connection = connection.step(TcpEvent::NoDelaySet(Ok(())), now);
    assert_eq!(
        connection.action(),
        TcpAction::SetKeepalive { time_secs: 180, interval_secs: 60 }
    );
    connection.step(TcpEvent::KeepaliveSet(Ok(())), now)
}

#[test]
fn a_plain_client_is_served_in_plain_text() {
    let connection = configured(false, 0);
    assert_eq!(connection.action(), TcpAction::Detect(DetectAction::Peek));
    let connection = connection.step(TcpEvent::Detect(DetectEvent::Peeked(vec![0x3a])), 1);
    let profile = ConnectionProfile {
        transport: Transport::Tcp,
        peer: Some(IpAddress::V4(0x7f000001)),
        tls: false,
    };
    assert_eq!(
        connection.action(),
        TcpAction::Reception(profile, ReceptionAction::CreateContext)
    );
    assert_eq!(profile.transport_protocol(), "TCP");
    assert_eq!(profile.client_address("ignored"), "127.0.0.1");
    let connection =
        connection.step(TcpEvent::Reception(ReceptionEvent::ContextCreated(Ok(()))), 2);
    assert_eq!(
        connection.action(),
        TcpAction::Reception(
            profile,
            ReceptionAction::BufferStream { read_size: 8192, write_size: 8192 }
        )
    );
    let connection =
        connection.step(TcpEvent::Reception(ReceptionEvent::StreamBuffered(Ok(()))), 3);
    assert_eq!(connection.action(), TcpAction::Reception(profile, ReceptionAction::Serve));
    let connection = connection.step(TcpEvent::Reception(ReceptionEvent::Served), 4);
    assert!(matches!(connection.phase, TcpPhase::Finished(Ok(()))));
    assert_eq!(connection.action(), TcpAction::Finish);
}

#[test]
fn a_tls_client_goes_through_the_handshake() {
    let detected = configured(false, 0)
        .step(TcpEvent::Detect(DetectEvent::Peeked(vec![0x16, 0x03, 0x01])), 1);
    for connection in vec![configured(true, 0), detected] {
        assert_eq!(connection.action(), TcpAction::CreateSession);
        let connection = connection.step(TcpEvent::SessionCreated(Ok(())), 2);
        assert_eq!(connection.action(), TcpAction::CreateStream);
        let connection = connection.step(TcpEvent::StreamCreated(Ok(())), 3);
        assert_eq!(connection.action(), TcpAction::Handshake);
        let connection = connection.step(TcpEvent::HandshakeDone(Ok(())), 4);
        match connection.action() {
            TcpAction::Reception(profile, _) => assert!(profile.tls),
            _ => panic!("not served"),
        }
    }
}

#[test]
fn connection_errors_end_the_connection() {
    assert_eq!(TcpConnection::accepted(Err("accept"), true).err(), Some("accept"));
    let connection = TcpConnection::accepted(Ok(IpAddress::V4(1)), false).unwrap();
    let connection = connection.step(TcpEvent::NoDelaySet(Err("nodelay")), 0);
    match connection.phase {
        TcpPhase::Finished(Err(Failure::Service(error))) => assert_eq!(error, "nodelay"),
        _ => panic!("not over"),
    }
    let connection = configured(true, 0)
        .step(TcpEvent::SessionCreated(Ok(())), 1)
        .step(TcpEvent::StreamCreated(Ok(())), 2)
        .step(TcpEvent::HandshakeDone(Err("bad cert".to_string())), 3);
    match connection.phase {
        TcpPhase::Finished(Err(Failure::Gateway(error))) => {
            assert_eq!(error.message(), "SSL handshake failed: bad cert.");
        }
        _ => panic!("not over"),
    }
    for event in vec![
        ReceptionEvent::ContextCreated(Err("context")),
        ReceptionEvent::StreamBuffered(Err("buffer")),
    ] {
        let plain =
            configured(false, 0).step(TcpEvent::Detect(DetectEvent::Peeked(vec![0x3a])), 1);
        let (ready, reason) = match &event {
            ReceptionEvent::StreamBuffered(_) => (
                plain.step(TcpEvent::Reception(ReceptionEvent::ContextCreated(Ok(()))), 2),
                "buffer",
            ),
            _ => (plain, "context"),
        };
        match ready.step(TcpEvent::Reception(event), 3).phase {
            TcpPhase::Finished(Err(Failure::Service(error))) => assert_eq!(error, reason),
            _ => panic!("not over"),
        }
    }
    let connection = configured(false, 0).step(TcpEvent::Detect(DetectEvent::Peeked(vec![])), 1);
    match connection.phase {
        TcpPhase::Finished(Err(Failure::Gateway(error))) => {
            assert_eq!(error, DocumentDBError::ConnectionClosed);
        }
        _ => panic!("not over"),
    }
}

#[test]
fn a_unix_client_is_local() {
    let profile = ConnectionProfile::unix_socket();
    assert_eq!(profile.transport_protocol(), "UnixSocket");
    assert_eq!(profile.client_address("ignored"), "localhost");
    assert!(!profile.tls);
    assert_eq!(ConnectionProfile::accepted_unix::<&'static str>(Ok(())), Ok(profile));
    assert_eq!(ConnectionProfile::accepted_unix(Err("accept")), Err("accept"));
}

#[test]
fn a_client_is_served_once_its_stream_is_buffered() {
    let reception: Reception<&'static str> = Reception::start();
    assert_eq!(reception.action(), ReceptionAction::CreateContext);
    let reception = reception.step(ReceptionEvent::Served);
    assert_eq!(reception.action(), ReceptionAction::CreateContext);
    let reception = reception
        .step(ReceptionEvent::ContextCreated(Ok(())))
        .step(ReceptionEvent::StreamBuffered(Ok(())));
    assert_eq!(reception.action(), ReceptionAction::Serve);
    let reception = reception.step(ReceptionEvent::Served);
    assert!(matches!(reception, Reception::Finished(Ok(()))));
    assert_eq!(reception.action(), ReceptionAction::Finish);
    let failed: Reception<&'static str> =
        Reception::start().step(ReceptionEvent::ContextCreated(Err("context")));
    assert!(matches!(failed, Reception::Finished(Err("context"))));
}

#[test]
fn a_stale_socket_does_not_stop_the_set_up() {
    for stale in [StaleSocket::Removed, StaleSocket::NotFound, StaleSocket::Stuck] {
        let setup: UnixSetup<&'static str> = UnixSetup::RemovingStaleFile;
        assert_eq!(setup.action(), UnixAction::RemoveStaleFile);
        let setup = setup.step(UnixEvent::StaleFile(stale));
        assert_eq!(setup.action(), UnixAction::Bind);
        let setup = setup.step(UnixEvent::Bound(Ok(())));
        assert_eq!(setup.action(), UnixAction::SetPermissions);
        let setup = setup.step(UnixEvent::PermissionsSet(Ok(())));
        assert!(matches!(setup, UnixSetup::Finished(Ok(()))));
    }
    assert!(StaleSocket::Stuck.deserves_warning());
    assert!(!StaleSocket::NotFound.deserves_warning());
    assert!(!StaleSocket::Removed.deserves_warning());
}

#[test]
fn the_gateway_listens_until_cancelled() {
    let gateway: Gateway<&'static str> = Gateway::start(&configuration(Some("/tmp/gw.sock")));
    assert_eq!(gateway.action(), GatewayAction::BindTcp);
    let gateway = gateway.step(GatewayEvent::TcpBound(Ok(())));
    assert_eq!(gateway.action(), GatewayAction::CreateTlsContext);
    let gateway = gateway.step(GatewayEvent::TlsContextCreated(Ok(())));
    assert_eq!(gateway.action(), GatewayAction::Unix(UnixAction::RemoveStaleFile));
    let gateway = gateway
        .step(GatewayEvent::Unix(UnixEvent::StaleFile(StaleSocket::NotFound)))
        .step(GatewayEvent::Unix(UnixEvent::Bound(Ok(()))))
        .step(GatewayEvent::Unix(UnixEvent::PermissionsSet(Ok(()))));
    assert_eq!(gateway.action(), GatewayAction::Listen { unix: true });
    let gateway = gateway.step(GatewayEvent::UnixAccepted);
    assert_eq!(gateway.action(), GatewayAction::DispatchUnix);
    let gateway = gateway.step(GatewayEvent::Dispatched).step(GatewayEvent::TcpAccepted);
    assert_eq!(gateway.action(), GatewayAction::DispatchTcp);
    let gateway = gateway.step(GatewayEvent::Dispatched);
    assert_eq!(gateway.action(), GatewayAction::Listen { unix: true });
    let gateway = gateway.step(GatewayEvent::Cancelled);
    assert!(matches!(gateway, Gateway::Finished(Ok(()))));
    assert_eq!(gateway.action(), GatewayAction::Finish);
}

#[test]
fn the_gateway_fails_without_its_listeners() {
    let gateway: Gateway<&'static str> = Gateway::start(&configuration(None));
    let gateway = gateway
        .step(GatewayEvent::TcpBound(Ok(())))
        .step(GatewayEvent::TlsContextCreated(Ok(())));
    assert_eq!(gateway.action(), GatewayAction::Listen { unix: false });
    let gateway = gateway.step(GatewayEvent::UnixAccepted);
    assert_eq!(gateway.action(), GatewayAction::Listen { unix: false });

    let gateway: Gateway<&'static str> = Gateway::start(&configuration(None));
    let gateway = gateway.step(GatewayEvent::TcpBound(Err("port")));
    assert!(matches!(gateway, Gateway::Finished(Err("port"))));

    let gateway: Gateway<&'static str> = Gateway::start(&configuration(Some("/tmp/gw.sock")));
    let gateway = gateway
        .step(GatewayEvent::TcpBound(Ok(())))
        .step(GatewayEvent::TlsContextCreated(Ok(())))
        .step(GatewayEvent::Unix(UnixEvent::StaleFile(StaleSocket::Stuck)))
        .step(GatewayEvent::Unix(UnixEvent::Bound(Err("in use"))));
    assert!(matches!(gateway, Gateway::Finished(Err("in use"))));
}

#[test]
fn the_gateway_fails_without_a_tls_context() {
    for path in [None, Some("/tmp/gw.sock")] {
        let gateway: Gateway<&'static str> = Gateway::start(&configuration(path));
        let gateway = gateway
            .step(GatewayEvent::TcpBound(Ok(())))
            .step(GatewayEvent::TlsContextCreated(Err("no certificate")));
        assert!(matches!(gateway, Gateway::Finished(Err("no certificate"))));
        assert_eq!(gateway.action(), GatewayAction::Finish);
    }
}
