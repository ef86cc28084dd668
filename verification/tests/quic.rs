use transport_upgrade::net::{IpAddr, SocketAddr};
use transport_upgrade::quic_stream::{
    accept, budget_ms, check_sent, check_transmit, connect, enabled, endpoint_config,
    is_documented, mode, parse_mode, received, require, transport_config, Attempt, AttemptEvent, Mode, QuicError,
    QuicStep, TransmitError, ALPN, CLOSE_CODE, IDLE_TIMEOUT_SECS, KEEP_ALIVE_SECS,
    MAX_UDP_PAYLOAD_SIZE, PROBE_TIMEOUT_MS, SERVER_NAME, TYP,
};
use transport_upgrade::stream::Stream;

fn addr() -> SocketAddr {
    SocketAddr::new(IpAddr::V4([10, 0, 0, 1]), 4000)
}

fn words(step: QuicStep) -> String {
    match step {
        QuicStep::Failed(e) => e.message(),
        _ => panic!("expected a failure"),
    }
}

fn dialing() -> Attempt {
    connect("auto", 10_000, Some("1.2.3.4:5".to_owned())).ok().unwrap()
}

#[test]
fn the_receive_clamp_is_exactly_the_measured_path_limit() {
    let config = endpoint_config().ok().expect("endpoint config");
    assert_eq!(config.get_max_udp_payload_size(), MAX_UDP_PAYLOAD_SIZE as u64);
}

#[test]
fn the_clamp_is_below_the_payload_the_path_drops() {
    // The path drops 1469 bytes and more, and the headers have to fit into 1500.
    assert!(MAX_UDP_PAYLOAD_SIZE < 1469);
    assert!(MAX_UDP_PAYLOAD_SIZE as u32 + 28 <= 1500);
    assert!(KEEP_ALIVE_SECS < IDLE_TIMEOUT_SECS);
}

#[test]
fn only_the_documented_transport_modes_are_recognised() {
    assert_eq!(parse_mode("quic"), Mode::Quic);
    assert_eq!(parse_mode("  QUIC "), Mode::Quic);
    assert_eq!(parse_mode("tcp"), Mode::Tcp);
    assert_eq!(parse_mode("Tcp"), Mode::Tcp);
    assert_eq!(parse_mode("auto"), Mode::Auto);
    // Unset, and anything unrecognised, mean the default.
    assert_eq!(parse_mode(""), Mode::Auto);
    assert_eq!(parse_mode("   "), Mode::Auto);
    assert_eq!(parse_mode("udp"), Mode::Auto);
}

#[test]
fn auto_falls_back_but_quic_does_not() {
    assert_eq!(budget_ms(Mode::Auto, u64::MAX), PROBE_TIMEOUT_MS);
    assert_eq!(budget_ms(Mode::Auto, 500), 500);
    assert_eq!(budget_ms(Mode::Quic, u64::MAX), u64::MAX);
    // The probe has to end before a relayed result is taken.
    assert!(PROBE_TIMEOUT_MS < 2500);
}

#[test]
fn space_and_case_do_not_matter() {
    assert_eq!(parse_mode("\u{3000}qUiC\u{a0}\n"), Mode::Quic);
    assert_eq!(parse_mode("\t TCP\u{2003}"), Mode::Tcp);
    assert_eq!(parse_mode("ＱＵＩＣ"), Mode::Auto);
    assert_eq!(parse_mode("qu ic"), Mode::Auto);
    assert_eq!(mode("QUIC"), Mode::Quic);
    assert!(enabled("quic"));
    assert!(enabled(""));
    assert!(!enabled(" tcp "));
}

#[test]
fn undocumented_modes_can_be_told() {
    assert!(is_documented(" QUIC "));
    assert!(is_documented("tcp"));
    assert!(is_documented("Auto"));
    assert!(is_documented("  "));
    assert!(!is_documented("udp"));
    assert!(!is_documented("qu ic"));
}

#[test]
fn fallback_is_refused_only_where_quic_was_asked_for() {
    assert!(require("quic", "QUIC").is_ok());
    assert!(require("quic", "").is_ok());
    assert!(require("auto", "TCP").is_ok());
    assert!(require("tcp", "TCP").is_ok());
    let e = require("quic", "Re\"lay").unwrap_err();
    assert_eq!(
        e.message(),
        "transport-mode is \"quic\" but the connection fell back to \"Re\\\"lay\""
    );
}

#[test]
fn settings_are_those_of_the_path() {
    let t = transport_config().ok().unwrap();
    assert_eq!(t.initial_mtu, 1447);
    assert!(!t.mtu_discovery);
    assert_eq!(t.keep_alive_secs, 5);
    assert_eq!(t.idle_timeout_secs, 30);
    assert_eq!((KEEP_ALIVE_SECS, IDLE_TIMEOUT_SECS, CLOSE_CODE), (5, 30, 0));
    assert_eq!((ALPN, SERVER_NAME, TYP), ("rustdesk-quic", "quic.rustdesk.local", "QUIC"));
}

#[test]
fn dialling_goes_stage_by_stage() {
    let mut a = dialing();
    assert!(matches!(a.todo(), QuicStep::Start));
    assert!(matches!(a.step(AttemptEvent::Started, 3), QuicStep::Handshake { limit_ms: 1997 }));
    assert!(matches!(a.step(AttemptEvent::Connected, 900), QuicStep::ReadLocalAddr));
    assert!(matches!(
        a.step(AttemptEvent::LocalAddr(addr()), 0),
        QuicStep::OpenStream { limit_ms: 1097 }
    ));
    match a.step(AttemptEvent::Opened(77), 1097) {
        QuicStep::Done(Stream::Tcp(f)) => {
            assert_eq!((f.0.id, f.0.raw), (77, false));
            assert_eq!(f.1, addr());
            assert!(f.2.is_none());
            assert_eq!(f.3, 0);
        }
        _ => panic!("expected a session"),
    }
    assert!(matches!(a.todo(), QuicStep::Over));
    assert!(matches!(a.step(AttemptEvent::TimedOut, 0), QuicStep::Over));
}

#[test]
fn accepting_waits_for_the_peer_first() {
    let mut a = accept("quic", 10_000);
    assert!(matches!(
        a.step(AttemptEvent::Started, 0),
        QuicStep::AwaitPeer { limit_ms: 10_000 }
    ));
    assert!(matches!(
        a.step(AttemptEvent::Arrived, 4_000),
        QuicStep::Handshake { limit_ms: 6_000 }
    ));
    assert!(matches!(a.step(AttemptEvent::Connected, 5_000), QuicStep::ReadLocalAddr));
    assert!(matches!(
        a.step(AttemptEvent::LocalAddr(addr()), 1),
        QuicStep::AcceptStream { limit_ms: 999 }
    ));
    assert!(matches!(a.step(AttemptEvent::Opened(1), 999), QuicStep::Done(_)));
}

#[test]
fn waits_share_one_budget() {
    // One long wait leaves the next one nothing.
    let mut a = accept("auto", 700);
    a.step(AttemptEvent::Started, 0);
    assert_eq!(
        words(a.step(AttemptEvent::Arrived, 700)),
        "the QUIC handshake did not complete within 700 ms"
    );
    assert!(matches!(a.todo(), QuicStep::Over));
    // What was waited for came, but too late.
    let mut a = dialing();
    a.step(AttemptEvent::Started, 0);
    assert_eq!(
        words(a.step(AttemptEvent::Connected, 2_001)),
        "QUIC handshake with 1.2.3.4:5 timed out after 2000 ms"
    );
    let mut a = dialing();
    a.step(AttemptEvent::Started, 0);
    a.step(AttemptEvent::Connected, 1_999);
    a.step(AttemptEvent::LocalAddr(addr()), 0);
    assert_eq!(
        words(a.step(AttemptEvent::Opened(5), 2)),
        "the QUIC session stream did not open within 2000 ms"
    );
    // The set-up counts too.
    let mut a = dialing();
    assert_eq!(
        words(a.step(AttemptEvent::Started, 9_999)),
        "QUIC handshake with 1.2.3.4:5 timed out after 2000 ms"
    );
    // A stray event does not give time back.
    let mut a = accept("quic", 100);
    a.step(AttemptEvent::Started, 0);
    assert!(matches!(a.step(AttemptEvent::Connected, 40), QuicStep::AwaitPeer { limit_ms: 60 }));
    assert!(matches!(a.step(AttemptEvent::Arrived, 50), QuicStep::Handshake { limit_ms: 10 }));
}

#[test]
fn empty_budget_allows_no_wait() {
    let mut a = accept("quic", 0);
    assert!(matches!(a.todo(), QuicStep::Start));
    assert_eq!(
        words(a.step(AttemptEvent::Started, 0)),
        "no QUIC connection arrived within 0 ms"
    );
}

#[test]
fn events_out_of_place_change_nothing() {
    let mut a = dialing();
    assert!(matches!(a.step(AttemptEvent::Opened(1), 0), QuicStep::Start));
    assert!(matches!(a.step(AttemptEvent::Connected, 0), QuicStep::Start));
    a.step(AttemptEvent::Started, 0);
    assert!(matches!(a.step(AttemptEvent::Arrived, 0), QuicStep::Handshake { .. }));
}

#[test]
fn dialling_fails_with_the_words_of_its_stage() {
    assert_eq!(
        connect("", 1, None).err().unwrap().message(),
        "the punched UDP socket is not connected to the peer"
    );
    let mut a = dialing();
    assert_eq!(
        words(a.step(AttemptEvent::SetupFailed(QuicError::NoRuntime), 0)),
        "no QUIC-compatible async runtime available"
    );
    let mut a = dialing();
    a.step(AttemptEvent::Started, 0);
    assert_eq!(
        words(a.step(AttemptEvent::Failed("refused".to_owned()), 0)),
        "QUIC handshake with 1.2.3.4:5 failed: refused"
    );
    let mut a = dialing();
    a.step(AttemptEvent::Started, 0);
    assert_eq!(
        words(a.step(AttemptEvent::TimedOut, 0)),
        "QUIC handshake with 1.2.3.4:5 timed out after 2000 ms"
    );
    let mut a = dialing();
    a.step(AttemptEvent::Started, 0);
    a.step(AttemptEvent::Connected, 0);
    assert_eq!(
        words(a.step(AttemptEvent::Failed("x".to_owned()), 0)),
        "failed to read the QUIC endpoint's address"
    );
    let mut a = dialing();
    a.step(AttemptEvent::Started, 0);
    a.step(AttemptEvent::Connected, 0);
    a.step(AttemptEvent::LocalAddr(addr()), 0);
    assert_eq!(
        words(a.step(AttemptEvent::Failed("x".to_owned()), 0)),
        "failed to open the QUIC session stream: x"
    );
    let mut a = dialing();
    a.step(AttemptEvent::Started, 0);
    a.step(AttemptEvent::Connected, 0);
    a.step(AttemptEvent::LocalAddr(addr()), 0);
    assert_eq!(
        words(a.step(AttemptEvent::TimedOut, 0)),
        "the QUIC session stream did not open within 2000 ms"
    );
}

#[test]
fn accepting_fails_with_the_words_of_its_stage() {
    let mut a = accept("auto", 700);
    a.step(AttemptEvent::Started, 0);
    assert_eq!(
        words(a.step(AttemptEvent::Closed, 0)),
        "the QUIC endpoint closed before a peer connected"
    );
    let mut a = accept("auto", 700);
    a.step(AttemptEvent::Started, 0);
    assert_eq!(
        words(a.step(AttemptEvent::TimedOut, 0)),
        "no QUIC connection arrived within 700 ms"
    );
    let mut a = accept("auto", 700);
    a.step(AttemptEvent::Started, 0);
    a.step(AttemptEvent::Arrived, 0);
    assert_eq!(
        words(a.step(AttemptEvent::Failed("x".to_owned()), 0)),
        "the QUIC handshake with the controller failed: x"
    );
    let mut a = accept("auto", 700);
    a.step(AttemptEvent::Started, 0);
    a.step(AttemptEvent::Arrived, 0);
    assert_eq!(
        words(a.step(AttemptEvent::TimedOut, 0)),
        "the QUIC handshake did not complete within 700 ms"
    );
    let mut a = accept("auto", 700);
    a.step(AttemptEvent::Started, 0);
    a.step(AttemptEvent::Arrived, 0);
    a.step(AttemptEvent::Connected, 0);
    a.step(AttemptEvent::LocalAddr(addr()), 0);
    assert_eq!(
        words(a.step(AttemptEvent::Failed("x".to_owned()), 0)),
        "failed to accept the QUIC session stream: x"
    );
    let mut a = accept("auto", 700);
    a.step(AttemptEvent::Started, 0);
    a.step(AttemptEvent::Arrived, 0);
    a.step(AttemptEvent::Connected, 0);
    a.step(AttemptEvent::LocalAddr(addr()), 0);
    assert_eq!(
        words(a.step(AttemptEvent::TimedOut, 0)),
        "the controller did not open a QUIC session stream within 700 ms"
    );
}

#[test]
fn setup_errors_have_their_words() {
    let x = || "x".to_owned();
    let expected = vec![
        (QuicError::NoSocketAddr, "failed to read the punched socket's address"),
        (QuicError::PayloadSize(x()), "QUIC max_udp_payload_size rejected: x"),
        (QuicError::IdleTimeout(x()), "QUIC idle timeout rejected: x"),
        (QuicError::EndpointStart(x()), "failed to start a QUIC endpoint on x"),
        (QuicError::ClientTls(x()), "QUIC client TLS setup failed: x"),
        (QuicError::ClientCrypto(x()), "QUIC client crypto rejected: x"),
        (QuicError::Certificate(x()), "failed to generate the QUIC certificate: x"),
        (QuicError::ServerTls(x()), "QUIC server TLS setup failed: x"),
        (QuicError::ServerCertificate(x()), "QUIC server certificate rejected: x"),
        (QuicError::ServerCrypto(x()), "QUIC server crypto rejected: x"),
        (QuicError::HandshakeStart(x()), "failed to start a QUIC handshake with x"),
    ];
    for (e, text) in expected {
        assert_eq!(e.message(), text);
    }
}

#[test]
fn datagrams_go_out_one_by_one_and_whole() {
    assert!(check_transmit(None, 1200).is_ok());
    assert!(check_transmit(Some(1200), 1200).is_ok());
    assert_eq!(check_transmit(Some(600), 1200), Err(TransmitError::Coalesced));
    assert_eq!(
        TransmitError::Coalesced.message(),
        "coalesced UDP transmits are not supported"
    );
    assert!(check_sent(1200, 1200).is_ok());
    let e = check_sent(900, 1200).unwrap_err();
    assert_eq!(e.message(), "short UDP send: 900 of 1200");
}

#[test]
fn empty_datagrams_are_not_reported() {
    assert_eq!(received::<()>(true, 0, Ok(addr())), Ok(None));
    assert_eq!(received::<()>(false, 9, Ok(addr())), Ok(None));
    let d = received::<()>(true, 9, Ok(addr())).unwrap().unwrap();
    assert_eq!((d.addr, d.len, d.stride), (addr(), 9, 9));
    assert_eq!(received(true, 9, Err("gone")), Err("gone"));
    assert_eq!(received(true, 0, Err("gone")), Ok(None));
}

#[test]
fn addresses_keep_their_scope() {
    let link_local = SocketAddr::V6 { octets: [0xfe; 16], port: 9, flowinfo: 7, scope_id: 3 };
    let d = received::<()>(true, 1, Ok(link_local)).unwrap().unwrap();
    assert_eq!(d.addr, link_local);
    assert_ne!(d.addr, SocketAddr::new(IpAddr::V6([0xfe; 16]), 9));
    let mut a = dialing();
    a.step(AttemptEvent::Started, 0);
    a.step(AttemptEvent::Connected, 0);
    a.step(AttemptEvent::LocalAddr(link_local), 0);
    match a.step(AttemptEvent::Opened(1), 0) {
        QuicStep::Done(stream) => assert_eq!(stream.local_addr(), link_local),
        _ => panic!("expected a session"),
    }
}
