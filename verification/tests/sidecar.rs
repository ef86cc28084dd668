use transport_upgrade::hex_text::HexError;
use transport_upgrade::net::{IpAddr, SocketAddr};
use transport_upgrade::quic_sidecar::{
    abbreviate, available, dial, dial_request, endpoint_id_of, ensure_online,
    ensure_online_request, ensure_sidecar, parse_peer_endpoint_id, reply_text, request_line,
    run_relay, sidecar_candidates, sidecar_path, try_relay, verify_peer_uid, Candidate, Control,
    PeerIdError, PeerUser, Relay, RelayEvent, RelayStep, SidecarError, SidecarStart,
};
use transport_upgrade::stream::Stream;

const ID: [u8; 32] = [
    0x00, 0x1f, 0xa0, 0xff, 4, 5, 6, 7, 8, 9, 10, 11, 12, 13, 14, 15, 16, 17, 18, 19, 20, 21, 22,
    23, 24, 25, 26, 27, 28, 29, 30, 31,
];

fn addr() -> SocketAddr {
    SocketAddr::new(IpAddr::V4([0, 0, 0, 0]), 9)
}

fn result(ok: bool, reason: Option<&str>, path: Option<&str>) -> Control {
    Control::DialResult {
        ok,
        reason: reason.map(|s| s.to_owned()),
        path: path.map(|s| s.to_owned()),
    }
}

fn relay() -> Relay {
    run_relay(ID, true, 1000, addr())
}

fn reason(step: RelayStep) -> String {
    match step {
        RelayStep::GiveUp(e) => e.message(),
        _ => panic!("expected to give up"),
    }
}

#[test]
fn messages_have_a_short_form() {
    assert_eq!(
        ensure_online_request("https://r", false).display(),
        "EnsureOnline(https://r)"
    );
    assert_eq!(dial_request(ID, b"x").display(), "Dial(001fa0ff..)");
    assert_eq!(
        result(true, None, Some("a\"b")).display(),
        "DialResult(ok=true, path=Some(\"a\\\"b\"))"
    );
    assert_eq!(result(false, Some("r"), None).display(), "DialResult(ok=false, path=None)");
    assert_eq!(
        Control::Incoming { remote_endpoint_id: ID, path: None }.display(),
        "Incoming(001fa0ff..)"
    );
    assert_eq!(Control::Accept { decision: true, reason: None }.display(), "Accept(true)");
    assert_eq!(Control::Shutdown {}.display(), "Shutdown");
    assert_eq!(abbreviate(&ID), "001fa0ff");
}

fn text(s: &str) -> String {
    s.to_owned()
}

#[test]
fn configured_place_is_the_only_one() {
    let dirs = vec![text("/usr/bin"), text("/opt/bin")];
    assert_eq!(
        sidecar_candidates(text("/opt/s"), true, &dirs),
        vec![Candidate::Configured(text("/opt/s"))]
    );
    assert_eq!(
        sidecar_candidates(String::new(), true, &dirs),
        vec![
            Candidate::Beside(text("nervdesk-quic-sidecar")),
            Candidate::Beside(text("nervdesk-quic-sidecar.exe")),
            Candidate::OnPath { dir: text("/usr/bin"), name: text("nervdesk-quic-sidecar") },
            Candidate::OnPath { dir: text("/opt/bin"), name: text("nervdesk-quic-sidecar") },
            Candidate::Named(text("nervdesk-quic-sidecar")),
        ]
    );
    assert_eq!(
        sidecar_candidates(String::new(), false, &vec![]),
        vec![Candidate::Named(text("nervdesk-quic-sidecar"))]
    );
}

#[test]
fn program_on_path_is_found() {
    let dirs = vec![text("/a"), text("/b"), text("/c")];
    let candidates = sidecar_candidates(String::new(), true, &dirs);
    let there = |c: &Candidate| match c {
        Candidate::OnPath { dir, .. } => dir != "/a",
        _ => false,
    };
    let present: Vec<bool> = candidates.iter().map(there).collect();
    let i = sidecar_path(&present).unwrap();
    assert_eq!(
        candidates[i],
        Candidate::OnPath { dir: text("/b"), name: text("nervdesk-quic-sidecar") }
    );
    assert_eq!(ensure_sidecar(false, &present), Ok(SidecarStart::Spawn(i)));
}

#[test]
fn first_place_with_a_file_is_used() {
    assert_eq!(sidecar_path(&vec![false, true, true]), Some(1));
    assert_eq!(sidecar_path(&vec![false, false]), None);
    assert!(available(&vec![false, true]));
    assert!(!available(&vec![]));
    assert_eq!(ensure_sidecar(true, &vec![]), Ok(SidecarStart::Running));
    assert_eq!(ensure_sidecar(false, &vec![false, true]), Ok(SidecarStart::Spawn(1)));
    let e = ensure_sidecar(false, &vec![false]).unwrap_err();
    assert_eq!(e, SidecarError::NotFound);
    assert_eq!(
        e.message(),
        "nervdesk-quic-sidecar not found (set `sidecar-path` local option or place it next to the executable)"
    );
    assert_eq!(
        SidecarError::Spawn("denied".to_owned()).message(),
        "failed to spawn nervdesk-quic-sidecar: denied"
    );
}

#[test]
fn only_the_same_user_is_trusted() {
    assert!(verify_peer_uid(PeerUser::Uid(1000), 1000).is_ok());
    let e = verify_peer_uid(PeerUser::Uid(0), 1000).unwrap_err();
    assert_eq!(
        e.message(),
        "sidecar owned by uid 0, refusing (we are uid 1000); possible privilege boundary crossing"
    );
    assert_eq!(
        verify_peer_uid(PeerUser::Unknown, 1000).unwrap_err().message(),
        "sidecar peer uid unavailable"
    );
    // Where the system sees to it, there is nothing left to check.
    assert!(verify_peer_uid(PeerUser::Enforced, 1000).is_ok());
}

#[test]
fn control_messages_are_lines() {
    assert_eq!(request_line("{\"ü\":1}"), "{\"ü\":1}\n".as_bytes().to_vec());
    assert_eq!(reply_text(b"{}\n\n"), "{}");
    assert_eq!(reply_text("\n{\"ü\"}".as_bytes()), "\n{\"ü\"}");
    assert_eq!(reply_text(b"a\xffb\n"), "a\u{fffd}b");
    assert_eq!(reply_text(b"\n"), "");
}

#[test]
fn replies_are_judged() {
    assert!(ensure_online(&result(true, Some("x"), None)).is_ok());
    assert_eq!(
        ensure_online(&result(false, Some("no token"), None)).unwrap_err().message(),
        "sidecar could not reach relay: no token"
    );
    assert_eq!(
        ensure_online(&result(false, None, None)).unwrap_err().message(),
        "sidecar could not reach relay: unknown"
    );
    assert_eq!(
        ensure_online(&Control::Shutdown {}).unwrap_err().message(),
        "unexpected control reply: Shutdown"
    );
    assert_eq!(dial(&result(true, None, Some("direct"))), Ok("direct".to_owned()));
    assert_eq!(dial(&result(true, None, None)), Ok("relay".to_owned()));
    assert_eq!(
        dial(&result(false, None, Some("p"))).unwrap_err().message(),
        "sidecar dial failed: unknown"
    );
    assert_eq!(
        dial(&Control::Accept { decision: false, reason: None }).unwrap_err().message(),
        "unexpected control reply: Accept(false)"
    );
}

#[test]
fn identities_are_read_back() {
    let text = hex::encode(ID);
    assert_eq!(parse_peer_endpoint_id(&text), Ok(ID));
    assert_eq!(parse_peer_endpoint_id(&format!(" \t{}\n", text.to_uppercase())), Ok(ID));
    assert_eq!(endpoint_id_of(&ID.to_vec()), Ok(ID));
}

#[test]
fn anything_else_is_no_identity() {
    let e = parse_peer_endpoint_id("").unwrap_err();
    assert_eq!(e, PeerIdError::WrongLength(0));
    assert_eq!(
        parse_peer_endpoint_id("00ff").unwrap_err().message(),
        "sidecar-peer-endpoint-id is 2 bytes, expected 32; skipping sidecar relay"
    );
    let e = parse_peer_endpoint_id("abc").unwrap_err();
    assert_eq!(e, PeerIdError::NotHex(HexError::OddLength));
    assert_eq!(
        e.message(),
        "sidecar-peer-endpoint-id not a valid hex peer id: Odd number of digits; skipping"
    );
    let e = parse_peer_endpoint_id("00g'").unwrap_err();
    assert_eq!(
        e,
        PeerIdError::NotHex(HexError::InvalidHexCharacter { c: 'g', index: 2 })
    );
    assert_eq!(
        parse_peer_endpoint_id("0'").unwrap_err().message(),
        "sidecar-peer-endpoint-id not a valid hex peer id: Invalid character '\\'' at position 1; skipping"
    );
    assert_eq!(
        parse_peer_endpoint_id("ü").unwrap_err(),
        PeerIdError::NotHex(HexError::InvalidHexCharacter { c: 'Ã', index: 0 })
    );
    assert_eq!(HexError::InvalidStringLength.message(), "Invalid string length");
}

fn opened() -> RelayEvent {
    RelayEvent::ControlOpened(PeerUser::Uid(1000))
}

fn connected(uid: u32) -> RelayEvent {
    RelayEvent::Connected { link: 1, peer: PeerUser::Uid(uid) }
}

/// An attempt that asked its first question.
fn asking() -> Relay {
    let mut r = relay();
    r.step(RelayEvent::Listening);
    r.step(opened());
    r
}

/// An attempt that asked to dial.
fn dialling() -> Relay {
    let mut r = asking();
    r.step(RelayEvent::Reply(result(true, None, None)));
    r.step(opened());
    r
}

#[test]
fn relay_goes_stage_by_stage() {
    let mut r = try_relay(&hex::encode(ID), true, 1000, addr()).ok().unwrap();
    assert_eq!(r.endpoint_id(), &ID);
    assert!(matches!(r.todo(), RelayStep::Start));
    assert!(matches!(r.step(RelayEvent::Listening), RelayStep::OpenControl));
    match r.step(opened()) {
        RelayStep::Ask(Control::EnsureOnline { relay_url, token_present }) => {
            assert_eq!(relay_url, "");
            assert!(token_present);
        }
        _ => panic!("expected to go online"),
    }
    assert!(matches!(
        r.step(RelayEvent::Reply(result(true, None, None))),
        RelayStep::OpenControl
    ));
    match r.step(opened()) {
        RelayStep::Ask(Control::Dial { remote_endpoint_id, alpn }) => {
            assert_eq!(remote_endpoint_id, ID);
            assert_eq!(alpn, b"/nervdesk/p3/1".to_vec());
        }
        _ => panic!("expected to dial"),
    }
    match r.step(RelayEvent::Reply(result(true, None, Some("direct")))) {
        RelayStep::Connect { path } => assert_eq!(path, "direct"),
        _ => panic!("expected to connect"),
    }
    match r.step(RelayEvent::Connected { link: 3, peer: PeerUser::Uid(1000) }) {
        RelayStep::Done(Stream::Tcp(f)) => {
            assert_eq!((f.0.id, f.1, f.3), (3, addr(), 0));
            assert!(f.2.is_none());
        }
        _ => panic!("expected a session"),
    }
    assert!(matches!(r.step(RelayEvent::Listening), RelayStep::Over));
}

#[test]
fn relay_gives_up_on_any_failure() {
    assert!(try_relay("zz", true, 1000, addr()).is_err());
    let mut r = relay();
    assert_eq!(
        reason(r.step(RelayEvent::Failed(SidecarError::Control("timeout".to_owned())))),
        "timeout"
    );
    assert!(matches!(r.todo(), RelayStep::Over));
    assert_eq!(
        reason(asking().step(RelayEvent::Reply(result(false, Some("down"), None)))),
        "sidecar could not reach relay: down"
    );
    assert_eq!(
        reason(dialling().step(RelayEvent::Reply(result(false, Some("gone"), None)))),
        "sidecar dial failed: gone"
    );
    let mut r = dialling();
    match r.step(RelayEvent::Reply(result(true, None, None))) {
        RelayStep::Connect { path } => assert_eq!(path, "relay"),
        _ => panic!("expected to connect"),
    }
    assert_eq!(
        reason(r.step(connected(7))),
        "sidecar owned by uid 7, refusing (we are uid 1000); possible privilege boundary crossing"
    );
    assert!(matches!(relay().step(connected(1000)), RelayStep::Start));
}

#[test]
fn nothing_is_asked_of_another_user() {
    let mut r = relay();
    r.step(RelayEvent::Listening);
    assert_eq!(
        reason(r.step(RelayEvent::ControlOpened(PeerUser::Uid(7)))),
        "sidecar owned by uid 7, refusing (we are uid 1000); possible privilege boundary crossing"
    );
    assert!(matches!(r.todo(), RelayStep::Over));
    // The second request has a connection of its own, and a check of its own.
    let mut r = asking();
    r.step(RelayEvent::Reply(result(true, None, None)));
    assert_eq!(
        reason(r.step(RelayEvent::ControlOpened(PeerUser::Unknown))),
        "sidecar peer uid unavailable"
    );
    // Where the system sees to it, the connection is used.
    let mut r = relay();
    r.step(RelayEvent::Listening);
    assert!(matches!(
        r.step(RelayEvent::ControlOpened(PeerUser::Enforced)),
        RelayStep::Ask(Control::EnsureOnline { .. })
    ));
}

#[test]
fn replies_that_nobody_was_asked_for_are_not_taken() {
    let mut r = relay();
    r.step(RelayEvent::Listening);
    assert!(matches!(
        r.step(RelayEvent::Reply(result(true, None, None))),
        RelayStep::OpenControl
    ));
    assert!(matches!(
        r.step(RelayEvent::Reply(result(false, None, None))),
        RelayStep::OpenControl
    ));
    assert!(matches!(r.step(opened()), RelayStep::Ask(Control::EnsureOnline { .. })));
}

#[test]
fn socket_of_a_new_sidecar_is_waited_for() {
    let mut r = relay();
    assert!(matches!(r.step(RelayEvent::Spawned), RelayStep::AwaitSocket { limit_secs: 10 }));
    assert!(matches!(r.step(RelayEvent::Listening), RelayStep::AwaitSocket { .. }));
    assert!(matches!(r.step(RelayEvent::Waited), RelayStep::OpenControl));
}
