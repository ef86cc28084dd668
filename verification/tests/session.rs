use transport_upgrade::iroh_transport::{EndpointId, IrohConfig};
use transport_upgrade::iroh_upgrade::{Action, Role, State, UPGRADE_PROTOCOL_VERSION};
use transport_upgrade::iroh_upgrade_session::{
    action_to_message, DialError, DialPoll, EndpointReport, IncomingUpgrade, Order, SessionError,
    UpgradeSession,
};
use transport_upgrade::message_proto::{
    IrohUpgradeAnswer, IrohUpgradeCommit, IrohUpgradeOffer, Message, Union,
};
use transport_upgrade::net::{IpAddr, SocketAddr};
use transport_upgrade::tcp::FramedStream;

fn up(addr: &str) -> EndpointReport {
    EndpointReport::Up(addr.to_owned())
}

fn unused() -> EndpointReport {
    EndpointReport::NotStarted("not asked for".to_owned())
}

fn framed(link: u64) -> FramedStream {
    FramedStream::from(link, SocketAddr::new(IpAddr::V4([127, 0, 0, 1]), 0))
}

fn peer() -> EndpointId {
    EndpointId([6u8; 32])
}

fn accept_from(addr: &str) -> IncomingUpgrade {
    IncomingUpgrade::Answer {
        accepted: true,
        endpoint_addr: addr.to_owned(),
        reason: String::new(),
    }
}

fn offer_from(addr: &str) -> IncomingUpgrade {
    IncomingUpgrade::Offer { endpoint_addr: addr.to_owned(), version: UPGRADE_PROTOCOL_VERSION }
}

fn labels(orders: &[Order]) -> Vec<&'static str> {
    orders.iter().map(|o| o.label()).collect()
}

/// An initiator whose offer was accepted and whose dial is under way.
fn dialing_initiator() -> UpgradeSession {
    let mut s = UpgradeSession::new(Role::Initiator, IrohConfig::default());
    s.start(up("addr-A")).unwrap();
    s.handle(&accept_from("addr-B"), unused()).unwrap();
    assert_eq!(s.state(), &State::Connecting);
    s.begin_dial("addr-B".to_owned(), Ok(peer())).unwrap();
    s
}

fn valid_addr(seed: u8) -> (String, [u8; 32]) {
    let id = iroh::SecretKey::from_bytes(&[seed; 32]).public();
    let addr = iroh::EndpointAddr { id, addrs: Default::default() };
    (serde_json::to_string(&addr).unwrap(), *id.as_bytes())
}

#[test]
fn recognizes_upgrade_messages_only() {
    let mut m = Message::new();
    m.set_iroh_upgrade_commit(IrohUpgradeCommit::new());
    let union = m.union.clone().expect("a union");
    assert_eq!(IncomingUpgrade::from_union(&union), Some(IncomingUpgrade::Commit));

    // Any other message is none of the upgrade.
    let plain = Message::new();
    if let Some(u) = plain.union.as_ref() {
        assert_eq!(IncomingUpgrade::from_union(u), None);
    }
    assert_eq!(IncomingUpgrade::from_union(&Union::Other(5)), None);
}

#[test]
fn offer_carries_version_and_addr() {
    let mut o = IrohUpgradeOffer::new();
    o.endpoint_addr = "addr-A".to_owned();
    o.version = 7;
    let mut m = Message::new();
    m.set_iroh_upgrade_offer(o);
    let union = m.union.clone().unwrap();
    assert_eq!(
        IncomingUpgrade::from_union(&union),
        Some(IncomingUpgrade::Offer { endpoint_addr: "addr-A".to_owned(), version: 7 })
    );
}

#[test]
fn action_to_message_maps_all_wire_actions() {
    let m = action_to_message(&Action::SendOffer, "addr-A").expect("an offer");
    match m.union {
        Some(Union::IrohUpgradeOffer(o)) => {
            assert_eq!(o.endpoint_addr, "addr-A");
            assert_eq!(o.version, UPGRADE_PROTOCOL_VERSION);
        }
        other => panic!("expected an offer, got {:?}", other),
    }

    // A refusal tells no address.
    let m = action_to_message(
        &Action::SendAnswer { accepted: false, reason: "版本不符".to_owned() },
        "addr-B",
    )
    .unwrap();
    match m.union {
        Some(Union::IrohUpgradeAnswer(a)) => {
            assert!(!a.accepted);
            assert!(a.endpoint_addr.is_empty());
            assert_eq!(a.reason, "版本不符");
        }
        other => panic!("expected an answer, got {:?}", other),
    }

    // An acceptance does.
    let m = action_to_message(
        &Action::SendAnswer { accepted: true, reason: String::new() },
        "addr-B",
    )
    .unwrap();
    match m.union {
        Some(Union::IrohUpgradeAnswer(a)) => assert_eq!(a.endpoint_addr, "addr-B"),
        other => panic!("expected an answer, got {:?}", other),
    }

    assert!(matches!(
        action_to_message(&Action::SendCommit, "").unwrap().union,
        Some(Union::IrohUpgradeCommit(_))
    ));
    assert!(matches!(
        action_to_message(&Action::SendCommitAck, "").unwrap().union,
        Some(Union::IrohUpgradeCommitAck(_))
    ));

    assert!(action_to_message(&Action::DialIroh, "").is_none());
    assert!(action_to_message(&Action::SwitchTransport, "").is_none());
    assert!(action_to_message(&Action::Fallback, "").is_none());
}

#[test]
fn answers_are_recognised_with_all_they_hold() {
    let mut a = IrohUpgradeAnswer::new();
    a.accepted = true;
    a.endpoint_addr = "addr-B".to_owned();
    a.reason = "fine".to_owned();
    let mut m = Message::new();
    m.set_iroh_upgrade_answer(a);
    assert_eq!(
        IncomingUpgrade::from_union(&m.union.unwrap()),
        Some(IncomingUpgrade::Answer {
            accepted: true,
            endpoint_addr: "addr-B".to_owned(),
            reason: "fine".to_owned()
        })
    );
}

#[test]
fn initiator_emits_switch_order_on_commit_ack() {
    let mut s = dialing_initiator();
    assert!(s.poll_dial(DialPoll::Connected(framed(1), peer())));
    let _ = s.drain_orders();

    let orders = s.handle(&IncomingUpgrade::CommitAck, unused()).unwrap();
    assert_eq!(s.state(), &State::Switched);
    assert_eq!(orders.len(), 1);
    assert!(matches!(orders[0], Order::CommitAckReceived));
}

#[test]
fn responder_switches_on_ack_sent_not_received() {
    let mut s = UpgradeSession::new(Role::Responder, IrohConfig::default());
    s.handle(&offer_from("addr-A"), up("addr-B")).unwrap();
    assert!(s.wants_accept());
    assert_eq!(s.poll_accept(Ok(Some((framed(1), peer())))), Ok(true));
    assert_eq!(s.state(), &State::AwaitingCommit);
    assert_eq!(labels(&s.drain_orders()), vec!["Install(<iroh 流>)"]);

    let orders = s.handle(&IncomingUpgrade::Commit, unused()).unwrap();
    assert_eq!(s.state(), &State::Switched);
    assert!(orders.iter().any(|o| matches!(o, Order::CommitAckSent)));
    assert!(!orders.iter().any(|o| matches!(o, Order::CommitAckReceived)));
    assert_eq!(labels(&orders), vec!["Send(<消息>)", "CommitAckSent"]);
}

#[test]
fn needs_tick_stops_at_terminal() {
    let s = UpgradeSession::new(Role::Initiator, IrohConfig::default());
    assert!(s.needs_tick());

    // Waiting for the answer.
    let mut s = UpgradeSession::new(Role::Initiator, IrohConfig::default());
    s.start(up("addr-A")).unwrap();
    assert_eq!(s.state(), &State::OfferSent);
    assert!(s.needs_tick());

    // Refused.
    let refusal = IncomingUpgrade::Answer {
        accepted: false,
        endpoint_addr: "".to_owned(),
        reason: "版本不兼容".to_owned(),
    };
    s.handle(&refusal, unused()).unwrap();
    assert!(matches!(s.state(), State::Rejected(_)));
    assert!(!s.needs_tick());

    // A responder whose connection fails.
    let mut s = UpgradeSession::new(Role::Responder, IrohConfig::default());
    s.handle(&offer_from("addr-B"), up("addr-A")).unwrap();
    assert_eq!(s.state(), &State::Connecting);
    assert!(s.needs_tick());
    s.begin_dial("addr-B".to_owned(), Ok(peer())).unwrap();
    s.poll_dial(DialPoll::Failed("boom".to_owned()));
    assert!(matches!(s.state(), State::Failed(_)));
    assert!(!s.needs_tick());

    // Switched.
    let mut s = dialing_initiator();
    s.poll_dial(DialPoll::Connected(framed(1), peer()));
    assert_eq!(s.state(), &State::CommitSent);
    assert!(s.needs_tick());
    s.handle(&IncomingUpgrade::CommitAck, unused()).unwrap();
    assert!(s.state().is_switched());
    assert!(!s.needs_tick());
}

/// The transition is installed first, then the commit goes out, then the window
/// begins.
#[test]
fn install_must_come_before_commit() {
    let mut s = dialing_initiator();
    assert!(s.poll_dial(DialPoll::Connected(framed(4), peer())));
    let orders = s.drain_orders();
    assert_eq!(labels(&orders), vec!["Install(<iroh 流>)", "Send(<消息>)", "CommitSent"]);
    match (&orders[0], &orders[1]) {
        (Order::Install(f), Order::Send(m)) => {
            assert_eq!(f.0.id, 4);
            assert!(matches!(m.union, Some(Union::IrohUpgradeCommit(_))));
        }
        _ => panic!("unexpected orders {:?}", labels(&orders)),
    }
    assert_eq!(s.peer_id(), Some(peer()));
    assert!(!s.is_dialing());
}

#[test]
fn poll_accept_is_noop_for_initiator_and_wrong_phase() {
    let mut a = UpgradeSession::new(Role::Initiator, IrohConfig::default());
    assert_eq!(a.poll_accept(Ok(Some((framed(1), peer())))), Ok(false));

    let mut b = UpgradeSession::new(Role::Responder, IrohConfig::default());
    assert_eq!(b.poll_accept(Ok(Some((framed(1), peer())))), Ok(false));
    assert_eq!(b.state(), &State::Idle);
    assert!(b.drain_orders().is_empty());
}

#[test]
fn tick_is_noop_after_terminal() {
    let mut s = UpgradeSession::new(Role::Initiator, IrohConfig::default());
    s.start(up("x")).unwrap();
    assert_eq!(labels(&s.tick()), vec!["Abort"]);
    assert!(s.state().is_terminal());
    assert!(s.tick().is_empty());
}

#[test]
fn start_sends_the_offer_with_the_address() {
    let mut s = UpgradeSession::new(Role::Responder, IrohConfig::default());
    let orders = s.start(up("addr-A")).unwrap();
    assert_eq!(s.role(), Role::Initiator);
    assert_eq!(orders.len(), 1);
    match &orders[0] {
        Order::Send(m) => assert_eq!(
            IncomingUpgrade::from_union(m.union.as_ref().unwrap()),
            Some(offer_from("addr-A"))
        ),
        other => panic!("expected a message, got {}", other.label()),
    }
}

#[test]
fn missing_endpoint_is_reported() {
    let mut s = UpgradeSession::new(Role::Initiator, IrohConfig::default());
    let e = s.start(EndpointReport::NotStarted("no socket".to_owned())).err().unwrap();
    assert_eq!(e, SessionError::Endpoint("no socket".to_owned()));
    assert_eq!(e.message(), "no socket");
    assert_eq!(s.state(), &State::Idle);
    assert!(!s.has_endpoint());
    let e = s.start(EndpointReport::Unreadable("bad".to_owned())).err().unwrap();
    assert_eq!(e, SessionError::Endpoint("bad".to_owned()));
    assert!(s.has_endpoint());

    let mut b = UpgradeSession::new(Role::Responder, IrohConfig::default());
    assert!(b.needs_endpoint(&offer_from("addr-A")));
    assert!(!b.needs_endpoint(&IncomingUpgrade::Commit));
    assert!(b.handle(&offer_from("addr-A"), unused()).is_err());
    assert_eq!(b.state(), &State::Idle);
}

#[test]
fn accepting_can_fail_without_ending_the_upgrade() {
    let mut s = UpgradeSession::new(Role::Responder, IrohConfig::default());
    s.handle(&offer_from("addr-A"), up("addr-B")).unwrap();
    let e = s.poll_accept(Err("handshake".to_owned())).unwrap_err();
    assert_eq!(e.message(), "handshake");
    assert_eq!(s.state(), &State::Connecting);
    assert_eq!(s.poll_accept(Ok(None)), Ok(false));
    assert_eq!(s.state(), &State::Connecting);
}

#[test]
fn dial_goes_to_the_identity_in_the_address() {
    let (json, id) = valid_addr(3);
    let mut s = UpgradeSession::new(Role::Initiator, IrohConfig::default());
    s.start(up("addr-A")).unwrap();
    let orders = s.handle(&accept_from(&json), unused()).unwrap();
    assert!(orders.is_empty());
    assert!(s.is_dialing());
    let request = s.take_dial().expect("a dial");
    assert_eq!(request.peer_addr, json);
    assert_eq!(request.peer_id, EndpointId(id));
    assert!(s.take_dial().is_none());
    assert!(s.is_dialing());
}

#[test]
fn address_that_is_none_is_not_dialled() {
    let mut s = UpgradeSession::new(Role::Initiator, IrohConfig::default());
    assert_eq!(s.spawn_dial(), Err(DialError::NoEndpoint));
    assert_eq!(DialError::NoEndpoint.message(), "未启动 endpoint");
    s.start(up("addr-A")).unwrap();
    assert_eq!(s.spawn_dial(), Err(DialError::NoPeerAddr));
    assert_eq!(DialError::NoPeerAddr.message(), "还不知道对端 iroh 地址");
    s.handle(&accept_from("addr-B"), unused()).unwrap();
    assert_eq!(s.state(), &State::Connecting);
    assert!(!s.is_dialing());
    match s.spawn_dial() {
        Err(DialError::BadPeerAddr(cause)) => {
            assert!(!cause.is_empty());
            assert_eq!(
                DialError::BadPeerAddr(cause.clone()).message(),
                format!("对端 iroh 地址解析失败: {cause}")
            );
        }
        other => panic!("expected a bad address, got {:?}", other),
    }
    // The phase ends with its timeout.
    assert_eq!(labels(&s.tick()), vec!["Abort"]);
}

#[test]
fn dial_that_ends_without_a_word_is_a_failure() {
    let mut s = dialing_initiator();
    assert!(!s.poll_dial(DialPoll::Empty));
    assert_eq!(s.state(), &State::Connecting);
    assert!(!s.poll_dial(DialPoll::Disconnected));
    assert_eq!(s.state(), &State::Failed("iroh 建连失败：拨号任务意外结束".to_owned()));
    assert_eq!(labels(&s.drain_orders()), vec!["Abort"]);
    // Nothing is left to look at.
    assert!(!s.poll_dial(DialPoll::Connected(framed(1), peer())));
    assert!(s.drain_orders().is_empty());
}

#[test]
fn failed_dial_names_its_cause() {
    let mut s = dialing_initiator();
    assert!(!s.poll_dial(DialPoll::Failed("timeout".to_owned())));
    assert_eq!(s.state(), &State::Failed("iroh 建连失败：timeout".to_owned()));
    assert!(!s.is_dialing());
    assert!(s.take_dial().is_none());
}

#[test]
fn new_offer_makes_a_responder_begin_again() {
    let mut s = UpgradeSession::new(Role::Responder, IrohConfig::default());
    s.handle(&offer_from("addr-A"), up("addr-B")).unwrap();
    s.tick();
    assert!(s.state().is_terminal());
    let orders = s.handle(&offer_from("addr-A2"), up("addr-B2")).unwrap();
    assert_eq!(s.state(), &State::Connecting);
    match &orders[0] {
        Order::Send(m) => assert_eq!(
            IncomingUpgrade::from_union(m.union.as_ref().unwrap()),
            Some(accept_from("addr-B2"))
        ),
        other => panic!("expected an answer, got {}", other.label()),
    }
}

/// Two sessions with only their messages between them.
#[test]
fn two_sessions_upgrade_together() {
    let (addr_a, id_a) = valid_addr(1);
    let (addr_b, id_b) = valid_addr(2);
    let mut a = UpgradeSession::new(Role::Initiator, IrohConfig::default());
    let mut b = UpgradeSession::new(Role::Responder, IrohConfig::default());
    let mut trace_a: Vec<&'static str> = Vec::new();
    let mut trace_b: Vec<&'static str> = Vec::new();

    fn run(orders: Vec<Order>, trace: &mut Vec<&'static str>) -> Vec<IncomingUpgrade> {
        let mut sent = Vec::new();
        for order in orders {
            match &order {
                Order::Send(m) => {
                    sent.push(IncomingUpgrade::from_union(m.union.as_ref().unwrap()).unwrap())
                }
                other => trace.push(other.label()),
            }
        }
        sent
    }

    let offer = run(a.start(up(&addr_a)).unwrap(), &mut trace_a);
    assert_eq!(offer.len(), 1);
    let answer = run(b.handle(&offer[0], up(&addr_b)).unwrap(), &mut trace_b);
    assert_eq!(answer.len(), 1);
    assert!(run(a.handle(&answer[0], unused()).unwrap(), &mut trace_a).is_empty());
    let dial = a.take_dial().unwrap();
    assert_eq!(dial.peer_id, EndpointId(id_b));

    assert_eq!(b.poll_accept(Ok(Some((framed(20), EndpointId(id_a))))), Ok(true));
    assert!(run(b.drain_orders(), &mut trace_b).is_empty());
    assert!(a.poll_dial(DialPoll::Connected(framed(10), dial.peer_id)));
    let commit = run(a.drain_orders(), &mut trace_a);
    let ack = run(b.handle(&commit[0], unused()).unwrap(), &mut trace_b);
    assert!(run(a.handle(&ack[0], unused()).unwrap(), &mut trace_a).is_empty());

    assert_eq!(a.state(), &State::Switched);
    assert_eq!(b.state(), &State::Switched);
    assert_eq!(trace_a, vec!["Install(<iroh 流>)", "CommitSent", "CommitAckReceived"]);
    assert_eq!(trace_b, vec!["Install(<iroh 流>)", "CommitAckSent"]);
    assert_eq!(a.peer_id(), Some(EndpointId(id_b)));
    assert_eq!(b.peer_id(), Some(EndpointId(id_a)));
}

#[test]
fn session_keeps_its_configuration() {
    let mut cfg = IrohConfig::default();
    cfg.bind_addr = Some("127.0.0.1:0".to_owned());
    let s = UpgradeSession::new(Role::Initiator, cfg);
    assert_eq!(s.config().bind_addr, Some("127.0.0.1:0".to_owned()));
}

/// Whatever happens after the start, the orders to the transition come in one of
/// a few forms.
#[test]
fn short_runs_give_orders_in_one_order() {
    let ops: Vec<fn(&mut UpgradeSession) -> Vec<Order>> = vec![
        |s| s.handle(&accept_from(&valid_addr(2).0), unused()).unwrap(),
        |s| s.handle(&IncomingUpgrade::Commit, unused()).unwrap(),
        |s| s.handle(&IncomingUpgrade::CommitAck, unused()).unwrap(),
        |s| s.tick(),
        |s| {
            s.poll_dial(DialPoll::Connected(framed(1), peer()));
            s.drain_orders()
        },
        |s| {
            s.poll_dial(DialPoll::Failed("x".to_owned()));
            s.drain_orders()
        },
        |s| {
            s.poll_accept(Ok(Some((framed(1), peer())))).unwrap();
            s.drain_orders()
        },
    ];
    for role in vec![Role::Initiator, Role::Responder] {
        for a in &ops {
            for b in &ops {
                for c in &ops {
                    let mut s = UpgradeSession::new(role, IrohConfig::default());
                    match role {
                        Role::Initiator => s.start(up("me")).unwrap(),
                        Role::Responder => s.handle(&offer_from("you"), up("me")).unwrap(),
                    };
                    let mut trace: Vec<&'static str> = Vec::new();
                    for op in vec![a, b, c] {
                        for order in op(&mut s) {
                            if !matches!(order, Order::Send(_)) {
                                trace.push(order.label());
                            }
                        }
                    }
                    let install = "Install(<iroh 流>)";
                    let expected: Vec<Vec<&'static str>> = match (role, s.state()) {
                        (Role::Initiator, State::CommitSent) => vec![vec![install, "CommitSent"]],
                        (Role::Initiator, State::Switched) => {
                            vec![vec![install, "CommitSent", "CommitAckReceived"]]
                        }
                        (Role::Initiator, State::Failed(_)) => {
                            vec![vec!["Abort"], vec![install, "CommitSent", "Abort"]]
                        }
                        (Role::Responder, State::AwaitingCommit) => vec![vec![install]],
                        (Role::Responder, State::Switched) => {
                            vec![vec![install, "CommitAckSent"]]
                        }
                        (Role::Responder, State::Failed(_)) => {
                            vec![vec!["Abort"], vec![install, "Abort"]]
                        }
                        _ => vec![vec![]],
                    };
                    assert!(expected.contains(&trace), "{:?} {:?}", s.state(), trace);
                }
            }
        }
    }
}
