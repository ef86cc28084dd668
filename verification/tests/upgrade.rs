use transport_upgrade::iroh_upgrade::{
    Action, Event, OfferError, Role, State, Upgrade, UPGRADE_PROTOCOL_VERSION,
};

/// A whole handshake: both sides move to iroh, each of them once.
#[test]
fn happy_path_both_sides_switch() {
    let mut a = Upgrade::new(Role::Initiator, "addr-A".to_owned());
    let mut b = Upgrade::new(Role::Responder, "addr-B".to_owned());

    assert_eq!(a.step(Event::Start), vec![Action::SendOffer]);
    assert_eq!(a.state(), &State::OfferSent);

    assert_eq!(
        b.step(Event::OfferReceived { endpoint_addr: "addr-A", version: UPGRADE_PROTOCOL_VERSION }),
        vec![Action::SendAnswer { accepted: true, reason: String::new() }]
    );
    assert_eq!(b.state(), &State::Connecting);

    // The initiator learns the responder's address and dials.
    assert_eq!(
        a.step(Event::AnswerReceived {
            accepted: true,
            endpoint_addr: "addr-B",
            reason: ""
        }),
        vec![Action::DialIroh]
    );
    assert_eq!(a.peer_addr(), Some("addr-B"));

    // iroh is ready at the initiator, which commits.
    assert_eq!(a.step(Event::IrohConnected), vec![Action::SendCommit]);
    assert_eq!(a.state(), &State::CommitSent);

    // iroh is ready at the responder, which waits for the commit.
    assert_eq!(b.step(Event::IrohConnected), Vec::<Action>::new());
    assert_eq!(b.state(), &State::AwaitingCommit);

    // The responder acknowledges the commit and switches.
    assert_eq!(
        b.step(Event::CommitReceived),
        vec![Action::SendCommitAck, Action::SwitchTransport]
    );
    assert!(b.state().is_switched());

    // The initiator switches on the acknowledgement.
    assert_eq!(
        a.step(Event::CommitAckReceived),
        vec![Action::SwitchTransport]
    );
    assert!(a.state().is_switched());

    // Nothing switches twice.
    assert_eq!(a.step(Event::CommitAckReceived), Vec::<Action>::new());
    assert_eq!(b.step(Event::CommitReceived), Vec::<Action>::new());
}

/// A peer that does not know the upgrade never answers.
#[test]
fn unsupported_peer_times_out_and_falls_back() {
    let mut a = Upgrade::new(Role::Initiator, "addr-A".to_owned());
    a.step(Event::Start);
    let actions = a.step(Event::Timeout);
    assert_eq!(actions, vec![Action::Fallback]);
    assert!(matches!(a.state(), State::Failed(_)));
    assert!(!a.state().is_switched());
}

/// Another protocol version is refused.
#[test]
fn version_mismatch_is_rejected() {
    let mut b = Upgrade::new(Role::Responder, "addr-B".to_owned());
    let actions = b.step(Event::OfferReceived {
        endpoint_addr: "addr-A",
        version: UPGRADE_PROTOCOL_VERSION + 99,
    });
    match actions.as_slice() {
        [Action::SendAnswer { accepted: false, .. }] => {}
        other => panic!("expected a refusal, got {:?}", other),
    }
    assert!(matches!(b.state(), State::Rejected(_)));
}

/// The responder does not switch before the commit, or data on its way on the old
/// channel would be lost.
#[test]
fn responder_never_switches_before_commit() {
    let mut b = Upgrade::new(Role::Responder, "addr-B".to_owned());
    b.step(Event::OfferReceived {
        endpoint_addr: "addr-A",
        version: UPGRADE_PROTOCOL_VERSION,
    });
    assert_eq!(b.step(Event::IrohConnected), Vec::<Action>::new());
    for action in b.step(Event::IrohConnected) {
        assert_ne!(action, Action::SwitchTransport);
    }
    assert!(!b.state().is_switched());
}

/// Where iroh fails, both sides fall back.
#[test]
fn iroh_failure_falls_back_on_both_sides() {
    let mut a = Upgrade::new(Role::Initiator, "addr-A".to_owned());
    a.step(Event::Start);
    a.step(Event::AnswerReceived {
        accepted: true,
        endpoint_addr: "addr-B",
        reason: "",
    });
    assert_eq!(a.step(Event::IrohFailed("timeout")), vec![Action::Fallback]);
    assert!(!a.state().is_switched());

    let mut b = Upgrade::new(Role::Responder, "addr-B".to_owned());
    b.step(Event::OfferReceived {
        endpoint_addr: "addr-A",
        version: UPGRADE_PROTOCOL_VERSION,
    });
    assert_eq!(b.step(Event::IrohFailed("connection reset")), vec![Action::Fallback]);
    assert!(!b.state().is_switched());
}

/// Events that do not belong to the state change nothing.
#[test]
fn out_of_order_events_are_ignored() {
    let mut a = Upgrade::new(Role::Initiator, "addr-A".to_owned());
    // An acknowledgement before the start.
    assert_eq!(a.step(Event::CommitAckReceived), Vec::<Action>::new());
    assert_eq!(a.state(), &State::Idle);
    // An offer to the initiator.
    assert_eq!(
        a.step(Event::OfferReceived { endpoint_addr: "x", version: 1 }),
        Vec::<Action>::new()
    );
    assert_eq!(a.state(), &State::Idle);
}

/// Without an address there is nothing to offer.
#[test]
fn empty_local_addr_is_rejected() {
    let u = Upgrade::new(Role::Initiator, String::new());
    assert!(u.make_offer_payload().is_err());
}

fn events<'a>() -> Vec<Event<'a>> {
    vec![
        Event::Start,
        Event::OfferReceived { endpoint_addr: "addr-A", version: UPGRADE_PROTOCOL_VERSION },
        Event::AnswerReceived { accepted: true, endpoint_addr: "addr-B", reason: "" },
        Event::AnswerReceived { accepted: false, endpoint_addr: "", reason: "no" },
        Event::IrohConnected,
        Event::IrohFailed("boom"),
        Event::Timeout,
        Event::CommitReceived,
        Event::CommitAckReceived,
    ]
}

#[test]
fn refusal_names_both_versions() {
    let mut b = Upgrade::new(Role::Responder, "addr-B".to_owned());
    let reason = "升级协议版本不兼容：本端 1，对端 100".to_owned();
    assert_eq!(
        b.step(Event::OfferReceived { endpoint_addr: "addr-A", version: 100 }),
        vec![Action::SendAnswer { accepted: false, reason: reason.clone() }]
    );
    assert_eq!(b.state(), &State::Rejected(reason));
    assert_eq!(b.peer_addr(), None);
}

#[test]
fn largest_version_is_written_out() {
    let mut b = Upgrade::new(Role::Responder, "addr-B".to_owned());
    b.step(Event::OfferReceived { endpoint_addr: "addr-A", version: u32::MAX });
    assert_eq!(
        b.state(),
        &State::Rejected("升级协议版本不兼容：本端 1，对端 4294967295".to_owned())
    );
}

#[test]
fn each_phase_has_its_own_timeout() {
    let mut a = Upgrade::new(Role::Initiator, "addr-A".to_owned());
    assert_eq!(a.step(Event::Timeout), Vec::<Action>::new());
    assert_eq!(a.state(), &State::Idle);
    a.step(Event::Start);
    let mut offered = a.clone();
    offered.step(Event::Timeout);
    assert_eq!(
        offered.state(),
        &State::Failed("等待 Answer 超时（对端可能不支持升级）".to_owned())
    );
    a.step(Event::AnswerReceived { accepted: true, endpoint_addr: "addr-B", reason: "" });
    let mut connecting = a.clone();
    connecting.step(Event::Timeout);
    assert_eq!(connecting.state(), &State::Failed("iroh 建连超时".to_owned()));
    a.step(Event::IrohConnected);
    assert_eq!(a.step(Event::Timeout), vec![Action::Fallback]);
    assert_eq!(a.state(), &State::Failed("等待 CommitAck 超时".to_owned()));

    let mut b = Upgrade::new(Role::Responder, "addr-B".to_owned());
    b.step(Event::OfferReceived { endpoint_addr: "addr-A", version: UPGRADE_PROTOCOL_VERSION });
    b.step(Event::IrohConnected);
    assert_eq!(b.step(Event::Timeout), vec![Action::Fallback]);
    assert_eq!(b.state(), &State::Failed("等待 Commit 超时".to_owned()));
}

#[test]
fn failure_keeps_its_cause() {
    let mut a = Upgrade::new(Role::Initiator, "addr-A".to_owned());
    assert_eq!(a.step(Event::IrohFailed("reset")), vec![Action::Fallback]);
    assert_eq!(a.state(), &State::Failed("iroh 建连失败：reset".to_owned()));
}

#[test]
fn refused_offer_keeps_its_reason() {
    let mut a = Upgrade::new(Role::Initiator, "addr-A".to_owned());
    a.step(Event::Start);
    let refusal = Event::AnswerReceived { accepted: false, endpoint_addr: "x", reason: "busy" };
    assert_eq!(a.step(refusal), vec![Action::Fallback]);
    assert_eq!(a.state(), &State::Rejected("busy".to_owned()));
    assert_eq!(a.peer_addr(), None);
}

#[test]
fn terminal_states_take_no_event() {
    let mut failed = Upgrade::new(Role::Initiator, "addr-A".to_owned());
    failed.step(Event::IrohFailed("boom"));
    let mut rejected = Upgrade::new(Role::Responder, "addr-B".to_owned());
    rejected.step(Event::OfferReceived { endpoint_addr: "addr-A", version: 2 });
    for mut u in vec![failed, rejected] {
        let state = u.state().clone();
        for event in events() {
            assert_eq!(u.step(event), Vec::<Action>::new());
            assert_eq!(u.state(), &state);
        }
    }
}

/// Every run of four events: never more than one switch, and never one of
/// a responder that has not seen the commit.
#[test]
fn short_runs_switch_at_most_once() {
    for role in vec![Role::Initiator, Role::Responder] {
        for a in events() {
            for b in events() {
                for c in events() {
                    for d in events() {
                        let mut u = Upgrade::new(role, "me".to_owned());
                        let committed = vec![&a, &b, &c, &d]
                            .iter()
                            .any(|e| matches!(e, Event::CommitReceived));
                        let mut switches = 0;
                        for event in vec![a.clone(), b.clone(), c.clone(), d.clone()] {
                            for action in u.step(event) {
                                if action == Action::SwitchTransport {
                                    switches += 1;
                                }
                                if action == Action::DialIroh {
                                    assert_eq!(role, Role::Initiator);
                                }
                            }
                        }
                        assert_eq!(switches, if u.state().is_switched() { 1 } else { 0 });
                        if role == Role::Responder && !committed {
                            assert_eq!(switches, 0);
                        }
                        assert_eq!(u.role(), role);
                    }
                }
            }
        }
    }
}

#[test]
fn offer_payload_is_the_local_address() {
    let u = Upgrade::new(Role::Initiator, "addr-A".to_owned());
    assert_eq!(u.make_offer_payload(), Ok("addr-A".to_owned()));
    let u = Upgrade::new(Role::Initiator, String::new());
    assert_eq!(u.make_offer_payload(), Err(OfferError::EmptyLocalAddr));
    assert_eq!(OfferError::EmptyLocalAddr.message(), "本端 iroh 地址为空，无法发起升级");
}
