//! What holds of the upgrade machine over all events and all sequences of them.

use crate::iroh_upgrade::{
    Action, ActionView, Event, EventView, OfferError, Role, State, StateView, Upgrade, UpgradeView,
    UPGRADE_PROTOCOL_VERSION,
};
use vstd::prelude::*;

verus! {

/// The machine after a sequence of events.
pub open spec fn run(u: UpgradeView, events: Seq<EventView>) -> UpgradeView
    decreases events.len(),
{
    if events.len() == 0 {
        u
    } else {
        run(u, events.drop_last()).next(events.last())
    }
}

/// Everything that the machine asks for over a sequence of events, in order.
pub open spec fn run_actions(u: UpgradeView, events: Seq<EventView>) -> Seq<ActionView>
    decreases events.len(),
{
    if events.len() == 0 {
        seq![]
    } else {
        run_actions(u, events.drop_last()) + run(u, events.drop_last()).actions(events.last())
    }
}

/// How often a list asks to move the session to iroh.
pub open spec fn switches(actions: Seq<ActionView>) -> nat
    decreases actions.len(),
{
    if actions.len() == 0 {
        0
    } else {
        switches(actions.drop_last()) + if actions.last() is SwitchTransport {
            1nat
        } else {
            0nat
        }
    }
}

proof fn switches_of_concat(a: Seq<ActionView>, b: Seq<ActionView>)
    ensures
        switches(a + b) == switches(a) + switches(b),
    decreases b.len(),
{
    if b.len() == 0 {
        assert(a + b == a);
    } else {
        switches_of_concat(a, b.drop_last());
        assert((a + b).drop_last() == a + b.drop_last());
    }
}

proof fn switches_of_one_step(u: UpgradeView, event: EventView)
    requires
        u.wf(),
    ensures
        switches(u.actions(event)) == if !(u.state is Switched) && u.next(event).state is Switched {
            1nat
        } else {
            0nat
        },
{
    reveal_with_fuel(switches, 3);
    let actions = u.actions(event);
    if actions.len() == 2 {
        assert(actions.drop_last() == seq![ActionView::SendCommitAck]);
    }
    if actions.len() >= 1 {
        assert(actions.drop_last().len() == actions.len() - 1);
    }
}

proof fn run_keeps_wf(u: UpgradeView, events: Seq<EventView>)
    requires
        u.wf(),
    ensures
        run(u, events).wf(),
        run(u, events).role == u.role,
        run(u, events).local_addr == u.local_addr,
    decreases events.len(),
{
    if events.len() > 0 {
        run_keeps_wf(u, events.drop_last());
    }
}

/// A machine in a terminal state takes no event: it stays as it is and asks for
/// nothing.
pub proof fn terminal_state_is_final(u: UpgradeView, event: EventView)
    requires
        u.state.is_terminal(),
    ensures
        u.next(event) == u,
        u.actions(event) == Seq::<ActionView>::empty(),
{
}

/// A machine in a terminal state takes no sequence of events.
pub proof fn terminal_state_is_final_for_ever(u: UpgradeView, events: Seq<EventView>)
    requires
        u.state.is_terminal(),
    ensures
        run(u, events) == u,
        run_actions(u, events) == Seq::<ActionView>::empty(),
    decreases events.len(),
{
    if events.len() > 0 {
        terminal_state_is_final_for_ever(u, events.drop_last());
        terminal_state_is_final(u, events.last());
    }
}

/// An event that does not change the state changes nothing else, and nothing is
/// asked for: an event out of order is ignored.
pub proof fn ignored_event_changes_nothing(u: UpgradeView, event: EventView)
    requires
        u.next(event).state == u.state,
    ensures
        u.next(event) == u,
        u.actions(event) == Seq::<ActionView>::empty(),
{
}

/// Neither the part a side plays nor its own address ever changes, and each side
/// only visits its own states.
pub proof fn role_and_local_addr_are_fixed(u: UpgradeView, events: Seq<EventView>)
    requires
        u.wf(),
    ensures
        run(u, events).role == u.role,
        run(u, events).local_addr == u.local_addr,
        run(u, events).wf(),
{
    run_keeps_wf(u, events);
}

/// The move to iroh is asked for exactly on the way into `Switched`.
pub proof fn switch_is_asked_for_exactly_on_entering_switched(u: UpgradeView, event: EventView)
    requires
        u.wf(),
    ensures
        u.actions(event).contains(ActionView::SwitchTransport) <==> (!(u.state is Switched)
            && u.next(event).state is Switched),
{
    let actions = u.actions(event);
    if !(u.state is Switched) && u.next(event).state is Switched {
        if u.role is Initiator {
            assert(actions[0] == ActionView::SwitchTransport);
        } else {
            assert(actions[1] == ActionView::SwitchTransport);
        }
    }
}

/// Over any sequence of events, the move to iroh is asked for at most once: once
/// if the machine ends up switched, and not at all otherwise.
pub proof fn switch_is_asked_for_at_most_once(u: UpgradeView, events: Seq<EventView>)
    requires
        u.wf(),
        !(u.state is Switched),
    ensures
        switches(run_actions(u, events)) == if run(u, events).state is Switched {
            1nat
        } else {
            0nat
        },
    decreases events.len(),
{
    if events.len() > 0 {
        let before = run(u, events.drop_last());
        switch_is_asked_for_at_most_once(u, events.drop_last());
        run_keeps_wf(u, events.drop_last());
        switches_of_concat(run_actions(u, events.drop_last()), before.actions(events.last()));
        switches_of_one_step(before, events.last());
    }
}

/// The responder enters `Switched` only from `AwaitingCommit` and only on
/// `Commit`, and acknowledges it before it moves.
pub proof fn responder_switches_only_on_commit(u: UpgradeView, event: EventView)
    requires
        u.wf(),
        u.role is Responder,
        !(u.state is Switched),
        u.next(event).state is Switched,
    ensures
        u.state is AwaitingCommit,
        event is CommitReceived,
        u.actions(event) == seq![ActionView::SendCommitAck, ActionView::SwitchTransport],
{
}

/// The initiator enters `Switched` only from `CommitSent` and only on
/// `CommitAck`.
pub proof fn initiator_switches_only_on_commit_ack(u: UpgradeView, event: EventView)
    requires
        u.wf(),
        u.role is Initiator,
        !(u.state is Switched),
        u.next(event).state is Switched,
    ensures
        u.state is CommitSent,
        event is CommitAckReceived,
        u.actions(event) == seq![ActionView::SwitchTransport],
{
}

/// However the events come, a responder that has not received `Commit` has not
/// switched.
pub proof fn responder_never_switches_before_commit(u: UpgradeView, events: Seq<EventView>)
    requires
        u.wf(),
        u.role is Responder,
        !(u.state is Switched),
        !events.contains(EventView::CommitReceived),
    ensures
        !(run(u, events).state is Switched),
        switches(run_actions(u, events)) == 0,
    decreases events.len(),
{
    if events.len() > 0 {
        let earlier = events.drop_last();
        assert forall|i: int| 0 <= i < earlier.len() implies earlier[i]
            != EventView::CommitReceived by {
            assert(events.contains(events[i]));
        }
        assert(events.contains(events.last())) by {
            assert(events[events.len() - 1] == events.last());
        }
        responder_never_switches_before_commit(u, earlier);
        run_keeps_wf(u, earlier);
    }
    switch_is_asked_for_at_most_once(u, events);
}

/// Only the initiator dials, and it does so exactly on the way from the offer to
/// the connection.
pub proof fn only_the_initiator_dials(u: UpgradeView, event: EventView)
    requires
        u.wf(),
    ensures
        u.actions(event).contains(ActionView::DialIroh) <==> (u.role is Initiator
            && u.state is OfferSent && u.next(event).state is Connecting),
{
    let actions = u.actions(event);
    if u.role is Initiator && u.state is OfferSent && u.next(event).state is Connecting {
        assert(actions[0] == ActionView::DialIroh);
    }
}

/// An offer of another protocol version is refused for good, with an answer
/// that says why, and whatever follows does not lead to iroh.
pub proof fn other_version_is_refused(
    u: UpgradeView,
    endpoint_addr: Seq<char>,
    version: u32,
    later: Seq<EventView>,
)
    requires
        u.wf(),
        u.role is Responder,
        u.state is Idle,
        version != UPGRADE_PROTOCOL_VERSION,
    ensures
        ({
            let offer = EventView::OfferReceived { endpoint_addr, version };
            let reason = crate::iroh_upgrade::version_mismatch(version);
            let refused = u.next(offer);
            &&& refused.state == StateView::Rejected(reason)
            &&& u.actions(offer) == seq![ActionView::SendAnswer { accepted: false, reason }]
            &&& refused.peer_addr == u.peer_addr
            &&& run(refused, later) == refused
            &&& run_actions(refused, later) == Seq::<ActionView>::empty()
        }),
{
    let offer = EventView::OfferReceived { endpoint_addr, version };
    terminal_state_is_final_for_ever(u.next(offer), later);
}

/// Waiting too long in any phase ends on the old channel. Before the upgrade
/// has begun there is nothing to wait for.
pub proof fn timeout_falls_back(u: UpgradeView)
    requires
        u.wf(),
        !u.state.is_terminal(),
    ensures
        u.state is Idle ==> u.next(EventView::Timeout) == u,
        !(u.state is Idle) ==> u.next(EventView::Timeout).state == StateView::Failed(
            crate::iroh_upgrade::timeout_reason(u.state),
        ) && u.actions(EventView::Timeout) == seq![ActionView::Fallback],
{
}

/// A failure of the iroh connection ends on the old channel, on either side and
/// in whatever phase it comes.
pub proof fn iroh_failure_falls_back(u: UpgradeView, cause: Seq<char>)
    requires
        !u.state.is_terminal(),
    ensures
        u.next(EventView::IrohFailed(cause)).state == StateView::Failed(
            "iroh 建连失败："@ + cause,
        ),
        u.actions(EventView::IrohFailed(cause)) == seq![ActionView::Fallback],
{
}

/// A state is seen as what it is, with its reason.
pub proof fn state_is_seen_as_it_is(s: State)
    ensures
        match s {
            State::Idle => s@ == StateView::Idle,
            State::OfferSent => s@ == StateView::OfferSent,
            State::Connecting => s@ == StateView::Connecting,
            State::AwaitingCommit => s@ == StateView::AwaitingCommit,
            State::CommitSent => s@ == StateView::CommitSent,
            State::Switched => s@ == StateView::Switched,
            State::Rejected(reason) => s@ == StateView::Rejected(reason@),
            State::Failed(reason) => s@ == StateView::Failed(reason@),
        },
{
}

/// An action is seen as what it is, with its reason.
pub proof fn action_is_seen_as_it_is(a: Action)
    ensures
        match a {
            Action::SendOffer => a@ == ActionView::SendOffer,
            Action::SendAnswer { accepted, reason } => a@ == (ActionView::SendAnswer {
                accepted,
                reason: reason@,
            }),
            Action::DialIroh => a@ == ActionView::DialIroh,
            Action::SendCommit => a@ == ActionView::SendCommit,
            Action::SendCommitAck => a@ == ActionView::SendCommitAck,
            Action::SwitchTransport => a@ == ActionView::SwitchTransport,
            Action::Fallback => a@ == ActionView::Fallback,
        },
{
}

/// What is asked for is exactly this, in this order.
pub open spec fn asked(actions: Vec<Action>, expected: Seq<ActionView>) -> bool {
    actions@.len() == expected.len() && forall|i: int|
        0 <= i < expected.len() ==> (#[trigger] actions@[i])@ == expected[i]
}

/// Nothing happened: the machine is as it was and nothing is asked for.
pub open spec fn ignored(before: UpgradeView, after: UpgradeView, actions: Vec<Action>) -> bool {
    after == before && actions@.len() == 0
}

/// The machine went to this state, with the peer's address given if one is, and
/// asks for exactly this.
pub open spec fn went_to(
    before: UpgradeView,
    after: UpgradeView,
    actions: Vec<Action>,
    state: StateView,
    peer_addr: Option<Seq<char>>,
    expected: Seq<ActionView>,
) -> bool {
    &&& after.role == before.role && after.local_addr == before.local_addr
    &&& after.state == state
    &&& after.peer_addr == if peer_addr is Some {
        peer_addr
    } else {
        before.peer_addr
    }
    &&& asked(actions, expected)
}

proof fn asked_by_view(actions: Vec<Action>)
    ensures
        forall|expected: Seq<ActionView>|
            crate::iroh_upgrade::actions_view(actions@) == expected ==> #[trigger] asked(
                actions,
                expected,
            ),
        crate::iroh_upgrade::actions_view(actions@).len() == actions@.len(),
{
    let seen = crate::iroh_upgrade::actions_view(actions@);
    assert(seen.len() == actions@.len());
    assert forall|i: int| 0 <= i < seen.len() implies (#[trigger] actions@[i])@ == seen[i] by {}
}

/// Deciding to upgrade makes an initiator that has not begun offer it, and is
/// nothing to anybody else.
pub proof fn deciding_to_upgrade(u: &mut Upgrade, r: Vec<Action>)
    requires
        call_ensures(Upgrade::step, (u, Event::Start), r),
    ensures
        if old(u)@.role is Initiator && old(u)@.state is Idle {
            went_to(
                old(u)@,
                final(u)@,
                r,
                StateView::OfferSent,
                None,
                seq![ActionView::SendOffer],
            )
        } else {
            ignored(old(u)@, final(u)@, r)
        },
{
    asked_by_view(r);
}

/// An offer makes a responder that has not begun accept it, learn the peer's
/// address and wait for the connection; or refuse it for its version, and say so.
/// It is nothing to anybody else.
pub proof fn receiving_an_offer(u: &mut Upgrade, endpoint_addr: &str, version: u32, r: Vec<Action>)
    requires
        call_ensures(Upgrade::step, (u, Event::OfferReceived { endpoint_addr, version }), r),
    ensures
        if old(u)@.role is Responder && old(u)@.state is Idle {
            if version == 1 {
                went_to(
                    old(u)@,
                    final(u)@,
                    r,
                    StateView::Connecting,
                    Some(endpoint_addr@),
                    seq![ActionView::SendAnswer { accepted: true, reason: seq![] }],
                )
            } else {
                let reason = "升级协议版本不兼容：本端 "@ + crate::text::decimal_text(1)
                    + "，对端 "@ + crate::text::decimal_text(version as nat);
                went_to(
                    old(u)@,
                    final(u)@,
                    r,
                    StateView::Rejected(reason),
                    None,
                    seq![ActionView::SendAnswer { accepted: false, reason }],
                )
            }
        } else {
            ignored(old(u)@, final(u)@, r)
        },
{
    asked_by_view(r);
}

/// An answer makes an initiator that waits for it learn the peer's address and
/// dial, or give up for the peer's reason. It is nothing to anybody else.
pub proof fn receiving_an_answer(
    u: &mut Upgrade,
    accepted: bool,
    endpoint_addr: &str,
    reason: &str,
    r: Vec<Action>,
)
    requires
        call_ensures(
            Upgrade::step,
            (u, Event::AnswerReceived { accepted, endpoint_addr, reason }),
            r,
        ),
        old(u)@.wf(),
    ensures
        if old(u)@.state is OfferSent {
            if accepted {
                went_to(
                    old(u)@,
                    final(u)@,
                    r,
                    StateView::Connecting,
                    Some(endpoint_addr@),
                    seq![ActionView::DialIroh],
                )
            } else {
                went_to(
                    old(u)@,
                    final(u)@,
                    r,
                    StateView::Rejected(reason@),
                    None,
                    seq![ActionView::Fallback],
                )
            }
        } else {
            ignored(old(u)@, final(u)@, r)
        },
{
    asked_by_view(r);
}

/// A connection makes an initiator that waits for it commit, and a responder wait
/// for `Commit`. It is nothing to anybody else.
pub proof fn getting_connected(u: &mut Upgrade, r: Vec<Action>)
    requires
        call_ensures(Upgrade::step, (u, Event::IrohConnected), r),
    ensures
        if old(u)@.state is Connecting {
            match old(u)@.role {
                Role::Initiator => went_to(
                    old(u)@,
                    final(u)@,
                    r,
                    StateView::CommitSent,
                    None,
                    seq![ActionView::SendCommit],
                ),
                Role::Responder => went_to(
                    old(u)@,
                    final(u)@,
                    r,
                    StateView::AwaitingCommit,
                    None,
                    seq![],
                ),
            }
        } else {
            ignored(old(u)@, final(u)@, r)
        },
{
    asked_by_view(r);
}

/// `Commit` makes a responder that waits for it acknowledge and then move. It is
/// nothing to anybody else.
pub proof fn receiving_commit(u: &mut Upgrade, r: Vec<Action>)
    requires
        call_ensures(Upgrade::step, (u, Event::CommitReceived), r),
        old(u)@.wf(),
    ensures
        if old(u)@.state is AwaitingCommit {
            went_to(
                old(u)@,
                final(u)@,
                r,
                StateView::Switched,
                None,
                seq![ActionView::SendCommitAck, ActionView::SwitchTransport],
            )
        } else {
            ignored(old(u)@, final(u)@, r)
        },
{
    asked_by_view(r);
}

/// The acknowledgement makes an initiator that waits for it move. It is nothing to
/// anybody else.
pub proof fn receiving_the_acknowledgement(u: &mut Upgrade, r: Vec<Action>)
    requires
        call_ensures(Upgrade::step, (u, Event::CommitAckReceived), r),
        old(u)@.wf(),
    ensures
        if old(u)@.state is CommitSent {
            went_to(
                old(u)@,
                final(u)@,
                r,
                StateView::Switched,
                None,
                seq![ActionView::SwitchTransport],
            )
        } else {
            ignored(old(u)@, final(u)@, r)
        },
{
    asked_by_view(r);
}

/// A connection that fails ends any upgrade that is not over, with the cause told.
pub proof fn failing_to_connect(u: &mut Upgrade, cause: &str, r: Vec<Action>)
    requires
        call_ensures(Upgrade::step, (u, Event::IrohFailed(cause)), r),
    ensures
        if old(u)@.state is Switched || old(u)@.state is Rejected || old(u)@.state is Failed {
            ignored(old(u)@, final(u)@, r)
        } else {
            went_to(
                old(u)@,
                final(u)@,
                r,
                StateView::Failed("iroh 建连失败："@ + cause@),
                None,
                seq![ActionView::Fallback],
            )
        },
{
    asked_by_view(r);
}

/// Waiting too long ends an upgrade that waits for something, and tells for what.
pub proof fn waiting_too_long(u: &mut Upgrade, r: Vec<Action>)
    requires
        call_ensures(Upgrade::step, (u, Event::Timeout), r),
    ensures
        ({
            let reason = match old(u)@.state {
                StateView::OfferSent => Some("等待 Answer 超时（对端可能不支持升级）"@),
                StateView::Connecting => Some("iroh 建连超时"@),
                StateView::CommitSent => Some("等待 CommitAck 超时"@),
                StateView::AwaitingCommit => Some("等待 Commit 超时"@),
                _ => None,
            };
            match reason {
                Some(words) => went_to(
                    old(u)@,
                    final(u)@,
                    r,
                    StateView::Failed(words),
                    None,
                    seq![ActionView::Fallback],
                ),
                None => ignored(old(u)@, final(u)@, r),
            }
        }),
{
    asked_by_view(r);
}

/// A new machine plays the part given at the address given, and nothing has
/// happened to it.
pub proof fn new_machine(role: Role, local_addr: String, r: Upgrade)
    requires
        call_ensures(Upgrade::new, (role, local_addr), r),
    ensures
        r@.role == role,
        r@.local_addr == local_addr@,
        r@.state is Idle,
        r@.peer_addr is None,
{
}

/// What a machine tells of itself is so, and it offers its own address if it has
/// one.
pub proof fn machine_tells_what_it_is(
    u: &Upgrade,
    state: &State,
    role: Role,
    peer_addr: Option<&str>,
    offer: Result<String, OfferError>,
    s: &State,
    terminal: bool,
    switched: bool,
)
    requires
        call_ensures(Upgrade::state, (u,), state),
        call_ensures(Upgrade::role, (u,), role),
        call_ensures(Upgrade::peer_addr, (u,), peer_addr),
        call_ensures(Upgrade::make_offer_payload, (u,), offer),
        call_ensures(State::is_terminal, (s,), terminal),
        call_ensures(State::is_switched, (s,), switched),
    ensures
        state@ == u@.state,
        role == u@.role,
        match peer_addr {
            Some(addr) => u@.peer_addr == Some(addr@),
            None => u@.peer_addr is None,
        },
        match offer {
            Ok(addr) => addr@ == u@.local_addr && addr@.len() > 0,
            Err(e) => e == OfferError::EmptyLocalAddr && u@.local_addr.len() == 0,
        },
        terminal <==> (*s is Switched || *s is Rejected || *s is Failed),
        switched <==> *s is Switched,
{
}

/// Where an event leads a machine that takes it, and nothing where it is ignored:
/// each event has its place, and only there it does something.
pub open spec fn led_to(u: UpgradeView, event: EventView) -> Option<StateView> {
    let over = u.state is Switched || u.state is Rejected || u.state is Failed;
    match event {
        EventView::Start => if u.role is Initiator && u.state is Idle {
            Some(StateView::OfferSent)
        } else {
            None
        },
        EventView::OfferReceived { version, .. } => if u.role is Responder && u.state is Idle {
            if version == 1 {
                Some(StateView::Connecting)
            } else {
                Some(
                    StateView::Rejected(
                        "升级协议版本不兼容：本端 "@ + crate::text::decimal_text(1) + "，对端 "@
                            + crate::text::decimal_text(version as nat),
                    ),
                )
            }
        } else {
            None
        },
        EventView::AnswerReceived { accepted, reason, .. } => if u.state is OfferSent {
            if accepted {
                Some(StateView::Connecting)
            } else {
                Some(StateView::Rejected(reason))
            }
        } else {
            None
        },
        EventView::IrohConnected => if u.state is Connecting {
            if u.role is Initiator {
                Some(StateView::CommitSent)
            } else {
                Some(StateView::AwaitingCommit)
            }
        } else {
            None
        },
        EventView::CommitReceived => if u.state is AwaitingCommit {
            Some(StateView::Switched)
        } else {
            None
        },
        EventView::CommitAckReceived => if u.state is CommitSent {
            Some(StateView::Switched)
        } else {
            None
        },
        EventView::IrohFailed(cause) => if over {
            None
        } else {
            Some(StateView::Failed("iroh 建连失败："@ + cause))
        },
        EventView::Timeout => if over || u.state is Idle {
            None
        } else {
            Some(
                StateView::Failed(
                    match u.state {
                        StateView::OfferSent => "等待 Answer 超时（对端可能不支持升级）"@,
                        StateView::Connecting => "iroh 建连超时"@,
                        StateView::CommitSent => "等待 CommitAck 超时"@,
                        _ => "等待 Commit 超时"@,
                    },
                ),
            )
        },
    }
}

/// The peer's address comes with an offer or an answer that leads on to the
/// connection, and is kept otherwise.
pub open spec fn known_addr(u: UpgradeView, event: EventView) -> Option<Seq<char>> {
    match (led_to(u, event), event) {
        (
            Some(StateView::Connecting),
            EventView::OfferReceived { endpoint_addr, .. },
        ) => Some(endpoint_addr),
        (
            Some(StateView::Connecting),
            EventView::AnswerReceived { endpoint_addr, .. },
        ) => Some(endpoint_addr),
        _ => u.peer_addr,
    }
}

/// The machine goes where an event leads it, learns what comes with it, and keeps
/// its part and its own address.
pub proof fn machine_goes_where_it_is_led(u: UpgradeView, event: EventView)
    requires
        u.wf(),
    ensures
        u.next(event).state == match led_to(u, event) {
            Some(state) => state,
            None => u.state,
        },
        u.next(event).peer_addr == known_addr(u, event),
        u.next(event).role == u.role,
        u.next(event).local_addr == u.local_addr,
        led_to(u, event) is None <==> u.next(event).state == u.state,
{
}

} // verus!
