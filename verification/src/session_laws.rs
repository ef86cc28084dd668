//! What holds of a session over all events, and of the two sides together.

use crate::iroh_transport::{EndpointId, IrohConfig};
use crate::iroh_upgrade::{
    Action, ActionView, Event, EventView, Role, State, StateView, UpgradeView,
    UPGRADE_PROTOCOL_VERSION,
};
use crate::iroh_upgrade_session::{
    action_to_message, DialError, DialPoll, DialRequest, DialView, EndpointReport, IncomingUpgrade,
    Order, OrderView, SessionError, SessionView, UpgradeSession,
};
use crate::message_proto::{Message, Union, UnionView};
use crate::tcp::FramedStream;
use vstd::prelude::*;

verus! {

/// What one side sends is what the other receives: every action that sends a
/// message arrives as the event that belongs to it, with what was put in.
pub proof fn messages_arrive_as_they_were_sent(action: ActionView, local_addr: Seq<char>)
    ensures
        match crate::iroh_upgrade_session::message_of(action, local_addr) {
            Some(message) => crate::iroh_upgrade_session::event_of(message) == Some(
                match action {
                    ActionView::SendOffer => EventView::OfferReceived {
                        endpoint_addr: local_addr,
                        version: UPGRADE_PROTOCOL_VERSION,
                    },
                    ActionView::SendAnswer { accepted, reason } => EventView::AnswerReceived {
                        accepted,
                        endpoint_addr: if accepted {
                            local_addr
                        } else {
                            seq![]
                        },
                        reason,
                    },
                    ActionView::SendCommit => EventView::CommitReceived,
                    _ => EventView::CommitAckReceived,
                },
            ),
            None => action is DialIroh || action is SwitchTransport || action is Fallback,
        },
{
}

/// A side that refuses does not tell its address.
pub proof fn refusal_tells_no_address(reason: Seq<char>, local_addr: Seq<char>)
    ensures
        crate::iroh_upgrade_session::message_of(
            ActionView::SendAnswer { accepted: false, reason },
            local_addr,
        ) == Some(
            UnionView::Answer { accepted: false, endpoint_addr: Seq::<char>::empty(), reason },
        ),
{
}

/// What an event does to a session, written out: it calls for at most two actions.
pub(crate) proof fn lemma_on_event(s: SessionView, event: EventView)
    ensures
        ({
            let actions = s.upgrade.actions(event);
            let parsed = crate::iroh_upgrade_session::peer_reading(s.upgrade.next(event));
            let base = SessionView { upgrade: s.upgrade.next(event), ..s };
            let after = s.on_event(event);
            &&& actions.len() <= 2
            &&& actions.len() == 0 ==> after == base
            &&& actions.len() == 1 ==> after == base.after_action(actions[0], parsed)
            &&& actions.len() == 2 ==> after == base.after_action(actions[0], parsed).after_action(
                actions[1],
                parsed,
            )
        }),
{
    reveal_with_fuel(SessionView::after_actions, 3);
    let actions = s.upgrade.actions(event);
    if actions.len() == 2 {
        assert(actions.drop_last().last() == actions[0]);
        assert(actions.drop_last().drop_last() == Seq::<ActionView>::empty());
    }
    if actions.len() == 1 {
        assert(actions.drop_last() == Seq::<ActionView>::empty());
    }
}

/// `Commit` is sent only by an initiator whose connection has just come up, and
/// `CommitAck` only by a responder that has just received `Commit`. So no message
/// and no timeout makes a session commit: only a connection does, for which the
/// order to install it stands right before.
pub proof fn commit_needs_a_connection(s: SessionView, event: EventView)
    requires
        s.wf(),
    ensures
        ({
            let added = s.on_event(event).orders.skip(s.orders.len() as int);
            &&& added.contains(OrderView::Send(Some(UnionView::Commit))) <==> (
            s.upgrade.role is Initiator && s.upgrade.state is Connecting
                && event is IrohConnected)
            &&& added.contains(OrderView::Send(Some(UnionView::CommitAck))) <==> (
            s.upgrade.state is AwaitingCommit && event is CommitReceived)
        }),
{
    let actions = s.upgrade.actions(event);
    lemma_on_event(s, event);
    let local = s.local_addr();
    let role = s.upgrade.role;
    let added = s.on_event(event).orders.skip(s.orders.len() as int);
    if actions.len() == 0 {
        assert(added == Seq::<OrderView>::empty());
    } else if actions.len() == 1 {
        assert(added == crate::iroh_upgrade_session::orders_for(role, actions[0], local));
        if actions[0] is SendCommit {
            assert(added[0] == OrderView::Send(Some(UnionView::Commit)));
        }
    } else {
        assert(added == crate::iroh_upgrade_session::orders_for(role, actions[0], local)
            + crate::iroh_upgrade_session::orders_for(role, actions[1], local));
        assert(added[0] == OrderView::Send(Some(UnionView::CommitAck)));
    }
}

/// When the initiator's dial is through, the order to install the transition
/// comes first, then `Commit`, and then the commit window begins.
pub proof fn install_comes_before_commit(
    s: SessionView,
    stream: FramedStream,
    peer: EndpointId,
)
    requires
        s.wf(),
        s.upgrade.role is Initiator,
        s.upgrade.state is Connecting,
    ensures
        ({
            let after = s.dial_over().connected(stream, peer).on_event(EventView::IrohConnected);
            &&& after.upgrade.state is CommitSent
            &&& after.orders == s.orders + seq![
                OrderView::Install(stream),
                OrderView::Send(Some(UnionView::Commit)),
                OrderView::CommitSent,
            ]
            &&& after.peer_id == Some(peer)
            &&& !after.dialing
            &&& after.ready is None
        }),
{
    let before = s.dial_over().connected(stream, peer);
    let event = EventView::IrohConnected;
    lemma_on_event(before, event);
}

/// The responder installs the transition as soon as the connection is there, and
/// sends nothing: it waits for `Commit`.
pub proof fn responder_installs_and_waits(s: SessionView, stream: FramedStream, peer: EndpointId)
    requires
        s.wf(),
        s.wants_accept(),
    ensures
        ({
            let after = s.connected(stream, peer).on_event(EventView::IrohConnected);
            &&& after.upgrade.state is AwaitingCommit
            &&& after.orders == s.orders + seq![OrderView::Install(stream)]
            &&& after.peer_id == Some(peer)
            &&& !after.wants_accept()
        }),
{
    let before = s.connected(stream, peer);
    let event = EventView::IrohConnected;
    lemma_on_event(before, event);
}

/// On `CommitAck` the initiator gives exactly one order, to switch.
pub proof fn initiator_switches_on_commit_ack(s: SessionView)
    requires
        s.wf(),
        s.upgrade.state is CommitSent,
    ensures
        s.on_event(EventView::CommitAckReceived).upgrade.state is Switched,
        s.on_event(EventView::CommitAckReceived).orders == s.orders.push(
            OrderView::CommitAckReceived,
        ),
{
    let event = EventView::CommitAckReceived;
    lemma_on_event(s, event);
}

/// On `Commit` the responder sends the acknowledgement, and switches when that is
/// out.
pub proof fn responder_switches_when_the_ack_is_out(s: SessionView)
    requires
        s.wf(),
        s.upgrade.state is AwaitingCommit,
    ensures
        s.on_event(EventView::CommitReceived).upgrade.state is Switched,
        s.on_event(EventView::CommitReceived).orders == s.orders + seq![
            OrderView::Send(Some(UnionView::CommitAck)),
            OrderView::CommitAckSent,
        ],
{
    let event = EventView::CommitReceived;
    lemma_on_event(s, event);
}

/// An event only ever adds orders behind those not taken yet, and each side gets
/// only its own order to switch: the responder none for an acknowledgement that
/// it received, the initiator none for one that it sent.
pub proof fn each_side_has_its_own_order_to_switch(s: SessionView, event: EventView)
    requires
        s.wf(),
    ensures
        ({
            let after = s.on_event(event);
            let added = after.orders.skip(s.orders.len() as int);
            &&& after.orders == s.orders + added
            &&& s.upgrade.role is Responder ==> !added.contains(OrderView::CommitAckReceived)
                && !added.contains(OrderView::CommitSent)
            &&& s.upgrade.role is Initiator ==> !added.contains(OrderView::CommitAckSent)
        }),
{
    let actions = s.upgrade.actions(event);
    lemma_on_event(s, event);
    let local = s.local_addr();
    let role = s.upgrade.role;
    let after = s.on_event(event);
    let added = after.orders.skip(s.orders.len() as int);
    if actions.len() == 0 {
        assert(added == Seq::<OrderView>::empty());
    } else if actions.len() == 1 {
        assert(added == crate::iroh_upgrade_session::orders_for(role, actions[0], local));
    } else {
        assert(added == crate::iroh_upgrade_session::orders_for(role, actions[0], local)
            + crate::iroh_upgrade_session::orders_for(role, actions[1], local));
    }
    assert(after.orders == s.orders + added);
}

/// Once the upgrade is over, no event changes the session or gives an order.
pub proof fn finished_session_ignores_events(s: SessionView, event: EventView)
    requires
        s.upgrade.state.is_terminal(),
    ensures
        s.on_event(event) == s,
{
    lemma_on_event(s, event);
}

/// Whenever the upgrade fails, the dial and the connection are dropped and the
/// order to go back to the old channel is given. A responder that refuses an
/// offer has nothing to go back from.
pub proof fn failure_orders_the_way_back(s: SessionView, event: EventView)
    requires
        s.wf(),
        !s.upgrade.state.is_terminal(),
        s.upgrade.next(event).state is Failed || (s.upgrade.role is Initiator && s.upgrade.next(
            event,
        ).state is Rejected),
    ensures
        !s.on_event(event).dialing,
        s.on_event(event).dial is None,
        s.on_event(event).ready is None,
        s.on_event(event).orders == s.orders.push(OrderView::Abort),
{
    lemma_on_event(s, event);
}

/// A dial is asked for only by the initiator, only when the offer was accepted,
/// and then to the address in the answer, under the identity in that address.
pub proof fn dial_goes_to_the_peer_that_accepted(
    s: SessionView,
    endpoint_addr: Seq<char>,
    reason: Seq<char>,
    peer_id: Seq<u8>,
)
    requires
        s.wf(),
        s.upgrade.state is OfferSent,
        s.endpoint is Some,
        crate::iroh_upgrade_session::endpoint_addr_of(endpoint_addr) == Ok::<Seq<u8>, Seq<char>>(
            peer_id,
        ),
    ensures
        ({
            let answer = EventView::AnswerReceived { accepted: true, endpoint_addr, reason };
            let after = s.on_event(answer);
            &&& s.upgrade.role is Initiator
            &&& after.upgrade.state is Connecting
            &&& after.upgrade.peer_addr == Some(endpoint_addr)
            &&& after.dialing
            &&& after.dial == Some(
                crate::iroh_upgrade_session::DialView { peer_addr: endpoint_addr, peer_id },
            )
            &&& after.orders == s.orders
        }),
{
    let answer = EventView::AnswerReceived { accepted: true, endpoint_addr, reason };
    lemma_on_event(s, answer);
}

/// Two sides and what is on its way between them on the old channel, which
/// neither loses nor reorders anything.
#[verifier::ext_equal]
pub struct Pair {
    pub initiator: UpgradeView,
    pub responder: UpgradeView,
    pub to_responder: Seq<UnionView>,
    pub to_initiator: Seq<UnionView>,
}

/// What can happen to two sides.
pub enum Step {
    /// Something happens at the initiator itself.
    AtInitiator(EventView),
    /// Something happens at the responder itself.
    AtResponder(EventView),
    /// The responder receives the next message.
    ResponderReceives,
    /// The initiator receives the next message.
    InitiatorReceives,
}

/// An event that does not come out of a message.
pub open spec fn is_local(event: EventView) -> bool {
    event is Start || event is IrohConnected || event is IrohFailed || event is Timeout
}

/// The messages that a list of actions sends.
pub open spec fn messages_of(actions: Seq<ActionView>, local_addr: Seq<char>) -> Seq<UnionView>
    decreases actions.len(),
{
    if actions.len() == 0 {
        seq![]
    } else {
        let earlier = messages_of(actions.drop_last(), local_addr);
        match crate::iroh_upgrade_session::message_of(actions.last(), local_addr) {
            Some(message) => earlier.push(message),
            None => earlier,
        }
    }
}

impl Pair {
    /// Two sides that have not begun.
    pub open spec fn fresh(initiator_addr: Seq<char>, responder_addr: Seq<char>) -> Pair {
        Pair {
            initiator: UpgradeView::fresh(Role::Initiator, initiator_addr),
            responder: UpgradeView::fresh(Role::Responder, responder_addr),
            to_responder: seq![],
            to_initiator: seq![],
        }
    }

    /// The two sides after an event at the initiator.
    pub open spec fn initiator_takes(self, event: EventView) -> Pair {
        Pair {
            initiator: self.initiator.next(event),
            to_responder: self.to_responder + messages_of(
                self.initiator.actions(event),
                self.initiator.local_addr,
            ),
            ..self
        }
    }

    /// The two sides after an event at the responder.
    pub open spec fn responder_takes(self, event: EventView) -> Pair {
        Pair {
            responder: self.responder.next(event),
            to_initiator: self.to_initiator + messages_of(
                self.responder.actions(event),
                self.responder.local_addr,
            ),
            ..self
        }
    }

    /// The two sides after a step.
    pub open spec fn next(self, step: Step) -> Pair {
        match step {
            Step::AtInitiator(event) => if is_local(event) {
                self.initiator_takes(event)
            } else {
                self
            },
            Step::AtResponder(event) => if is_local(event) {
                self.responder_takes(event)
            } else {
                self
            },
            Step::ResponderReceives => if self.to_responder.len() == 0 {
                self
            } else {
                let rest = Pair { to_responder: self.to_responder.drop_first(), ..self };
                match crate::iroh_upgrade_session::event_of(self.to_responder[0]) {
                    Some(event) => rest.responder_takes(event),
                    None => rest,
                }
            },
            Step::InitiatorReceives => if self.to_initiator.len() == 0 {
                self
            } else {
                let rest = Pair { to_initiator: self.to_initiator.drop_first(), ..self };
                match crate::iroh_upgrade_session::event_of(self.to_initiator[0]) {
                    Some(event) => rest.initiator_takes(event),
                    None => rest,
                }
            },
        }
    }

    /// The two sides after a sequence of steps.
    pub open spec fn run(self, steps: Seq<Step>) -> Pair
        decreases steps.len(),
    {
        if steps.len() == 0 {
            self
        } else {
            self.run(steps.drop_last()).next(steps.last())
        }
    }

    /// The initiator has sent `Commit`.
    pub open spec fn committed(self) -> bool {
        self.initiator.state is CommitSent || self.initiator.state is Switched
            || self.initiator.state is Failed
    }

    /// A message on its way to the responder is one that the initiator could have
    /// sent.
    pub open spec fn could_reach_responder(self, message: UnionView) -> bool {
        match message {
            UnionView::Offer { endpoint_addr, version } => endpoint_addr
                == self.initiator.local_addr && version == UPGRADE_PROTOCOL_VERSION,
            UnionView::Commit => self.committed(),
            _ => false,
        }
    }

    /// A message on its way to the initiator is one that the responder could have
    /// sent.
    pub open spec fn could_reach_initiator(self, message: UnionView) -> bool {
        match message {
            UnionView::Answer { accepted, endpoint_addr, .. } => accepted ==> endpoint_addr
                == self.responder.local_addr,
            UnionView::CommitAck => self.responder.state is Switched,
            _ => false,
        }
    }

    /// What every reachable pair satisfies.
    pub open spec fn inv(self) -> bool {
        &&& self.initiator.wf()
        &&& self.responder.wf()
        &&& self.initiator.role is Initiator
        &&& self.responder.role is Responder
        &&& forall|i: int|
            0 <= i < self.to_responder.len() ==> self.could_reach_responder(
                #[trigger] self.to_responder[i],
            )
        &&& forall|i: int|
            0 <= i < self.to_initiator.len() ==> self.could_reach_initiator(
                #[trigger] self.to_initiator[i],
            )
        &&& self.initiator.state is Switched ==> self.responder.state is Switched
        &&& self.responder.state is Switched ==> self.committed()
        &&& self.initiator.peer_addr matches Some(addr) ==> addr == self.responder.local_addr
        &&& self.responder.peer_addr matches Some(addr) ==> addr == self.initiator.local_addr
    }
}

/// The messages of at most two actions, written out.
proof fn lemma_messages_of(actions: Seq<ActionView>, local_addr: Seq<char>)
    requires
        actions.len() <= 2,
    ensures
        ({
            let first = crate::iroh_upgrade_session::message_of(actions[0], local_addr);
            let second = crate::iroh_upgrade_session::message_of(actions[1], local_addr);
            let one = if first is Some {
                seq![first->0]
            } else {
                seq![]
            };
            let two = if second is Some {
                seq![second->0]
            } else {
                seq![]
            };
            messages_of(actions, local_addr) == if actions.len() == 0 {
                seq![]
            } else if actions.len() == 1 {
                one
            } else {
                one + two
            }
        }),
{
    reveal_with_fuel(messages_of, 3);
    if actions.len() == 2 {
        assert(actions.drop_last().last() == actions[0]);
        assert(actions.drop_last().drop_last() == Seq::<ActionView>::empty());
    }
    if actions.len() == 1 {
        assert(actions.drop_last() == Seq::<ActionView>::empty());
    }
}

proof fn lemma_initiator_takes(p: Pair, event: EventView)
    requires
        p.inv(),
        is_local(event) || (event is AnswerReceived && (event->accepted
            ==> event->AnswerReceived_endpoint_addr == p.responder.local_addr)) || (
        event is CommitAckReceived && p.responder.state is Switched),
    ensures
        p.initiator_takes(event).inv(),
{
    lemma_messages_of(p.initiator.actions(event), p.initiator.local_addr);
}

proof fn lemma_responder_takes(p: Pair, event: EventView)
    requires
        p.inv(),
        is_local(event) || (event is OfferReceived && event->OfferReceived_endpoint_addr
            == p.initiator.local_addr) || (event is CommitReceived && p.committed()),
    ensures
        p.responder_takes(event).inv(),
{
    lemma_messages_of(p.responder.actions(event), p.responder.local_addr);
}

proof fn lemma_step_keeps_inv(p: Pair, step: Step)
    requires
        p.inv(),
    ensures
        p.next(step).inv(),
{
    match step {
        Step::AtInitiator(event) => {
            if is_local(event) {
                lemma_initiator_takes(p, event);
            }
        },
        Step::AtResponder(event) => {
            if is_local(event) {
                lemma_responder_takes(p, event);
            }
        },
        Step::ResponderReceives => {
            if p.to_responder.len() > 0 {
                let rest = Pair { to_responder: p.to_responder.drop_first(), ..p };
                assert(p.could_reach_responder(p.to_responder[0]));
                assert(rest.inv());
                if let Some(event) = crate::iroh_upgrade_session::event_of(p.to_responder[0]) {
                    lemma_responder_takes(rest, event);
                }
            }
        },
        Step::InitiatorReceives => {
            if p.to_initiator.len() > 0 {
                let rest = Pair { to_initiator: p.to_initiator.drop_first(), ..p };
                assert(p.could_reach_initiator(p.to_initiator[0]));
                assert(rest.inv());
                if let Some(event) = crate::iroh_upgrade_session::event_of(p.to_initiator[0]) {
                    lemma_initiator_takes(rest, event);
                }
            }
        },
    }
}

proof fn lemma_run_keeps_inv(p: Pair, steps: Seq<Step>)
    requires
        p.inv(),
    ensures
        p.run(steps).inv(),
    decreases steps.len(),
{
    if steps.len() > 0 {
        lemma_run_keeps_inv(p, steps.drop_last());
        lemma_step_keeps_inv(p.run(steps.drop_last()), steps.last());
    }
}

/// Whatever happens at the two sides and however long messages take, the
/// initiator is on iroh only if the responder is too.
pub proof fn initiator_never_switches_alone(
    initiator_addr: Seq<char>,
    responder_addr: Seq<char>,
    steps: Seq<Step>,
)
    ensures
        ({
            let p = Pair::fresh(initiator_addr, responder_addr).run(steps);
            p.initiator.state is Switched ==> p.responder.state is Switched
        }),
{
    lemma_run_keeps_inv(Pair::fresh(initiator_addr, responder_addr), steps);
}

/// Whatever happens, the responder is on iroh only if the initiator has
/// committed: it has switched, still waits for the acknowledgement, or has given
/// up waiting for it.
pub proof fn responder_switches_only_after_commit(
    initiator_addr: Seq<char>,
    responder_addr: Seq<char>,
    steps: Seq<Step>,
)
    ensures
        ({
            let p = Pair::fresh(initiator_addr, responder_addr).run(steps);
            p.responder.state is Switched ==> p.committed()
        }),
{
    lemma_run_keeps_inv(Pair::fresh(initiator_addr, responder_addr), steps);
}

/// Each side learns the other's address, or none.
pub proof fn each_side_learns_the_address_of_the_other(
    initiator_addr: Seq<char>,
    responder_addr: Seq<char>,
    steps: Seq<Step>,
)
    ensures
        ({
            let p = Pair::fresh(initiator_addr, responder_addr).run(steps);
            &&& p.initiator.peer_addr matches Some(addr) ==> addr == responder_addr
            &&& p.responder.peer_addr matches Some(addr) ==> addr == initiator_addr
        }),
{
    lemma_run_keeps_inv(Pair::fresh(initiator_addr, responder_addr), steps);
    lemma_addrs_are_fixed(Pair::fresh(initiator_addr, responder_addr), steps);
}

proof fn lemma_addrs_are_fixed(p: Pair, steps: Seq<Step>)
    ensures
        p.run(steps).initiator.local_addr == p.initiator.local_addr,
        p.run(steps).responder.local_addr == p.responder.local_addr,
    decreases steps.len(),
{
    if steps.len() > 0 {
        lemma_addrs_are_fixed(p, steps.drop_last());
    }
}

/// The steps of an upgrade that nothing goes wrong in.
pub open spec fn undisturbed() -> Seq<Step> {
    seq![
        Step::AtInitiator(EventView::Start),
        Step::ResponderReceives,
        Step::InitiatorReceives,
        Step::AtInitiator(EventView::IrohConnected),
        Step::AtResponder(EventView::IrohConnected),
        Step::ResponderReceives,
        Step::InitiatorReceives,
    ]
}

/// An upgrade that nothing goes wrong in ends with both sides on iroh, each with
/// the other's address and nothing left on the old channel.
pub proof fn undisturbed_upgrade_switches_both(
    initiator_addr: Seq<char>,
    responder_addr: Seq<char>,
)
    ensures
        ({
            let p = Pair::fresh(initiator_addr, responder_addr).run(undisturbed());
            &&& p.initiator.state is Switched
            &&& p.responder.state is Switched
            &&& p.initiator.peer_addr == Some(responder_addr)
            &&& p.responder.peer_addr == Some(initiator_addr)
            &&& p.to_responder == Seq::<UnionView>::empty()
            &&& p.to_initiator == Seq::<UnionView>::empty()
        }),
{
    let p = Pair::fresh(initiator_addr, responder_addr);
    let steps = undisturbed();
    let p1 = p.next(steps[0]);
    lemma_messages_of(p.initiator.actions(EventView::Start), initiator_addr);
    let offer = UnionView::Offer {
        endpoint_addr: initiator_addr,
        version: UPGRADE_PROTOCOL_VERSION,
    };
    assert(p1.to_responder == seq![offer]);
    let p2 = p1.next(steps[1]);
    let offered = crate::iroh_upgrade_session::event_of(offer)->0;
    lemma_messages_of(p1.responder.actions(offered), responder_addr);
    let answer = UnionView::Answer {
        accepted: true,
        endpoint_addr: responder_addr,
        reason: Seq::<char>::empty(),
    };
    assert(p2.to_initiator == seq![answer]);
    assert(p2.to_responder == Seq::<UnionView>::empty());
    let p3 = p2.next(steps[2]);
    let answered = crate::iroh_upgrade_session::event_of(answer)->0;
    lemma_messages_of(p2.initiator.actions(answered), initiator_addr);
    assert(p3.to_responder == Seq::<UnionView>::empty());
    assert(p3.to_initiator == Seq::<UnionView>::empty());
    let p4 = p3.next(steps[3]);
    lemma_messages_of(p3.initiator.actions(EventView::IrohConnected), initiator_addr);
    assert(p4.to_responder == seq![UnionView::Commit]);
    let p5 = p4.next(steps[4]);
    lemma_messages_of(p4.responder.actions(EventView::IrohConnected), responder_addr);
    assert(p5.to_initiator == Seq::<UnionView>::empty());
    let p6 = p5.next(steps[5]);
    lemma_messages_of(p5.responder.actions(EventView::CommitReceived), responder_addr);
    assert(p6.to_initiator == seq![UnionView::CommitAck]);
    assert(p6.to_responder == Seq::<UnionView>::empty());
    let p7 = p6.next(steps[6]);
    lemma_messages_of(p6.initiator.actions(EventView::CommitAckReceived), initiator_addr);
    assert(p7.to_responder == Seq::<UnionView>::empty());
    assert(p7.to_initiator == Seq::<UnionView>::empty());
    lemma_run_of_seven(p, steps);
}

/// A run of seven steps, written out.
proof fn lemma_run_of_seven(p: Pair, steps: Seq<Step>)
    requires
        steps.len() == 7,
    ensures
        p.run(steps) == p.next(steps[0]).next(steps[1]).next(steps[2]).next(steps[3]).next(
            steps[4],
        ).next(steps[5]).next(steps[6]),
{
    lemma_run_one_further(p, steps, 0);
    lemma_run_one_further(p, steps, 1);
    lemma_run_one_further(p, steps, 2);
    lemma_run_one_further(p, steps, 3);
    lemma_run_one_further(p, steps, 4);
    lemma_run_one_further(p, steps, 5);
    lemma_run_one_further(p, steps, 6);
    assert(p.run(steps.take(0)) == p);
    assert(steps.take(7) == steps);
}

proof fn lemma_run_one_further(p: Pair, steps: Seq<Step>, i: int)
    requires
        0 <= i < steps.len(),
    ensures
        p.run(steps.take(i + 1)) == p.run(steps.take(i)).next(steps[i]),
{
    assert(steps.take(i + 1).drop_last() == steps.take(i));
}

/// An order is seen as what it is.
pub proof fn order_is_seen_as_it_is(o: Order)
    ensures
        match o {
            Order::Install(stream) => o@ == OrderView::Install(stream),
            Order::Send(message) => o@ == OrderView::Send(message@),
            Order::CommitSent => o@ == OrderView::CommitSent,
            Order::CommitAckReceived => o@ == OrderView::CommitAckReceived,
            Order::CommitAckSent => o@ == OrderView::CommitAckSent,
            Order::Abort => o@ == OrderView::Abort,
        },
{
}

/// An order's label tells which order it is, and nothing of what is in it.
pub proof fn labels_tell_which_order_it_is(a: &Order, x: &'static str, b: &Order, y: &'static str)
    requires
        call_ensures(Order::label, (a,), x),
        call_ensures(Order::label, (b,), y),
    ensures
        x@ == y@ <==> match (*a, *b) {
            (Order::Install(_), Order::Install(_)) => true,
            (Order::Send(_), Order::Send(_)) => true,
            (Order::CommitSent, Order::CommitSent) => true,
            (Order::CommitAckReceived, Order::CommitAckReceived) => true,
            (Order::CommitAckSent, Order::CommitAckSent) => true,
            (Order::Abort, Order::Abort) => true,
            _ => false,
        },
{
    reveal_strlit("Install(<iroh 流>)");
    reveal_strlit("Send(<消息>)");
    reveal_strlit("CommitSent");
    reveal_strlit("CommitAckReceived");
    reveal_strlit("CommitAckSent");
    reveal_strlit("Abort");
    assert("Install(<iroh 流>)"@[0] == 'I');
    assert("Send(<消息>)"@[0] == 'S');
    assert("Abort"@[0] == 'A');
    assert("CommitSent"@[0] == 'C');
    assert("CommitAckReceived"@[0] == 'C');
    assert("CommitAckSent"@[0] == 'C');
    assert("CommitSent"@.len() == 10);
    assert("CommitAckReceived"@.len() == 17);
    assert("CommitAckSent"@.len() == 13);
}

/// A message is seen as what it holds.
pub proof fn message_is_seen_as_it_is(m: Message)
    ensures
        match m.union {
            Some(Union::IrohUpgradeOffer(o)) => m@ == Some(
                UnionView::Offer { endpoint_addr: o.endpoint_addr@, version: o.version },
            ),
            Some(Union::IrohUpgradeAnswer(a)) => m@ == Some(
                UnionView::Answer {
                    accepted: a.accepted,
                    endpoint_addr: a.endpoint_addr@,
                    reason: a.reason@,
                },
            ),
            Some(Union::IrohUpgradeCommit(_)) => m@ == Some(UnionView::Commit),
            Some(Union::IrohUpgradeCommitAck(_)) => m@ == Some(UnionView::CommitAck),
            Some(Union::Other(field)) => m@ == Some(UnionView::Other(field)),
            None => m@ is None,
        },
{
}

/// A message of the upgrade is recognised as what it is, with all that is in it,
/// and no other is.
pub proof fn messages_are_recognised(union: &Union, r: Option<IncomingUpgrade>)
    requires
        call_ensures(IncomingUpgrade::from_union, (union,), r),
    ensures
        match *union {
            Union::IrohUpgradeOffer(o) => r matches Some(
                IncomingUpgrade::Offer { endpoint_addr, version },
            ) && endpoint_addr@ == o.endpoint_addr@ && version == o.version,
            Union::IrohUpgradeAnswer(a) => r matches Some(
                IncomingUpgrade::Answer { accepted, endpoint_addr, reason },
            ) && accepted == a.accepted && endpoint_addr@ == a.endpoint_addr@ && reason@
                == a.reason@,
            Union::IrohUpgradeCommit(_) => r == Some(IncomingUpgrade::Commit),
            Union::IrohUpgradeCommitAck(_) => r == Some(IncomingUpgrade::CommitAck),
            Union::Other(_) => r is None,
        },
{
}

/// A message is the event that belongs to it, with all that is in it.
pub proof fn messages_are_events(incoming: &IncomingUpgrade, r: Event<'_>)
    requires
        call_ensures(IncomingUpgrade::to_event, (incoming,), r),
    ensures
        match *incoming {
            IncomingUpgrade::Offer { endpoint_addr, version } => r matches Event::OfferReceived {
                endpoint_addr: addr,
                version: v,
            } && addr@ == endpoint_addr@ && v == version,
            IncomingUpgrade::Answer { accepted, endpoint_addr, reason } =>
                r matches Event::AnswerReceived { accepted: a, endpoint_addr: addr, reason: words }
                && a == accepted && addr@ == endpoint_addr@ && words@ == reason@,
            IncomingUpgrade::Commit => r is CommitReceived,
            IncomingUpgrade::CommitAck => r is CommitAckReceived,
        },
{
}

/// An action becomes the message that it sends: an offer of this side's address and
/// version, an answer with the address only if it accepts, a commit or its
/// acknowledgement. The others send nothing.
pub proof fn actions_become_messages(action: &Action, local_addr: &str, r: Option<Message>)
    requires
        call_ensures(action_to_message, (action, local_addr), r),
    ensures
        match *action {
            Action::SendOffer => r matches Some(m) && (m.union matches Some(
                Union::IrohUpgradeOffer(o),
            ) && o.endpoint_addr@ == local_addr@ && o.version == 1),
            Action::SendAnswer { accepted, reason } => r matches Some(m) && (m.union matches Some(
                Union::IrohUpgradeAnswer(a),
            ) && a.accepted == accepted && a.reason@ == reason@ && a.endpoint_addr@
                == if accepted {
                local_addr@
            } else {
                seq![]
            }),
            Action::SendCommit => r matches Some(m) && (m.union matches Some(
                Union::IrohUpgradeCommit(_),
            )),
            Action::SendCommitAck => r matches Some(m) && (m.union matches Some(
                Union::IrohUpgradeCommitAck(_),
            )),
            Action::DialIroh | Action::SwitchTransport | Action::Fallback => r is None,
        },
{
}

/// The orders that are handed out are exactly these, in this order.
pub open spec fn handed_out(orders: Vec<Order>, expected: Seq<OrderView>) -> bool {
    orders@.len() == expected.len() && forall|i: int|
        0 <= i < expected.len() ==> (#[trigger] orders@[i])@ == expected[i]
}

proof fn handed_out_by_view(orders: Vec<Order>)
    ensures
        forall|expected: Seq<OrderView>|
            crate::iroh_upgrade_session::orders_view(orders@) == expected
                ==> #[trigger] handed_out(orders, expected),
{
    let seen = crate::iroh_upgrade_session::orders_view(orders@);
    assert(seen.len() == orders@.len());
    assert forall|i: int| 0 <= i < seen.len() implies (#[trigger] orders@[i])@ == seen[i] by {}
}

/// The address that this side tells: its endpoint's, or nothing without one.
pub open spec fn told_addr(s: SessionView) -> Seq<char> {
    match s.endpoint {
        Some(addr) => addr,
        None => seq![],
    }
}

/// The orders that the way to another state takes, on this side.
pub open spec fn orders_on_the_way(s: SessionView, to: StateView) -> Seq<OrderView> {
    let initiator = s.upgrade.role is Initiator;
    match to {
        StateView::OfferSent => seq![
            OrderView::Send(
                Some(UnionView::Offer { endpoint_addr: told_addr(s), version: 1 }),
            ),
        ],
        StateView::Connecting => if initiator {
            seq![]
        } else {
            seq![
                OrderView::Send(
                    Some(
                        UnionView::Answer {
                            accepted: true,
                            endpoint_addr: told_addr(s),
                            reason: seq![],
                        },
                    ),
                ),
            ]
        },
        StateView::CommitSent => seq![
            OrderView::Send(Some(UnionView::Commit)),
            OrderView::CommitSent,
        ],
        StateView::Switched => if initiator {
            seq![OrderView::CommitAckReceived]
        } else {
            seq![OrderView::Send(Some(UnionView::CommitAck)), OrderView::CommitAckSent]
        },
        StateView::Rejected(reason) => if initiator {
            seq![OrderView::Abort]
        } else {
            seq![
                OrderView::Send(
                    Some(UnionView::Answer { accepted: false, endpoint_addr: seq![], reason }),
                ),
            ]
        },
        StateView::Failed(_) => seq![OrderView::Abort],
        StateView::Idle | StateView::AwaitingCommit => seq![],
    }
}

/// The dial that an initiator asks for on the way to the connection: to the address
/// that the peer told, under the identity in it, if there is an endpoint and the
/// address makes sense.
pub open spec fn dial_to(s: SessionView, addr: Option<Seq<char>>) -> Option<DialView> {
    match (s.endpoint, addr) {
        (Some(_), Some(peer_addr)) => match crate::iroh_upgrade_session::endpoint_addr_of(
            peer_addr,
        ) {
            Ok(peer_id) => Some(DialView { peer_addr, peer_id }),
            Err(_) => None,
        },
        _ => None,
    }
}

/// What an event makes of a session: the machine goes where it is led, the orders
/// for that way come behind those not taken yet, a dial is asked for or dropped
/// where the way says so, and nothing else changes.
pub open spec fn session_after(s: SessionView, event: EventView) -> SessionView {
    let led = crate::upgrade_laws::led_to(s.upgrade, event);
    let upgrade = UpgradeView {
        role: s.upgrade.role,
        state: match led {
            Some(state) => state,
            None => s.upgrade.state,
        },
        peer_addr: crate::upgrade_laws::known_addr(s.upgrade, event),
        local_addr: s.upgrade.local_addr,
    };
    let orders = match led {
        Some(state) => s.orders + orders_on_the_way(s, state),
        None => s.orders,
    };
    let gave_up = match led {
        Some(StateView::Failed(_)) => true,
        Some(StateView::Rejected(_)) => s.upgrade.role is Initiator,
        _ => false,
    };
    let dial = if s.upgrade.role is Initiator && led == Some(StateView::Connecting) {
        dial_to(s, upgrade.peer_addr)
    } else {
        None
    };
    SessionView {
        upgrade,
        cfg: s.cfg,
        endpoint: s.endpoint,
        peer_id: s.peer_id,
        dialing: if gave_up {
            false
        } else {
            s.dialing || dial is Some
        },
        dial: if gave_up {
            None
        } else if dial is Some {
            dial
        } else {
            s.dial
        },
        ready: if gave_up {
            None
        } else {
            s.ready
        },
        orders,
    }
}

proof fn session_after_by_view(s: SessionView, event: EventView)
    requires
        s.wf(),
    ensures
        s.on_event(event) == session_after(s, event),
{
    lemma_on_event(s, event);
    crate::upgrade_laws::machine_goes_where_it_is_led(s.upgrade, event);
    let actions = s.upgrade.actions(event);
    let none = Seq::<OrderView>::empty();
    assert(s.orders + none == s.orders);
    if actions.len() == 2 {
        let first = seq![OrderView::Send(Some(UnionView::CommitAck)), OrderView::CommitAckSent];
        assert(s.orders + first + none == s.orders + first);
    }
    assert(s.on_event(event).orders == session_after(s, event).orders);
}

/// A session once its orders are handed out.
pub open spec fn without_orders(s: SessionView) -> SessionView {
    SessionView {
        upgrade: s.upgrade,
        cfg: s.cfg,
        endpoint: s.endpoint,
        peer_id: s.peer_id,
        dialing: s.dialing,
        dial: s.dial,
        ready: s.ready,
        orders: seq![],
    }
}

/// A new session plays the part given with the settings given, and nothing has
/// happened to it.
pub proof fn new_session(role: Role, cfg: IrohConfig, r: UpgradeSession)
    requires
        call_ensures(UpgradeSession::new, (role, cfg), r),
    ensures
        r@.upgrade.role == role && r@.upgrade.state is Idle && r@.upgrade.peer_addr is None,
        r@.upgrade.local_addr.len() == 0,
        r@.cfg == cfg,
        r@.endpoint is None && r@.peer_id is None && !r@.dialing && r@.dial is None && r@.ready
            is None && r@.orders.len() == 0,
{
}

/// Taking the orders gives all of them, in their order, and changes nothing else:
/// above all, a dial that is under way stays so.
pub proof fn taking_orders_changes_nothing_else(s: &mut UpgradeSession, r: Vec<Order>)
    requires
        call_ensures(UpgradeSession::drain_orders, (s,), r),
    ensures
        handed_out(r, old(s)@.orders),
        final(s)@.upgrade == old(s)@.upgrade,
        final(s)@.cfg == old(s)@.cfg,
        final(s)@.endpoint == old(s)@.endpoint,
        final(s)@.peer_id == old(s)@.peer_id,
        final(s)@.dialing == old(s)@.dialing,
        final(s)@.dial == old(s)@.dial,
        final(s)@.ready == old(s)@.ready,
        final(s)@.orders.len() == 0,
{
    handed_out_by_view(r);
}

/// Taking the dial gives the one that was asked for, once, and changes nothing
/// else: it is under way then.
pub proof fn taking_the_dial_changes_nothing_else(
    s: &mut UpgradeSession,
    r: Option<DialRequest>,
)
    requires
        call_ensures(UpgradeSession::take_dial, (s,), r),
    ensures
        match r {
            Some(request) => old(s)@.dial matches Some(asked) && asked.peer_addr
                == request.peer_addr@ && asked.peer_id == request.peer_id.0@,
            None => old(s)@.dial is None,
        },
        final(s)@.dial is None,
        final(s)@.upgrade == old(s)@.upgrade,
        final(s)@.cfg == old(s)@.cfg,
        final(s)@.endpoint == old(s)@.endpoint,
        final(s)@.peer_id == old(s)@.peer_id,
        final(s)@.dialing == old(s)@.dialing,
        final(s)@.ready == old(s)@.ready,
        final(s)@.orders == old(s)@.orders,
{
}

/// What a session tells of itself is so.
pub proof fn session_tells_what_it_is(
    s: &UpgradeSession,
    role: Role,
    state: &State,
    needs_tick: bool,
    cfg: &IrohConfig,
    has_endpoint: bool,
    dialing: bool,
    peer_id: Option<EndpointId>,
    wants_accept: bool,
    incoming: &IncomingUpgrade,
    needs_endpoint: bool,
)
    requires
        call_ensures(UpgradeSession::role, (s,), role),
        call_ensures(UpgradeSession::state, (s,), state),
        call_ensures(UpgradeSession::needs_tick, (s,), needs_tick),
        call_ensures(UpgradeSession::config, (s,), cfg),
        call_ensures(UpgradeSession::has_endpoint, (s,), has_endpoint),
        call_ensures(UpgradeSession::is_dialing, (s,), dialing),
        call_ensures(UpgradeSession::peer_id, (s,), peer_id),
        call_ensures(UpgradeSession::wants_accept, (s,), wants_accept),
        call_ensures(UpgradeSession::needs_endpoint, (s, incoming), needs_endpoint),
    ensures
        role == s@.upgrade.role,
        state@ == s@.upgrade.state,
        needs_tick <==> !(s@.upgrade.state is Switched || s@.upgrade.state is Rejected
            || s@.upgrade.state is Failed),
        *cfg == s@.cfg,
        has_endpoint <==> s@.endpoint is Some,
        dialing == s@.dialing,
        peer_id == s@.peer_id,
        wants_accept <==> s@.upgrade.role is Responder && s@.upgrade.state is Connecting
            && s@.endpoint is Some,
        needs_endpoint <==> *incoming is Offer && s@.upgrade.role is Responder,
{
}

/// A report on the endpoint is taken note of: one that is up has its address, one
/// whose address cannot be written down has none to tell, and one that did not
/// start leaves the session as it is. Nothing else changes.
pub open spec fn reported(s: SessionView, report: EndpointReport) -> SessionView {
    SessionView {
        upgrade: s.upgrade,
        cfg: s.cfg,
        endpoint: match report {
            EndpointReport::NotStarted(_) => s.endpoint,
            EndpointReport::Unreadable(_) => Some(seq![]),
            EndpointReport::Up(addr) => Some(addr@),
        },
        peer_id: s.peer_id,
        dialing: s.dialing,
        dial: s.dial,
        ready: s.ready,
        orders: s.orders,
    }
}

/// Why a report stops a session, if it does.
pub open spec fn report_error(report: EndpointReport) -> Option<SessionError> {
    match report {
        EndpointReport::NotStarted(cause) => Some(SessionError::Endpoint(cause)),
        EndpointReport::Unreadable(cause) => Some(SessionError::Endpoint(cause)),
        EndpointReport::Up(_) => None,
    }
}

/// Taking note of the endpoint.
pub proof fn reporting_the_endpoint(
    s: &mut UpgradeSession,
    report: EndpointReport,
    r: Result<String, SessionError>,
)
    requires
        call_ensures(UpgradeSession::ensure_endpoint, (s, report), r),
    ensures
        final(s)@ == reported(old(s)@, report),
        match report_error(report) {
            Some(e) => r == Err::<String, SessionError>(e),
            None => report matches EndpointReport::Up(addr) && r == Ok::<String, SessionError>(
                addr,
            ),
        },
{
}

/// A session that begins anew in this part, at this address.
pub open spec fn begun_anew(s: SessionView, role: Role, local_addr: Seq<char>) -> SessionView {
    SessionView {
        upgrade: UpgradeView { role, state: StateView::Idle, peer_addr: None, local_addr },
        cfg: s.cfg,
        endpoint: s.endpoint,
        peer_id: s.peer_id,
        dialing: s.dialing,
        dial: s.dial,
        ready: s.ready,
        orders: s.orders,
    }
}

/// Starting makes this side the initiator, whatever it was, and sends the offer of
/// the endpoint's address. Without an endpoint nothing starts.
pub proof fn starting(
    s: &mut UpgradeSession,
    report: EndpointReport,
    r: Result<Vec<Order>, SessionError>,
)
    requires
        call_ensures(UpgradeSession::start, (s, report), r),
    ensures
        match report {
            EndpointReport::Up(addr) => {
                let after = session_after(
                    begun_anew(reported(old(s)@, report), Role::Initiator, addr@),
                    EventView::Start,
                );
                &&& r matches Ok(orders) && handed_out(orders, after.orders)
                &&& final(s)@ == without_orders(after)
                &&& final(s)@.upgrade.state is OfferSent
                &&& after.orders == old(s)@.orders.push(
                    OrderView::Send(Some(UnionView::Offer { endpoint_addr: addr@, version: 1 })),
                )
            },
            _ => final(s)@ == reported(old(s)@, report) && (report_error(report) matches Some(e)
                && r == Err::<Vec<Order>, SessionError>(e)),
        },
{
    if let EndpointReport::Up(addr) = report {
        let before = begun_anew(reported(old(s)@, report), Role::Initiator, addr@);
        session_after_by_view(before, EventView::Start);
        let offer = OrderView::Send(
            Some(UnionView::Offer { endpoint_addr: addr@, version: 1 }),
        );
        assert(old(s)@.orders + seq![offer] == old(s)@.orders.push(offer));
        if let Ok(orders) = r {
            handed_out_by_view(orders);
        }
    }
}

/// Handling a message runs the machine on it, on whatever side. Only an offer to a
/// responder takes the endpoint, and makes it begin anew there; without an endpoint
/// it fails.
pub proof fn handling_a_message(
    s: &mut UpgradeSession,
    incoming: &IncomingUpgrade,
    report: EndpointReport,
    r: Result<Vec<Order>, SessionError>,
)
    requires
        call_ensures(UpgradeSession::handle, (s, incoming, report), r),
        old(s)@.wf(),
    ensures
        ({
            let event = match *incoming {
                IncomingUpgrade::Offer { endpoint_addr, version } => EventView::OfferReceived {
                    endpoint_addr: endpoint_addr@,
                    version,
                },
                IncomingUpgrade::Answer { accepted, endpoint_addr, reason } =>
                    EventView::AnswerReceived {
                    accepted,
                    endpoint_addr: endpoint_addr@,
                    reason: reason@,
                },
                IncomingUpgrade::Commit => EventView::CommitReceived,
                IncomingUpgrade::CommitAck => EventView::CommitAckReceived,
            };
            let anew = *incoming is Offer && old(s)@.upgrade.role is Responder;
            match report {
                EndpointReport::Up(addr) if anew => {
                    let after = session_after(
                        begun_anew(reported(old(s)@, report), Role::Responder, addr@),
                        event,
                    );
                    &&& r matches Ok(orders) && handed_out(orders, after.orders)
                    &&& final(s)@ == without_orders(after)
                },
                _ if anew => final(s)@ == reported(old(s)@, report) && (report_error(
                    report,
                ) matches Some(e) && r == Err::<Vec<Order>, SessionError>(e)),
                _ => {
                    let after = session_after(old(s)@, event);
                    &&& r matches Ok(orders) && handed_out(orders, after.orders)
                    &&& final(s)@ == without_orders(after)
                },
            }
        }),
{
    let event = incoming@;
    if let Ok(orders) = r {
        handed_out_by_view(orders);
    }
    session_after_by_view(old(s)@, event);
    if let EndpointReport::Up(addr) = report {
        session_after_by_view(
            begun_anew(reported(old(s)@, report), Role::Responder, addr@),
            event,
        );
    }
}

/// A tick is a timeout while the upgrade is not over, and nothing afterwards.
pub proof fn ticking(s: &mut UpgradeSession, r: Vec<Order>)
    requires
        call_ensures(UpgradeSession::tick, (s,), r),
        old(s)@.wf(),
    ensures
        ({
            let state = old(s)@.upgrade.state;
            if state is Switched || state is Rejected || state is Failed {
                final(s)@ == old(s)@ && r@.len() == 0
            } else {
                let after = session_after(old(s)@, EventView::Timeout);
                handed_out(r, after.orders) && final(s)@ == without_orders(after)
            }
        }),
{
    handed_out_by_view(r);
    session_after_by_view(old(s)@, EventView::Timeout);
}

/// A session that was handed a connection to this peer: the order to install it
/// comes behind the others, and nothing else changes but that no dial is left.
pub open spec fn handed_a_connection(
    s: SessionView,
    stream: FramedStream,
    peer: EndpointId,
    dialling_over: bool,
) -> SessionView {
    SessionView {
        upgrade: s.upgrade,
        cfg: s.cfg,
        endpoint: s.endpoint,
        peer_id: Some(peer),
        dialing: s.dialing && !dialling_over,
        dial: if dialling_over {
            None
        } else {
            s.dial
        },
        ready: None,
        orders: s.orders.push(OrderView::Install(stream)),
    }
}

/// A responder that waits for a connection takes it: it is installed, and then the
/// machine goes on. What is found is ignored where none is waited for, and a
/// failure or nothing found changes nothing.
pub proof fn looking_for_a_connection(
    s: &mut UpgradeSession,
    accepted: Result<Option<(FramedStream, EndpointId)>, String>,
    r: Result<bool, SessionError>,
)
    requires
        call_ensures(UpgradeSession::poll_accept, (s, accepted), r),
        old(s)@.wf(),
    ensures
        ({
            let waits = old(s)@.upgrade.role is Responder && old(s)@.upgrade.state is Connecting
                && old(s)@.endpoint is Some;
            match accepted {
                Ok(Some((stream, peer))) if waits => r == Ok::<bool, SessionError>(true)
                    && final(s)@ == session_after(
                    handed_a_connection(old(s)@, stream, peer, false),
                    EventView::IrohConnected,
                ),
                Err(cause) if waits => r == Err::<bool, SessionError>(SessionError::Accept(cause))
                    && final(s)@ == old(s)@,
                _ => r == Ok::<bool, SessionError>(false) && final(s)@ == old(s)@,
            }
        }),
{
    if let Ok(Some((stream, peer))) = accepted {
        let before = handed_a_connection(old(s)@, stream, peer, false);
        assert(old(s)@.orders + seq![OrderView::Install(stream)] == old(s)@.orders.push(
            OrderView::Install(stream),
        ));
        session_after_by_view(before, EventView::IrohConnected);
    }
}

/// A look at the dial that is under way: a connection is installed and the machine
/// goes on, a failure ends the upgrade, and nothing yet changes nothing, so that the
/// dial's outcome is taken whenever it comes. Without a dial nothing is looked at.
pub proof fn looking_at_the_dial(s: &mut UpgradeSession, polled: DialPoll, r: bool)
    requires
        call_ensures(UpgradeSession::poll_dial, (s, polled), r),
        old(s)@.wf(),
    ensures
        r <==> old(s)@.dialing && polled is Connected,
        !old(s)@.dialing ==> final(s)@ == old(s)@,
        old(s)@.dialing ==> {
            let ended = SessionView { dialing: false, dial: None, ..old(s)@ };
            match polled {
                DialPoll::Connected(stream, peer) => final(s)@ == session_after(
                    handed_a_connection(old(s)@, stream, peer, true),
                    EventView::IrohConnected,
                ),
                DialPoll::Failed(cause) => final(s)@ == session_after(
                    ended,
                    EventView::IrohFailed(cause@),
                ),
                DialPoll::Empty => final(s)@ == old(s)@,
                DialPoll::Disconnected => final(s)@ == session_after(
                    ended,
                    EventView::IrohFailed("拨号任务意外结束"@),
                ),
            }
        },
{
    let ended = SessionView { dialing: false, dial: None, ..old(s)@ };
    match polled {
        DialPoll::Connected(stream, peer) => {
            assert(old(s)@.orders + seq![OrderView::Install(stream)] == old(s)@.orders.push(
                OrderView::Install(stream),
            ));
            session_after_by_view(
                handed_a_connection(old(s)@, stream, peer, true),
                EventView::IrohConnected,
            );
        },
        DialPoll::Failed(cause) => {
            session_after_by_view(ended, EventView::IrohFailed(cause@));
        },
        DialPoll::Empty => {},
        DialPoll::Disconnected => {
            session_after_by_view(ended, EventView::IrohFailed("拨号任务意外结束"@));
        },
    }
}

/// A dial is asked for to the address that the peer told, under the identity in it.
/// Without an endpoint, an address or a meaning of it, nothing changes, and the
/// error says which.
pub proof fn asking_for_a_dial(s: &mut UpgradeSession, r: Result<(), DialError>)
    requires
        call_ensures(UpgradeSession::spawn_dial, (s,), r),
    ensures
        match dial_to(old(s)@, old(s)@.upgrade.peer_addr) {
            Some(asked) => r is Ok && final(s)@ == (SessionView {
                dialing: true,
                dial: Some(asked),
                ..old(s)@
            }),
            None => final(s)@ == old(s)@ && match (old(s)@.endpoint, old(s)@.upgrade.peer_addr) {
                (None, _) => r == Err::<(), DialError>(DialError::NoEndpoint),
                (Some(_), None) => r == Err::<(), DialError>(DialError::NoPeerAddr),
                (Some(_), Some(addr)) => r matches Err(DialError::BadPeerAddr(e))
                    && crate::iroh_upgrade_session::endpoint_addr_of(addr) == Err::<
                    Seq<u8>,
                    Seq<char>,
                >(e@),
            },
        },
{
}

/// A dial is asked for to this address under this identity, unless reading it
/// failed.
pub proof fn asking_for_a_dial_to(
    s: &mut UpgradeSession,
    peer_addr: String,
    parsed: Result<EndpointId, String>,
    r: Result<(), DialError>,
)
    requires
        call_ensures(UpgradeSession::begin_dial, (s, peer_addr, parsed), r),
    ensures
        match parsed {
            Ok(id) => r is Ok && final(s)@ == (SessionView {
                dialing: true,
                dial: Some(DialView { peer_addr: peer_addr@, peer_id: id.0@ }),
                ..old(s)@
            }),
            Err(cause) => r == Err::<(), DialError>(DialError::BadPeerAddr(cause)) && final(s)@
                == old(s)@,
        },
{
}

/// Polls that find nothing and orders that are taken do not end a dial: however
/// many of them come, it stays under way, and is taken when it is through.
pub proof fn dial_stays_under_way(
    a: &mut UpgradeSession,
    found: bool,
    b: &mut UpgradeSession,
    orders: Vec<Order>,
    c: &mut UpgradeSession,
    stream: FramedStream,
    peer: EndpointId,
    r: bool,
)
    requires
        old(a)@.wf(),
        old(a)@.dialing,
        old(a)@.upgrade.role is Initiator,
        old(a)@.upgrade.state is Connecting,
        call_ensures(UpgradeSession::poll_dial, (a, DialPoll::Empty), found),
        old(b)@ == final(a)@,
        call_ensures(UpgradeSession::drain_orders, (b,), orders),
        old(c)@ == final(b)@,
        call_ensures(UpgradeSession::poll_dial, (c, DialPoll::Connected(stream, peer)), r),
    ensures
        !found,
        final(b)@.dialing,
        r,
        final(c)@.upgrade.state is CommitSent,
        final(c)@.peer_id == Some(peer),
        final(c)@.orders == seq![
            OrderView::Install(stream),
            OrderView::Send(Some(UnionView::Commit)),
            OrderView::CommitSent,
        ],
{
    looking_at_the_dial(a, DialPoll::Empty, found);
    taking_orders_changes_nothing_else(b, orders);
    looking_at_the_dial(c, DialPoll::Connected(stream, peer), r);
    assert(old(c)@.orders == Seq::<OrderView>::empty());
    assert(Seq::<OrderView>::empty().push(OrderView::Install(stream)) + seq![
        OrderView::Send(Some(UnionView::Commit)),
        OrderView::CommitSent,
    ] == seq![
        OrderView::Install(stream),
        OrderView::Send(Some(UnionView::Commit)),
        OrderView::CommitSent,
    ]);
}

} // verus!
