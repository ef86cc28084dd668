//! What a session asks of the connection over a whole upgrade.

use crate::iroh_transport::EndpointId;
use crate::iroh_upgrade::{EventView, Role, StateView};
use crate::iroh_upgrade_session::{OrderView, SessionView};
use crate::message_proto::UnionView;
use crate::stream::StreamView;
use crate::tcp::FramedStream;
use vstd::prelude::*;

verus! {

/// What can happen to a session in the course of one upgrade. An offer to a
/// responder begins another one.
pub enum SessionOp {
    /// A message of the upgrade arrives.
    Message(EventView),
    /// The current phase took too long.
    Tick,
    /// The dial is through.
    Dialled(FramedStream, EndpointId),
    /// The dial failed.
    DialFailed(Seq<char>),
    /// A connection was accepted.
    Accepted(FramedStream, EndpointId),
}

/// A message that belongs to the upgrade under way.
pub open spec fn continues(role: Role, event: EventView) -> bool {
    match event {
        EventView::OfferReceived { .. } => role is Initiator,
        EventView::AnswerReceived { .. } => true,
        EventView::CommitReceived => true,
        EventView::CommitAckReceived => true,
        _ => false,
    }
}

/// The session after something happened, with its orders kept.
pub open spec fn after_op(s: SessionView, op: SessionOp) -> SessionView {
    match op {
        SessionOp::Message(event) => if continues(s.upgrade.role, event) {
            s.on_event(event)
        } else {
            s
        },
        SessionOp::Tick => if s.upgrade.state.is_terminal() {
            s
        } else {
            s.on_event(EventView::Timeout)
        },
        SessionOp::Dialled(stream, peer) => if s.dialing {
            s.dial_over().connected(stream, peer).on_event(EventView::IrohConnected)
        } else {
            s
        },
        SessionOp::DialFailed(cause) => if s.dialing {
            s.dial_over().on_event(EventView::IrohFailed(cause))
        } else {
            s
        },
        SessionOp::Accepted(stream, peer) => if s.wants_accept() {
            s.connected(stream, peer).on_event(EventView::IrohConnected)
        } else {
            s
        },
    }
}

/// The session after a sequence of things happened, with its orders kept.
pub open spec fn after_ops(s: SessionView, ops: Seq<SessionOp>) -> SessionView
    decreases ops.len(),
{
    if ops.len() == 0 {
        s
    } else {
        after_op(after_ops(s, ops.drop_last()), ops.last())
    }
}

/// An order to the transition.
pub enum Mark {
    Install,
    CommitSent,
    CommitAckReceived,
    CommitAckSent,
    Abort,
}

/// The order to the transition that an order is, if it is one.
pub open spec fn mark_of(order: OrderView) -> Option<Mark> {
    match order {
        OrderView::Install(_) => Some(Mark::Install),
        OrderView::Send(_) => None,
        OrderView::CommitSent => Some(Mark::CommitSent),
        OrderView::CommitAckReceived => Some(Mark::CommitAckReceived),
        OrderView::CommitAckSent => Some(Mark::CommitAckSent),
        OrderView::Abort => Some(Mark::Abort),
    }
}

/// The orders to the transition among a list of orders.
pub open spec fn marks(orders: Seq<OrderView>) -> Seq<Mark>
    decreases orders.len(),
{
    if orders.len() == 0 {
        seq![]
    } else {
        let earlier = marks(orders.drop_last());
        match mark_of(orders.last()) {
            Some(mark) => earlier.push(mark),
            None => earlier,
        }
    }
}

/// The orders to the transition that a session has given when it is in a state.
pub open spec fn expected(role: Role, state: StateView, given: Seq<Mark>) -> bool {
    match (role, state) {
        (Role::Initiator, StateView::CommitSent) => given == seq![Mark::Install, Mark::CommitSent],
        (Role::Initiator, StateView::Switched) => given == seq![
            Mark::Install,
            Mark::CommitSent,
            Mark::CommitAckReceived,
        ],
        (Role::Initiator, StateView::Rejected(_)) => given == seq![Mark::Abort],
        (Role::Initiator, StateView::Failed(_)) => given == seq![Mark::Abort] || given == seq![
            Mark::Install,
            Mark::CommitSent,
            Mark::Abort,
        ],
        (Role::Responder, StateView::AwaitingCommit) => given == seq![Mark::Install],
        (Role::Responder, StateView::Switched) => given == seq![
            Mark::Install,
            Mark::CommitAckSent,
        ],
        (Role::Responder, StateView::Failed(_)) => given == seq![Mark::Abort] || given == seq![
            Mark::Install,
            Mark::Abort,
        ],
        _ => given == Seq::<Mark>::empty(),
    }
}

/// An upgrade is under way, and has asked nothing of the transition yet.
pub open spec fn under_way(s: SessionView) -> bool {
    &&& s.wf()
    &&& !s.dialing
    &&& s.ready is None
    &&& marks(s.orders) == Seq::<Mark>::empty()
    &&& match s.upgrade.role {
        Role::Initiator => s.upgrade.state is OfferSent,
        Role::Responder => s.upgrade.state is Connecting,
    }
}

spec fn inv(s: SessionView) -> bool {
    &&& s.wf()
    &&& s.ready is None
    &&& s.dialing ==> s.upgrade.role is Initiator && s.upgrade.state is Connecting
    &&& !(s.upgrade.state is Idle)
    &&& s.upgrade.role is Responder ==> !(s.upgrade.state is Rejected)
    &&& expected(s.upgrade.role, s.upgrade.state, marks(s.orders))
}

proof fn marks_of_concat(a: Seq<OrderView>, b: Seq<OrderView>)
    ensures
        marks(a + b) == marks(a) + marks(b),
    decreases b.len(),
{
    if b.len() == 0 {
        assert(a + b == a);
    } else {
        marks_of_concat(a, b.drop_last());
        assert((a + b).drop_last() == a + b.drop_last());
        assert((a + b).last() == b.last());
    }
}

proof fn marks_of_orders(role: Role, action: crate::iroh_upgrade::ActionView, local: Seq<char>)
    ensures
        marks(crate::iroh_upgrade_session::orders_for(role, action, local)) == match action {
            crate::iroh_upgrade::ActionView::SendCommit => seq![Mark::CommitSent],
            crate::iroh_upgrade::ActionView::SendCommitAck => seq![Mark::CommitAckSent],
            crate::iroh_upgrade::ActionView::SwitchTransport => if role is Initiator {
                seq![Mark::CommitAckReceived]
            } else {
                seq![]
            },
            crate::iroh_upgrade::ActionView::Fallback => seq![Mark::Abort],
            _ => seq![],
        },
{
    reveal_with_fuel(marks, 3);
    let orders = crate::iroh_upgrade_session::orders_for(role, action, local);
    if orders.len() == 2 {
        assert(orders.drop_last() == seq![orders[0]]);
        assert(orders.drop_last().drop_last() == Seq::<OrderView>::empty());
    } else if orders.len() == 1 {
        assert(orders.drop_last() == Seq::<OrderView>::empty());
    }
}

/// The marks that an event adds.
spec fn marks_on(s: SessionView, event: EventView) -> Seq<Mark> {
    let to = s.upgrade.next(event).state;
    if to == s.upgrade.state {
        seq![]
    } else {
        match (s.upgrade.role, to) {
            (Role::Initiator, StateView::CommitSent) => seq![Mark::CommitSent],
            (Role::Initiator, StateView::Switched) => seq![Mark::CommitAckReceived],
            (Role::Initiator, StateView::Rejected(_)) => seq![Mark::Abort],
            (Role::Responder, StateView::Switched) => seq![Mark::CommitAckSent],
            (_, StateView::Failed(_)) => seq![Mark::Abort],
            _ => seq![],
        }
    }
}

proof fn event_adds_marks(s: SessionView, event: EventView)
    requires
        s.wf(),
    ensures
        marks(s.on_event(event).orders) == marks(s.orders) + marks_on(s, event),
        s.on_event(event).upgrade == s.upgrade.next(event),
        s.ready is None ==> s.on_event(event).ready is None,
        s.on_event(event).dialing ==> s.dialing || (s.upgrade.state is OfferSent
            && s.upgrade.next(event).state is Connecting),
        s.upgrade.next(event).state is Failed && !s.upgrade.state.is_terminal()
            ==> !s.on_event(event).dialing,
{
    let actions = s.upgrade.actions(event);
    let local = s.local_addr();
    let role = s.upgrade.role;
    crate::session_laws::lemma_on_event(s, event);
    if actions.len() == 0 {
        assert(marks_on(s, event) == Seq::<Mark>::empty());
        assert(marks(s.orders) + marks_on(s, event) == marks(s.orders));
    } else if actions.len() == 1 {
        marks_of_orders(role, actions[0], local);
        marks_of_concat(
            s.orders,
            crate::iroh_upgrade_session::orders_for(role, actions[0], local),
        );
    } else {
        let first = crate::iroh_upgrade_session::orders_for(role, actions[0], local);
        let second = crate::iroh_upgrade_session::orders_for(role, actions[1], local);
        marks_of_orders(role, actions[0], local);
        marks_of_orders(role, actions[1], local);
        marks_of_concat(s.orders, first);
        marks_of_concat(s.orders + first, second);
        assert(marks(s.orders) + marks(first) + marks(second) == marks(s.orders) + marks_on(
            s,
            event,
        ));
    }
}

proof fn connecting_adds_marks(s: SessionView, stream: FramedStream, peer: EndpointId)
    ensures
        marks(s.connected(stream, peer).orders) == marks(s.orders).push(Mark::Install),
{
    let install = seq![OrderView::Install(stream)];
    marks_of_concat(s.orders, install);
    reveal_with_fuel(marks, 2);
    assert(install.drop_last() == Seq::<OrderView>::empty());
    assert(marks(install) == seq![Mark::Install]);
}

proof fn op_keeps_inv(s: SessionView, op: SessionOp)
    requires
        inv(s),
    ensures
        inv(after_op(s, op)),
        after_op(s, op).upgrade.role == s.upgrade.role,
{
    let none = Seq::<Mark>::empty();
    let installed = seq![Mark::Install];
    let committed = seq![Mark::Install, Mark::CommitSent];
    assert(none + none == none);
    assert(none + seq![Mark::Abort] == seq![Mark::Abort]);
    assert(none.push(Mark::Install) == installed);
    assert(installed + none == installed);
    assert(installed + seq![Mark::CommitSent] == committed);
    assert(installed + seq![Mark::CommitAckSent] == seq![Mark::Install, Mark::CommitAckSent]);
    assert(installed + seq![Mark::Abort] == seq![Mark::Install, Mark::Abort]);
    assert(committed + seq![Mark::CommitAckReceived] == seq![
        Mark::Install,
        Mark::CommitSent,
        Mark::CommitAckReceived,
    ]);
    assert(committed + seq![Mark::Abort] == seq![Mark::Install, Mark::CommitSent, Mark::Abort]);
    assert(marks(s.orders) + none == marks(s.orders));
    match op {
        SessionOp::Message(event) => {
            if continues(s.upgrade.role, event) {
                event_adds_marks(s, event);
            }
        },
        SessionOp::Tick => {
            event_adds_marks(s, EventView::Timeout);
        },
        SessionOp::Dialled(stream, peer) => {
            if s.dialing {
                connecting_adds_marks(s.dial_over(), stream, peer);
                event_adds_marks(s.dial_over().connected(stream, peer), EventView::IrohConnected);
            }
        },
        SessionOp::DialFailed(cause) => {
            if s.dialing {
                event_adds_marks(s.dial_over(), EventView::IrohFailed(cause));
            }
        },
        SessionOp::Accepted(stream, peer) => {
            if s.wants_accept() {
                connecting_adds_marks(s, stream, peer);
                event_adds_marks(s.connected(stream, peer), EventView::IrohConnected);
            }
        },
    }
}

proof fn ops_keep_inv(s: SessionView, ops: Seq<SessionOp>)
    requires
        inv(s),
    ensures
        inv(after_ops(s, ops)),
        after_ops(s, ops).upgrade.role == s.upgrade.role,
    decreases ops.len(),
{
    if ops.len() > 0 {
        ops_keep_inv(s, ops.drop_last());
        op_keeps_inv(after_ops(s, ops.drop_last()), ops.last());
    }
}

/// Whatever happens in the course of an upgrade, the orders to the transition
/// come in one order: it is installed once, before the commit; an initiator on
/// iroh has committed and then switched on the acknowledgement; a responder on
/// iroh has switched with its acknowledgement; and an upgrade that failed ends
/// with the order to go back.
pub proof fn orders_come_in_one_order(s: SessionView, ops: Seq<SessionOp>)
    requires
        under_way(s),
    ensures
        ({
            let end = after_ops(s, ops);
            expected(s.upgrade.role, end.upgrade.state, marks(end.orders))
        }),
{
    ops_keep_inv(s, ops);
}

/// The order to the transition switches it.
pub open spec fn switches(mark: Mark) -> bool {
    mark is CommitAckReceived || mark is CommitAckSent
}

/// The order to go back does not follow one to switch.
spec fn no_way_back(given: Seq<Mark>) -> bool {
    forall|i: int, j: int|
        0 <= i < j < given.len() && switches(#[trigger] given[i]) ==> !(#[trigger] given[j] is Abort)
}

proof fn new_channel_takes_a_switch(
    stream: StreamView,
    orders: Seq<OrderView>,
    encode: spec_fn(Option<UnionView>) -> Seq<u8>,
)
    requires
        !crate::handover_laws::on_new(stream),
        forall|i: int| 0 <= i < marks(orders).len() ==> !switches(#[trigger] marks(orders)[i]),
    ensures
        !crate::handover_laws::on_new(
            crate::handover_laws::carried_out_all(stream, orders, encode),
        ),
    decreases orders.len(),
{
    if orders.len() > 0 {
        let earlier = marks(orders.drop_last());
        if let Some(mark) = mark_of(orders.last()) {
            assert(marks(orders)[earlier.len() as int] == mark);
        }
        assert forall|i: int| 0 <= i < earlier.len() implies !switches(#[trigger] earlier[i]) by {
            assert(marks(orders)[i] == earlier[i]);
        }
        new_channel_takes_a_switch(stream, orders.drop_last(), encode);
        reveal_with_fuel(StreamView::sends_raw, 2);
    }
}

proof fn no_way_back_is_in_time(
    stream: StreamView,
    orders: Seq<OrderView>,
    encode: spec_fn(Option<UnionView>) -> Seq<u8>,
)
    requires
        !crate::handover_laws::on_new(stream),
        no_way_back(marks(orders)),
    ensures
        crate::handover_laws::goes_back_in_time(stream, orders, encode),
    decreases orders.len(),
{
    if orders.len() > 0 {
        let earlier = marks(orders.drop_last());
        let given = marks(orders);
        assert forall|i: int, j: int|
            0 <= i < j < earlier.len() && switches(#[trigger] earlier[i]) implies !(
        #[trigger] earlier[j] is Abort) by {
            assert(given[i] == earlier[i] && given[j] == earlier[j]);
        }
        no_way_back_is_in_time(stream, orders.drop_last(), encode);
        if orders.last() is Abort {
            assert forall|i: int| 0 <= i < earlier.len() implies !switches(
                #[trigger] earlier[i],
            ) by {
                assert(given[i] == earlier[i]);
                assert(given[earlier.len() as int] is Abort);
            }
            new_channel_takes_a_switch(stream, orders.drop_last(), encode);
        }
    }
}

/// Whatever happens in the course of an upgrade, carrying its orders out leaves
/// the connection as encrypted as it was, under the same key, and ready for the
/// next upgrade: a switch that is over is collapsed, and no transition is ever put
/// into another. So the same holds over any number of upgrades one after the
/// other.
pub proof fn upgrade_keeps_the_connection_secured(
    s: SessionView,
    ops: Seq<SessionOp>,
    stream: StreamView,
    encode: spec_fn(Option<UnionView>) -> Seq<u8>,
)
    requires
        under_way(s),
        crate::handover_laws::movable(stream),
        crate::handover_laws::unnested(stream),
        !crate::handover_laws::on_new(stream),
    ensures
        ({
            let orders = after_ops(s, ops).orders;
            let after = crate::handover_laws::carried_out_all(stream, orders, encode);
            &&& after.secured() == stream.secured()
            &&& crate::handover_laws::carries_on(stream.crypto(), after.crypto())
            &&& after.collapsed().secured() == stream.secured()
            &&& after.collapsed().crypto() == after.crypto()
            &&& crate::handover_laws::movable(after.collapsed())
            &&& crate::handover_laws::unnested(after.collapsed())
            &&& !crate::handover_laws::on_new(after.collapsed())
        }),
{
    let end = after_ops(s, ops);
    orders_come_in_one_order(s, ops);
    ops_keep_inv(s, ops);
    assert(no_way_back(marks(end.orders)));
    no_way_back_is_in_time(stream, end.orders, encode);
    crate::handover_laws::orders_keep_the_connection_secured(stream, end.orders, encode);
    crate::handover_laws::transitions_are_not_nested(stream, end.orders, encode);
}

/// A session that has just started, or has just accepted an offer, is under way.
/// Its orders so far are messages only.
pub proof fn first_step_gets_under_way(s: SessionView, local_addr: Seq<char>, offer: Seq<char>)
    requires
        !s.dialing,
        s.ready is None,
        marks(s.orders) == Seq::<Mark>::empty(),
        s.endpoint == Some(local_addr),
    ensures
        under_way(s.restarted(Role::Initiator, local_addr).on_event(EventView::Start)),
        under_way(
            s.restarted(Role::Responder, local_addr).on_event(
                EventView::OfferReceived {
                    endpoint_addr: offer,
                    version: crate::iroh_upgrade::UPGRADE_PROTOCOL_VERSION,
                },
            ),
        ),
{
    let none = Seq::<Mark>::empty();
    assert(none + none == none);
    event_adds_marks(s.restarted(Role::Initiator, local_addr), EventView::Start);
    event_adds_marks(
        s.restarted(Role::Responder, local_addr),
        EventView::OfferReceived {
            endpoint_addr: offer,
            version: crate::iroh_upgrade::UPGRADE_PROTOCOL_VERSION,
        },
    );
}

} // verus!
