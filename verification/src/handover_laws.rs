//! What holds of an upgrade as a whole, when the session's orders are carried out
//! on the connection.

use crate::handover::carry_out;
use crate::iroh_transition::{PendingView, Phase, TransitionView};
use crate::iroh_upgrade_session::{Order, OrderView};
use crate::message_proto::{Message, UnionView};
use crate::stream::{Stream, StreamView};
use crate::tcp::{Encrypt, FramedStream, ReadError, MAC_BYTES};
use vstd::prelude::*;

verus! {

/// The connection after an order was carried out, where messages are encoded as
/// given and sent.
pub open spec fn carried_out(
    stream: StreamView,
    order: OrderView,
    encode: spec_fn(Option<UnionView>) -> Seq<u8>,
) -> StreamView {
    match order {
        OrderView::Send(message) => match stream.sends_raw(encode(message)) {
            Some((after, _)) => after,
            None => stream,
        },
        _ => crate::handover::after_order(stream, order),
    }
}

/// The connection after a list of orders was carried out in order.
pub open spec fn carried_out_all(
    stream: StreamView,
    orders: Seq<OrderView>,
    encode: spec_fn(Option<UnionView>) -> Seq<u8>,
) -> StreamView
    decreases orders.len(),
{
    if orders.len() == 0 {
        stream
    } else {
        carried_out(carried_out_all(stream, orders.drop_last(), encode), orders.last(), encode)
    }
}

/// The old channel of a transition is not a transition itself.
pub open spec fn unnested(stream: StreamView) -> bool {
    stream matches StreamView::Transition(t) ==> !(t.old is Transition)
}

/// No order puts a transition into another, however many upgrades are tried on a
/// connection.
pub proof fn transitions_are_not_nested(
    stream: StreamView,
    orders: Seq<OrderView>,
    encode: spec_fn(Option<UnionView>) -> Seq<u8>,
)
    requires
        unnested(stream),
    ensures
        unnested(carried_out_all(stream, orders, encode)),
    decreases orders.len(),
{
    if orders.len() > 0 {
        transitions_are_not_nested(stream, orders.drop_last(), encode);
        reveal_with_fuel(StreamView::sends_raw, 2);
    }
}

/// Installing a new channel changes nothing in what the connection does: it sends
/// and reads as before, on the same link and under the same encryption state, and
/// what was held back is neither lost nor sent. That holds also where an earlier
/// upgrade has left a transition behind.
pub proof fn installing_disturbs_nothing(
    stream: StreamView,
    to: FramedStream,
    item: PendingView,
    incoming: Option<Result<Seq<u8>, ReadError>>,
)
    ensures
        ({
            let after = crate::handover::after_order(stream, OrderView::Install(to));
            &&& after matches StreamView::Transition(t) && t.new == to && t.buffered
                == match stream {
                StreamView::Transition(before) => before.buffered,
                _ => seq![],
            }
            &&& after.crypto() == stream.crypto()
            &&& after.secured() == stream.secured()
            &&& after.read_link() == stream.read_link()
            &&& after.receives(incoming).1 == stream.receives(incoming).1
            &&& match (after.sends_item(item), stream.sends_item(item)) {
                (Some((_, sent)), Some((_, expected))) => sent == expected,
                (None, None) => true,
                _ => false,
            }
        }),
{
    reveal_with_fuel(StreamView::crypto, 2);
    reveal_with_fuel(StreamView::secured, 2);
    reveal_with_fuel(StreamView::read_link, 2);
    reveal_with_fuel(StreamView::receives, 2);
    reveal_with_fuel(StreamView::sends_raw, 2);
    reveal_with_fuel(StreamView::sends_bytes, 2);
}

/// The new channel is the one in use.
pub open spec fn on_new(stream: StreamView) -> bool {
    stream matches StreamView::Transition(t) && t.phase == Phase::UsingNew
}

/// The channel in use keeps its encryption state itself, and a switch can move it.
pub open spec fn movable(stream: StreamView) -> bool {
    match stream {
        StreamView::Transition(t) => t.phase == Phase::UsingNew || t.old.hands_over(),
        _ => stream.hands_over(),
    }
}

/// Two encryption states are stages of one: they have one key, and the second has
/// opened as many messages. Or there is none at all.
pub open spec fn carries_on(before: Option<Encrypt>, after: Option<Encrypt>) -> bool {
    match (before, after) {
        (Some(a), Some(b)) => a.0 == b.0 && a.2 == b.2,
        (None, None) => true,
        _ => false,
    }
}

/// No order but one to send touches the encryption state in use, counts included,
/// whichever channel is in use afterwards; and sending at most seals one message
/// under it. The order to go back is not given once the new channel is in use.
pub proof fn order_keeps_the_encryption_state(
    stream: StreamView,
    order: OrderView,
    encode: spec_fn(Option<UnionView>) -> Seq<u8>,
)
    requires
        movable(stream),
        order is Abort ==> !on_new(stream),
    ensures
        movable(carried_out(stream, order, encode)),
        !(order is Send) ==> carried_out(stream, order, encode).crypto() == stream.crypto(),
        order is Send ==> carried_out(stream, order, encode).crypto() == stream.crypto()
            || carried_out(stream, order, encode).crypto() == crate::tcp::crypto_after_send(
            stream.crypto(),
        ),
        carried_out(stream, order, encode).secured() == stream.secured(),
{
    reveal_with_fuel(StreamView::crypto, 2);
    reveal_with_fuel(StreamView::secured, 2);
    reveal_with_fuel(StreamView::sends_raw, 2);
}

/// Among these orders the one to go back is never given once the new channel is
/// in use.
pub open spec fn goes_back_in_time(
    stream: StreamView,
    orders: Seq<OrderView>,
    encode: spec_fn(Option<UnionView>) -> Seq<u8>,
) -> bool
    decreases orders.len(),
{
    orders.len() > 0 ==> {
        &&& goes_back_in_time(stream, orders.drop_last(), encode)
        &&& orders.last() is Abort ==> !on_new(
            carried_out_all(stream, orders.drop_last(), encode),
        )
    }
}

/// A connection stays encrypted, under one key, over any number of upgrades,
/// failed ones among them: no order leaves the encryption state behind.
pub proof fn orders_keep_the_connection_secured(
    stream: StreamView,
    orders: Seq<OrderView>,
    encode: spec_fn(Option<UnionView>) -> Seq<u8>,
)
    requires
        movable(stream),
        goes_back_in_time(stream, orders, encode),
    ensures
        movable(carried_out_all(stream, orders, encode)),
        carries_on(stream.crypto(), carried_out_all(stream, orders, encode).crypto()),
        carried_out_all(stream, orders, encode).secured() == stream.secured(),
    decreases orders.len(),
{
    if orders.len() > 0 {
        orders_keep_the_connection_secured(stream, orders.drop_last(), encode);
        order_keeps_the_encryption_state(
            carried_out_all(stream, orders.drop_last(), encode),
            orders.last(),
            encode,
        );
    }
}

/// The initiator's orders for a dial that is through put `Commit` on the old
/// channel, as its next message, and leave the connection in the commit window:
/// what follows is held back.
pub proof fn commit_goes_out_on_the_old_channel(
    from: StreamView,
    to: FramedStream,
    encode: spec_fn(Option<UnionView>) -> Seq<u8>,
)
    requires
        !(from is Transition),
        !(from is Empty),
    ensures
        ({
            let commit = encode(Some(UnionView::Commit));
            let installed = carried_out(from, OrderView::Install(to), encode);
            let orders = seq![
                OrderView::Install(to),
                OrderView::Send(Some(UnionView::Commit)),
                OrderView::CommitSent,
            ];
            &&& from.sends_raw(commit) matches Some((after, sent)) && sent is Write
                && installed.sends_raw(commit) == Some(
                (TransitionView::fresh(after, to).as_stream(), sent),
            ) && carried_out_all(from, orders, encode) == (TransitionView {
                old: after,
                new: to,
                phase: Phase::CommitWindow,
                buffered: seq![],
            }).as_stream()
        }),
{
    reveal_with_fuel(carried_out_all, 4);
    reveal_with_fuel(StreamView::sends_raw, 2);
    let orders = seq![
        OrderView::Install(to),
        OrderView::Send(Some(UnionView::Commit)),
        OrderView::CommitSent,
    ];
    assert(orders.drop_last().last() == OrderView::Send(Some(UnionView::Commit)));
    assert(orders.drop_last().drop_last().last() == OrderView::Install(to));
    assert(orders.drop_last().drop_last().drop_last() == Seq::<OrderView>::empty());
}

/// The responder's orders on `Commit` put the acknowledgement on the old channel,
/// as its next and last message, and leave the connection on the new one, with
/// the old one's encryption state.
pub proof fn ack_goes_out_on_the_old_channel(
    t: TransitionView,
    encode: spec_fn(Option<UnionView>) -> Seq<u8>,
)
    requires
        t.phase == Phase::UsingOld,
        t.old.hands_over(),
    ensures
        ({
            let ack = encode(Some(UnionView::CommitAck));
            let orders = seq![
                OrderView::Send(Some(UnionView::CommitAck)),
                OrderView::CommitAckSent,
            ];
            &&& t.old.sends_raw(ack) matches Some((after, sent)) && sent is Write
                && t.as_stream().sends_raw(ack) == Some(
                (TransitionView { old: after, ..t }.as_stream(), sent),
            )
            &&& carried_out_all(t.as_stream(), orders, encode) == (TransitionView {
                old: t.old.without_crypto(),
                new: t.new.with_crypto(crate::tcp::crypto_after_send(t.old.crypto())),
                phase: Phase::UsingNew,
                ..t
            }).as_stream()
        }),
{
    reveal_with_fuel(carried_out_all, 3);
    reveal_with_fuel(StreamView::sends_raw, 2);
    let orders = seq![OrderView::Send(Some(UnionView::CommitAck)), OrderView::CommitAckSent];
    assert(orders.drop_last().last() == OrderView::Send(Some(UnionView::CommitAck)));
    assert(orders.drop_last().drop_last() == Seq::<OrderView>::empty());
}

/// A frame is what a message became, and as long as sealing makes it.
pub open spec fn is_frame(crypto: Encrypt, message: Seq<u8>, frame: Seq<u8>) -> bool {
    frame == crypto.seals(message) && frame.len() == message.len() + MAC_BYTES
}

/// Two sides that count alike on the old channel count alike on the new one:
/// after `Commit` and `CommitAck` have gone over the old channel and both sides
/// have switched, either side reads on the new channel what the other seals
/// there.
pub proof fn switch_keeps_the_counts_aligned(
    a: Encrypt,
    b: Encrypt,
    commit: Seq<u8>,
    commit_frame: Seq<u8>,
    ack: Seq<u8>,
    ack_frame: Seq<u8>,
    initiator: TransitionView,
    responder: TransitionView,
)
    requires
        crate::tcp::aligned(Some(a), Some(b)),
        crate::tcp::aligned(Some(b), Some(a)),
        a.1 < u64::MAX,
        b.1 < u64::MAX,
        is_frame(a, commit, commit_frame),
        is_frame(b.after_open(commit_frame), ack, ack_frame),
        initiator.phase == Phase::CommitWindow,
        initiator.old.hands_over(),
        initiator.old.crypto() == Some(a.after_seal().after_open(ack_frame)),
        responder.phase == Phase::UsingOld,
        responder.old.hands_over(),
        responder.old.crypto() == Some(b.after_open(commit_frame).after_seal()),
    ensures
        crate::tcp::aligned(initiator.switched().new.2, responder.switched().new.2),
        crate::tcp::aligned(responder.switched().new.2, initiator.switched().new.2),
        initiator.switched().new.2 == Some(Encrypt(a.0, (a.1 + 1) as u64, (a.2 + 1) as u64)),
{
}

/// Only a message to be sent is given back, as it is.
pub proof fn only_messages_are_given_back(stream: &mut Stream, order: Order, r: Option<Message>)
    requires
        call_ensures(carry_out, (stream, order), r),
    ensures
        match order {
            Order::Send(message) => r == Some(message) && final(stream)@ == old(stream)@,
            _ => r is None,
        },
{
}

/// Before anything is installed only that order changes the connection: it puts the
/// new channel beside it, and the connection stays in use as it is.
pub proof fn orders_on_a_plain_connection(stream: &mut Stream, order: Order, r: Option<Message>)
    requires
        call_ensures(carry_out, (stream, order), r),
        !(old(stream)@ is Transition),
    ensures
        match order {
            Order::Install(new) => final(stream)@ matches StreamView::Transition(t) && t.old
                == old(stream)@ && t.new == new && t.phase == Phase::UsingOld && t.buffered.len()
                == 0,
            _ => final(stream)@ == old(stream)@,
        },
{
}

/// Each order to a transition does its part, whatever the phase. Going back leaves
/// both channels as they are and uses the old one; `Commit` begins the window; an
/// acknowledgement, come or gone, switches; another channel takes the place of the
/// new one. What is held back stays in any case.
pub proof fn orders_on_a_transition(
    stream: &mut Stream,
    order: Order,
    r: Option<Message>,
    before: TransitionView,
)
    requires
        call_ensures(carry_out, (stream, order), r),
        old(stream)@ == StreamView::Transition(Box::new(before)),
    ensures
        final(stream)@ matches StreamView::Transition(after) && {
            &&& after.buffered == before.buffered
            &&& match order {
                Order::Send(_) => *after == before,
                Order::Abort => after.old == before.old && after.new == before.new && after.phase
                    == Phase::UsingOld,
                Order::CommitSent => after.old == before.old && after.new == before.new
                    && after.phase == if before.phase == Phase::UsingOld {
                    Phase::CommitWindow
                } else {
                    before.phase
                },
                Order::CommitAckReceived | Order::CommitAckSent =>
                    crate::transition_laws::is_switched(before, *after),
                Order::Install(new) => after.new == new && if before.phase == Phase::UsingNew {
                    after.old == StreamView::Tcp(before.new) && after.phase == Phase::UsingOld
                } else {
                    after.old == before.old && after.phase == before.phase
                },
            }
        },
{
}

/// An upgrade that fails before it commits leaves the connection as it was before
/// the new channel was installed: it reads from the same link, what it sends is
/// what it would have sent, and a read means what it would have meant.
pub proof fn upgrade_that_never_commits_leaves_no_trace(
    a: &mut Stream,
    new: FramedStream,
    r: Option<Message>,
    b: &mut Stream,
    q: Option<Message>,
    item: PendingView,
    incoming: Option<Result<Seq<u8>, ReadError>>,
)
    requires
        !(old(a)@ is Transition),
        call_ensures(carry_out, (a, Order::Install(new)), r),
        old(b)@ == final(a)@,
        call_ensures(carry_out, (b, Order::Abort), q),
    ensures
        final(b)@.read_link() == old(a)@.read_link(),
        final(b)@.secured() == old(a)@.secured(),
        final(b)@.receives(incoming).1 == old(a)@.receives(incoming).1,
        match (final(b)@.sends_item(item), old(a)@.sends_item(item)) {
            (Some((_, sent)), Some((_, expected))) => sent == expected,
            (None, None) => true,
            _ => false,
        },
{
    reveal_with_fuel(StreamView::secured, 2);
    reveal_with_fuel(StreamView::read_link, 2);
    reveal_with_fuel(StreamView::receives, 2);
    reveal_with_fuel(StreamView::sends_raw, 2);
    reveal_with_fuel(StreamView::sends_bytes, 2);
}

} // verus!
