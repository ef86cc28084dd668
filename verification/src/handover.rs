//! Carrying the orders of an upgrade session out on the connection.

use crate::iroh_transition::{TransitionStream, TransitionView};
use crate::iroh_upgrade_session::{Order, OrderView};
use crate::message_proto::Message;
use crate::stream::{Stream, StreamView};
use vstd::prelude::*;

verus! {

/// The connection after an order other than one to send. Orders to a transition
/// do nothing where there is none.
pub open spec fn after_order(stream: StreamView, order: OrderView) -> StreamView {
    match order {
        OrderView::Install(new) => TransitionView::over(stream, new).as_stream(),
        OrderView::Send(_) => stream,
        OrderView::CommitSent => match stream {
            StreamView::Transition(t) => t.committed().as_stream(),
            _ => stream,
        },
        OrderView::CommitAckReceived | OrderView::CommitAckSent => match stream {
            StreamView::Transition(t) => t.switched().as_stream(),
            _ => stream,
        },
        OrderView::Abort => match stream {
            StreamView::Transition(t) => t.aborted().as_stream(),
            _ => stream,
        },
    }
}

/// Carries an order out on the connection. A message to be sent is given back:
/// the caller encodes it and sends it before the next order.
pub fn carry_out(stream: &mut Stream, order: Order) -> (r: Option<Message>)
    requires
        old(stream).wf(),
    ensures
        final(stream)@ == after_order(old(stream)@, order@),
        final(stream).wf(),
        match order {
            Order::Send(message) => r == Some(message),
            _ => r is None,
        },
{
    match order {
        Order::Install(new) => {
            let mut old_channel = Stream::Empty;
            std::mem::swap(&mut old_channel, stream);
            *stream = Stream::Transition(Box::new(TransitionStream::over(old_channel, new)));
            None
        },
        Order::Send(message) => Some(message),
        Order::CommitSent => {
            if let Stream::Transition(t) = stream {
                t.on_commit_sent();
            }
            None
        },
        Order::CommitAckReceived => {
            if let Stream::Transition(t) = stream {
                t.on_commit_ack_received();
            }
            None
        },
        Order::CommitAckSent => {
            if let Stream::Transition(t) = stream {
                t.on_commit_ack_sent();
            }
            None
        },
        Order::Abort => {
            if let Stream::Transition(t) = stream {
                t.abort();
            }
            None
        },
    }
}

} // verus!
