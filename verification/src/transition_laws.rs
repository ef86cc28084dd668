//! What holds of a switch as a whole: nothing is lost, nothing is reordered, and
//! the encryption goes along.

use crate::iroh_transition::{PendingView, Phase, TransitionStream, TransitionView};
use crate::stream::{Sent, SentView, Stream, StreamError, StreamView};
use crate::tcp::{FramedStream, ReadError, Write};
use crate::websocket::WsFramedStream;
use vstd::prelude::*;

verus! {

/// Sending writes one after the other on a connection: the connection
/// afterwards, and what became of each. A write for which there is no connection
/// is lost.
pub open spec fn send_all(
    stream: StreamView,
    items: Seq<PendingView>,
) -> (StreamView, Seq<Option<SentView>>)
    decreases items.len(),
{
    if items.len() == 0 {
        (stream, seq![])
    } else {
        let (after, sent) = match stream.sends_item(items[0]) {
            Some((after, sent)) => (after, Some(sent)),
            None => (stream, None),
        };
        let (end, later) = send_all(after, items.drop_first());
        (end, seq![sent] + later)
    }
}

/// Flushing to the new channel until nothing is held back: the transition
/// afterwards, and what became of each write.
pub open spec fn flush_all_to_new(t: TransitionView) -> (TransitionView, Seq<Option<SentView>>)
    decreases t.buffered.len(),
{
    if t.buffered.len() == 0 {
        (t, seq![])
    } else {
        let (after, write) = t.flushed_to_new();
        let (end, later) = flush_all_to_new(after);
        (end, seq![Some(SentView::Write(write))] + later)
    }
}

/// Flushing to the old channel until nothing is held back: the transition
/// afterwards, and what became of each write.
pub open spec fn flush_all_to_old(t: TransitionView) -> (TransitionView, Seq<Option<SentView>>)
    decreases t.buffered.len(),
{
    if t.buffered.len() == 0 {
        (t, seq![])
    } else {
        let (after, sent) = t.flushed_to_old();
        let (end, later) = flush_all_to_old(after);
        (end, seq![sent] + later)
    }
}

/// In the commit window a write is held back behind the others. Nothing is
/// written, and neither channel changes.
pub proof fn commit_window_holds_writes_back(t: TransitionView, item: PendingView)
    requires
        t.phase == Phase::CommitWindow,
    ensures
        t.as_stream().sends_item(item) == Some((t.holding(item).as_stream(), SentView::Buffered)),
        t.holding(item).old == t.old,
        t.holding(item).new == t.new,
        t.holding(item).phase == t.phase,
        t.holding(item).buffered == t.buffered.push(item),
{
}

/// In the commit window reads still take from the old channel, and hold nothing
/// back.
pub proof fn commit_window_drains_the_old_channel(
    t: TransitionView,
    incoming: Option<Result<Seq<u8>, ReadError>>,
)
    requires
        t.phase == Phase::CommitWindow,
    ensures
        t.as_stream().read_link() == t.old.read_link(),
        t.as_stream().receives(incoming).1 == t.old.receives(incoming).1,
        t.as_stream().receives(incoming).0 == (TransitionView {
            old: t.old.receives(incoming).0,
            ..t
        }).as_stream(),
{
}

/// Before the commit the transition is the old channel, and after the switch it
/// is the new one: writes go there, and reads come from there.
pub proof fn channel_in_use_carries_everything(
    t: TransitionView,
    item: PendingView,
    incoming: Option<Result<Seq<u8>, ReadError>>,
)
    requires
        t.phase != Phase::CommitWindow,
    ensures
        ({
            let channel = if t.phase == Phase::UsingOld {
                t.old
            } else {
                StreamView::Tcp(t.new)
            };
            let stream = t.as_stream();
            &&& stream.read_link() == channel.read_link()
            &&& stream.receives(incoming).1 == channel.receives(incoming).1
            &&& stream.secured() == channel.secured()
            &&& match (stream.sends_item(item), channel.sends_item(item)) {
                (Some((_, sent)), Some((_, expected))) => sent == expected,
                (None, None) => true,
                _ => false,
            }
        }),
{
}

/// The switch moves the encryption state, counts included, from the old channel
/// to the new one, be it a framed connection or a WebSocket: afterwards the new
/// one has it and the old one has none, and the session is as secured as before.
pub proof fn switch_moves_the_encryption_state(t: TransitionView)
    requires
        t.phase != Phase::UsingNew,
        t.old.hands_over(),
    ensures
        t.switched().phase == Phase::UsingNew,
        t.switched().new == t.new.with_crypto(t.old.crypto()),
        t.switched().old == t.old.without_crypto(),
        t.switched().old.crypto() is None,
        !t.switched().old.secured(),
        t.switched().buffered == t.buffered,
        t.switched().as_stream().secured() == t.as_stream().secured(),
{
    reveal_with_fuel(StreamView::secured, 2);
}

/// The switch of a framed connection, whatever the phase: once the new channel is
/// in use nothing changes, and before that the state moves as it is, key and both
/// counts, and is never held by both. Nothing held back is touched.
pub proof fn switch_of_a_framed_connection(t: TransitionView, from: FramedStream)
    requires
        t.old == StreamView::Tcp(from),
    ensures
        t.phase == Phase::UsingNew ==> t.switched() == t,
        t.phase != Phase::UsingNew ==> t.switched() == (TransitionView {
            old: StreamView::Tcp(from.with_crypto(None)),
            new: t.new.with_crypto(from.2),
            phase: Phase::UsingNew,
            buffered: t.buffered,
        }),
        t.switched().buffered == t.buffered,
{
}

/// Switching again changes nothing, so the state that moved is not lost.
pub proof fn switching_again_changes_nothing(t: TransitionView)
    ensures
        t.switched().switched() == t.switched(),
{
}

/// A message that is written is sealed under the encryption state in use, whatever
/// carries the connection, and that state alone advances, by one message. One that
/// is held back takes no nonce.
pub proof fn sending_advances_the_state_in_use(stream: StreamView, msg: Seq<u8>)
    ensures
        stream.sends_raw(msg) matches Some((after, sent)) ==> match sent {
            SentView::Write(w) => w.frame == crate::tcp::frame_for(stream.crypto(), msg)
                && after.crypto() == crate::tcp::crypto_after_send(stream.crypto()),
            SentView::Buffered => after.crypto() == stream.crypto(),
        },
    decreases stream,
{
    if let StreamView::Transition(t) = stream {
        sending_advances_the_state_in_use(t.old, msg);
    }
}

/// What is read is opened under the encryption state in use, whatever carries the
/// connection, and that state goes on from there. So what one end sends is what
/// the other reads, where the states in use are aligned.
pub proof fn reading_goes_by_the_state_in_use(
    stream: StreamView,
    incoming: Option<Result<Seq<u8>, ReadError>>,
)
    requires
        stream.read_link() is Some,
    ensures
        stream.receives(incoming).1 == crate::tcp::decoded(stream.crypto(), incoming),
        stream.receives(incoming).0.crypto() == crate::tcp::crypto_after_read(
            stream.crypto(),
            incoming,
        ),
    decreases stream,
{
    if let StreamView::Transition(t) = stream {
        if t.phase != Phase::UsingNew {
            reading_goes_by_the_state_in_use(t.old, incoming);
        }
    }
}

/// How far a phase is along.
pub open spec fn rank(phase: Phase) -> int {
    match phase {
        Phase::UsingOld => 0,
        Phase::CommitWindow => 1,
        Phase::UsingNew => 2,
    }
}

/// Neither committing nor switching ever goes back a phase, in whatever order
/// they come.
pub proof fn phases_only_advance(t: TransitionView)
    ensures
        rank(t.committed().phase) >= rank(t.phase),
        rank(t.switched().phase) >= rank(t.phase),
        t.switched().phase == Phase::UsingNew,
        t.switched().committed() == t.switched(),
{
}

/// Flushing to the new channel sends exactly what was held back, in its order,
/// as if it had been sent on the new channel, and holds nothing back any more.
pub proof fn flush_to_new_sends_what_was_held_back(t: TransitionView)
    requires
        t.phase == Phase::UsingNew,
    ensures
        flush_all_to_new(t).1 == send_all(StreamView::Tcp(t.new), t.buffered).1,
        flush_all_to_new(t).1.len() == t.buffered.len(),
        StreamView::Tcp(flush_all_to_new(t).0.new) == send_all(
            StreamView::Tcp(t.new),
            t.buffered,
        ).0,
        flush_all_to_new(t).0.old == t.old,
        flush_all_to_new(t).0.phase == t.phase,
        flush_all_to_new(t).0.buffered == Seq::<PendingView>::empty(),
    decreases t.buffered.len(),
{
    if t.buffered.len() > 0 {
        flush_to_new_sends_what_was_held_back(t.flushed_to_new().0);
    }
}

/// Flushing to the old channel sends exactly what was held back, in its order,
/// as if it had been sent on the old channel, and holds nothing back any more.
pub proof fn flush_to_old_sends_what_was_held_back(t: TransitionView)
    requires
        t.phase == Phase::UsingOld,
    ensures
        flush_all_to_old(t).1 == send_all(t.old, t.buffered).1,
        flush_all_to_old(t).1.len() == t.buffered.len(),
        flush_all_to_old(t).0.old == send_all(t.old, t.buffered).0,
        flush_all_to_old(t).0.new == t.new,
        flush_all_to_old(t).0.phase == t.phase,
        flush_all_to_old(t).0.buffered == Seq::<PendingView>::empty(),
    decreases t.buffered.len(),
{
    if t.buffered.len() > 0 {
        flush_to_old_sends_what_was_held_back(t.flushed_to_old().0);
    }
}

/// The transition after holding a number of writes back.
pub open spec fn holding_all(t: TransitionView, items: Seq<PendingView>) -> TransitionView {
    TransitionView { buffered: t.buffered + items, ..t }
}

/// Sending writes in the commit window holds all of them back, in their order.
pub proof fn commit_window_keeps_the_order(t: TransitionView, items: Seq<PendingView>)
    requires
        t.phase == Phase::CommitWindow,
    ensures
        send_all(t.as_stream(), items).0 == holding_all(t, items).as_stream(),
        forall|i: int|
            0 <= i < items.len() ==> #[trigger] send_all(t.as_stream(), items).1[i] == Some(
                SentView::Buffered,
            ),
        send_all(t.as_stream(), items).1.len() == items.len(),
    decreases items.len(),
{
    if items.len() == 0 {
        assert(holding_all(t, items) == t);
    } else {
        let next = t.holding(items[0]);
        commit_window_keeps_the_order(next, items.drop_first());
        assert(holding_all(next, items.drop_first()) == holding_all(t, items)) by {
            assert(t.buffered.push(items[0]) + items.drop_first() == t.buffered + items);
        }
    }
}

/// Nothing is lost over a switch: what the session sends between `Commit` and
/// `CommitAck` goes out on the new channel afterwards, in its order, sealed there
/// under the nonces that follow those of the old channel.
pub proof fn writes_in_the_window_go_out_on_the_new_channel(
    from: StreamView,
    to: FramedStream,
    items: Seq<PendingView>,
)
    requires
        from.hands_over(),
    ensures
        ({
            let window = TransitionView::fresh(from, to).committed();
            let held = holding_all(window, items);
            let channel = StreamView::Tcp(to.with_crypto(from.crypto()));
            &&& send_all(window.as_stream(), items).0 == held.as_stream()
            &&& flush_all_to_new(held.switched()).1 == send_all(channel, items).1
            &&& flush_all_to_new(held.switched()).0.buffered == Seq::<PendingView>::empty()
        }),
{
    let window = TransitionView::fresh(from, to).committed();
    commit_window_keeps_the_order(window, items);
    let held = holding_all(window, items);
    assert(held.buffered == items);
    flush_to_new_sends_what_was_held_back(held.switched());
}

/// Nothing is lost when an upgrade fails: what the session sent after `Commit`
/// goes out on the old channel, in its order, and the old channel goes on from
/// where it was.
pub proof fn writes_in_the_window_go_back_after_an_abort(
    from: StreamView,
    to: FramedStream,
    items: Seq<PendingView>,
)
    ensures
        ({
            let window = TransitionView::fresh(from, to).committed();
            let held = holding_all(window, items);
            &&& send_all(window.as_stream(), items).0 == held.as_stream()
            &&& flush_all_to_old(held.aborted()).1 == send_all(from, items).1
            &&& flush_all_to_old(held.aborted()).0.old == send_all(from, items).0
            &&& flush_all_to_old(held.aborted()).0.buffered == Seq::<PendingView>::empty()
        }),
{
    let window = TransitionView::fresh(from, to).committed();
    commit_window_keeps_the_order(window, items);
    let held = holding_all(window, items);
    assert(held.buffered == items);
    flush_to_old_sends_what_was_held_back(held.aborted());
}

/// After the switch the new channel alone does what the transition did: it sends
/// the same frames, reads the same messages and goes through the same states.
pub proof fn collapsing_keeps_the_connection(
    t: TransitionView,
    item: PendingView,
    incoming: Option<Result<Seq<u8>, ReadError>>,
)
    requires
        t.phase == Phase::UsingNew,
    ensures
        ({
            let stream = t.as_stream();
            let alone = stream.collapsed();
            &&& alone == StreamView::Tcp(t.new)
            &&& alone.secured() == stream.secured()
            &&& alone.read_link() == stream.read_link()
            &&& alone.receives(incoming) == (
                stream.receives(incoming).0.collapsed(),
                stream.receives(incoming).1,
            )
            &&& match (stream.sends_item(item), alone.sends_item(item)) {
                (Some((after, sent)), Some((alone_after, alone_sent))) => alone_after
                    == after.collapsed() && alone_sent == sent,
                _ => false,
            }
        }),
{
}

/// A switch that is not over is not cut short: collapsing leaves it as it is.
pub proof fn unfinished_switch_does_not_collapse(t: TransitionView)
    requires
        t.phase != Phase::UsingNew,
    ensures
        t.as_stream().collapsed() == t.as_stream(),
{
}

/// Where a connection was taken out, nothing is sent and nothing is read, and it
/// does not pass for secured.
pub proof fn placeholder_is_no_connection(
    item: PendingView,
    incoming: Option<Result<Seq<u8>, ReadError>>,
)
    ensures
        StreamView::Empty.sends_item(item) is None,
        StreamView::Empty.receives(incoming).1 is None,
        StreamView::Empty.read_link() is None,
        !StreamView::Empty.secured(),
{
}

/// A write that is held back is as long as its bytes, and a queue as long as its
/// writes together.
pub proof fn queue_is_as_long_as_its_writes(items: Seq<PendingView>, item: PendingView)
    ensures
        item.len() == match item {
            PendingView::Plain(bytes) => bytes.len(),
            PendingView::Raw(bytes) => bytes.len(),
        },
        crate::iroh_transition::total(Seq::<PendingView>::empty()) == 0,
        crate::iroh_transition::total(items.push(item)) == crate::iroh_transition::total(items)
            + item.len(),
{
    crate::iroh_transition::total_of_push(items, item);
}

/// A new transition has the two channels that it was given, as they are, holds
/// nothing back and uses the old one.
pub proof fn new_transition(from: Stream, to: FramedStream, r: TransitionStream)
    requires
        call_ensures(TransitionStream::new, (from, to), r),
    ensures
        r@.old == from@,
        r@.new == to,
        r@.phase == Phase::UsingOld,
        r@.buffered.len() == 0,
{
}

/// Another new channel beside a connection: the connection as it is becomes the old
/// channel, or the channel in use where a switch was over. A transition that is not
/// over keeps its old channel and its phase. What was held back stays so.
pub proof fn another_new_channel(from: Stream, to: FramedStream, r: TransitionStream)
    requires
        call_ensures(TransitionStream::over, (from, to), r),
    ensures
        r@.new == to,
        match from@ {
            StreamView::Transition(t) => r@.buffered == t.buffered && if t.phase
                == Phase::UsingNew {
                r@.old == StreamView::Tcp(t.new) && r@.phase == Phase::UsingOld
            } else {
                r@.old == t.old && r@.phase == t.phase
            },
            _ => r@.old == from@ && r@.phase == Phase::UsingOld && r@.buffered.len() == 0,
        },
{
}

/// What a transition tells of itself is so.
pub proof fn transition_tells_what_it_is(
    t: &TransitionStream,
    phase: Phase,
    held: usize,
    bytes: usize,
    counts: Option<(u64, u64)>,
)
    requires
        call_ensures(TransitionStream::phase, (t,), phase),
        call_ensures(TransitionStream::buffered_len, (t,), held),
        call_ensures(TransitionStream::buffered_bytes, (t,), bytes),
        call_ensures(TransitionStream::new_crypto_seq, (t,), counts),
    ensures
        phase == t@.phase,
        held == t@.buffered.len(),
        bytes == crate::iroh_transition::total(t@.buffered),
        match t@.new.2 {
            Some(e) => counts == Some((e.1, e.2)),
            None => counts is None,
        },
{
}

/// The new channel is given out as it is.
pub proof fn new_channel_is_given_out(t: TransitionStream, r: FramedStream)
    requires
        call_ensures(TransitionStream::into_new, (t,), r),
    ensures
        r == t@.new,
{
}

/// Once `Commit` is out the commit window begins, unless it has or is over; neither
/// channel changes, and nothing is held back by that alone.
pub proof fn commit_begins_the_window(t: &mut TransitionStream, r: ())
    requires
        call_ensures(TransitionStream::on_commit_sent, (t,), r),
    ensures
        final(t)@.old == old(t)@.old,
        final(t)@.new == old(t)@.new,
        final(t)@.buffered == old(t)@.buffered,
        old(t)@.phase == Phase::UsingNew ==> final(t)@.phase == Phase::UsingNew,
        old(t)@.phase != Phase::UsingNew ==> final(t)@.phase == Phase::CommitWindow,
{
}

/// Whatever the phase, giving up leaves both channels as they are and what is held
/// back where it is, and the old channel is in use: what is read comes from its
/// link, and what is written goes there.
pub proof fn giving_up_restores_the_old_channel(t: &mut TransitionStream, r: ())
    requires
        call_ensures(TransitionStream::abort, (t,), r),
    ensures
        final(t)@.old == old(t)@.old,
        final(t)@.new == old(t)@.new,
        final(t)@.buffered == old(t)@.buffered,
        final(t)@.phase == Phase::UsingOld,
        final(t)@.as_stream().read_link() == old(t)@.old.read_link(),
        old(t)@.phase == Phase::UsingOld ==> final(t)@ == old(t)@,
{
}

/// After giving up, what is sent goes out as the old channel by itself would have
/// sent it, wherever the transition was.
pub proof fn giving_up_sends_on_the_old_channel(
    t: &mut TransitionStream,
    r: (),
    item: PendingView,
    incoming: Option<Result<Seq<u8>, ReadError>>,
)
    requires
        call_ensures(TransitionStream::abort, (t,), r),
    ensures
        match (final(t)@.as_stream().sends_item(item), old(t)@.old.sends_item(item)) {
            (Some((_, sent)), Some((_, expected))) => sent == expected,
            (None, None) => true,
            _ => false,
        },
        final(t)@.as_stream().receives(incoming).1 == old(t)@.old.receives(incoming).1,
{
}

/// A transition was switched: once the new channel is in use nothing changes.
/// Before that the state of a framed connection or a WebSocket goes over as it is,
/// and is not left behind; other channels have none to hand over. Nothing that is
/// held back is touched, and neither channel changes otherwise.
pub open spec fn is_switched(before: TransitionView, after: TransitionView) -> bool {
    &&& after.phase == Phase::UsingNew
    &&& after.buffered == before.buffered
    &&& after.new.0 == before.new.0 && after.new.1 == before.new.1 && after.new.3 == before.new.3
    &&& if before.phase == Phase::UsingNew {
        after == before
    } else {
        match before.old {
            StreamView::Tcp(f) => after.new.2 == f.2 && after.old == StreamView::Tcp(
                FramedStream(f.0, f.1, None, f.3),
            ),
            StreamView::WebSocket(w) => after.new.2 == w.encrypt && after.old
                == StreamView::WebSocket(
                WsFramedStream {
                    link: w.link,
                    addr: w.addr,
                    encrypt: None,
                    send_timeout: w.send_timeout,
                },
            ),
            _ => after.new == before.new && after.old == before.old,
        }
    }
}

/// Each of the ways to switch switches.
pub proof fn switching(
    a: &mut TransitionStream,
    b: &mut TransitionStream,
    c: &mut TransitionStream,
)
    requires
        call_ensures(TransitionStream::on_commit_ack_received, (a,), ()),
        call_ensures(TransitionStream::on_commit_ack_sent, (b,), ()),
        call_ensures(TransitionStream::switch_to_new, (c,), ()),
    ensures
        is_switched(old(a)@, final(a)@),
        is_switched(old(b)@, final(b)@),
        is_switched(old(c)@, final(c)@),
{
}

/// The first of the writes held back left the queue, and the others are left in
/// their order.
pub open spec fn first_is_gone(before: Seq<PendingView>, after: Seq<PendingView>) -> bool {
    before.len() == after.len() + 1 && forall|i: int|
        0 <= i < after.len() ==> #[trigger] after[i] == before[i + 1]
}

/// Flushing to the old channel sends the first of what is held back there, as if it
/// were sent now, and leaves the rest for the next call. It does nothing once
/// nothing is held back, or where the old channel is not in use.
pub proof fn flushing_to_the_old_channel(
    t: &mut TransitionStream,
    r: Result<Option<Sent>, StreamError>,
)
    requires
        call_ensures(TransitionStream::flush_to_old, (t,), r),
    ensures
        if old(t)@.phase == Phase::UsingOld && old(t)@.buffered.len() > 0 {
            let sent = match r {
                Ok(Some(sent)) => Ok::<Sent, StreamError>(sent),
                Ok(None) => Ok(Sent::Buffered),
                Err(e) => Err(e),
            };
            &&& !(r matches Ok(None))
            &&& first_is_gone(old(t)@.buffered, final(t)@.buffered)
            &&& final(t)@.new == old(t)@.new && final(t)@.phase == old(t)@.phase
            &&& match old(t)@.buffered[0] {
                PendingView::Plain(msg) => crate::stream_laws::message_goes_out(
                    old(t)@.old,
                    final(t)@.old,
                    msg,
                    sent,
                ),
                PendingView::Raw(bytes) => crate::stream_laws::frame_goes_out(
                    old(t)@.old,
                    final(t)@.old,
                    bytes,
                    sent,
                ),
            }
        } else {
            final(t)@ == old(t)@ && r == Ok::<Option<Sent>, StreamError>(None)
        },
{
    if old(t)@.phase == Phase::UsingOld && old(t)@.buffered.len() > 0 {
        let sent = match r {
            Ok(Some(sent)) => Ok::<Sent, StreamError>(sent),
            Ok(None) => Ok(Sent::Buffered),
            Err(e) => Err(e),
        };
        match old(t)@.buffered[0] {
            PendingView::Plain(msg) => crate::stream_laws::message_goes_out_by_view(
                old(t)@.old,
                final(t)@.old,
                msg,
                sent,
            ),
            PendingView::Raw(bytes) => crate::stream_laws::frame_goes_out_by_view(
                old(t)@.old,
                final(t)@.old,
                bytes,
                sent,
            ),
        }
    }
}

/// Flushing to the new channel sends the first of what is held back there: a
/// message sealed under that channel's state, a frame as it is. It does nothing
/// once nothing is held back, or where the new channel is not in use.
pub proof fn flushing_to_the_new_channel(t: &mut TransitionStream, r: Option<Write>)
    requires
        call_ensures(TransitionStream::flush_to_new, (t,), r),
    ensures
        if old(t)@.phase == Phase::UsingNew && old(t)@.buffered.len() > 0 {
            &&& first_is_gone(old(t)@.buffered, final(t)@.buffered)
            &&& final(t)@.old == old(t)@.old && final(t)@.phase == old(t)@.phase
            &&& r matches Some(w) && match old(t)@.buffered[0] {
                PendingView::Plain(msg) => crate::stream_laws::framed_message_goes_out(
                    old(t)@.new,
                    final(t)@.new,
                    msg,
                    Ok::<Sent, StreamError>(Sent::Write(w)),
                ),
                PendingView::Raw(bytes) => final(t)@.new == old(t)@.new && w.link
                    == old(t)@.new.0 && w.frame@ == bytes && w.timeout_ms == old(t)@.new.3,
            }
        } else {
            final(t)@ == old(t)@ && r is None
        },
{
}

/// What is held back can be flushed as long as a message at its head has a count
/// left in the state that it would be sealed under, and there is room should the
/// old channel hold it back in turn.
pub proof fn flushing_takes_a_count(t: &TransitionStream, r: bool)
    requires
        call_ensures(TransitionStream::can_flush, (t,), r),
    ensures
        t@.buffered.len() == 0 || t@.phase == Phase::CommitWindow ==> r,
        t@.buffered.len() > 0 && t@.phase == Phase::UsingNew ==> (r <==> (t@.buffered[0] is Raw || (
        t@.new.2 matches Some(e) ==> e.1 < u64::MAX))),
        t@.buffered.len() > 0 && t@.phase == Phase::UsingOld ==> (r <==> {
            let again = crate::stream_laws::held_back(t@.old);
            let state = crate::stream_laws::state_of(crate::stream_laws::in_use(t@.old));
            &&& t@.buffered[0] is Raw || again is Some || (state matches Some(e) ==> e.1
                < u64::MAX)
            &&& again matches Some(items) ==> crate::iroh_transition::total(items)
                + t@.buffered[0].len() <= usize::MAX
        }),
{
    if t@.buffered.len() > 0 {
        crate::stream_laws::observed_by_view(t@.old, t@.buffered[0].len(), arbitrary());
    }
}

} // verus!
