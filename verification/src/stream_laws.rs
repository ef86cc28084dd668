//! What the calls on a connection give, whatever carries it: which bytes go where,
//! what a read means, and what each setting changes and leaves alone.

use crate::iroh_transition::{PendingView, Phase, TransitionStream};
use crate::net::SocketAddr;
use crate::stream::{Sent, Stream, StreamError, StreamView};
use crate::tcp::{Encrypt, FramedStream, Incoming, Key, Link, ReadError, Write};
use crate::webrtc::WebRTCStream;
use crate::websocket::WsFramedStream;
use vstd::prelude::*;

verus! {

/// A connection is seen as what it is: its channel with all that belongs to it.
pub proof fn connection_is_seen_as_it_is(stream: Stream)
    ensures
        match stream {
            Stream::Tcp(f) => stream@ == StreamView::Tcp(f),
            Stream::WebSocket(w) => stream@ == StreamView::WebSocket(w),
            Stream::WebRTC(c) => stream@ == StreamView::WebRTC(c),
            Stream::Empty => stream@ == StreamView::Empty,
            Stream::Transition(t) => stream@ == StreamView::Transition(Box::new((*t)@)),
        },
{
}

/// What came of sending is this frame on this link, with this time for it.
pub open spec fn written(
    r: Result<Sent, StreamError>,
    link: Link,
    frame: Seq<u8>,
    timeout_ms: u64,
) -> bool {
    r matches Ok(Sent::Write(w)) && w.link == link && w.frame@ == frame && w.timeout_ms
        == timeout_ms
}

/// A frame goes out as it is on the channel in use: exactly those bytes, on that
/// channel's own link, and no channel changes. In the commit window it is held
/// back behind the others. Only a placeholder fails.
pub open spec fn frame_goes_out(
    before: StreamView,
    after: StreamView,
    bytes: Seq<u8>,
    r: Result<Sent, StreamError>,
) -> bool
    decreases before,
{
    match before {
        StreamView::Tcp(f) => after == before && written(r, f.0, bytes, f.3),
        StreamView::WebSocket(w) => after == before && written(r, w.link, bytes, w.send_timeout),
        StreamView::WebRTC(c) => after == before && written(r, c.link, bytes, c.send_timeout),
        StreamView::Empty => after == before && r == Err::<Sent, StreamError>(
            StreamError::Placeholder,
        ),
        StreamView::Transition(t) => {
            &&& after is Transition
            &&& after->Transition_0.phase == t.phase
            &&& after->Transition_0.new == t.new
            &&& match t.phase {
                Phase::UsingOld => after->Transition_0.buffered == t.buffered && frame_goes_out(
                    t.old,
                    after->Transition_0.old,
                    bytes,
                    r,
                ),
                Phase::UsingNew => after == before && written(r, t.new.0, bytes, t.new.3),
                Phase::CommitWindow => after->Transition_0.old == t.old
                    && after->Transition_0.buffered == t.buffered.push(PendingView::Raw(bytes))
                    && r == Ok::<Sent, StreamError>(Sent::Buffered),
            }
        },
    }
}

/// A message became this frame under an encryption state, and left this one
/// behind: sealed under the next count, or as it is where there is no state.
pub open spec fn sealed_under(
    crypto: Option<Encrypt>,
    left: Option<Encrypt>,
    msg: Seq<u8>,
    frame: Seq<u8>,
) -> bool {
    match crypto {
        None => left is None && frame == msg,
        Some(e) => e.1 < u64::MAX ==> {
            &&& left matches Some(after) && after.0 == e.0 && after.1 == e.1 + 1 && after.2 == e.2
            &&& frame == crate::tcp::sealed(
                msg,
                vstd::bytes::spec_u64_to_le_bytes((e.1 + 1) as u64) + Seq::new(16, |i: int| 0u8),
                e.0.0@,
            )
        },
    }
}

/// The frame that was written, where one was.
pub open spec fn frame_of(r: Result<Sent, StreamError>) -> Seq<u8> {
    match r {
        Ok(Sent::Write(w)) => w.frame@,
        _ => seq![],
    }
}

/// A message goes out on a framed channel, sealed under its state.
pub open spec fn framed_message_goes_out(
    before: FramedStream,
    after: FramedStream,
    msg: Seq<u8>,
    r: Result<Sent, StreamError>,
) -> bool {
    &&& after.0 == before.0 && after.1 == before.1 && after.3 == before.3
    &&& written(r, before.0, frame_of(r), before.3)
    &&& sealed_under(before.2, after.2, msg, frame_of(r))
}

/// A message goes out on the channel in use, sealed under that channel's state and
/// no other, and nothing else changes. In the commit window it is held back as it
/// is. Only a placeholder fails.
pub open spec fn message_goes_out(
    before: StreamView,
    after: StreamView,
    msg: Seq<u8>,
    r: Result<Sent, StreamError>,
) -> bool
    decreases before,
{
    match before {
        StreamView::Tcp(f) => after matches StreamView::Tcp(g) && framed_message_goes_out(
            f,
            g,
            msg,
            r,
        ),
        StreamView::WebSocket(w) => {
            &&& after is WebSocket
            &&& after->WebSocket_0.link == w.link && after->WebSocket_0.addr == w.addr
            &&& after->WebSocket_0.send_timeout == w.send_timeout
            &&& written(r, w.link, frame_of(r), w.send_timeout)
            &&& sealed_under(w.encrypt, after->WebSocket_0.encrypt, msg, frame_of(r))
        },
        StreamView::WebRTC(c) => after == before && written(r, c.link, msg, c.send_timeout),
        StreamView::Empty => after == before && r == Err::<Sent, StreamError>(
            StreamError::Placeholder,
        ),
        StreamView::Transition(t) => {
            &&& after is Transition
            &&& after->Transition_0.phase == t.phase
            &&& match t.phase {
                Phase::UsingOld => after->Transition_0.new == t.new
                    && after->Transition_0.buffered == t.buffered && message_goes_out(
                    t.old,
                    after->Transition_0.old,
                    msg,
                    r,
                ),
                Phase::UsingNew => after->Transition_0.old == t.old
                    && after->Transition_0.buffered == t.buffered && framed_message_goes_out(
                    t.new,
                    after->Transition_0.new,
                    msg,
                    r,
                ),
                Phase::CommitWindow => after->Transition_0.old == t.old && after->Transition_0.new
                    == t.new && after->Transition_0.buffered == t.buffered.push(
                    PendingView::Plain(msg),
                ) && r == Ok::<Sent, StreamError>(Sent::Buffered),
            }
        },
    }
}

/// A frame that was read is opened under an encryption state, and leaves this one
/// behind. A frame of at most one byte is not sealed and takes no count, any other
/// takes one, whether it is genuine or not. The end of the stream and errors are
/// handed on.
pub open spec fn opened_under(
    crypto: Option<Encrypt>,
    left: Option<Encrypt>,
    incoming: Incoming,
    r: Incoming,
) -> bool {
    match incoming {
        None => r is None && left == crypto,
        Some(Err(e)) => r == Some(Err::<Vec<u8>, ReadError>(e)) && left == crypto,
        Some(Ok(frame)) => match crypto {
            None => left is None && (r matches Some(Ok(m)) && m@ == frame@),
            Some(e) => if frame@.len() <= 1 {
                left == crypto && (r matches Some(Ok(m)) && m@ == frame@)
            } else {
                e.2 < u64::MAX ==> {
                    let nonce = vstd::bytes::spec_u64_to_le_bytes((e.2 + 1) as u64) + Seq::new(
                        16,
                        |i: int| 0u8,
                    );
                    &&& left matches Some(after) && after.0 == e.0 && after.1 == e.1 && after.2
                        == e.2 + 1
                    &&& match crate::tcp::opened(frame@, nonce, e.0.0@) {
                        Some(message) => r matches Some(Ok(m)) && m@ == message,
                        None => r == Some(Err::<Vec<u8>, ReadError>(ReadError::Decryption)),
                    }
                }
            },
        },
    }
}

/// A read is taken by a framed channel, under its state.
pub open spec fn framed_read_is_taken(
    before: FramedStream,
    after: FramedStream,
    incoming: Incoming,
    r: Incoming,
) -> bool {
    &&& after.0 == before.0 && after.1 == before.1 && after.3 == before.3
    &&& opened_under(before.2, after.2, incoming, r)
}

/// A read is taken by the channel in use, under that channel's state and no other,
/// and nothing else changes: before the switch that is the old channel, in the
/// commit window too. Where there is no connection nothing is read.
pub open spec fn read_is_taken(
    before: StreamView,
    after: StreamView,
    incoming: Incoming,
    r: Incoming,
) -> bool
    decreases before,
{
    match before {
        StreamView::Tcp(f) => after matches StreamView::Tcp(g) && framed_read_is_taken(
            f,
            g,
            incoming,
            r,
        ),
        StreamView::WebSocket(w) => {
            &&& after is WebSocket
            &&& after->WebSocket_0.link == w.link && after->WebSocket_0.addr == w.addr
            &&& after->WebSocket_0.send_timeout == w.send_timeout
            &&& opened_under(w.encrypt, after->WebSocket_0.encrypt, incoming, r)
        },
        StreamView::WebRTC(_) => after == before && opened_under(None, None, incoming, r),
        StreamView::Empty => after == before && r is None,
        StreamView::Transition(t) => {
            &&& after is Transition
            &&& after->Transition_0.phase == t.phase
            &&& after->Transition_0.buffered == t.buffered
            &&& if t.phase == Phase::UsingNew {
                after->Transition_0.old == t.old && framed_read_is_taken(
                    t.new,
                    after->Transition_0.new,
                    incoming,
                    r,
                )
            } else {
                after->Transition_0.new == t.new && read_is_taken(
                    t.old,
                    after->Transition_0.old,
                    incoming,
                    r,
                )
            }
        },
    }
}

pub(crate) proof fn frame_goes_out_by_view(
    before: StreamView,
    after: StreamView,
    bytes: Seq<u8>,
    r: Result<Sent, StreamError>,
)
    requires
        crate::stream::sent_as(before.sends_bytes(bytes), before, after, r),
    ensures
        frame_goes_out(before, after, bytes, r),
    decreases before,
{
    if let StreamView::Transition(t) = before {
        if t.phase == Phase::UsingOld {
            frame_goes_out_by_view(t.old, after->Transition_0.old, bytes, r);
        }
    }
}

pub(crate) proof fn message_goes_out_by_view(
    before: StreamView,
    after: StreamView,
    msg: Seq<u8>,
    r: Result<Sent, StreamError>,
)
    requires
        crate::stream::sent_as(before.sends_raw(msg), before, after, r),
    ensures
        message_goes_out(before, after, msg, r),
    decreases before,
{
    if let StreamView::Transition(t) = before {
        if t.phase == Phase::UsingOld {
            message_goes_out_by_view(t.old, after->Transition_0.old, msg, r);
        }
    }
}

proof fn read_is_taken_by_view(
    before: StreamView,
    after: StreamView,
    incoming: Incoming,
    r: Incoming,
)
    requires
        (after, crate::tcp::incoming_view(r)) == before.receives(
            crate::tcp::incoming_view(incoming),
        ),
    ensures
        read_is_taken(before, after, incoming, r),
    decreases before,
{
    if let StreamView::Transition(t) = before {
        if t.phase != Phase::UsingNew {
            read_is_taken_by_view(t.old, after->Transition_0.old, incoming, r);
        }
    }
}

/// Sending a frame as it is, on any connection.
pub proof fn sending_a_frame(s: &mut Stream, bytes: Vec<u8>, r: Result<Sent, StreamError>)
    requires
        call_ensures(Stream::send_bytes, (s, bytes), r),
    ensures
        frame_goes_out(old(s)@, final(s)@, bytes@, r),
{
    frame_goes_out_by_view(old(s)@, final(s)@, bytes@, r);
}

/// Sending a frame as it is, through a transition.
pub proof fn sending_a_frame_through_a_transition(
    t: &mut TransitionStream,
    bytes: Vec<u8>,
    r: Result<Sent, StreamError>,
)
    requires
        call_ensures(TransitionStream::send_bytes, (t, bytes), r),
    ensures
        frame_goes_out(
            StreamView::Transition(Box::new(old(t)@)),
            StreamView::Transition(Box::new(final(t)@)),
            bytes@,
            r,
        ),
{
    frame_goes_out_by_view(
        StreamView::Transition(Box::new(old(t)@)),
        StreamView::Transition(Box::new(final(t)@)),
        bytes@,
        r,
    );
}

/// Sending a message, on any connection.
pub proof fn sending_a_message(s: &mut Stream, msg: Vec<u8>, r: Result<Sent, StreamError>)
    requires
        call_ensures(Stream::send_raw, (s, msg), r),
    ensures
        message_goes_out(old(s)@, final(s)@, msg@, r),
{
    message_goes_out_by_view(old(s)@, final(s)@, msg@, r);
}

/// Sending a message, through a transition.
pub proof fn sending_a_message_through_a_transition(
    t: &mut TransitionStream,
    msg: Vec<u8>,
    r: Result<Sent, StreamError>,
)
    requires
        call_ensures(TransitionStream::send_raw, (t, msg), r),
    ensures
        message_goes_out(
            StreamView::Transition(Box::new(old(t)@)),
            StreamView::Transition(Box::new(final(t)@)),
            msg@,
            r,
        ),
{
    message_goes_out_by_view(
        StreamView::Transition(Box::new(old(t)@)),
        StreamView::Transition(Box::new(final(t)@)),
        msg@,
        r,
    );
}

/// Sending a protocol message is sending its bytes. One that could not be encoded
/// changes nothing and gives the encoder's words, but a placeholder fails first.
pub proof fn sending_a_protocol_message(
    s: &mut Stream,
    encoded: Result<Vec<u8>, String>,
    r: Result<Sent, StreamError>,
)
    requires
        call_ensures(Stream::send, (s, encoded), r),
    ensures
        match encoded {
            Ok(bytes) => message_goes_out(old(s)@, final(s)@, bytes@, r),
            Err(cause) => final(s)@ == old(s)@ && r == Err::<Sent, StreamError>(
                if old(s)@ is Empty {
                    StreamError::Placeholder
                } else {
                    StreamError::Encode(cause)
                },
            ),
        },
{
    if let Ok(bytes) = encoded {
        message_goes_out_by_view(old(s)@, final(s)@, bytes@, r);
    }
}

/// Sending a protocol message through a transition.
pub proof fn sending_a_protocol_message_through_a_transition(
    t: &mut TransitionStream,
    encoded: Result<Vec<u8>, String>,
    r: Result<Sent, StreamError>,
)
    requires
        call_ensures(TransitionStream::send, (t, encoded), r),
    ensures
        match encoded {
            Ok(bytes) => message_goes_out(
                StreamView::Transition(Box::new(old(t)@)),
                StreamView::Transition(Box::new(final(t)@)),
                bytes@,
                r,
            ),
            Err(cause) => final(t)@ == old(t)@ && r == Err::<Sent, StreamError>(
                StreamError::Encode(cause),
            ),
        },
{
    if let Ok(bytes) = encoded {
        message_goes_out_by_view(
            StreamView::Transition(Box::new(old(t)@)),
            StreamView::Transition(Box::new(final(t)@)),
            bytes@,
            r,
        );
    }
}

/// Reading, on any connection.
pub proof fn reading(s: &mut Stream, incoming: Incoming, r: Incoming)
    requires
        call_ensures(Stream::next, (s, incoming), r),
    ensures
        read_is_taken(old(s)@, final(s)@, incoming, r),
{
    read_is_taken_by_view(old(s)@, final(s)@, incoming, r);
}

/// Reading, through a transition.
pub proof fn reading_through_a_transition(
    t: &mut TransitionStream,
    incoming: Incoming,
    r: Incoming,
)
    requires
        call_ensures(TransitionStream::next, (t, incoming), r),
    ensures
        read_is_taken(
            StreamView::Transition(Box::new(old(t)@)),
            StreamView::Transition(Box::new(final(t)@)),
            incoming,
            r,
        ),
{
    read_is_taken_by_view(
        StreamView::Transition(Box::new(old(t)@)),
        StreamView::Transition(Box::new(final(t)@)),
        incoming,
        r,
    );
}

/// Reading with a time limit: what came in time is taken like any other, and where
/// nothing came nothing changes and nothing is read.
pub proof fn reading_with_a_time_limit(s: &mut Stream, in_time: Option<Incoming>, r: Incoming)
    requires
        call_ensures(Stream::next_timeout, (s, in_time), r),
    ensures
        match in_time {
            Some(incoming) => read_is_taken(old(s)@, final(s)@, incoming, r),
            None => final(s)@ == old(s)@ && r is None,
        },
{
    if let Some(incoming) = in_time {
        read_is_taken_by_view(old(s)@, final(s)@, incoming, r);
    }
}

/// Reading with a time limit, through a transition.
pub proof fn reading_with_a_time_limit_through_a_transition(
    t: &mut TransitionStream,
    in_time: Option<Incoming>,
    r: Incoming,
)
    requires
        call_ensures(TransitionStream::next_timeout, (t, in_time), r),
    ensures
        match in_time {
            Some(incoming) => read_is_taken(
                StreamView::Transition(Box::new(old(t)@)),
                StreamView::Transition(Box::new(final(t)@)),
                incoming,
                r,
            ),
            None => final(t)@ == old(t)@ && r is None,
        },
{
    if let Some(incoming) = in_time {
        read_is_taken_by_view(
            StreamView::Transition(Box::new(old(t)@)),
            StreamView::Transition(Box::new(final(t)@)),
            incoming,
            r,
        );
    }
}

/// The channel that reads come from, and that the others follow.
pub open spec fn in_use(s: StreamView) -> StreamView
    decreases s,
{
    match s {
        StreamView::Transition(t) => if t.phase == Phase::UsingNew {
            StreamView::Tcp(t.new)
        } else {
            in_use(t.old)
        },
        _ => s,
    }
}

/// The channel that the connection was made on.
pub open spec fn first_channel(s: StreamView) -> StreamView
    decreases s,
{
    match s {
        StreamView::Transition(t) => first_channel(t.old),
        _ => s,
    }
}

/// What is sent now is held back, behind these.
pub open spec fn held_back(s: StreamView) -> Option<Seq<PendingView>>
    decreases s,
{
    match s {
        StreamView::Transition(t) => match t.phase {
            Phase::UsingOld => held_back(t.old),
            Phase::UsingNew => None,
            Phase::CommitWindow => Some(t.buffered),
        },
        _ => None,
    }
}

/// The encryption state of a channel, where it keeps one.
pub open spec fn state_of(channel: StreamView) -> Option<Encrypt> {
    match channel {
        StreamView::Tcp(f) => f.2,
        StreamView::WebSocket(w) => w.encrypt,
        _ => None,
    }
}

pub(crate) proof fn observed_by_view(s: StreamView, len: nat, addr: SocketAddr)
    ensures
        !(in_use(s) is Transition),
        s.read_link() == match in_use(s) {
            StreamView::Tcp(f) => Some(f.0),
            StreamView::WebSocket(w) => Some(w.link),
            StreamView::WebRTC(c) => Some(c.link),
            _ => None,
        },
        s.secured() <==> in_use(s) is WebRTC || state_of(in_use(s)) is Some,
        s.crypto() == state_of(in_use(s)),
        s.can_open() <==> (state_of(in_use(s)) matches Some(e) ==> e.2 < u64::MAX),
        s.can_seal() <==> held_back(s) is Some || (state_of(in_use(s)) matches Some(e) ==> e.1
            < u64::MAX),
        s.has_room(len) <==> (held_back(s) matches Some(items) ==> crate::iroh_transition::total(
            items,
        ) + len <= usize::MAX),
        s.has_local_addr(addr) <==> match first_channel(s) {
            StreamView::Tcp(f) => addr == f.1,
            StreamView::WebSocket(w) => addr == w.addr,
            StreamView::WebRTC(c) => addr == c.addr,
            _ => addr.is_unspecified(),
        },
    decreases s,
{
    if let StreamView::Transition(t) = s {
        observed_by_view(t.old, len, addr);
    }
}

/// Reads come from the link of the channel in use, and from nowhere where there is
/// no connection.
pub proof fn link_to_read_from(s: &Stream, r: Option<Link>)
    requires
        call_ensures(Stream::reads_from, (s,), r),
    ensures
        r == match in_use(s@) {
            StreamView::Tcp(f) => Some(f.0),
            StreamView::WebSocket(w) => Some(w.link),
            StreamView::WebRTC(c) => Some(c.link),
            _ => None,
        },
{
    observed_by_view(s@, 0, arbitrary());
}

/// Through a transition reads come from the old channel until the switch.
pub proof fn link_to_read_from_through_a_transition(t: &TransitionStream, r: Option<Link>)
    requires
        call_ensures(TransitionStream::reads_from, (t,), r),
    ensures
        t@.phase == Phase::UsingNew ==> r == Some(t@.new.0),
        t@.phase != Phase::UsingNew ==> r == match in_use(t@.old) {
            StreamView::Tcp(f) => Some(f.0),
            StreamView::WebSocket(w) => Some(w.link),
            StreamView::WebRTC(c) => Some(c.link),
            _ => None,
        },
{
    observed_by_view(StreamView::Transition(Box::new(t@)), 0, arbitrary());
}

/// A connection passes for secured exactly where the channel in use encrypts: by
/// its own state, or because it is a WebRTC channel.
pub proof fn secured_is_what_the_channel_in_use_is(s: &Stream, r: bool)
    requires
        call_ensures(Stream::is_secured, (s,), r),
    ensures
        r <==> in_use(s@) is WebRTC || state_of(in_use(s@)) is Some,
{
    observed_by_view(s@, 0, arbitrary());
}

/// The same of a transition.
pub proof fn secured_is_what_the_channel_in_use_is_in_a_transition(t: &TransitionStream, r: bool)
    requires
        call_ensures(TransitionStream::is_secured, (t,), r),
    ensures
        t@.phase == Phase::UsingNew ==> r == (t@.new.2 is Some),
        t@.phase != Phase::UsingNew ==> (r <==> in_use(t@.old) is WebRTC || state_of(
            in_use(t@.old),
        ) is Some),
{
    observed_by_view(StreamView::Transition(Box::new(t@)), 0, arbitrary());
}

/// The address is that of the channel that the connection was made on; without a
/// connection it is `0.0.0.0:0`.
pub proof fn address_is_that_of_the_first_channel(s: &Stream, r: SocketAddr)
    requires
        call_ensures(Stream::local_addr, (s,), r),
    ensures
        match first_channel(s@) {
            StreamView::Tcp(f) => r == f.1,
            StreamView::WebSocket(w) => r == w.addr,
            StreamView::WebRTC(c) => r == c.addr,
            _ => r matches SocketAddr::V4 { octets, port } && octets@ == seq![0u8, 0, 0, 0] && port
                == 0,
        },
{
    observed_by_view(s@, 0, r);
}

/// The address of a transition is that of its old channel, also after the switch.
pub proof fn address_of_a_transition(t: &TransitionStream, r: SocketAddr)
    requires
        call_ensures(TransitionStream::local_addr, (t,), r),
    ensures
        match first_channel(t@.old) {
            StreamView::Tcp(f) => r == f.1,
            StreamView::WebSocket(w) => r == w.addr,
            StreamView::WebRTC(c) => r == c.addr,
            _ => r matches SocketAddr::V4 { octets, port } && octets@ == seq![0u8, 0, 0, 0] && port
                == 0,
        },
{
    observed_by_view(t@.old, 0, r);
}

/// A frame can be read as long as the state in use, if there is one, has a count
/// left to open with.
pub proof fn reading_takes_a_count(s: &Stream, r: bool)
    requires
        call_ensures(Stream::can_read, (s,), r),
    ensures
        r <==> (state_of(in_use(s@)) matches Some(e) ==> e.2 < u64::MAX),
{
    observed_by_view(s@, 0, arbitrary());
}

/// A message can be sealed as long as the state in use has a count left, and
/// always where it is held back.
pub proof fn sealing_takes_a_count(s: &Stream, r: bool)
    requires
        call_ensures(Stream::has_nonce, (s,), r),
    ensures
        r <==> held_back(s@) is Some || (state_of(in_use(s@)) matches Some(e) ==> e.1 < u64::MAX),
{
    observed_by_view(s@, 0, arbitrary());
}

/// There is room for so many bytes unless they are held back and would not fit
/// beside what is held back already.
pub proof fn room_is_only_short_for_what_is_held_back(s: &Stream, len: usize, r: bool)
    requires
        call_ensures(Stream::has_space, (s, len), r),
    ensures
        r <==> (held_back(s@) matches Some(items) ==> crate::iroh_transition::total(items) + len
            <= usize::MAX),
{
    observed_by_view(s@, len as nat, arbitrary());
}

/// A message is taken exactly where it can be sealed, fits in memory and has room.
pub proof fn messages_are_taken_where_they_can_be_sent(s: &Stream, len: usize, r: bool)
    requires
        call_ensures(Stream::accepts, (s, len), r),
    ensures
        r <==> {
            &&& len + 16 <= isize::MAX
            &&& held_back(s@) is Some || (state_of(in_use(s@)) matches Some(e) ==> e.1 < u64::MAX)
            &&& held_back(s@) matches Some(items) ==> crate::iroh_transition::total(items) + len
                <= usize::MAX
        },
{
    observed_by_view(s@, len as nat, arbitrary());
}

/// The same three questions, asked of a transition.
pub proof fn transition_answers_for_the_channel_in_use(
    t: &TransitionStream,
    len: usize,
    can_read: bool,
    has_nonce: bool,
    has_space: bool,
)
    requires
        call_ensures(TransitionStream::can_read, (t,), can_read),
        call_ensures(TransitionStream::has_nonce, (t,), has_nonce),
        call_ensures(TransitionStream::has_space, (t, len), has_space),
    ensures
        ({
            let s = StreamView::Transition(Box::new(t@));
            &&& can_read <==> (state_of(in_use(s)) matches Some(e) ==> e.2 < u64::MAX)
            &&& has_nonce <==> held_back(s) is Some || (state_of(in_use(s)) matches Some(e) ==> e.1
                < u64::MAX)
            &&& has_space <==> (held_back(s) matches Some(items) ==> crate::iroh_transition::total(
                items,
            ) + len <= usize::MAX)
        }),
{
    observed_by_view(StreamView::Transition(Box::new(t@)), len as nat, arbitrary());
}

/// A send timeout reaches every channel, and changes nothing else.
pub open spec fn timeout_is_set(before: StreamView, after: StreamView, ms: u64) -> bool
    decreases before,
{
    match before {
        StreamView::Tcp(f) => after == StreamView::Tcp(FramedStream(f.0, f.1, f.2, ms)),
        StreamView::WebSocket(w) => after == StreamView::WebSocket(
            WsFramedStream { link: w.link, addr: w.addr, encrypt: w.encrypt, send_timeout: ms },
        ),
        StreamView::WebRTC(c) => after == StreamView::WebRTC(
            WebRTCStream { link: c.link, addr: c.addr, send_timeout: ms },
        ),
        StreamView::Empty => after is Empty,
        StreamView::Transition(t) => {
            &&& after is Transition
            &&& after->Transition_0.phase == t.phase
            &&& after->Transition_0.buffered == t.buffered
            &&& after->Transition_0.new == FramedStream(t.new.0, t.new.1, t.new.2, ms)
            &&& timeout_is_set(t.old, after->Transition_0.old, ms)
        },
    }
}

proof fn timeout_is_set_by_view(s: StreamView, ms: u64)
    ensures
        timeout_is_set(s, s.with_send_timeout(ms), ms),
    decreases s,
{
    if let StreamView::Transition(t) = s {
        timeout_is_set_by_view(t.old, ms);
    }
}

/// Setting a send timeout, on any connection.
pub proof fn setting_a_timeout(s: &mut Stream, ms: u64, r: ())
    requires
        call_ensures(Stream::set_send_timeout, (s, ms), r),
    ensures
        timeout_is_set(old(s)@, final(s)@, ms),
{
    timeout_is_set_by_view(old(s)@, ms);
}

/// Setting a send timeout on a transition sets it on both channels.
pub proof fn setting_a_timeout_on_a_transition(t: &mut TransitionStream, ms: u64, r: ())
    requires
        call_ensures(TransitionStream::set_send_timeout, (t, ms), r),
    ensures
        timeout_is_set(
            StreamView::Transition(Box::new(old(t)@)),
            StreamView::Transition(Box::new(final(t)@)),
            ms,
        ),
{
    timeout_is_set_by_view(old(t)@.old, ms);
}

/// Framing and encryption end on every channel that has them, and nothing else
/// changes: a WebSocket frames by itself, and a WebRTC channel has neither.
pub open spec fn made_raw(before: StreamView, after: StreamView) -> bool
    decreases before,
{
    match before {
        StreamView::Tcp(f) => after == StreamView::Tcp(
            FramedStream(Link { id: f.0.id, raw: true }, f.1, None, f.3),
        ),
        StreamView::WebSocket(w) => after == StreamView::WebSocket(
            WsFramedStream {
                link: w.link,
                addr: w.addr,
                encrypt: None,
                send_timeout: w.send_timeout,
            },
        ),
        StreamView::WebRTC(_) => after == before,
        StreamView::Empty => after is Empty,
        StreamView::Transition(t) => {
            &&& after is Transition
            &&& after->Transition_0.phase == t.phase
            &&& after->Transition_0.buffered == t.buffered
            &&& after->Transition_0.new == FramedStream(
                Link { id: t.new.0.id, raw: true },
                t.new.1,
                None,
                t.new.3,
            )
            &&& made_raw(t.old, after->Transition_0.old)
        },
    }
}

proof fn made_raw_by_view(s: StreamView)
    ensures
        made_raw(s, s.as_raw()),
    decreases s,
{
    if let StreamView::Transition(t) = s {
        made_raw_by_view(t.old);
    }
}

/// Going raw, on any connection.
pub proof fn going_raw(s: &mut Stream, r: ())
    requires
        call_ensures(Stream::set_raw, (s,), r),
    ensures
        made_raw(old(s)@, final(s)@),
{
    made_raw_by_view(old(s)@);
}

/// Going raw on a transition goes raw on both channels.
pub proof fn going_raw_on_a_transition(t: &mut TransitionStream, r: ())
    requires
        call_ensures(TransitionStream::set_raw, (t,), r),
    ensures
        made_raw(
            StreamView::Transition(Box::new(old(t)@)),
            StreamView::Transition(Box::new(final(t)@)),
        ),
{
    made_raw_by_view(old(t)@.old);
}

/// A key starts a fresh state on every channel that keeps one, with nothing sealed
/// and nothing opened, and changes nothing else.
pub open spec fn key_is_set(before: StreamView, after: StreamView, key: Key) -> bool
    decreases before,
{
    match before {
        StreamView::Tcp(f) => after == StreamView::Tcp(
            FramedStream(f.0, f.1, Some(Encrypt(key, 0, 0)), f.3),
        ),
        StreamView::WebSocket(w) => after == StreamView::WebSocket(
            WsFramedStream {
                link: w.link,
                addr: w.addr,
                encrypt: Some(Encrypt(key, 0, 0)),
                send_timeout: w.send_timeout,
            },
        ),
        StreamView::WebRTC(_) => after == before,
        StreamView::Empty => after is Empty,
        StreamView::Transition(t) => {
            &&& after is Transition
            &&& after->Transition_0.phase == t.phase
            &&& after->Transition_0.buffered == t.buffered
            &&& after->Transition_0.new == FramedStream(
                t.new.0,
                t.new.1,
                Some(Encrypt(key, 0, 0)),
                t.new.3,
            )
            &&& key_is_set(t.old, after->Transition_0.old, key)
        },
    }
}

proof fn key_is_set_by_view(s: StreamView, key: Key)
    ensures
        key_is_set(s, s.with_key(key), key),
    decreases s,
{
    if let StreamView::Transition(t) = s {
        key_is_set_by_view(t.old, key);
    }
}

/// Setting a key, on any connection.
pub proof fn setting_a_key(s: &mut Stream, key: Key, r: ())
    requires
        call_ensures(Stream::set_key, (s, key), r),
    ensures
        key_is_set(old(s)@, final(s)@, key),
{
    key_is_set_by_view(old(s)@, key);
}

/// Setting a key on a transition sets it on both channels.
pub proof fn setting_a_key_on_a_transition(t: &mut TransitionStream, key: Key, r: ())
    requires
        call_ensures(TransitionStream::set_key, (t, key), r),
    ensures
        key_is_set(
            StreamView::Transition(Box::new(old(t)@)),
            StreamView::Transition(Box::new(final(t)@)),
            key,
        ),
{
    key_is_set_by_view(old(t)@.old, key);
}

/// A switch that is over collapses into its new channel, as that is; any other
/// connection stays what it is.
pub proof fn collapsing(s: Stream, r: Stream)
    requires
        call_ensures(Stream::collapse_transition, (s,), r),
    ensures
        match s@ {
            StreamView::Transition(t) if t.phase == Phase::UsingNew => r@ == StreamView::Tcp(t.new),
            _ => r@ == s@,
        },
{
}

/// A connection over a byte stream goes by the number and the address given, is
/// framed, and has neither a state nor a timeout.
pub proof fn new_byte_stream(link: u64, addr: SocketAddr, r: Stream)
    requires
        call_ensures(Stream::from, (link, addr), r),
    ensures
        r matches Stream::Tcp(f) && f.0.id == link && !f.0.raw && f.1 == addr && f.2 is None && f.3
            == 0,
{
}

/// A WebSocket that is connected goes by the number and the address given, needs no
/// framing, and has neither a state nor a timeout. What failed is handed on.
pub proof fn new_websocket(
    connected: Result<(u64, SocketAddr), String>,
    r: Result<Stream, String>,
)
    requires
        call_ensures(Stream::connect_websocket, (connected,), r),
    ensures
        match connected {
            Ok((link, addr)) => r matches Ok(Stream::WebSocket(w)) && w.link.id == link
                && w.link.raw && w.addr == addr && w.encrypt is None && w.send_timeout == 0,
            Err(cause) => r == Err::<Stream, String>(cause),
        },
{
}

/// The WebRTC channel is given out exactly where it carries the connection.
pub proof fn webrtc_channel(s: &Stream, r: Option<WebRTCStream>)
    requires
        call_ensures(Stream::get_webrtc_stream, (s,), r),
    ensures
        match *s {
            Stream::WebRTC(c) => r == Some(c),
            _ => r is None,
        },
{
}

} // verus!
