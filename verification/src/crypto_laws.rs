//! What the calls on an encryption state and on the plain channels give.

use crate::net::SocketAddr;
use crate::stream::{Sent, Stream, StreamError};
use crate::stream_laws::{framed_message_goes_out, framed_read_is_taken};
use crate::tcp::{Encrypt, FramedStream, Incoming, Key, Link, ReadError, Write};
use crate::webrtc::WebRTCStream;
use crate::websocket::WsFramedStream;
use vstd::prelude::*;

verus! {

/// The nonce of a message is its number, in little-endian bytes, and zeros: 24
/// bytes, of which the first eight read back as the number.
pub proof fn nonce_is_the_number(n: u64)
    ensures
        crate::tcp::nonce_of(n).len() == 24,
        vstd::bytes::spec_u64_from_le_bytes(crate::tcp::nonce_of(n).take(8)) == n,
        forall|i: int| 8 <= i < 24 ==> #[trigger] crate::tcp::nonce_of(n)[i] == 0,
{
    vstd::bytes::lemma_auto_spec_u64_to_from_le_bytes();
    assert(crate::tcp::nonce_of(n).take(8) == vstd::bytes::spec_u64_to_le_bytes(n));
}

/// A fresh state has the key given, and has sealed and opened nothing.
pub proof fn fresh_state(key: Key, r: Encrypt)
    requires
        call_ensures(Encrypt::new, (key,), r),
    ensures
        r.0 == key && r.1 == 0 && r.2 == 0,
{
}

/// Sealing counts one message, keeps the key and the other count, and gives what
/// secretbox makes of the message under the new count.
pub proof fn sealing(e: &mut Encrypt, data: &[u8], r: Vec<u8>)
    requires
        call_ensures(Encrypt::enc, (e, data), r),
        old(e).1 < u64::MAX,
    ensures
        final(e).0 == old(e).0,
        final(e).1 == old(e).1 + 1,
        final(e).2 == old(e).2,
        r@.len() == data@.len() + 16,
        r@ == crate::tcp::sealed(
            data@,
            vstd::bytes::spec_u64_to_le_bytes(final(e).1) + Seq::new(16, |i: int| 0u8),
            old(e).0.0@,
        ),
{
}

/// Opening counts one frame, genuine or not, keeps the key and the other count, and
/// gives what secretbox gets out of the frame under the new count. A frame of at
/// most one byte is handed on and not counted.
pub proof fn opening(e: &mut Encrypt, frame: Vec<u8>, r: Result<Vec<u8>, ReadError>)
    requires
        call_ensures(Encrypt::dec, (e, frame), r),
        old(e).2 < u64::MAX,
    ensures
        final(e).0 == old(e).0,
        final(e).1 == old(e).1,
        if frame@.len() <= 1 {
            final(e).2 == old(e).2 && (r matches Ok(data) && data@ == frame@)
        } else {
            &&& final(e).2 == old(e).2 + 1
            &&& match crate::tcp::opened(
                frame@,
                vstd::bytes::spec_u64_to_le_bytes(final(e).2) + Seq::new(16, |i: int| 0u8),
                old(e).0.0@,
            ) {
                Some(message) => r matches Ok(data) && data@ == message,
                None => r == Err::<Vec<u8>, ReadError>(ReadError::Decryption),
            }
        },
{
}

/// What one end seals the other opens, where both have one key and the other has
/// opened as many as were sealed; and then it has again.
pub proof fn sealed_messages_are_opened(
    a: &mut Encrypt,
    b: &mut Encrypt,
    data: &[u8],
    frame: Vec<u8>,
    r: Result<Vec<u8>, ReadError>,
)
    requires
        call_ensures(Encrypt::enc, (a, data), frame),
        call_ensures(Encrypt::dec, (b, frame), r),
        old(a).0 == old(b).0,
        old(a).1 == old(b).2,
        old(a).1 < u64::MAX,
    ensures
        r matches Ok(read) && read@ == data@,
        final(a).0 == final(b).0,
        final(a).1 == final(b).2,
{
    assert(old(b).opens(frame@) == Some(data@));
}

/// What one connection writes the other reads, whatever carries the two, where the
/// states in use are aligned: one key and as many opened as sealed, or none at all.
pub proof fn written_messages_are_read(
    a: &mut Stream,
    b: &mut Stream,
    msg: Vec<u8>,
    w: Write,
    incoming: Incoming,
    r: Incoming,
)
    requires
        call_ensures(Stream::send_raw, (a, msg), Ok::<Sent, StreamError>(Sent::Write(w))),
        call_ensures(Stream::next, (b, incoming), r),
        incoming matches Some(Ok(frame)) && frame@ == w.frame@,
        crate::stream_laws::in_use(old(b)@) !is Empty,
        match (
            crate::stream_laws::state_of(crate::stream_laws::in_use(old(a)@)),
            crate::stream_laws::state_of(crate::stream_laws::in_use(old(b)@)),
        ) {
            (Some(x), Some(y)) => x.0 == y.0 && x.1 == y.2 && y.2 < u64::MAX,
            (None, None) => true,
            _ => false,
        },
    ensures
        r matches Some(Ok(read)) && read@ == msg@,
{
    crate::stream_laws::observed_by_view(old(a)@, 0, arbitrary());
    crate::stream_laws::observed_by_view(old(b)@, 0, arbitrary());
    crate::transition_laws::reading_goes_by_the_state_in_use(
        old(b)@,
        crate::tcp::incoming_view(incoming),
    );
    assert(crate::tcp::aligned(old(a)@.crypto(), old(b)@.crypto()));
}

/// A framed connection goes by the number and the address given, and has neither a
/// state nor a timeout.
pub proof fn new_framed_connection(link: u64, addr: SocketAddr, r: FramedStream)
    requires
        call_ensures(FramedStream::from, (link, addr), r),
    ensures
        r.0.id == link && !r.0.raw && r.1 == addr && r.2 is None && r.3 == 0,
{
}

/// A framed connection sends a frame as it is, on its own link.
pub proof fn framed_connection_sends_frames(f: &mut FramedStream, bytes: Vec<u8>, r: Write)
    requires
        call_ensures(FramedStream::send_bytes, (f, bytes), r),
    ensures
        *final(f) == *old(f),
        r.link == old(f).0 && r.frame@ == bytes@ && r.timeout_ms == old(f).3,
{
}

/// A framed connection sends a message sealed under its state.
pub proof fn framed_connection_sends_messages(f: &mut FramedStream, msg: Vec<u8>, r: Write)
    requires
        call_ensures(FramedStream::send_raw, (f, msg), r),
    ensures
        framed_message_goes_out(
            *old(f),
            *final(f),
            msg@,
            Ok::<Sent, StreamError>(Sent::Write(r)),
        ),
{
}

/// A framed connection reads under its state.
pub proof fn framed_connection_reads(f: &mut FramedStream, incoming: Incoming, r: Incoming)
    requires
        call_ensures(FramedStream::next, (f, incoming), r),
    ensures
        framed_read_is_taken(*old(f), *final(f), incoming, r),
{
}

/// Each setting of a framed connection changes what it is about, and nothing else.
pub proof fn framed_connection_settings(
    a: &mut FramedStream,
    b: &mut FramedStream,
    c: &mut FramedStream,
    ms: u64,
    key: Key,
)
    requires
        call_ensures(FramedStream::set_send_timeout, (a, ms), ()),
        call_ensures(FramedStream::set_raw, (b,), ()),
        call_ensures(FramedStream::set_key, (c, key), ()),
    ensures
        final(a).0 == old(a).0 && final(a).1 == old(a).1 && final(a).2 == old(a).2 && final(a).3
            == ms,
        final(b).0.id == old(b).0.id && final(b).0.raw && final(b).1 == old(b).1 && final(b).2
            is None && final(b).3 == old(b).3,
        final(c).0 == old(c).0 && final(c).1 == old(c).1 && final(c).3 == old(c).3,
        final(c).2 == Some(Encrypt(key, 0, 0)),
{
}

/// Handing a state over: adopting takes the key and both counts as they are and
/// leaves the rest alone; taking gives the state out and leaves none behind; and
/// the counts are told as they are.
pub proof fn state_is_handed_over_as_it_is(
    a: &mut FramedStream,
    source: &FramedStream,
    b: &mut FramedStream,
    taken: Option<Encrypt>,
    c: &FramedStream,
    counts: Option<(u64, u64)>,
    secured: bool,
    addr: SocketAddr,
)
    requires
        call_ensures(FramedStream::adopt_crypto_from, (a, source), ()),
        call_ensures(FramedStream::take_crypto, (b,), taken),
        call_ensures(FramedStream::crypto_seq, (c,), counts),
        call_ensures(FramedStream::is_secured, (c,), secured),
        call_ensures(FramedStream::local_addr, (c,), addr),
    ensures
        final(a).0 == old(a).0 && final(a).1 == old(a).1 && final(a).3 == old(a).3,
        final(a).2 == source.2,
        final(b).0 == old(b).0 && final(b).1 == old(b).1 && final(b).3 == old(b).3,
        final(b).2 is None && taken == old(b).2,
        match c.2 {
            Some(e) => counts == Some((e.1, e.2)) && secured,
            None => counts is None && !secured,
        },
        addr == c.1,
{
}

/// A WebSocket goes by the number and the address given, needs no framing, and has
/// neither a state nor a timeout.
pub proof fn new_websocket_connection(link: u64, addr: SocketAddr, r: WsFramedStream)
    requires
        call_ensures(WsFramedStream::new, (link, addr), r),
    ensures
        r.link.id == link && r.link.raw && r.addr == addr && r.encrypt is None && r.send_timeout
            == 0,
{
}

/// A WebSocket as a framed connection with the same parts.
pub open spec fn as_framed(w: WsFramedStream) -> FramedStream {
    FramedStream(w.link, w.addr, w.encrypt, w.send_timeout)
}

/// A WebSocket sends and reads as a framed connection of the same parts does.
pub proof fn websocket_works_like_a_framed_connection(
    a: &mut WsFramedStream,
    bytes: Vec<u8>,
    frame: Write,
    b: &mut WsFramedStream,
    msg: Vec<u8>,
    sealed: Write,
    c: &mut WsFramedStream,
    incoming: Incoming,
    r: Incoming,
)
    requires
        call_ensures(WsFramedStream::send_bytes, (a, bytes), frame),
        call_ensures(WsFramedStream::send_raw, (b, msg), sealed),
        call_ensures(WsFramedStream::next, (c, incoming), r),
    ensures
        *final(a) == *old(a),
        frame.link == old(a).link && frame.frame@ == bytes@ && frame.timeout_ms
            == old(a).send_timeout,
        framed_message_goes_out(
            as_framed(*old(b)),
            as_framed(*final(b)),
            msg@,
            Ok::<Sent, StreamError>(Sent::Write(sealed)),
        ),
        framed_read_is_taken(as_framed(*old(c)), as_framed(*final(c)), incoming, r),
{
}

/// Each setting of a WebSocket changes what it is about, and nothing else.
pub proof fn websocket_settings(
    a: &mut WsFramedStream,
    b: &mut WsFramedStream,
    c: &mut WsFramedStream,
    d: &mut WsFramedStream,
    e: &WsFramedStream,
    ms: u64,
    key: Key,
    taken: Option<Encrypt>,
    secured: bool,
)
    requires
        call_ensures(WsFramedStream::set_send_timeout, (a, ms), ()),
        call_ensures(WsFramedStream::set_raw, (b,), ()),
        call_ensures(WsFramedStream::set_key, (c, key), ()),
        call_ensures(WsFramedStream::take_crypto, (d,), taken),
        call_ensures(WsFramedStream::is_secured, (e,), secured),
    ensures
        as_framed(*final(a)) == FramedStream(old(a).link, old(a).addr, old(a).encrypt, ms),
        as_framed(*final(b)) == FramedStream(
            old(b).link,
            old(b).addr,
            None,
            old(b).send_timeout,
        ),
        as_framed(*final(c)) == FramedStream(
            old(c).link,
            old(c).addr,
            Some(Encrypt(key, 0, 0)),
            old(c).send_timeout,
        ),
        as_framed(*final(d)) == FramedStream(
            old(d).link,
            old(d).addr,
            None,
            old(d).send_timeout,
        ),
        taken == old(d).encrypt,
        secured == (e.encrypt is Some),
{
}

/// A WebRTC channel sends what it is given, as it is, on its own link.
pub proof fn webrtc_channel_sends_frames(
    a: &mut WebRTCStream,
    bytes: Vec<u8>,
    r: Write,
    b: &mut WebRTCStream,
    ms: u64,
    link: u64,
    addr: SocketAddr,
    new: WebRTCStream,
)
    requires
        call_ensures(WebRTCStream::send_bytes, (a, bytes), r),
        call_ensures(WebRTCStream::set_send_timeout, (b, ms), ()),
        call_ensures(WebRTCStream::new, (link, addr), new),
    ensures
        *final(a) == *old(a),
        r.link == old(a).link && r.frame@ == bytes@ && r.timeout_ms == old(a).send_timeout,
        final(b).link == old(b).link && final(b).addr == old(b).addr && final(b).send_timeout == ms,
        new.link == (Link { id: link, raw: true }) && new.addr == addr && new.send_timeout == 0,
{
}

/// Errors keep the words that they were given.
pub proof fn channel_errors_keep_their_words(
    a: &ReadError,
    read: String,
    b: &StreamError,
    send: String,
)
    requires
        call_ensures(ReadError::message, (a,), read),
        call_ensures(StreamError::message, (b,), send),
    ensures
        match *a {
            ReadError::Io(cause) => read@ == cause@,
            ReadError::Decryption => read@ == "decryption error"@,
        },
        *b matches StreamError::Encode(cause) ==> send@ == cause@,
{
}

} // verus!
