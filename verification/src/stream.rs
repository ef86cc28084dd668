//! One connection to the peer, whatever carries it.

use crate::iroh_transition::{PendingView, Phase, TransitionStream, TransitionView};
use crate::net::SocketAddr;
use crate::tcp::{
    can_decode, can_encode, Encrypt, FramedStream, Incoming, Key, Link, ReadError, Write, WriteView,
    MAC_BYTES,
};
use crate::webrtc::WebRTCStream;
use crate::websocket::WsFramedStream;
use vstd::prelude::*;

verus! {

/// A connection to the peer.
pub enum Stream {
    WebRTC(WebRTCStream),
    WebSocket(WsFramedStream),
    Tcp(FramedStream),
    /// On the way from one of the others to iroh.
    Transition(Box<TransitionStream>),
    /// Stands in for a connection that was taken out, and cannot be used.
    Empty,
}

/// [`Stream`] with what is held back as a sequence.
#[verifier::ext_equal]
pub enum StreamView {
    WebRTC(WebRTCStream),
    WebSocket(WsFramedStream),
    Tcp(FramedStream),
    Transition(Box<TransitionView>),
    Empty,
}

/// What became of a message or a frame that was to be sent.
#[derive(Debug, Clone, PartialEq, Eq)]
pub enum Sent {
    /// It is to be written.
    Write(Write),
    /// It is held back until the switch is over.
    Buffered,
}

/// [`Sent`] with its frame as a sequence.
#[verifier::ext_equal]
pub enum SentView {
    Write(WriteView),
    Buffered,
}

impl View for Sent {
    type V = SentView;

    open spec fn view(&self) -> SentView {
        match self {
            Sent::Write(w) => SentView::Write(w@),
            Sent::Buffered => SentView::Buffered,
        }
    }
}

/// Why nothing was sent.
#[derive(Debug, Clone, PartialEq, Eq)]
pub enum StreamError {
    /// There is no connection here, see [`Stream::Empty`].
    Placeholder,
    /// The message could not be encoded, with the encoder's words.
    Encode(String),
}

impl StreamError {
    /// The error in words.
    pub fn message(&self) -> (r: String)
        ensures
            r@ == match self {
                StreamError::Placeholder => "stream 处于过渡占位状态，不能发送"@,
                StreamError::Encode(cause) => cause@,
            },
    {
        match self {
            StreamError::Placeholder => "stream 处于过渡占位状态，不能发送".to_owned(),
            StreamError::Encode(cause) => cause.clone(),
        }
    }
}

impl View for Stream {
    type V = StreamView;

    open spec fn view(&self) -> StreamView
        decreases self,
    {
        match self {
            Stream::WebRTC(s) => StreamView::WebRTC(*s),
            Stream::WebSocket(s) => StreamView::WebSocket(*s),
            Stream::Tcp(s) => StreamView::Tcp(*s),
            Stream::Transition(t) => StreamView::Transition(Box::new((**t)@)),
            Stream::Empty => StreamView::Empty,
        }
    }
}

impl StreamView {
    /// The connection with a send timeout.
    pub open spec fn with_send_timeout(self, ms: u64) -> StreamView
        decreases self,
    {
        match self {
            StreamView::WebRTC(s) => StreamView::WebRTC(WebRTCStream { send_timeout: ms, ..s }),
            StreamView::WebSocket(s) => StreamView::WebSocket(
                WsFramedStream { send_timeout: ms, ..s },
            ),
            StreamView::Tcp(s) => StreamView::Tcp(FramedStream(s.0, s.1, s.2, ms)),
            StreamView::Transition(t) => StreamView::Transition(
                Box::new(
                    TransitionView {
                        old: t.old.with_send_timeout(ms),
                        new: FramedStream(t.new.0, t.new.1, t.new.2, ms),
                        ..*t
                    },
                ),
            ),
            StreamView::Empty => self,
        }
    }

    /// The connection without framing and without encryption of its own.
    pub open spec fn as_raw(self) -> StreamView
        decreases self,
    {
        match self {
            StreamView::WebSocket(s) => StreamView::WebSocket(s.with_crypto(None)),
            StreamView::Tcp(s) => StreamView::Tcp(s.as_raw()),
            StreamView::Transition(t) => StreamView::Transition(
                Box::new(TransitionView { old: t.old.as_raw(), new: t.new.as_raw(), ..*t }),
            ),
            StreamView::WebRTC(_) | StreamView::Empty => self,
        }
    }

    /// The connection with a fresh encryption state, where it has one.
    pub open spec fn with_key(self, key: Key) -> StreamView
        decreases self,
    {
        match self {
            StreamView::WebSocket(s) => StreamView::WebSocket(
                s.with_crypto(Some(Encrypt(key, 0, 0))),
            ),
            StreamView::Tcp(s) => StreamView::Tcp(s.with_crypto(Some(Encrypt(key, 0, 0)))),
            StreamView::Transition(t) => StreamView::Transition(
                Box::new(
                    TransitionView {
                        old: t.old.with_key(key),
                        new: t.new.with_crypto(Some(Encrypt(key, 0, 0))),
                        ..*t
                    },
                ),
            ),
            StreamView::WebRTC(_) | StreamView::Empty => self,
        }
    }

    /// What is sent is encrypted on the way.
    pub open spec fn secured(self) -> bool
        decreases self,
    {
        match self {
            StreamView::WebRTC(_) => true,
            StreamView::WebSocket(s) => s.encrypt is Some,
            StreamView::Tcp(s) => s.2 is Some,
            StreamView::Transition(t) => if t.phase == Phase::UsingNew {
                t.new.2 is Some
            } else {
                t.old.secured()
            },
            StreamView::Empty => false,
        }
    }

    /// The connection keeps an encryption state, and can hand it over.
    pub open spec fn hands_over(self) -> bool {
        self is Tcp || self is WebSocket
    }

    /// The encryption state of the channel in use, if it keeps one.
    pub open spec fn crypto(self) -> Option<Encrypt>
        decreases self,
    {
        match self {
            StreamView::Tcp(s) => s.2,
            StreamView::WebSocket(s) => s.encrypt,
            StreamView::Transition(t) => if t.phase == Phase::UsingNew {
                t.new.2
            } else {
                t.old.crypto()
            },
            StreamView::WebRTC(_) | StreamView::Empty => None,
        }
    }

    /// The connection with its encryption state taken.
    pub open spec fn without_crypto(self) -> StreamView {
        match self {
            StreamView::Tcp(s) => StreamView::Tcp(s.with_crypto(None)),
            StreamView::WebSocket(s) => StreamView::WebSocket(s.with_crypto(None)),
            _ => self,
        }
    }

    /// The connection's own address.
    pub open spec fn has_local_addr(self, addr: SocketAddr) -> bool
        decreases self,
    {
        match self {
            StreamView::WebRTC(s) => addr == s.addr,
            StreamView::WebSocket(s) => addr == s.addr,
            StreamView::Tcp(s) => addr == s.1,
            StreamView::Transition(t) => t.old.has_local_addr(addr),
            StreamView::Empty => addr.is_unspecified(),
        }
    }

    /// The encryption state of the channel in use has a nonce left to seal with.
    pub open spec fn can_seal(self) -> bool
        decreases self,
    {
        match self {
            StreamView::WebSocket(s) => crate::tcp::can_seal(s.encrypt),
            StreamView::Tcp(s) => crate::tcp::can_seal(s.2),
            StreamView::Transition(t) => match t.phase {
                Phase::UsingOld => t.old.can_seal(),
                Phase::UsingNew => crate::tcp::can_seal(t.new.2),
                Phase::CommitWindow => true,
            },
            StreamView::WebRTC(_) | StreamView::Empty => true,
        }
    }

    /// The encryption state of the channel in use has a nonce left to open with.
    pub open spec fn can_open(self) -> bool
        decreases self,
    {
        match self {
            StreamView::WebSocket(s) => crate::tcp::can_open(s.encrypt),
            StreamView::Tcp(s) => crate::tcp::can_open(s.2),
            StreamView::Transition(t) => if t.phase == Phase::UsingNew {
                crate::tcp::can_open(t.new.2)
            } else {
                t.old.can_open()
            },
            StreamView::WebRTC(_) | StreamView::Empty => true,
        }
    }

    /// So many bytes more can be held back, if they have to be.
    pub open spec fn has_room(self, len: nat) -> bool
        decreases self,
    {
        match self {
            StreamView::Transition(t) => match t.phase {
                Phase::UsingOld => t.old.has_room(len),
                Phase::UsingNew => true,
                Phase::CommitWindow => crate::iroh_transition::total(t.buffered) + len
                    <= usize::MAX,
            },
            _ => true,
        }
    }

    /// Sending a frame as it is: the connection afterwards and what became of the
    /// frame, or nothing if there is no connection.
    pub open spec fn sends_bytes(self, bytes: Seq<u8>) -> Option<(StreamView, SentView)>
        decreases self,
    {
        match self {
            StreamView::WebRTC(s) => Some((self, SentView::Write(s.writes(bytes)))),
            StreamView::WebSocket(s) => Some((self, SentView::Write(s.writes(bytes)))),
            StreamView::Tcp(s) => Some((self, SentView::Write(s.writes(bytes)))),
            StreamView::Transition(t) => match t.phase {
                Phase::UsingOld => match t.old.sends_bytes(bytes) {
                    Some((old_after, sent)) => Some(
                        (
                            StreamView::Transition(
                                Box::new(TransitionView { old: old_after, ..*t }),
                            ),
                            sent,
                        ),
                    ),
                    None => None,
                },
                Phase::UsingNew => Some((self, SentView::Write(t.new.writes(bytes)))),
                Phase::CommitWindow => Some(
                    (
                        StreamView::Transition(Box::new(t.holding(PendingView::Raw(bytes)))),
                        SentView::Buffered,
                    ),
                ),
            },
            StreamView::Empty => None,
        }
    }

    /// Sending a message: the connection afterwards and what became of the
    /// message, or nothing if there is no connection.
    pub open spec fn sends_raw(self, msg: Seq<u8>) -> Option<(StreamView, SentView)>
        decreases self,
    {
        match self {
            StreamView::WebRTC(s) => Some((self, SentView::Write(s.writes(msg)))),
            StreamView::WebSocket(s) => Some(
                (
                    StreamView::WebSocket(
                        s.with_crypto(crate::tcp::crypto_after_send(s.encrypt)),
                    ),
                    SentView::Write(s.writes(crate::tcp::frame_for(s.encrypt, msg))),
                ),
            ),
            StreamView::Tcp(s) => Some(
                (
                    StreamView::Tcp(s.with_crypto(crate::tcp::crypto_after_send(s.2))),
                    SentView::Write(s.writes(crate::tcp::frame_for(s.2, msg))),
                ),
            ),
            StreamView::Transition(t) => match t.phase {
                Phase::UsingOld => match t.old.sends_raw(msg) {
                    Some((old_after, sent)) => Some(
                        (
                            StreamView::Transition(
                                Box::new(TransitionView { old: old_after, ..*t }),
                            ),
                            sent,
                        ),
                    ),
                    None => None,
                },
                Phase::UsingNew => Some(
                    (
                        StreamView::Transition(
                            Box::new(
                                TransitionView {
                                    new: t.new.with_crypto(
                                        crate::tcp::crypto_after_send(t.new.2),
                                    ),
                                    ..*t
                                },
                            ),
                        ),
                        SentView::Write(t.new.writes(crate::tcp::frame_for(t.new.2, msg))),
                    ),
                ),
                Phase::CommitWindow => Some(
                    (
                        StreamView::Transition(Box::new(t.holding(PendingView::Plain(msg)))),
                        SentView::Buffered,
                    ),
                ),
            },
            StreamView::Empty => None,
        }
    }

    /// Sending a write that was held back.
    pub open spec fn sends_item(self, item: PendingView) -> Option<(StreamView, SentView)> {
        match item {
            PendingView::Plain(msg) => self.sends_raw(msg),
            PendingView::Raw(bytes) => self.sends_bytes(bytes),
        }
    }

    /// The link that is read from, if there is a connection.
    pub open spec fn read_link(self) -> Option<Link>
        decreases self,
    {
        match self {
            StreamView::WebRTC(s) => Some(s.link),
            StreamView::WebSocket(s) => Some(s.link),
            StreamView::Tcp(s) => Some(s.0),
            StreamView::Transition(t) => if t.phase == Phase::UsingNew {
                Some(t.new.0)
            } else {
                t.old.read_link()
            },
            StreamView::Empty => None,
        }
    }

    /// Reading: the connection afterwards, and what the read means.
    pub open spec fn receives(
        self,
        incoming: Option<Result<Seq<u8>, ReadError>>,
    ) -> (StreamView, Option<Result<Seq<u8>, ReadError>>)
        decreases self,
    {
        match self {
            StreamView::WebRTC(_) => (self, incoming),
            StreamView::WebSocket(s) => (
                StreamView::WebSocket(
                    s.with_crypto(crate::tcp::crypto_after_read(s.encrypt, incoming)),
                ),
                crate::tcp::decoded(s.encrypt, incoming),
            ),
            StreamView::Tcp(s) => (
                StreamView::Tcp(s.with_crypto(crate::tcp::crypto_after_read(s.2, incoming))),
                crate::tcp::decoded(s.2, incoming),
            ),
            StreamView::Transition(t) => if t.phase == Phase::UsingNew {
                (
                    StreamView::Transition(
                        Box::new(
                            TransitionView {
                                new: t.new.with_crypto(
                                    crate::tcp::crypto_after_read(t.new.2, incoming),
                                ),
                                ..*t
                            },
                        ),
                    ),
                    crate::tcp::decoded(t.new.2, incoming),
                )
            } else {
                let (old_after, message) = t.old.receives(incoming);
                (
                    StreamView::Transition(Box::new(TransitionView { old: old_after, ..*t })),
                    message,
                )
            },
            StreamView::Empty => (self, None),
        }
    }

    /// The connection after the switch is over: the new channel alone, once it is
    /// the one in use.
    pub open spec fn collapsed(self) -> StreamView {
        match self {
            StreamView::Transition(t) => if t.phase == Phase::UsingNew {
                StreamView::Tcp(t.new)
            } else {
                self
            },
            _ => self,
        }
    }
}

/// What a send returned and left behind is what it should be.
pub open spec fn sent_as(
    expected: Option<(StreamView, SentView)>,
    before: StreamView,
    after: StreamView,
    result: Result<Sent, StreamError>,
) -> bool {
    match (expected, result) {
        (Some((stream, sent)), Ok(r)) => after == stream && r@ == sent,
        (None, Err(e)) => after == before && e == StreamError::Placeholder,
        _ => false,
    }
}

/// Where a message was written and not held back, whoever is aligned with the
/// sender reads it out of the frame.
pub open spec fn readable_if_written(
    sender: Option<Encrypt>,
    msg: Seq<u8>,
    result: Result<Sent, StreamError>,
) -> bool {
    result matches Ok(Sent::Write(w)) ==> crate::tcp::readable_by_aligned(sender, msg, w.frame@)
}

impl Stream {
    /// What is held back on the way to iroh is accounted for.
    pub open spec fn wf(self) -> bool
        decreases self,
    {
        match self {
            Stream::Transition(t) => t.wf(),
            _ => true,
        }
    }

    /// Limits how long a write may take; zero lifts the limit.
    pub fn set_send_timeout(&mut self, ms: u64)
        requires
            old(self).wf(),
        ensures
            final(self)@ == old(self)@.with_send_timeout(ms),
            final(self).wf(),
        decreases *old(self),
    {
        match self {
            Stream::WebRTC(s) => s.set_send_timeout(ms),
            Stream::WebSocket(s) => s.set_send_timeout(ms),
            Stream::Tcp(s) => s.set_send_timeout(ms),
            Stream::Transition(t) => t.set_send_timeout(ms),
            Stream::Empty => {},
        }
    }

    /// Stops framing and encrypting, where there is framing or encryption to stop.
    pub fn set_raw(&mut self)
        requires
            old(self).wf(),
        ensures
            final(self)@ == old(self)@.as_raw(),
            final(self).wf(),
        decreases *old(self),
    {
        match self {
            Stream::WebSocket(s) => s.set_raw(),
            Stream::Tcp(s) => s.set_raw(),
            Stream::Transition(t) => t.set_raw(),
            Stream::WebRTC(_) | Stream::Empty => {},
        }
    }

    /// Starts encrypting with fresh counts, where the connection encrypts itself.
    pub fn set_key(&mut self, key: Key)
        requires
            old(self).wf(),
        ensures
            final(self)@ == old(self)@.with_key(key),
            final(self).wf(),
        decreases *old(self),
    {
        match self {
            Stream::WebSocket(s) => s.set_key(key),
            Stream::Tcp(s) => s.set_key(key),
            Stream::Transition(t) => t.set_key(key),
            Stream::WebRTC(_) | Stream::Empty => {},
        }
    }

    /// Whether what is sent is encrypted on the way.
    pub fn is_secured(&self) -> (r: bool)
        ensures
            r == self@.secured(),
        decreases self,
    {
        match self {
            Stream::WebRTC(_) => true,
            Stream::WebSocket(s) => s.is_secured(),
            Stream::Tcp(s) => s.is_secured(),
            Stream::Transition(t) => t.is_secured(),
            Stream::Empty => false,
        }
    }

    /// The connection's own address; `0.0.0.0:0` where there is no connection.
    pub fn local_addr(&self) -> (r: SocketAddr)
        ensures
            self@.has_local_addr(r),
        decreases self,
    {
        match self {
            Stream::WebRTC(s) => s.addr,
            Stream::WebSocket(s) => s.addr,
            Stream::Tcp(s) => s.local_addr(),
            Stream::Transition(t) => t.local_addr(),
            Stream::Empty => SocketAddr::unspecified(),
        }
    }

    /// Whether the channel in use has a nonce left to seal with.
    pub fn has_nonce(&self) -> (r: bool)
        ensures
            r == self@.can_seal(),
        decreases self,
    {
        match self {
            Stream::WebSocket(s) => can_encode(&s.encrypt),
            Stream::Tcp(s) => can_encode(&s.2),
            Stream::Transition(t) => t.has_nonce(),
            Stream::WebRTC(_) | Stream::Empty => true,
        }
    }

    /// Whether so many bytes more can be held back, if they have to be.
    pub fn has_space(&self, len: usize) -> (r: bool)
        requires
            self.wf(),
        ensures
            r == self@.has_room(len as nat),
        decreases self,
    {
        match self {
            Stream::Transition(t) => t.has_space(len),
            _ => true,
        }
    }

    /// Whether a message of this length can be sent now: a nonce is left, and
    /// there is room in memory for it.
    pub fn accepts(&self, len: usize) -> (r: bool)
        requires
            self.wf(),
        ensures
            r == (self@.can_seal() && self@.has_room(len as nat) && crate::tcp::sealable(
                len as nat,
            )),
    {
        len <= isize::MAX as usize - MAC_BYTES && self.has_nonce() && self.has_space(len)
    }

    /// Whether a frame can be read now: a nonce is left.
    pub fn can_read(&self) -> (r: bool)
        ensures
            r == self@.can_open(),
        decreases self,
    {
        match self {
            Stream::WebSocket(s) => can_decode(&s.encrypt),
            Stream::Tcp(s) => can_decode(&s.2),
            Stream::Transition(t) => t.can_read(),
            Stream::WebRTC(_) | Stream::Empty => true,
        }
    }

    /// Sends a frame as it is, such as one that is relayed.
    pub fn send_bytes(&mut self, bytes: Vec<u8>) -> (r: Result<Sent, StreamError>)
        requires
            old(self).wf(),
            old(self)@.has_room(bytes@.len()),
        ensures
            sent_as(old(self)@.sends_bytes(bytes@), old(self)@, final(self)@, r),
            final(self).wf(),
        decreases *old(self),
    {
        match self {
            Stream::WebRTC(s) => Ok(Sent::Write(s.send_bytes(bytes))),
            Stream::WebSocket(s) => Ok(Sent::Write(s.send_bytes(bytes))),
            Stream::Tcp(s) => Ok(Sent::Write(s.send_bytes(bytes))),
            Stream::Transition(t) => t.send_bytes(bytes),
            Stream::Empty => Err(StreamError::Placeholder),
        }
    }

    /// Sends a message, sealed by the channel that it goes out on.
    pub fn send_raw(&mut self, bytes: Vec<u8>) -> (r: Result<Sent, StreamError>)
        requires
            old(self).wf(),
            old(self)@.can_seal(),
            old(self)@.has_room(bytes@.len()),
            crate::tcp::sealable(bytes@.len()),
        ensures
            sent_as(old(self)@.sends_raw(bytes@), old(self)@, final(self)@, r),
            readable_if_written(old(self)@.crypto(), bytes@, r),
            final(self).wf(),
        decreases *old(self),
    {
        match self {
            Stream::WebRTC(s) => Ok(Sent::Write(s.send_bytes(bytes))),
            Stream::WebSocket(s) => Ok(Sent::Write(s.send_raw(bytes))),
            Stream::Tcp(s) => Ok(Sent::Write(s.send_raw(bytes))),
            Stream::Transition(t) => t.send_raw(bytes),
            Stream::Empty => Err(StreamError::Placeholder),
        }
    }

    /// Sends a protocol message, given what encoding it gave.
    pub fn send(&mut self, encoded: Result<Vec<u8>, String>) -> (r: Result<Sent, StreamError>)
        requires
            old(self).wf(),
            encoded matches Ok(bytes) ==> old(self)@.can_seal() && old(self)@.has_room(
                bytes@.len(),
            ) && crate::tcp::sealable(bytes@.len()),
        ensures
            match encoded {
                Ok(bytes) => sent_as(old(self)@.sends_raw(bytes@), old(self)@, final(self)@, r)
                    && readable_if_written(old(self)@.crypto(), bytes@, r),
                Err(cause) => final(self)@ == old(self)@ && r == Err::<Sent, StreamError>(
                    if old(self)@ is Empty {
                        StreamError::Placeholder
                    } else {
                        StreamError::Encode(cause)
                    },
                ),
            },
            final(self).wf(),
    {
        if matches!(self, Stream::Empty) {
            return Err(StreamError::Placeholder);
        }
        match encoded {
            Ok(bytes) => self.send_raw(bytes),
            Err(cause) => Err(StreamError::Encode(cause)),
        }
    }

    /// The link to read from, if there is a connection.
    pub fn reads_from(&self) -> (r: Option<Link>)
        ensures
            r == self@.read_link(),
        decreases self,
    {
        match self {
            Stream::WebRTC(s) => Some(s.link),
            Stream::WebSocket(s) => Some(s.link),
            Stream::Tcp(s) => Some(s.0),
            Stream::Transition(t) => t.reads_from(),
            Stream::Empty => None,
        }
    }

    /// Takes what was read from the link that [`Stream::reads_from`] names. Where
    /// there is no connection, there is nothing to read.
    pub fn next(&mut self, incoming: Incoming) -> (r: Incoming)
        requires
            old(self).wf(),
            old(self)@.can_open() || !crate::tcp::takes_nonce(crate::tcp::incoming_view(incoming)),
        ensures
            (final(self)@, crate::tcp::incoming_view(r)) == old(self)@.receives(
                crate::tcp::incoming_view(incoming),
            ),
            final(self).wf(),
        decreases *old(self),
    {
        match self {
            Stream::WebRTC(_) => incoming,
            Stream::WebSocket(s) => s.next(incoming),
            Stream::Tcp(s) => s.next(incoming),
            Stream::Transition(t) => t.next(incoming),
            Stream::Empty => None,
        }
    }

    /// Takes what was read within a time limit; `None` if nothing came in time.
    pub fn next_timeout(&mut self, in_time: Option<Incoming>) -> (r: Incoming)
        requires
            old(self).wf(),
            in_time matches Some(incoming) ==> old(self)@.can_open() || !crate::tcp::takes_nonce(
                crate::tcp::incoming_view(incoming),
            ),
        ensures
            match in_time {
                Some(incoming) => (final(self)@, crate::tcp::incoming_view(r))
                    == old(self)@.receives(crate::tcp::incoming_view(incoming)),
                None => final(self)@ == old(self)@ && r is None,
            },
            final(self).wf(),
    {
        match in_time {
            Some(incoming) => self.next(incoming),
            None => None,
        }
    }

    /// Drops what is left of a switch that is over: only the new channel remains.
    /// Any other connection is returned as it is.
    pub fn collapse_transition(self) -> (r: Stream)
        requires
            self.wf(),
        ensures
            r@ == self@.collapsed(),
            r.wf(),
    {
        match self {
            Stream::Transition(t) => if t.phase() == Phase::UsingNew {
                Stream::Tcp((*t).into_new())
            } else {
                Stream::Transition(t)
            },
            other => other,
        }
    }

    /// A connection over a byte stream, without encryption.
    pub fn from(link: u64, addr: SocketAddr) -> (r: Stream)
        ensures
            r@ == StreamView::Tcp(FramedStream(Link { id: link, raw: false }, addr, None, 0)),
            r.wf(),
    {
        Stream::Tcp(FramedStream::from(link, addr))
    }

    /// A connection over a WebSocket, given what connecting gave.
    pub fn connect_websocket(connected: Result<(u64, SocketAddr), String>) -> (r: Result<
        Stream,
        String,
    >)
        ensures
            match connected {
                Ok((link, addr)) => r matches Ok(stream) && stream.wf() && stream@
                    == StreamView::WebSocket(
                    WsFramedStream {
                        link: Link { id: link, raw: true },
                        addr,
                        encrypt: None,
                        send_timeout: 0,
                    },
                ),
                Err(cause) => r == Err::<Stream, String>(cause),
            },
    {
        match connected {
            Ok((link, addr)) => Ok(Stream::WebSocket(WsFramedStream::new(link, addr))),
            Err(cause) => Err(cause),
        }
    }

    /// The WebRTC channel, if that is what carries the connection.
    pub fn get_webrtc_stream(&self) -> (r: Option<WebRTCStream>)
        ensures
            r == match self@ {
                StreamView::WebRTC(s) => Some(s),
                _ => None,
            },
    {
        match self {
            Stream::WebRTC(s) => Some(*s),
            _ => None,
        }
    }
}

} // verus!
