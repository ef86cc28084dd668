//! The switch from the old channel to the iroh one, as a stream of its own.
//!
//! Between `Commit` and `CommitAck` the initiator must not write to the old
//! channel any more, since the peer stops reading it, but it has to go on
//! reading there, since what the peer sent before is still on its way:
//!
//! ```text
//!   initiator A                             responder B
//!      |--- Commit -------------------------->|
//!      |                                      | (B may still send to A)
//!      |<-- CommitAck ------------------------|
//!      X======== both switch =================X
//! ```
//!
//! So in that window writes are held back and reads stay on the old channel.
//! What was held back goes to the new channel after the switch, or back to the
//! old one if the upgrade fails.

use crate::net::SocketAddr;
use crate::stream::{Sent, SentView, Stream, StreamError, StreamView};
use crate::tcp::{
    can_decode, can_encode, Encrypt, FramedStream, Incoming, Key, Link, Write, WriteView,
};
use std::collections::VecDeque;
use vstd::prelude::*;

verus! {

/// A write that was held back.
///
/// A message is held back as it is and sealed by the channel that it goes out on
/// in the end: sealed early it would use the old channel's nonce, and the two
/// sides would count differently. A frame that is ready goes out as it is.
#[derive(Debug, Clone)]
enum Pending {
    /// A message, for the channel to seal.
    Plain(Vec<u8>),
    /// A frame, to go out as it is.
    Raw(Vec<u8>),
}

/// A write that was held back, with its bytes as a sequence.
#[verifier::ext_equal]
pub enum PendingView {
    Plain(Seq<u8>),
    Raw(Seq<u8>),
}

impl View for Pending {
    type V = PendingView;

    closed spec fn view(&self) -> PendingView {
        match self {
            Pending::Plain(bytes) => PendingView::Plain(bytes@),
            Pending::Raw(bytes) => PendingView::Raw(bytes@),
        }
    }
}

impl PendingView {
    /// How many bytes are held back.
    pub open spec fn len(self) -> nat {
        match self {
            PendingView::Plain(bytes) => bytes.len(),
            PendingView::Raw(bytes) => bytes.len(),
        }
    }
}

/// How many bytes a queue of writes holds back.
pub open spec fn total(items: Seq<PendingView>) -> nat
    decreases items.len(),
{
    if items.len() == 0 {
        0
    } else {
        items[0].len() + total(items.drop_first())
    }
}

/// Each message among the writes held back can be sealed.
pub open spec fn all_sealable(items: Seq<PendingView>) -> bool {
    forall|i: int|
        0 <= i < items.len() ==> ((#[trigger] items[i]) matches PendingView::Plain(msg)
            ==> crate::tcp::sealable(msg.len()))
}

pub(crate) proof fn total_of_push(items: Seq<PendingView>, item: PendingView)
    ensures
        total(items.push(item)) == total(items) + item.len(),
    decreases items.len(),
{
    if items.len() == 0 {
        assert(items.push(item).drop_first() == items);
    } else {
        total_of_push(items.drop_first(), item);
        assert(items.push(item).drop_first() == items.drop_first().push(item));
    }
}

/// How far the switch has come.
#[derive(Debug, Clone, Copy, PartialEq, Eq, Structural)]
pub enum Phase {
    /// Not committed: reads and writes use the old channel.
    UsingOld,
    /// Committed, not acknowledged: writes are held back, reads use the old channel.
    CommitWindow,
    /// Switched: reads and writes use the new channel.
    UsingNew,
}

/// The old channel, the new one, and what is held back between them.
pub struct TransitionStream {
    old: Stream,
    new: FramedStream,
    phase: Phase,
    buffered: VecDeque<Pending>,
    buffered_bytes: usize,
}

/// [`TransitionStream`] with its queue as a sequence.
#[verifier::ext_equal]
pub struct TransitionView {
    pub old: StreamView,
    pub new: FramedStream,
    pub phase: Phase,
    pub buffered: Seq<PendingView>,
}

/// A queue with its items' bytes as sequences.
spec fn pending_view(items: Seq<Pending>) -> Seq<PendingView> {
    items.map_values(|p: Pending| p@)
}

impl View for TransitionStream {
    type V = TransitionView;

    closed spec fn view(&self) -> TransitionView
        decreases self,
    {
        TransitionView {
            old: self.old@,
            new: self.new,
            phase: self.phase,
            buffered: pending_view(self.buffered@),
        }
    }
}

impl TransitionView {
    /// The two channels with nothing held back.
    pub open spec fn fresh(old: StreamView, new: FramedStream) -> TransitionView {
        TransitionView { old, new, phase: Phase::UsingOld, buffered: seq![] }
    }

    /// The transition with another new channel. Where the switch was over, the
    /// channel in use becomes the old one. Whatever is held back stays so.
    pub open spec fn with_new(self, to: FramedStream) -> TransitionView {
        if self.phase == Phase::UsingNew {
            TransitionView {
                old: StreamView::Tcp(self.new),
                new: to,
                phase: Phase::UsingOld,
                ..self
            }
        } else {
            TransitionView { new: to, ..self }
        }
    }

    /// A connection with a new channel beside it. A transition is not put into
    /// another one: it goes on with the new channel.
    pub open spec fn over(from: StreamView, to: FramedStream) -> TransitionView {
        match from {
            StreamView::Transition(t) => t.with_new(to),
            _ => TransitionView::fresh(from, to),
        }
    }

    /// The transition after `Commit` went out.
    pub open spec fn committed(self) -> TransitionView {
        if self.phase == Phase::UsingOld {
            TransitionView { phase: Phase::CommitWindow, ..self }
        } else {
            self
        }
    }

    /// The transition after the upgrade was given up.
    pub open spec fn aborted(self) -> TransitionView {
        TransitionView { phase: Phase::UsingOld, ..self }
    }

    /// The transition after the switch: the encryption state of the old channel
    /// has moved to the new one, if the old one keeps one.
    pub open spec fn switched(self) -> TransitionView {
        if self.phase == Phase::UsingNew {
            self
        } else if self.old.hands_over() {
            TransitionView {
                old: self.old.without_crypto(),
                new: self.new.with_crypto(self.old.crypto()),
                phase: Phase::UsingNew,
                ..self
            }
        } else {
            TransitionView { phase: Phase::UsingNew, ..self }
        }
    }

    /// The transition with one more write held back.
    pub open spec fn holding(self, item: PendingView) -> TransitionView {
        TransitionView { buffered: self.buffered.push(item), ..self }
    }

    /// The transition without the first write held back.
    pub open spec fn released(self) -> TransitionView {
        TransitionView { buffered: self.buffered.drop_first(), ..self }
    }

    /// This transition as a connection.
    pub open spec fn as_stream(self) -> StreamView {
        StreamView::Transition(Box::new(self))
    }

    /// The next write held back can go to the channel in use: one that has to be
    /// sealed there has a nonce left, and there is room should it be held back
    /// again.
    pub open spec fn can_flush(self) -> bool {
        self.buffered.len() > 0 ==> match self.phase {
            Phase::UsingOld => (self.buffered[0] is Plain ==> self.old.can_seal())
                && self.old.has_room(self.buffered[0].len()),
            Phase::UsingNew => self.buffered[0] is Plain ==> crate::tcp::can_seal(self.new.2),
            Phase::CommitWindow => true,
        }
    }

    /// Sending the first write held back to the old channel: the transition
    /// afterwards, and what became of the write if there is a connection.
    pub open spec fn flushed_to_old(self) -> (TransitionView, Option<SentView>) {
        match self.old.sends_item(self.buffered[0]) {
            Some((old_after, sent)) => (
                TransitionView { old: old_after, ..self.released() },
                Some(sent),
            ),
            None => (self.released(), None),
        }
    }

    /// Sending the first write held back to the new channel: the transition
    /// afterwards, and the frame.
    pub open spec fn flushed_to_new(self) -> (TransitionView, WriteView) {
        match self.buffered[0] {
            PendingView::Plain(msg) => (
                TransitionView {
                    new: self.new.with_crypto(crate::tcp::crypto_after_send(self.new.2)),
                    ..self.released()
                },
                self.new.writes(crate::tcp::frame_for(self.new.2, msg)),
            ),
            PendingView::Raw(bytes) => (self.released(), self.new.writes(bytes)),
        }
    }
}

impl TransitionStream {
    /// The bytes held back are counted right, each message among them can be
    /// sealed, and the old channel is in order.
    pub closed spec fn wf(self) -> bool
        decreases self,
    {
        &&& self.old.wf()
        &&& self.buffered_bytes == total(pending_view(self.buffered@))
        &&& all_sealable(pending_view(self.buffered@))
    }

    /// Puts a new channel beside the old one. Nothing is switched yet.
    pub fn new(from: Stream, to: FramedStream) -> (r: TransitionStream)
        requires
            from.wf(),
        ensures
            r@ == TransitionView::fresh(from@, to),
            r.wf(),
    {
        TransitionStream {
            old: from,
            new: to,
            phase: Phase::UsingOld,
            buffered: VecDeque::new(),
            buffered_bytes: 0,
        }
    }

    /// Puts a new channel beside a connection. One that is in a transition already,
    /// such as after an upgrade that failed, is not put into another: its old
    /// channel and what is held back are taken over.
    pub fn over(from: Stream, to: FramedStream) -> (r: TransitionStream)
        requires
            from.wf(),
        ensures
            r@ == TransitionView::over(from@, to),
            r.wf(),
    {
        match from {
            Stream::Transition(t) => (*t).with_new(to),
            other => TransitionStream::new(other, to),
        }
    }

    /// Goes on with another new channel. Where the switch is over, the channel in
    /// use becomes the old one.
    fn with_new(self, to: FramedStream) -> (r: TransitionStream)
        requires
            self.wf(),
        ensures
            r@ == self@.with_new(to),
            r.wf(),
    {
        let old_channel = match self.phase {
            Phase::UsingNew => Stream::Tcp(self.new),
            _ => self.old,
        };
        let phase = match self.phase {
            Phase::UsingNew => Phase::UsingOld,
            phase => phase,
        };
        TransitionStream {
            old: old_channel,
            new: to,
            phase,
            buffered: self.buffered,
            buffered_bytes: self.buffered_bytes,
        }
    }

    /// How far the switch has come.
    pub fn phase(&self) -> (r: Phase)
        ensures
            r == self@.phase,
    {
        self.phase
    }

    /// How many writes are held back.
    pub fn buffered_len(&self) -> (r: usize)
        ensures
            r == self@.buffered.len(),
    {
        self.buffered.len()
    }

    /// How many bytes are held back.
    pub fn buffered_bytes(&self) -> (r: usize)
        requires
            self.wf(),
        ensures
            r == total(self@.buffered),
    {
        self.buffered_bytes
    }

    /// Initiator: `Commit` was just written to the old channel. From now on
    /// writes are held back.
    pub fn on_commit_sent(&mut self)
        requires
            old(self).wf(),
        ensures
            final(self)@ == old(self)@.committed(),
            final(self).wf(),
    {
        if self.phase == Phase::UsingOld {
            self.phase = Phase::CommitWindow;
        }
    }

    /// Initiator: `CommitAck` arrived. Switches.
    pub fn on_commit_ack_received(&mut self)
        requires
            old(self).wf(),
        ensures
            final(self)@ == old(self)@.switched(),
            final(self).wf(),
    {
        self.switch_to_new();
    }

    /// Responder: `CommitAck` was just written to the old channel, the last that
    /// goes there. Switches.
    pub fn on_commit_ack_sent(&mut self)
        requires
            old(self).wf(),
        ensures
            final(self)@ == old(self)@.switched(),
            final(self).wf(),
    {
        self.switch_to_new();
    }

    /// The one way to switch. The encryption state moves from the old channel to
    /// the new one: were it copied, both could seal under one nonce, and were it
    /// left, the new channel would not encrypt. Switching again does nothing, so
    /// that the state just moved is not lost.
    pub fn switch_to_new(&mut self)
        requires
            old(self).wf(),
        ensures
            final(self)@ == old(self)@.switched(),
            final(self).wf(),
    {
        if self.phase == Phase::UsingNew {
            return;
        }
        match &mut self.old {
            Stream::Tcp(f) => {
                self.new.2 = f.take_crypto();
            },
            Stream::WebSocket(ws) => {
                self.new.2 = ws.take_crypto();
            },
            _ => {},
        }
        self.phase = Phase::UsingNew;
    }

    /// The upgrade failed: the old channel is in use again. What was held back
    /// goes there with [`TransitionStream::flush_to_old`].
    pub fn abort(&mut self)
        requires
            old(self).wf(),
        ensures
            final(self)@ == old(self)@.aborted(),
            final(self).wf(),
    {
        self.phase = Phase::UsingOld;
    }

    /// Takes the first write out of the queue.
    fn release(&mut self) -> (r: Option<Pending>)
        requires
            old(self).wf(),
        ensures
            final(self).wf(),
            match r {
                Some(item) => old(self)@.buffered.len() > 0 && item@ == old(self)@.buffered[0]
                    && final(self)@ == old(self)@.released() && (item matches Pending::Plain(msg)
                    ==> crate::tcp::sealable(msg@.len())),
                None => old(self)@.buffered.len() == 0 && final(self)@ == old(self)@,
            },
    {
        let ghost items = self.buffered@;
        match self.buffered.pop_front() {
            Some(item) => {
                let len = match &item {
                    Pending::Plain(bytes) => bytes.len(),
                    Pending::Raw(bytes) => bytes.len(),
                };
                assert(pending_view(self.buffered@) == pending_view(items).drop_first());
                self.buffered_bytes = self.buffered_bytes - len;
                Some(item)
            },
            None => None,
        }
    }

    /// Holds a write back.
    fn hold(&mut self, item: Pending)
        requires
            old(self).wf(),
            total(old(self)@.buffered) + item@.len() <= usize::MAX,
            item matches Pending::Plain(msg) ==> crate::tcp::sealable(msg@.len()),
        ensures
            final(self)@ == old(self)@.holding(item@),
            final(self).wf(),
    {
        let ghost items = self.buffered@;
        let ghost view = item@;
        let len = match &item {
            Pending::Plain(bytes) => bytes.len(),
            Pending::Raw(bytes) => bytes.len(),
        };
        self.buffered_bytes = self.buffered_bytes + len;
        self.buffered.push_back(item);
        proof {
            total_of_push(pending_view(items), view);
            assert(pending_view(self.buffered@) == pending_view(items).push(view));
        }
    }

    /// Whether the next write held back can be flushed: the channel in use has a
    /// nonce left, and room.
    pub fn can_flush(&self) -> (r: bool)
        requires
            self.wf(),
        ensures
            r == self@.can_flush(),
    {
        if self.buffered.len() == 0 {
            return true;
        }
        let item = &self.buffered[0];
        assert(item@ == self@.buffered[0]);
        match (self.phase, item) {
            (Phase::UsingOld, Pending::Plain(msg)) => self.old.has_nonce() && self.old.has_space(
                msg.len(),
            ),
            (Phase::UsingOld, Pending::Raw(bytes)) => self.old.has_space(bytes.len()),
            (Phase::UsingNew, Pending::Plain(_)) => can_encode(&self.new.2),
            _ => true,
        }
    }

    /// Sends the first write held back to the old channel; `None` once nothing is
    /// held back any more, or if the old channel is not in use. A write that
    /// could not be sent is gone.
    pub fn flush_to_old(&mut self) -> (r: Result<Option<Sent>, StreamError>)
        requires
            old(self).wf(),
            old(self)@.phase == Phase::UsingOld ==> old(self)@.can_flush(),
        ensures
            final(self).wf(),
            if old(self)@.phase == Phase::UsingOld && old(self)@.buffered.len() > 0 {
                &&& final(self)@ == old(self)@.flushed_to_old().0
                &&& match (old(self)@.flushed_to_old().1, r) {
                    (Some(sent), Ok(Some(s))) => s@ == sent && match (old(self)@.buffered[0], s) {
                        (PendingView::Plain(msg), Sent::Write(w)) =>
                            crate::tcp::readable_by_aligned(old(self)@.old.crypto(), msg, w.frame@),
                        _ => true,
                    },
                    (None, Err(e)) => e == StreamError::Placeholder,
                    _ => false,
                }
            } else {
                final(self)@ == old(self)@ && r == Ok::<Option<Sent>, StreamError>(None)
            },
    {
        if self.phase != Phase::UsingOld {
            return Ok(None);
        }
        match self.release() {
            Some(item) => {
                let sent = match item {
                    Pending::Plain(msg) => self.old.send_raw(msg),
                    Pending::Raw(bytes) => self.old.send_bytes(bytes),
                };
                match sent {
                    Ok(sent) => Ok(Some(sent)),
                    Err(e) => Err(e),
                }
            },
            None => Ok(None),
        }
    }

    /// Sends the first write held back to the new channel; `None` once nothing is
    /// held back any more, or if the new channel is not in use.
    pub fn flush_to_new(&mut self) -> (r: Option<Write>)
        requires
            old(self).wf(),
            old(self)@.phase == Phase::UsingNew ==> old(self)@.can_flush(),
        ensures
            final(self).wf(),
            if old(self)@.phase == Phase::UsingNew && old(self)@.buffered.len() > 0 {
                &&& final(self)@ == old(self)@.flushed_to_new().0
                &&& r matches Some(w) && w@ == old(self)@.flushed_to_new().1 && (
                old(self)@.buffered[0] matches PendingView::Plain(msg)
                    ==> crate::tcp::readable_by_aligned(old(self)@.new.2, msg, w.frame@))
            } else {
                final(self)@ == old(self)@ && r is None
            },
    {
        if self.phase != Phase::UsingNew {
            return None;
        }
        match self.release() {
            Some(item) => match item {
                Pending::Plain(msg) => Some(self.new.send_raw(msg)),
                Pending::Raw(bytes) => Some(self.new.send_bytes(bytes)),
            },
            None => None,
        }
    }

    /// Sends a frame as it is, such as one that is relayed.
    pub fn send_bytes(&mut self, bytes: Vec<u8>) -> (r: Result<Sent, StreamError>)
        requires
            old(self).wf(),
            old(self)@.as_stream().has_room(bytes@.len()),
        ensures
            crate::stream::sent_as(
                old(self)@.as_stream().sends_bytes(bytes@),
                old(self)@.as_stream(),
                final(self)@.as_stream(),
                r,
            ),
            final(self).wf(),
        decreases *old(self),
    {
        match self.phase {
            Phase::UsingOld => self.old.send_bytes(bytes),
            Phase::UsingNew => Ok(Sent::Write(self.new.send_bytes(bytes))),
            Phase::CommitWindow => {
                self.hold(Pending::Raw(bytes));
                Ok(Sent::Buffered)
            },
        }
    }

    /// Sends a message, sealed by the channel that it goes out on.
    pub fn send_raw(&mut self, msg: Vec<u8>) -> (r: Result<Sent, StreamError>)
        requires
            old(self).wf(),
            old(self)@.as_stream().can_seal(),
            old(self)@.as_stream().has_room(msg@.len()),
            crate::tcp::sealable(msg@.len()),
        ensures
            crate::stream::sent_as(
                old(self)@.as_stream().sends_raw(msg@),
                old(self)@.as_stream(),
                final(self)@.as_stream(),
                r,
            ),
            crate::stream::readable_if_written(old(self)@.as_stream().crypto(), msg@, r),
            final(self).wf(),
        decreases *old(self),
    {
        match self.phase {
            Phase::UsingOld => self.old.send_raw(msg),
            Phase::UsingNew => Ok(Sent::Write(self.new.send_raw(msg))),
            Phase::CommitWindow => {
                self.hold(Pending::Plain(msg));
                Ok(Sent::Buffered)
            },
        }
    }

    /// Sends a protocol message, given what encoding it gave.
    pub fn send(&mut self, encoded: Result<Vec<u8>, String>) -> (r: Result<Sent, StreamError>)
        requires
            old(self).wf(),
            encoded matches Ok(bytes) ==> old(self)@.as_stream().can_seal()
                && old(self)@.as_stream().has_room(bytes@.len()) && crate::tcp::sealable(
                bytes@.len(),
            ),
        ensures
            match encoded {
                Ok(bytes) => crate::stream::sent_as(
                    old(self)@.as_stream().sends_raw(bytes@),
                    old(self)@.as_stream(),
                    final(self)@.as_stream(),
                    r,
                ) && crate::stream::readable_if_written(
                    old(self)@.as_stream().crypto(),
                    bytes@,
                    r,
                ),
                Err(cause) => final(self)@ == old(self)@ && r == Err::<Sent, StreamError>(
                    StreamError::Encode(cause),
                ),
            },
            final(self).wf(),
    {
        match encoded {
            Ok(bytes) => self.send_raw(bytes),
            Err(cause) => Err(StreamError::Encode(cause)),
        }
    }

    /// Stops framing and encrypting on both channels.
    pub fn set_raw(&mut self)
        requires
            old(self).wf(),
        ensures
            final(self)@ == (TransitionView {
                old: old(self)@.old.as_raw(),
                new: old(self)@.new.as_raw(),
                ..old(self)@
            }),
            final(self).wf(),
        decreases *old(self),
    {
        self.old.set_raw();
        self.new.set_raw();
    }

    /// Applies a send timeout to both channels.
    pub fn set_send_timeout(&mut self, ms: u64)
        requires
            old(self).wf(),
        ensures
            final(self)@ == (TransitionView {
                old: old(self)@.old.with_send_timeout(ms),
                new: FramedStream(old(self)@.new.0, old(self)@.new.1, old(self)@.new.2, ms),
                ..old(self)@
            }),
            final(self).wf(),
        decreases *old(self),
    {
        self.old.set_send_timeout(ms);
        self.new.set_send_timeout(ms);
    }

    /// Starts encrypting with fresh counts on both channels.
    pub fn set_key(&mut self, key: Key)
        requires
            old(self).wf(),
        ensures
            final(self)@ == (TransitionView {
                old: old(self)@.old.with_key(key),
                new: old(self)@.new.with_crypto(Some(Encrypt(key, 0, 0))),
                ..old(self)@
            }),
            final(self).wf(),
        decreases *old(self),
    {
        self.old.set_key(key.clone());
        self.new.set_key(key);
    }

    /// Whether what is sent is encrypted on the way. The channel in use decides,
    /// since the encryption state moves with the switch.
    pub fn is_secured(&self) -> (r: bool)
        ensures
            r == self@.as_stream().secured(),
        decreases self,
    {
        match self.phase {
            Phase::UsingNew => self.new.is_secured(),
            _ => self.old.is_secured(),
        }
    }

    /// How many messages the new channel has sealed and opened. It has no
    /// encryption state before the switch, unless it was given one.
    pub fn new_crypto_seq(&self) -> (r: Option<(u64, u64)>)
        ensures
            r == match self@.new.2 {
                Some(e) => Some((e.1, e.2)),
                None => None,
            },
    {
        self.new.crypto_seq()
    }

    /// The address of the old channel.
    pub fn local_addr(&self) -> (r: SocketAddr)
        ensures
            self@.old.has_local_addr(r),
        decreases self,
    {
        self.old.local_addr()
    }

    /// Whether the channel in use has a nonce left to seal with.
    pub fn has_nonce(&self) -> (r: bool)
        ensures
            r == self@.as_stream().can_seal(),
        decreases self,
    {
        match self.phase {
            Phase::UsingOld => self.old.has_nonce(),
            Phase::UsingNew => can_encode(&self.new.2),
            Phase::CommitWindow => true,
        }
    }

    /// Whether so many bytes more can be held back, if they have to be.
    pub fn has_space(&self, len: usize) -> (r: bool)
        requires
            self.wf(),
        ensures
            r == self@.as_stream().has_room(len as nat),
        decreases self,
    {
        match self.phase {
            Phase::UsingOld => self.old.has_space(len),
            Phase::UsingNew => true,
            Phase::CommitWindow => len <= usize::MAX - self.buffered_bytes,
        }
    }

    /// Whether a frame can be read now.
    pub fn can_read(&self) -> (r: bool)
        ensures
            r == self@.as_stream().can_open(),
        decreases self,
    {
        match self.phase {
            Phase::UsingNew => can_decode(&self.new.2),
            _ => self.old.can_read(),
        }
    }

    /// Gives the new channel out and drops the rest. Once it is the channel in
    /// use nothing of the old one is lost by that.
    pub fn into_new(self) -> (r: FramedStream)
        ensures
            r == self@.new,
    {
        self.new
    }

    /// The link to read from, if there is a connection.
    pub fn reads_from(&self) -> (r: Option<Link>)
        ensures
            r == self@.as_stream().read_link(),
        decreases self,
    {
        match self.phase {
            Phase::UsingOld | Phase::CommitWindow => self.old.reads_from(),
            Phase::UsingNew => Some(self.new.0),
        }
    }

    /// Takes what was read. Until the switch that is the old channel's, also in
    /// the commit window: what the peer sent before has to be drained.
    pub fn next(&mut self, incoming: Incoming) -> (r: Incoming)
        requires
            old(self).wf(),
            old(self)@.as_stream().can_open() || !crate::tcp::takes_nonce(
                crate::tcp::incoming_view(incoming),
            ),
        ensures
            (final(self)@.as_stream(), crate::tcp::incoming_view(r))
                == old(self)@.as_stream().receives(crate::tcp::incoming_view(incoming)),
            final(self).wf(),
        decreases *old(self),
    {
        match self.phase {
            Phase::UsingOld | Phase::CommitWindow => self.old.next(incoming),
            Phase::UsingNew => self.new.next(incoming),
        }
    }

    /// Takes what was read within a time limit; `None` if nothing came in time.
    pub fn next_timeout(&mut self, in_time: Option<Incoming>) -> (r: Incoming)
        requires
            old(self).wf(),
            in_time matches Some(incoming) ==> old(self)@.as_stream().can_open()
                || !crate::tcp::takes_nonce(crate::tcp::incoming_view(incoming)),
        ensures
            match in_time {
                Some(incoming) => (final(self)@.as_stream(), crate::tcp::incoming_view(r))
                    == old(self)@.as_stream().receives(crate::tcp::incoming_view(incoming)),
                None => final(self)@ == old(self)@ && r is None,
            },
            final(self).wf(),
    {
        match in_time {
            Some(incoming) => self.next(incoming),
            None => None,
        }
    }
}

} // verus!
