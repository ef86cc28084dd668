//! A connection whose frames are WebSocket messages.

use crate::net::SocketAddr;
use crate::tcp::{decode, encode, Encrypt, Incoming, Key, Link, Write, WriteView};
use vstd::prelude::*;

verus! {

/// A WebSocket connection. Its messages are frames of their own, so the link
/// needs no framing.
#[derive(Clone, PartialEq, Eq)]
pub struct WsFramedStream {
    pub link: Link,
    pub addr: SocketAddr,
    pub encrypt: Option<Encrypt>,
    pub send_timeout: u64,
}

impl WsFramedStream {
    /// A connection without encryption and without a send timeout.
    pub fn new(link: u64, addr: SocketAddr) -> (r: WsFramedStream)
        ensures
            r == (WsFramedStream {
                link: Link { id: link, raw: true },
                addr,
                encrypt: None,
                send_timeout: 0,
            }),
    {
        WsFramedStream { link: Link { id: link, raw: true }, addr, encrypt: None, send_timeout: 0 }
    }

    /// The connection with another encryption state.
    pub open spec fn with_crypto(self, crypto: Option<Encrypt>) -> WsFramedStream {
        WsFramedStream { encrypt: crypto, ..self }
    }

    /// A frame written on this connection.
    pub open spec fn writes(self, frame: Seq<u8>) -> WriteView {
        WriteView { link: self.link, frame, timeout_ms: self.send_timeout }
    }

    /// Limits how long a write may take; zero lifts the limit.
    pub fn set_send_timeout(&mut self, ms: u64)
        ensures
            *final(self) == (WsFramedStream { send_timeout: ms, ..*old(self) }),
    {
        self.send_timeout = ms;
    }

    /// Stops encrypting.
    pub fn set_raw(&mut self)
        ensures
            *final(self) == old(self).with_crypto(None),
    {
        self.encrypt = None;
    }

    /// Starts encrypting, with fresh counts.
    pub fn set_key(&mut self, key: Key)
        ensures
            *final(self) == old(self).with_crypto(Some(Encrypt(key, 0, 0))),
    {
        self.encrypt = Some(Encrypt::new(key));
    }

    /// Gives the encryption state away. The connection does not encrypt any more.
    pub fn take_crypto(&mut self) -> (r: Option<Encrypt>)
        ensures
            *final(self) == old(self).with_crypto(None),
            r == old(self).encrypt,
    {
        self.encrypt.take()
    }

    /// Whether messages are encrypted.
    pub fn is_secured(&self) -> (r: bool)
        ensures
            r == (self.encrypt is Some),
    {
        self.encrypt.is_some()
    }

    /// Sends a frame as it is.
    pub fn send_bytes(&mut self, bytes: Vec<u8>) -> (r: Write)
        ensures
            *final(self) == *old(self),
            r@ == old(self).writes(bytes@),
    {
        Write { link: self.link, frame: bytes, timeout_ms: self.send_timeout }
    }

    /// Sends a message, sealed if the connection is encrypted.
    pub fn send_raw(&mut self, msg: Vec<u8>) -> (r: Write)
        requires
            crate::tcp::can_seal(old(self).encrypt),
            crate::tcp::sealable(msg@.len()),
        ensures
            *final(self) == old(self).with_crypto(crate::tcp::crypto_after_send(old(self).encrypt)),
            r@ == old(self).writes(crate::tcp::frame_for(old(self).encrypt, msg@)),
            crate::tcp::readable_by_aligned(old(self).encrypt, msg@, r.frame@),
    {
        let frame = encode(&mut self.encrypt, msg);
        self.send_bytes(frame)
    }

    /// Takes what was read from the link, and opens it if the connection is
    /// encrypted.
    pub fn next(&mut self, incoming: Incoming) -> (r: Incoming)
        requires
            crate::tcp::can_open(old(self).encrypt) || !crate::tcp::takes_nonce(
                crate::tcp::incoming_view(incoming),
            ),
        ensures
            *final(self) == old(self).with_crypto(
                crate::tcp::crypto_after_read(
                    old(self).encrypt,
                    crate::tcp::incoming_view(incoming),
                ),
            ),
            crate::tcp::incoming_view(r) == crate::tcp::decoded(
                old(self).encrypt,
                crate::tcp::incoming_view(incoming),
            ),
    {
        decode(&mut self.encrypt, incoming)
    }
}

} // verus!
