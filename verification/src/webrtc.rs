//! A connection over a WebRTC data channel.

use crate::net::SocketAddr;
use crate::tcp::{Link, Write, WriteView};
use vstd::prelude::*;

verus! {

/// A WebRTC data channel. DTLS encrypts it already, so it has no encryption
/// state of its own, and its messages need no framing.
#[derive(Debug, Clone, Copy, PartialEq, Eq)]
pub struct WebRTCStream {
    pub link: Link,
    pub addr: SocketAddr,
    pub send_timeout: u64,
}

impl WebRTCStream {
    /// A channel without a send timeout.
    pub fn new(link: u64, addr: SocketAddr) -> (r: WebRTCStream)
        ensures
            r == (WebRTCStream { link: Link { id: link, raw: true }, addr, send_timeout: 0 }),
    {
        WebRTCStream { link: Link { id: link, raw: true }, addr, send_timeout: 0 }
    }

    /// A frame written on this channel.
    pub open spec fn writes(self, frame: Seq<u8>) -> WriteView {
        WriteView { link: self.link, frame, timeout_ms: self.send_timeout }
    }

    /// Limits how long a write may take; zero lifts the limit.
    pub fn set_send_timeout(&mut self, ms: u64)
        ensures
            *final(self) == (WebRTCStream { send_timeout: ms, ..*old(self) }),
    {
        self.send_timeout = ms;
    }

    /// Sends a frame as it is.
    pub fn send_bytes(&mut self, bytes: Vec<u8>) -> (r: Write)
        ensures
            *final(self) == *old(self),
            r@ == old(self).writes(bytes@),
    {
        Write { link: self.link, frame: bytes, timeout_ms: self.send_timeout }
    }
}

} // verus!
