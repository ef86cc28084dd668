//! A framed connection and the encryption that rides on it.
//!
//! The connection itself, its reads and its writes, belong to the caller. A
//! [`FramedStream`] holds what decides how a message becomes a frame: which link
//! it goes to, the encryption state and the send timeout.

use crate::net::SocketAddr;
use vstd::bytes::u64_to_le_bytes;
use vstd::prelude::*;

verus! {

/// A secretbox key.
#[derive(PartialEq, Eq)]
pub struct Key(pub [u8; 32]);

impl Clone for Key {
    fn clone(&self) -> (r: Key)
        ensures
            r == *self,
    {
        Key(self.0)
    }
}

/// Encryption state: the key, how many messages were sealed, and how many were
/// opened. The two counts are the nonces.
#[derive(PartialEq, Eq)]
pub struct Encrypt(pub Key, pub u64, pub u64);

impl Clone for Encrypt {
    fn clone(&self) -> (r: Encrypt)
        ensures
            r == *self,
    {
        Encrypt(self.0.clone(), self.1, self.2)
    }
}

/// Bytes that sealing adds to a message.
pub const MAC_BYTES: usize = 16;

/// A message of this length can be sealed in memory.
pub open spec fn sealable(len: nat) -> bool {
    len + MAC_BYTES <= isize::MAX
}

/// What secretbox makes of a message under a nonce and a key.
pub uninterp spec fn sealed(message: Seq<u8>, nonce: Seq<u8>, key: Seq<u8>) -> Seq<u8>;

/// What secretbox gets back from a ciphertext under a nonce and a key, if the
/// ciphertext is genuine.
pub uninterp spec fn opened(ciphertext: Seq<u8>, nonce: Seq<u8>, key: Seq<u8>) -> Option<Seq<u8>>;

/// Seals a message with `sodiumoxide::crypto::secretbox::seal`.
///
/// Claimed of it: the ciphertext depends on the message, the nonce and the key
/// alone, it is [`MAC_BYTES`] longer than the message, and opening it under the
/// same nonce and key gives the message back. The message has to leave room for
/// those bytes, since the function allocates the whole ciphertext.
#[verifier::external_body]
fn seal(message: &[u8], nonce: &[u8; 24], key: &[u8; 32]) -> (r: Vec<u8>)
    requires
        sealable(message@.len()),
    ensures
        r@ == sealed(message@, nonce@, key@),
        r@.len() == message@.len() + MAC_BYTES,
        opened(r@, nonce@, key@) == Some(message@),
{
    let nonce = sodiumoxide::crypto::secretbox::Nonce(*nonce);
    let key = sodiumoxide::crypto::secretbox::Key(*key);
    sodiumoxide::crypto::secretbox::seal(message, &nonce, &key)
}

/// Opens a ciphertext with `sodiumoxide::crypto::secretbox::open`.
///
/// Claimed of it: the outcome depends on the ciphertext, the nonce and the key
/// alone, one shorter than [`MAC_BYTES`] is refused, and a message that comes out
/// is [`MAC_BYTES`] shorter than its ciphertext.
#[verifier::external_body]
fn open(ciphertext: &[u8], nonce: &[u8; 24], key: &[u8; 32]) -> (r: Result<Vec<u8>, ()>)
    ensures
        match r {
            Ok(message) => opened(ciphertext@, nonce@, key@) == Some(message@)
                && message@.len() + MAC_BYTES == ciphertext@.len(),
            Err(_) => opened(ciphertext@, nonce@, key@) is None,
        },
        ciphertext@.len() < MAC_BYTES ==> r is Err,
{
    let nonce = sodiumoxide::crypto::secretbox::Nonce(*nonce);
    let key = sodiumoxide::crypto::secretbox::Key(*key);
    sodiumoxide::crypto::secretbox::open(ciphertext, &nonce, &key)
}

/// The nonce of the message with the given number: the number in eight
/// little-endian bytes, and zeros.
pub open spec fn nonce_of(seqnum: u64) -> Seq<u8> {
    vstd::bytes::spec_u64_to_le_bytes(seqnum) + Seq::new(16, |i: int| 0u8)
}

/// Builds the nonce of the message with the given number.
fn get_nonce(seqnum: u64) -> (r: [u8; 24])
    ensures
        r@ == nonce_of(seqnum),
{
    proof {
        vstd::bytes::lemma_auto_spec_u64_to_from_le_bytes();
    }
    let le = u64_to_le_bytes(seqnum);
    let mut nonce: [u8; 24] = [0; 24];
    let mut i: usize = 0;
    while i < 8
        invariant
            i <= 8,
            le@.len() == 8,
            nonce@.len() == 24,
            forall|j: int| 0 <= j < i ==> nonce@[j] == le@[j],
            forall|j: int| i <= j < 24 ==> nonce@[j] == 0,
        decreases 8 - i,
    {
        nonce[i] = le[i];
        i = i + 1;
    }
    assert(nonce@ == nonce_of(seqnum));
    nonce
}

/// Why nothing could be read.
#[derive(Debug, Clone, PartialEq, Eq)]
pub enum ReadError {
    /// The connection failed, with its own words.
    Io(String),
    /// A frame was not sealed by the peer under the expected nonce.
    Decryption,
}

impl ReadError {
    /// The error in words.
    pub fn message(&self) -> (r: String)
        ensures
            r@ == match self {
                ReadError::Io(cause) => cause@,
                ReadError::Decryption => "decryption error"@,
            },
    {
        match self {
            ReadError::Io(cause) => cause.clone(),
            ReadError::Decryption => "decryption error".to_owned(),
        }
    }
}

impl Encrypt {
    /// The frame that the next message becomes.
    pub open spec fn seals(self, message: Seq<u8>) -> Seq<u8> {
        sealed(message, nonce_of((self.1 + 1) as u64), self.0.0@)
    }

    /// The state after sealing a message.
    pub open spec fn after_seal(self) -> Encrypt {
        Encrypt(self.0, (self.1 + 1) as u64, self.2)
    }

    /// What the next frame holds. A frame of at most one byte is not sealed.
    pub open spec fn opens(self, frame: Seq<u8>) -> Option<Seq<u8>> {
        if frame.len() <= 1 {
            Some(frame)
        } else {
            opened(frame, nonce_of((self.2 + 1) as u64), self.0.0@)
        }
    }

    /// The state after opening a frame, genuine or not.
    pub open spec fn after_open(self, frame: Seq<u8>) -> Encrypt {
        if frame.len() <= 1 {
            self
        } else {
            Encrypt(self.0, self.1, (self.2 + 1) as u64)
        }
    }

    /// Fresh state: nothing sealed, nothing opened.
    pub fn new(key: Key) -> (r: Encrypt)
        ensures
            r == Encrypt(key, 0, 0),
    {
        Encrypt(key, 0, 0)
    }

    /// Seals the next message. Whoever holds the same key and has opened as many
    /// messages as were sealed here can open it, and gets the message.
    pub fn enc(&mut self, data: &[u8]) -> (r: Vec<u8>)
        requires
            old(self).1 < u64::MAX,
            sealable(data@.len()),
        ensures
            *final(self) == old(self).after_seal(),
            r@ == old(self).seals(data@),
            r@.len() == data@.len() + MAC_BYTES,
            forall|peer: Encrypt|
                peer.0 == old(self).0 && peer.2 == old(self).1 ==> #[trigger] peer.opens(r@)
                    == Some(data@),
    {
        self.1 = self.1 + 1;
        let nonce = get_nonce(self.1);
        seal(data, &nonce, &self.0.0)
    }

    /// Opens the next frame.
    pub fn dec(&mut self, frame: Vec<u8>) -> (r: Result<Vec<u8>, ReadError>)
        requires
            old(self).2 < u64::MAX || frame@.len() <= 1,
        ensures
            *final(self) == old(self).after_open(frame@),
            match r {
                Ok(data) => old(self).opens(frame@) == Some(data@),
                Err(e) => old(self).opens(frame@) is None && e == ReadError::Decryption,
            },
    {
        if frame.len() <= 1 {
            return Ok(frame);
        }
        self.2 = self.2 + 1;
        let nonce = get_nonce(self.2);
        match open(frame.as_slice(), &nonce, &self.0.0) {
            Ok(data) => Ok(data),
            Err(_) => Err(ReadError::Decryption),
        }
    }
}

/// A byte stream of the caller's, and whether its frames go out as they are,
/// without a length in front.
#[derive(Debug, Clone, Copy, PartialEq, Eq, Structural)]
pub struct Link {
    /// What the caller knows the byte stream by.
    pub id: u64,
    /// Frames are not delimited.
    pub raw: bool,
}

/// A frame to be written: where to, what, and how long it may take. A timeout of
/// zero means that it may take for ever.
#[derive(Debug, Clone, PartialEq, Eq)]
pub struct Write {
    pub link: Link,
    pub frame: Vec<u8>,
    pub timeout_ms: u64,
}

/// [`Write`] with its frame as a sequence.
#[verifier::ext_equal]
pub struct WriteView {
    pub link: Link,
    pub frame: Seq<u8>,
    pub timeout_ms: u64,
}

impl View for Write {
    type V = WriteView;

    open spec fn view(&self) -> WriteView {
        WriteView { link: self.link, frame: self.frame@, timeout_ms: self.timeout_ms }
    }
}

/// What a read gave: nothing at the end of the stream, else a frame or an error.
pub type Incoming = Option<Result<Vec<u8>, ReadError>>;

/// [`Incoming`] with its frame as a sequence.
pub open spec fn incoming_view(incoming: Incoming) -> Option<Result<Seq<u8>, ReadError>> {
    match incoming {
        None => None,
        Some(Err(e)) => Some(Err(e)),
        Some(Ok(frame)) => Some(Ok(frame@)),
    }
}

/// A message can be sealed under this encryption state, if there is any.
pub open spec fn can_seal(crypto: Option<Encrypt>) -> bool {
    crypto matches Some(e) ==> e.1 < u64::MAX
}

/// A frame can be opened under this encryption state, if there is any.
pub open spec fn can_open(crypto: Option<Encrypt>) -> bool {
    crypto matches Some(e) ==> e.2 < u64::MAX
}

/// What was read takes a nonce to be opened, where there is encryption.
pub open spec fn takes_nonce(incoming: Option<Result<Seq<u8>, ReadError>>) -> bool {
    incoming matches Some(Ok(frame)) && frame.len() > 1
}

/// The frame that a message becomes.
pub open spec fn frame_for(crypto: Option<Encrypt>, message: Seq<u8>) -> Seq<u8> {
    match crypto {
        Some(e) => e.seals(message),
        None => message,
    }
}

/// The encryption state after a message was sent.
pub open spec fn crypto_after_send(crypto: Option<Encrypt>) -> Option<Encrypt> {
    match crypto {
        Some(e) => Some(e.after_seal()),
        None => None,
    }
}

/// What a read means to whoever holds the encryption state.
pub open spec fn decoded(
    crypto: Option<Encrypt>,
    incoming: Option<Result<Seq<u8>, ReadError>>,
) -> Option<Result<Seq<u8>, ReadError>> {
    match (crypto, incoming) {
        (Some(e), Some(Ok(frame))) => match e.opens(frame) {
            Some(message) => Some(Ok(message)),
            None => Some(Err(ReadError::Decryption)),
        },
        _ => incoming,
    }
}

/// The encryption state after a read.
pub open spec fn crypto_after_read(
    crypto: Option<Encrypt>,
    incoming: Option<Result<Seq<u8>, ReadError>>,
) -> Option<Encrypt> {
    match (crypto, incoming) {
        (Some(e), Some(Ok(frame))) => Some(e.after_open(frame)),
        _ => crypto,
    }
}

/// The receiver is where the sender is: both hold the same key and the receiver
/// has opened what the sender has sealed, or neither encrypts.
pub open spec fn aligned(sender: Option<Encrypt>, receiver: Option<Encrypt>) -> bool {
    match (sender, receiver) {
        (Some(s), Some(r)) => s.0 == r.0 && s.1 == r.2,
        (None, None) => true,
        _ => false,
    }
}

/// Whoever is aligned with the sender reads the message out of the frame, and is
/// aligned with the sender again afterwards.
pub open spec fn readable_by_aligned(
    sender: Option<Encrypt>,
    message: Seq<u8>,
    frame: Seq<u8>,
) -> bool {
    forall|receiver: Option<Encrypt>|
        #![trigger aligned(sender, receiver)]
        aligned(sender, receiver) && can_open(receiver) ==> decoded(receiver, Some(Ok(frame)))
            == Some(Ok::<Seq<u8>, ReadError>(message)) && aligned(
            crypto_after_send(sender),
            crypto_after_read(receiver, Some(Ok(frame))),
        )
}

/// Turns a message into its frame.
pub(crate) fn encode(crypto: &mut Option<Encrypt>, message: Vec<u8>) -> (r: Vec<u8>)
    requires
        can_seal(*old(crypto)),
        sealable(message@.len()),
    ensures
        *final(crypto) == crypto_after_send(*old(crypto)),
        r@ == frame_for(*old(crypto), message@),
        readable_by_aligned(*old(crypto), message@, r@),
{
    match crypto {
        Some(e) => e.enc(message.as_slice()),
        None => message,
    }
}

/// Makes out what a read means.
pub(crate) fn decode(crypto: &mut Option<Encrypt>, incoming: Incoming) -> (r: Incoming)
    requires
        can_open(*old(crypto)) || !takes_nonce(incoming_view(incoming)),
    ensures
        *final(crypto) == crypto_after_read(*old(crypto), incoming_view(incoming)),
        incoming_view(r) == decoded(*old(crypto), incoming_view(incoming)),
{
    match incoming {
        Some(Ok(frame)) => match crypto {
            Some(e) => Some(e.dec(frame)),
            None => Some(Ok(frame)),
        },
        other => other,
    }
}

/// Whether a message can be sealed under this encryption state.
pub(crate) fn can_encode(crypto: &Option<Encrypt>) -> (r: bool)
    ensures
        r == can_seal(*crypto),
{
    match crypto {
        Some(e) => e.1 < u64::MAX,
        None => true,
    }
}

/// Whether a frame can be opened under this encryption state.
pub(crate) fn can_decode(crypto: &Option<Encrypt>) -> (r: bool)
    ensures
        r == can_open(*crypto),
{
    match crypto {
        Some(e) => e.2 < u64::MAX,
        None => true,
    }
}

/// A framed connection: its link, its address, its encryption state and its send
/// timeout in milliseconds.
#[derive(Clone, PartialEq, Eq)]
pub struct FramedStream(pub Link, pub SocketAddr, pub Option<Encrypt>, pub u64);

impl FramedStream {
    /// A connection without encryption and without a send timeout.
    pub fn from(link: u64, addr: SocketAddr) -> (r: FramedStream)
        ensures
            r == FramedStream(Link { id: link, raw: false }, addr, None, 0),
    {
        FramedStream(Link { id: link, raw: false }, addr, None, 0)
    }

    /// Limits how long a write may take; zero lifts the limit.
    pub fn set_send_timeout(&mut self, ms: u64)
        ensures
            *final(self) == FramedStream(old(self).0, old(self).1, old(self).2, ms),
    {
        self.3 = ms;
    }

    /// The connection without framing and without encryption.
    pub open spec fn as_raw(self) -> FramedStream {
        FramedStream(Link { id: self.0.id, raw: true }, self.1, None, self.3)
    }

    /// Stops framing, and encrypting.
    pub fn set_raw(&mut self)
        ensures
            *final(self) == old(self).as_raw(),
    {
        self.0 = Link { id: self.0.id, raw: true };
        self.2 = None;
    }

    /// Starts encrypting, with fresh counts.
    pub fn set_key(&mut self, key: Key)
        ensures
            *final(self) == FramedStream(
                old(self).0,
                old(self).1,
                Some(Encrypt(key, 0, 0)),
                old(self).3,
            ),
    {
        self.2 = Some(Encrypt::new(key));
    }

    /// Whether messages are encrypted.
    pub fn is_secured(&self) -> (r: bool)
        ensures
            r == (self.2 is Some),
    {
        self.2.is_some()
    }

    /// The address of the connection.
    pub fn local_addr(&self) -> (r: SocketAddr)
        ensures
            r == self.1,
    {
        self.1
    }

    /// A frame written on this connection.
    pub open spec fn writes(self, frame: Seq<u8>) -> WriteView {
        WriteView { link: self.0, frame, timeout_ms: self.3 }
    }

    /// The connection with another encryption state.
    pub open spec fn with_crypto(self, crypto: Option<Encrypt>) -> FramedStream {
        FramedStream(self.0, self.1, crypto, self.3)
    }

    /// Sends a frame as it is: nothing is sealed and no count moves.
    pub fn send_bytes(&mut self, bytes: Vec<u8>) -> (r: Write)
        ensures
            *final(self) == *old(self),
            r@ == old(self).writes(bytes@),
    {
        Write { link: self.0, frame: bytes, timeout_ms: self.3 }
    }

    /// Sends a message, sealed if the connection is encrypted.
    pub fn send_raw(&mut self, msg: Vec<u8>) -> (r: Write)
        requires
            can_seal(old(self).2),
            sealable(msg@.len()),
        ensures
            *final(self) == old(self).with_crypto(crypto_after_send(old(self).2)),
            r@ == old(self).writes(frame_for(old(self).2, msg@)),
            readable_by_aligned(old(self).2, msg@, r.frame@),
    {
        let frame = encode(&mut self.2, msg);
        self.send_bytes(frame)
    }

    /// Takes what was read from the link, and opens it if the connection is
    /// encrypted.
    pub fn next(&mut self, incoming: Incoming) -> (r: Incoming)
        requires
            can_open(old(self).2) || !takes_nonce(incoming_view(incoming)),
        ensures
            *final(self) == old(self).with_crypto(
                crypto_after_read(old(self).2, incoming_view(incoming)),
            ),
            incoming_view(r) == decoded(old(self).2, incoming_view(incoming)),
    {
        decode(&mut self.2, incoming)
    }
}

} // verus!
