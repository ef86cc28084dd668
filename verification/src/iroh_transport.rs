//! iroh (QUIC) as a carrier of the session: identities, configuration and what
//! to make of its connections.
//!
//! An iroh identity is an Ed25519 public key, and so is a device's identity. The
//! iroh key is made of the device's own, so that the two are the same, and
//! checking one is checking the other.

use crate::hex_text::encode;
use crate::net::SocketAddr;
use crate::tcp::{FramedStream, Link};
use crate::text::{decimal, join2, join3};
use vstd::prelude::*;

verus! {

/// Name of this protocol among those that speak over iroh.
pub const ALPN: &'static str = "nervdesk/rustdesk-iroh-transport/0";

/// Code for closing a connection to the wrong peer.
pub const MISMATCH_CLOSE_CODE: u32 = 1;

/// Reason for closing a connection to the wrong peer.
pub const MISMATCH_CLOSE_REASON: &'static str = "endpoint id mismatch";

/// An iroh identity: the Ed25519 public key of an endpoint.
#[derive(Debug, Clone, Copy, PartialEq, Eq)]
pub struct EndpointId(pub [u8; 32]);

impl EndpointId {
    /// The identity in hexadecimal digits.
    pub fn display(&self) -> (r: String)
        ensures
            r@ == crate::hex_text::hex_digits(self.0@),
    {
        encode(self.0.as_slice())
    }

    /// Whether two identities are the same.
    pub fn same(&self, other: &EndpointId) -> (r: bool)
        ensures
            r == (self.0@ == other.0@),
    {
        let mut i: usize = 0;
        while i < 32
            invariant
                i <= 32,
                forall|j: int| 0 <= j < i ==> self.0@[j] == other.0@[j],
            decreases 32 - i,
        {
            if self.0[i] != other.0[i] {
                assert(self.0@[i as int] != other.0@[i as int]);
                return false;
            }
            i = i + 1;
        }
        assert(self.0@ == other.0@);
        true
    }
}

/// The seed of an Ed25519 key pair.
#[derive(PartialEq, Eq)]
pub struct SecretKey(pub [u8; 32]);

impl Clone for SecretKey {
    fn clone(&self) -> (r: SecretKey)
        ensures
            r == *self,
    {
        SecretKey(self.0)
    }
}

/// The Ed25519 public key that belongs to a seed.
pub uninterp spec fn public_key_of(seed: Seq<u8>) -> Seq<u8>;

/// Derives a public key with `iroh::SecretKey::from_bytes` and
/// `iroh::SecretKey::public`.
///
/// Claimed of it: the public key depends on the seed alone.
#[verifier::external_body]
fn derive_public_key(seed: &[u8; 32]) -> (r: [u8; 32])
    ensures
        r@ == public_key_of(seed@),
{
    *iroh::SecretKey::from_bytes(seed).public().as_bytes()
}

impl SecretKey {
    /// The identity that the key stands for.
    pub fn public(&self) -> (r: EndpointId)
        ensures
            r.0@ == public_key_of(self.0@),
    {
        EndpointId(derive_public_key(&self.0))
    }
}

/// How to set an iroh endpoint up.
#[derive(Clone)]
pub struct IrohConfig {
    /// Local address to bind to, by default `0.0.0.0:0`.
    pub bind_addr: Option<String>,
    /// Relays to use; none means direct connections only.
    pub relay_urls: Vec<String>,
    /// The device's own key, for a stable identity.
    pub secret_key: Option<SecretKey>,
}

impl Default for IrohConfig {
    fn default() -> (r: IrohConfig)
        ensures
            r.bind_addr is None,
            r.relay_urls@ == Seq::<String>::empty(),
            r.secret_key is None,
    {
        IrohConfig { bind_addr: None, relay_urls: Vec::new(), secret_key: None }
    }
}

/// What went wrong with iroh.
#[derive(Debug, Clone, PartialEq, Eq)]
pub enum TransportError {
    /// The device's private key is too short.
    ShortKey(usize),
    /// The local address is none.
    BindAddr(String),
    /// The local address cannot be used.
    BindRefused(String),
    /// A relay's address is none.
    RelayUrl(String),
    /// The endpoint did not start.
    Start(String),
    /// There is no endpoint yet.
    NotInitialized,
    /// The endpoint is bound to nothing.
    NoSocket,
    /// The connection failed.
    Connect(String),
    /// The connection is to somebody else.
    Mismatch { expected: EndpointId, actual: EndpointId },
    /// No stream was opened.
    OpenStream(String),
    /// The incoming connection was not accepted.
    Accept(String),
    /// The handshake failed.
    Handshake(String),
    /// No stream was accepted.
    AcceptStream(String),
}

impl TransportError {
    /// What the error is in words.
    pub open spec fn words(self) -> Seq<char> {
        match self {
            TransportError::ShortKey(len) => "RustDesk 私钥长度异常: "@
                + crate::text::decimal_text(len as nat) + " （期望 libsodium 的 64 字节）"@,
            TransportError::BindAddr(cause) => "iroh 绑定地址解析失败: "@ + cause@,
            TransportError::BindRefused(cause) => "iroh 绑定地址无效: "@ + cause@,
            TransportError::RelayUrl(cause) => "iroh relay 地址解析失败: "@ + cause@,
            TransportError::Start(cause) => "iroh endpoint 启动失败: "@ + cause@,
            TransportError::NotInitialized =>
                "iroh endpoint 尚未初始化，请先调用 init_endpoint()"@,
            TransportError::NoSocket => "iroh endpoint 没有绑定任何 socket"@,
            TransportError::Connect(cause) => "iroh 连接失败: "@ + cause@,
            TransportError::Mismatch { expected, actual } => "iroh 对端身份不一致: 期望 "@
                + crate::hex_text::hex_digits(expected.0@) + ", 实际 "@
                + crate::hex_text::hex_digits(actual.0@),
            TransportError::OpenStream(cause) => "iroh open_bi 失败: "@ + cause@,
            TransportError::Accept(cause) => "iroh 接受连接失败: "@ + cause@,
            TransportError::Handshake(cause) => "iroh 握手失败: "@ + cause@,
            TransportError::AcceptStream(cause) => "iroh accept_bi 失败: "@ + cause@,
        }
    }

    /// The error in words.
    pub fn message(&self) -> (r: String)
        ensures
            r@ == self.words(),
    {
        match self {
            TransportError::ShortKey(len) => {
                let len = decimal(*len as u64);
                join3(
                    "RustDesk 私钥长度异常: ",
                    len.as_str(),
                    " （期望 libsodium 的 64 字节）",
                )
            },
            TransportError::BindAddr(cause) => join2("iroh 绑定地址解析失败: ", cause.as_str()),
            TransportError::BindRefused(cause) => join2("iroh 绑定地址无效: ", cause.as_str()),
            TransportError::RelayUrl(cause) => join2("iroh relay 地址解析失败: ", cause.as_str()),
            TransportError::Start(cause) => join2("iroh endpoint 启动失败: ", cause.as_str()),
            TransportError::NotInitialized =>
                "iroh endpoint 尚未初始化，请先调用 init_endpoint()".to_owned(),
            TransportError::NoSocket => "iroh endpoint 没有绑定任何 socket".to_owned(),
            TransportError::Connect(cause) => join2("iroh 连接失败: ", cause.as_str()),
            TransportError::Mismatch { expected, actual } => {
                let expected = expected.display();
                let actual = actual.display();
                let head = join3("iroh 对端身份不一致: 期望 ", expected.as_str(), ", 实际 ");
                join2(head.as_str(), actual.as_str())
            },
            TransportError::OpenStream(cause) => join2("iroh open_bi 失败: ", cause.as_str()),
            TransportError::Accept(cause) => join2("iroh 接受连接失败: ", cause.as_str()),
            TransportError::Handshake(cause) => join2("iroh 握手失败: ", cause.as_str()),
            TransportError::AcceptStream(cause) => join2("iroh accept_bi 失败: ", cause.as_str()),
        }
    }
}

/// The address that iroh connections go by. They have none of their own, and
/// `0.0.0.0:0` is easily told apart.
pub fn sentinel_addr() -> (r: SocketAddr)
    ensures
        r.is_unspecified(),
{
    SocketAddr::unspecified()
}

/// A session over an iroh stream: framed, not encrypted yet, at the address that
/// iroh connections go by.
pub fn framed_stream_from_iroh(link: u64) -> (r: FramedStream)
    ensures
        r.0 == (Link { id: link, raw: false }),
        r.1.is_unspecified(),
        r.2 is None,
        r.3 == 0,
{
    FramedStream::from(link, sentinel_addr())
}

/// A key pair as libsodium keeps it: the private part is the seed followed by the
/// public part, and the public part is the seed's Ed25519 public key.
pub open spec fn is_device_key_pair(private: Seq<u8>, public: Seq<u8>) -> bool {
    private.len() == 64 && private.skip(32) == public && public == public_key_of(private.take(32))
}

/// Makes the iroh key out of the device's key pair, of which the private part
/// comes first. That begins with the seed, which is what iroh takes. A key too
/// short to hold a seed is refused. The iroh identity is the device's own: the
/// public part of its key pair.
pub fn secret_key_from_rustdesk(key_pair: &(Vec<u8>, Vec<u8>)) -> (r: Result<
    SecretKey,
    TransportError,
>)
    ensures
        match r {
            Ok(key) => key_pair.0@.len() >= 32 && key.0@ == key_pair.0@.take(32),
            Err(e) => key_pair.0@.len() < 32 && (e matches TransportError::ShortKey(len) && len
                == key_pair.0@.len()),
        },
        is_device_key_pair(key_pair.0@, key_pair.1@) ==> (r matches Ok(key) && public_key_of(
            key.0@,
        ) == key_pair.1@),
{
    let sk = &key_pair.0;
    if sk.len() < 32 {
        return Err(TransportError::ShortKey(sk.len()));
    }
    let mut seed: [u8; 32] = [0; 32];
    let mut i: usize = 0;
    while i < 32
        invariant
            i <= 32,
            sk@.len() >= 32,
            seed@.len() == 32,
            forall|j: int| 0 <= j < i ==> seed@[j] == sk@[j],
        decreases 32 - i,
    {
        seed[i] = sk[i];
        i = i + 1;
    }
    assert(seed@ == sk@.take(32));
    Ok(SecretKey(seed))
}

/// The local address to bind to, as text.
pub fn bind_text(config: &IrohConfig) -> (r: &str)
    ensures
        r@ == match config.bind_addr {
            Some(addr) => addr@,
            None => "0.0.0.0:0"@,
        },
{
    match &config.bind_addr {
        Some(addr) => addr.as_str(),
        None => "0.0.0.0:0",
    }
}

/// Why iroh does not take a text for a relay's address, if it does not.
pub uninterp spec fn relay_url_error(url: Seq<char>) -> Option<Seq<char>>;

/// What checking a relay's address gave, with its text as characters.
pub open spec fn checked_view(checked: Result<(), String>) -> Option<Seq<char>> {
    match checked {
        Ok(_) => None,
        Err(cause) => Some(cause@),
    }
}

/// Checks a relay's address by parsing it as an `iroh::RelayUrl`.
///
/// Claimed of it: whether the text is an address, and the words for one that is
/// none, depend on the text alone.
#[verifier::external_body]
fn check_relay_url(url: &str) -> (r: Result<(), String>)
    ensures
        checked_view(r) == relay_url_error(url@),
{
    match url.parse::<iroh::RelayUrl>() {
        Ok(_) => Ok(()),
        Err(e) => Err(e.to_string()),
    }
}

/// Relays with their text as characters.
pub open spec fn urls_view(urls: Seq<String>) -> Seq<Seq<char>> {
    urls.map_values(|u: String| u@)
}

/// How an endpoint is to be set up, once it is known that it can be.
pub struct EndpointPlan {
    /// Local address to bind to.
    pub bind: SocketAddr,
    /// The protocol that is spoken.
    pub alpn: Vec<u8>,
    /// The endpoint's key; without one it makes one up.
    pub secret_key: Option<SecretKey>,
    /// Relays to use; none means that relaying is off.
    pub relays: Vec<String>,
}

/// Every one of the first so many checks passed.
pub open spec fn passed_up_to(checks: Seq<Result<(), String>>, end: int) -> bool {
    forall|i: int| 0 <= i < end ==> (#[trigger] checks[i]) is Ok
}

/// Whether all relays passed their check: the first that did not is the error.
pub fn relays_checked(checks: &Vec<Result<(), String>>) -> (r: Result<(), TransportError>)
    ensures
        match r {
            Ok(_) => passed_up_to(checks@, checks@.len() as int),
            Err(e) => exists|i: int|
                0 <= i < checks@.len() && passed_up_to(checks@, i) && (
                #[trigger] checks@[i] matches Err(cause) && e.words()
                    == "iroh relay 地址解析失败: "@ + cause@),
        },
{
    let mut i: usize = 0;
    while i < checks.len()
        invariant
            i <= checks@.len(),
            passed_up_to(checks@, i as int),
        decreases checks@.len() - i,
    {
        match &checks[i] {
            Ok(_) => {},
            Err(cause) => {
                let e = TransportError::RelayUrl(cause.clone());
                assert(checks@[i as int] matches Err(cause) && e.words()
                    == "iroh relay 地址解析失败: "@ + cause@);
                return Err(e);
            },
        }
        i = i + 1;
    }
    Ok(())
}

/// Every one of the first so many texts is a relay's address.
pub open spec fn urls_up_to(urls: Seq<Seq<char>>, end: int) -> bool {
    forall|i: int| 0 <= i < end ==> relay_url_error(#[trigger] urls[i]) is None
}

/// Plans an endpoint, given what became of the local address. What is wrong with
/// that is reported first, then the first relay that is none.
pub fn build_endpoint(config: IrohConfig, bind: Result<SocketAddr, TransportError>) -> (r: Result<
    EndpointPlan,
    TransportError,
>)
    ensures
        match (bind, r) {
            (Ok(addr), Ok(plan)) => plan.bind == addr && plan.alpn@ == vstd::utf8::encode_utf8(
                ALPN@,
            ) && plan.secret_key == config.secret_key && plan.relays == config.relay_urls
                && urls_up_to(urls_view(config.relay_urls@), config.relay_urls@.len() as int),
            (Ok(_), Err(e)) => exists|i: int|
                0 <= i < config.relay_urls@.len() && urls_up_to(urls_view(config.relay_urls@), i)
                    && relay_url_error(#[trigger] config.relay_urls@[i]@) is Some && e.words()
                    == "iroh relay 地址解析失败: "@ + relay_url_error(config.relay_urls@[i]@)->0,
            (Err(cause), Err(e)) => e == cause,
            (Err(_), Ok(_)) => false,
        },
{
    let bind = match bind {
        Ok(addr) => addr,
        Err(e) => {
            return Err(e);
        },
    };
    let mut checks: Vec<Result<(), String>> = Vec::new();
    let mut i: usize = 0;
    while i < config.relay_urls.len()
        invariant
            i <= config.relay_urls@.len(),
            checks@.len() == i,
            forall|j: int|
                0 <= j < i ==> checked_view(#[trigger] checks@[j]) == relay_url_error(
                    config.relay_urls@[j]@,
                ),
        decreases config.relay_urls@.len() - i,
    {
        checks.push(check_relay_url(config.relay_urls[i].as_str()));
        i = i + 1;
    }
    match relays_checked(&checks) {
        Ok(_) => {
            proof {
                let urls = urls_view(config.relay_urls@);
                assert forall|k: int| 0 <= k < urls.len() implies relay_url_error(
                    #[trigger] urls[k],
                ) is None by {
                    assert(checks@[k] is Ok);
                }
            }
            Ok(
                EndpointPlan {
                    bind,
                    alpn: vstd::slice::slice_to_vec(ALPN.as_bytes()),
                    secret_key: config.secret_key,
                    relays: config.relay_urls,
                },
            )
        },
        Err(e) => {
            proof {
                let urls = urls_view(config.relay_urls@);
                let k = choose|k: int|
                    0 <= k < checks@.len() && passed_up_to(checks@, k) && (
                    #[trigger] checks@[k] matches Err(cause) && e.words()
                        == "iroh relay 地址解析失败: "@ + cause@);
                assert(checked_view(checks@[k]) == relay_url_error(config.relay_urls@[k]@));
                assert forall|j: int| 0 <= j < k implies relay_url_error(#[trigger] urls[j])
                    is None by {
                    assert(checks@[j] is Ok);
                }
            }
            Err(e)
        },
    }
}

/// The identity of the endpoint, if there is one.
pub fn endpoint_id(id: Option<EndpointId>) -> (r: Result<EndpointId, TransportError>)
    ensures
        r == match id {
            Some(id) => Ok::<EndpointId, TransportError>(id),
            None => Err(TransportError::NotInitialized),
        },
{
    match id {
        Some(id) => Ok(id),
        None => Err(TransportError::NotInitialized),
    }
}

/// The first address that the endpoint is bound to, given all of them if there is
/// an endpoint.
pub fn bound_socket(sockets: Option<Vec<SocketAddr>>) -> (r: Result<SocketAddr, TransportError>)
    ensures
        r == match sockets {
            Some(sockets) => if sockets@.len() > 0 {
                Ok::<SocketAddr, TransportError>(sockets@[0])
            } else {
                Err(TransportError::NoSocket)
            },
            None => Err(TransportError::NotInitialized),
        },
{
    match sockets {
        Some(sockets) => if sockets.len() > 0 {
            Ok(sockets[0])
        } else {
            Err(TransportError::NoSocket)
        },
        None => Err(TransportError::NotInitialized),
    }
}

/// Whether a connection is to whom it should be, given the identity that the
/// handshake has proved. On a mismatch the connection is to be closed, with
/// [`MISMATCH_CLOSE_CODE`].
pub fn connect_from(expected: EndpointId, connected: Result<EndpointId, String>) -> (r: Result<
    EndpointId,
    TransportError,
>)
    ensures
        match (connected, r) {
            (Ok(actual), Ok(peer)) => peer == actual && actual.0@ == expected.0@,
            (Ok(actual), Err(e)) => actual.0@ != expected.0@ && e == (TransportError::Mismatch {
                expected,
                actual,
            }),
            (Err(cause), Err(e)) => e == TransportError::Connect(cause),
            (Err(_), Ok(_)) => false,
        },
{
    match connected {
        Ok(actual) => if actual.same(&expected) {
            Ok(actual)
        } else {
            Err(TransportError::Mismatch { expected, actual })
        },
        Err(cause) => Err(TransportError::Connect(cause)),
    }
}

/// The session to a peer, given what opening a stream gave.
pub fn session_with(peer: EndpointId, opened: Result<u64, String>) -> (r: Result<
    (FramedStream, EndpointId),
    TransportError,
>)
    ensures
        match (opened, r) {
            (Ok(link), Ok((stream, id))) => id == peer && stream.0 == (Link { id: link, raw: false })
                && stream.1.is_unspecified() && stream.2 is None && stream.3 == 0,
            (Err(cause), Err(e)) => e == TransportError::OpenStream(cause),
            _ => false,
        },
{
    match opened {
        Ok(link) => Ok((framed_stream_from_iroh(link), peer)),
        Err(cause) => Err(TransportError::OpenStream(cause)),
    }
}

/// How far accepting a connection came.
#[derive(Debug, Clone, PartialEq, Eq)]
pub enum Accepted {
    /// The endpoint is closed.
    Closed,
    /// The connection was not accepted.
    Refused(String),
    /// The handshake failed.
    HandshakeFailed(String),
    /// The peer opened no stream.
    NoStream(String),
    /// A stream known by this number, from this peer.
    Stream(u64, EndpointId),
}

/// What accepting a connection gave; nothing once the endpoint is closed.
pub fn accept_one(accepted: Accepted) -> (r: Result<
    Option<(FramedStream, EndpointId)>,
    TransportError,
>)
    ensures
        match (accepted, r) {
            (Accepted::Closed, Ok(None)) => true,
            (Accepted::Refused(cause), Err(e)) => e == TransportError::Accept(cause),
            (Accepted::HandshakeFailed(cause), Err(e)) => e == TransportError::Handshake(cause),
            (Accepted::NoStream(cause), Err(e)) => e == TransportError::AcceptStream(cause),
            (Accepted::Stream(link, peer), Ok(Some((stream, id)))) => id == peer && stream.0 == (
            Link { id: link, raw: false }) && stream.1.is_unspecified() && stream.2 is None
                && stream.3 == 0,
            _ => false,
        },
{
    match accepted {
        Accepted::Closed => Ok(None),
        Accepted::Refused(cause) => Err(TransportError::Accept(cause)),
        Accepted::HandshakeFailed(cause) => Err(TransportError::Handshake(cause)),
        Accepted::NoStream(cause) => Err(TransportError::AcceptStream(cause)),
        Accepted::Stream(link, peer) => Ok(Some((framed_stream_from_iroh(link), peer))),
    }
}

/// What to do after a connection was accepted, or not.
pub enum AcceptLoop {
    /// Hand this session over, and go on.
    Handle(FramedStream, EndpointId),
    /// Go on: any host can send packets, so a failure is nothing unusual.
    Ignore(TransportError),
    /// End: the endpoint is closed.
    Stop,
}

/// What to do after a connection was accepted, or not. Only closing the endpoint
/// ends the loop.
pub fn run_accept_loop(
    accepted: Result<Option<(FramedStream, EndpointId)>, TransportError>,
) -> (r: AcceptLoop)
    ensures
        r == match accepted {
            Ok(Some((stream, peer))) => AcceptLoop::Handle(stream, peer),
            Ok(None) => AcceptLoop::Stop,
            Err(e) => AcceptLoop::Ignore(e),
        },
{
    match accepted {
        Ok(Some((stream, peer))) => AcceptLoop::Handle(stream, peer),
        Ok(None) => AcceptLoop::Stop,
        Err(e) => AcceptLoop::Ignore(e),
    }
}

} // verus!
