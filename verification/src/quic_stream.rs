//! QUIC over the UDP socket that hole punching has opened.
//!
//! The caller owns the socket and the QUIC endpoint, and waits. This module says
//! which transport may be used, with which settings, what to wait for next and
//! for how long, and what the outcome means. TLS is there because QUIC asks for
//! it: the peer is authenticated above this transport, as on every other.

use crate::net::SocketAddr;
use crate::stream::{Stream, StreamView};
use crate::tcp::{FramedStream, Link};
use crate::text::{decimal, join2, join3, quote, same_text, to_ascii_lowercase, trim};
use vstd::prelude::*;

verus! {

/// Name of this protocol in the TLS handshake, so that other QUIC endpoints
/// decline.
pub const ALPN: &'static str = "rustdesk-quic";

/// Server name in the TLS handshake. Nobody checks it.
pub const SERVER_NAME: &'static str = "quic.rustdesk.local";

/// Largest UDP payload that is sent and accepted. The path that this is made for
/// drops 1469 bytes and passes 1447; with its headers such a packet fits into an
/// Ethernet frame.
pub const MAX_UDP_PAYLOAD_SIZE: u16 = 1447;

/// A session that is silent for so long is given up by both ends.
pub const IDLE_TIMEOUT_SECS: u64 = 30;

/// How often something is sent to keep NAT mappings alive.
pub const KEEP_ALIVE_SECS: u64 = 5;

/// How long QUIC is tried if another transport may follow. It has to be less than
/// the time for which a relayed result is held back.
pub const PROBE_TIMEOUT_MS: u64 = 2_000;

/// Application code for closing a connection.
pub const CLOSE_CODE: u32 = 0;

/// What this transport is called in reports.
pub const TYP: &'static str = "QUIC";

/// Which transport the direct path may use.
#[derive(Debug, Clone, Copy, PartialEq, Eq, Structural)]
pub enum Mode {
    /// QUIC if the peer answers, else what came before it.
    Auto,
    /// QUIC and nothing else: a failure is reported.
    Quic,
    /// Never QUIC.
    Tcp,
}

/// The mode that an option's text stands for: `quic` and `tcp` in any case and
/// with any space around, and otherwise the default.
pub open spec fn mode_of(raw: Seq<char>) -> Mode {
    let word = crate::text::ascii_lowercase(crate::text::trimmed(raw));
    if word == "quic"@ {
        Mode::Quic
    } else if word == "tcp"@ {
        Mode::Tcp
    } else {
        Mode::Auto
    }
}

/// Reads the text of the `transport-mode` option.
pub fn parse_mode(raw: &str) -> (r: Mode)
    ensures
        r == mode_of(raw@),
{
    let word = to_ascii_lowercase(trim(raw));
    if same_text(word.as_str(), "quic") {
        Mode::Quic
    } else if same_text(word.as_str(), "tcp") {
        Mode::Tcp
    } else {
        Mode::Auto
    }
}

/// Whether an option's text is one of those that are documented: a mode's name, or
/// nothing.
pub open spec fn documented(raw: Seq<char>) -> bool {
    let word = crate::text::ascii_lowercase(crate::text::trimmed(raw));
    word == "quic"@ || word == "tcp"@ || word == "auto"@ || word.len() == 0
}

/// Whether the text of the `transport-mode` option is a documented one. Any other
/// means the default, and is worth a warning.
pub fn is_documented(raw: &str) -> (r: bool)
    ensures
        r == documented(raw@),
{
    let word = to_ascii_lowercase(trim(raw));
    let word = word.as_str();
    word.is_empty() || same_text(word, "quic") || same_text(word, "tcp") || same_text(
        word,
        "auto",
    )
}

/// The mode in force, given the text of the `transport-mode` option. An option
/// that is not set reads as empty, and means the default.
pub fn mode(option: &str) -> (r: Mode)
    ensures
        r == mode_of(option@),
{
    parse_mode(option)
}

/// Whether QUIC is tried at all, given the text of the `transport-mode` option.
pub fn enabled(option: &str) -> (r: bool)
    ensures
        r == (mode_of(option@) != Mode::Tcp),
{
    mode(option) != Mode::Tcp
}

/// How long a QUIC attempt as a whole may take out of the caller's budget.
pub open spec fn budget(mode: Mode, timeout_ms: u64) -> u64 {
    if mode == Mode::Auto && timeout_ms > PROBE_TIMEOUT_MS {
        PROBE_TIMEOUT_MS
    } else {
        timeout_ms
    }
}

/// How long a QUIC attempt as a whole may take. Where another transport may
/// follow, a peer that does not speak QUIC must not use the caller's budget up.
pub fn budget_ms(mode: Mode, timeout_ms: u64) -> (r: u64)
    ensures
        r == budget(mode, timeout_ms),
{
    if mode == Mode::Auto {
        if timeout_ms < PROBE_TIMEOUT_MS {
            timeout_ms
        } else {
            PROBE_TIMEOUT_MS
        }
    } else {
        timeout_ms
    }
}

/// What went wrong with QUIC.
#[derive(Debug, Clone, PartialEq, Eq)]
pub enum QuicError {
    /// QUIC was asked for, and another transport was used.
    FellBack(String),
    /// The socket is not connected to the peer.
    NotPunched,
    /// The socket's address cannot be read.
    NoSocketAddr,
    /// The payload size was refused.
    PayloadSize(String),
    /// The idle timeout was refused.
    IdleTimeout(String),
    /// There is no async runtime that QUIC can use.
    NoRuntime,
    /// The endpoint did not start on this address.
    EndpointStart(String),
    /// The client's TLS settings were refused.
    ClientTls(String),
    /// The client's TLS settings cannot be used for QUIC.
    ClientCrypto(String),
    /// No certificate was made.
    Certificate(String),
    /// The server's TLS settings were refused.
    ServerTls(String),
    /// The server's certificate was refused.
    ServerCertificate(String),
    /// The server's TLS settings cannot be used for QUIC.
    ServerCrypto(String),
    /// The handshake with this peer did not begin.
    HandshakeStart(String),
    /// The handshake with this peer failed.
    HandshakeFailed { peer: String, cause: String },
    /// The handshake with this peer took too long.
    HandshakeTimedOut { peer: String, budget_ms: u64 },
    /// The endpoint's address cannot be read.
    NoEndpointAddr,
    /// The session stream did not open.
    OpenFailed(String),
    /// The session stream took too long to open.
    OpenTimedOut(u64),
    /// The endpoint was closed while waiting for a peer.
    ClosedEarly,
    /// No peer came in time.
    NoPeer(u64),
    /// The handshake with the peer that came failed.
    PeerHandshakeFailed(String),
    /// The handshake with the peer that came took too long.
    PeerHandshakeTimedOut(u64),
    /// The peer's session stream could not be accepted.
    AcceptFailed(String),
    /// The peer opened no session stream in time.
    AcceptTimedOut(u64),
}

impl QuicError {
    /// What the error is in words.
    pub open spec fn words(self) -> Seq<char> {
        match self {
            QuicError::FellBack(typ) =>
                "transport-mode is \"quic\" but the connection fell back to "@
                + crate::text::quoted(typ@),
            QuicError::NotPunched => "the punched UDP socket is not connected to the peer"@,
            QuicError::NoSocketAddr => "failed to read the punched socket's address"@,
            QuicError::PayloadSize(cause) => "QUIC max_udp_payload_size rejected: "@ + cause@,
            QuicError::IdleTimeout(cause) => "QUIC idle timeout rejected: "@ + cause@,
            QuicError::NoRuntime => "no QUIC-compatible async runtime available"@,
            QuicError::EndpointStart(addr) => "failed to start a QUIC endpoint on "@ + addr@,
            QuicError::ClientTls(cause) => "QUIC client TLS setup failed: "@ + cause@,
            QuicError::ClientCrypto(cause) => "QUIC client crypto rejected: "@ + cause@,
            QuicError::Certificate(cause) => "failed to generate the QUIC certificate: "@ + cause@,
            QuicError::ServerTls(cause) => "QUIC server TLS setup failed: "@ + cause@,
            QuicError::ServerCertificate(cause) => "QUIC server certificate rejected: "@ + cause@,
            QuicError::ServerCrypto(cause) => "QUIC server crypto rejected: "@ + cause@,
            QuicError::HandshakeStart(peer) => "failed to start a QUIC handshake with "@ + peer@,
            QuicError::HandshakeFailed { peer, cause } => "QUIC handshake with "@ + peer@
                + " failed: "@ + cause@,
            QuicError::HandshakeTimedOut { peer, budget_ms } => "QUIC handshake with "@ + peer@
                + " timed out after "@ + crate::text::decimal_text(budget_ms as nat) + " ms"@,
            QuicError::NoEndpointAddr => "failed to read the QUIC endpoint's address"@,
            QuicError::OpenFailed(cause) => "failed to open the QUIC session stream: "@ + cause@,
            QuicError::OpenTimedOut(budget_ms) => "the QUIC session stream did not open within "@
                + crate::text::decimal_text(budget_ms as nat) + " ms"@,
            QuicError::ClosedEarly => "the QUIC endpoint closed before a peer connected"@,
            QuicError::NoPeer(budget_ms) => "no QUIC connection arrived within "@
                + crate::text::decimal_text(budget_ms as nat) + " ms"@,
            QuicError::PeerHandshakeFailed(cause) =>
                "the QUIC handshake with the controller failed: "@ + cause@,
            QuicError::PeerHandshakeTimedOut(budget_ms) =>
                "the QUIC handshake did not complete within "@ + crate::text::decimal_text(
                budget_ms as nat,
            ) + " ms"@,
            QuicError::AcceptFailed(cause) => "failed to accept the QUIC session stream: "@
                + cause@,
            QuicError::AcceptTimedOut(budget_ms) =>
                "the controller did not open a QUIC session stream within "@
                + crate::text::decimal_text(budget_ms as nat) + " ms"@,
        }
    }

    /// The error in words.
    pub fn message(&self) -> (r: String)
        ensures
            r@ == self.words(),
    {
        match self {
            QuicError::FellBack(typ) => {
                let quoted = quote(typ.as_str());
                join2(
                    "transport-mode is \"quic\" but the connection fell back to ",
                    quoted.as_str(),
                )
            },
            QuicError::NotPunched =>
                "the punched UDP socket is not connected to the peer".to_owned(),
            QuicError::NoSocketAddr => "failed to read the punched socket's address".to_owned(),
            QuicError::PayloadSize(cause) => join2(
                "QUIC max_udp_payload_size rejected: ",
                cause.as_str(),
            ),
            QuicError::IdleTimeout(cause) => join2("QUIC idle timeout rejected: ", cause.as_str()),
            QuicError::NoRuntime => "no QUIC-compatible async runtime available".to_owned(),
            QuicError::EndpointStart(addr) => join2(
                "failed to start a QUIC endpoint on ",
                addr.as_str(),
            ),
            QuicError::ClientTls(cause) => join2("QUIC client TLS setup failed: ", cause.as_str()),
            QuicError::ClientCrypto(cause) => join2("QUIC client crypto rejected: ", cause.as_str()),
            QuicError::Certificate(cause) => join2(
                "failed to generate the QUIC certificate: ",
                cause.as_str(),
            ),
            QuicError::ServerTls(cause) => join2("QUIC server TLS setup failed: ", cause.as_str()),
            QuicError::ServerCertificate(cause) => join2(
                "QUIC server certificate rejected: ",
                cause.as_str(),
            ),
            QuicError::ServerCrypto(cause) => join2("QUIC server crypto rejected: ", cause.as_str()),
            QuicError::HandshakeStart(peer) => join2(
                "failed to start a QUIC handshake with ",
                peer.as_str(),
            ),
            QuicError::HandshakeFailed { peer, cause } => {
                let head = join3("QUIC handshake with ", peer.as_str(), " failed: ");
                join2(head.as_str(), cause.as_str())
            },
            QuicError::HandshakeTimedOut { peer, budget_ms } => {
                let head = join3("QUIC handshake with ", peer.as_str(), " timed out after ");
                milliseconds(head.as_str(), *budget_ms)
            },
            QuicError::NoEndpointAddr => "failed to read the QUIC endpoint's address".to_owned(),
            QuicError::OpenFailed(cause) => join2(
                "failed to open the QUIC session stream: ",
                cause.as_str(),
            ),
            QuicError::OpenTimedOut(budget_ms) => milliseconds(
                "the QUIC session stream did not open within ",
                *budget_ms,
            ),
            QuicError::ClosedEarly => "the QUIC endpoint closed before a peer connected".to_owned(),
            QuicError::NoPeer(budget_ms) => milliseconds(
                "no QUIC connection arrived within ",
                *budget_ms,
            ),
            QuicError::PeerHandshakeFailed(cause) => join2(
                "the QUIC handshake with the controller failed: ",
                cause.as_str(),
            ),
            QuicError::PeerHandshakeTimedOut(budget_ms) => milliseconds(
                "the QUIC handshake did not complete within ",
                *budget_ms,
            ),
            QuicError::AcceptFailed(cause) => join2(
                "failed to accept the QUIC session stream: ",
                cause.as_str(),
            ),
            QuicError::AcceptTimedOut(budget_ms) => milliseconds(
                "the controller did not open a QUIC session stream within ",
                *budget_ms,
            ),
        }
    }
}

/// Puts a number of milliseconds behind a text.
fn milliseconds(head: &str, ms: u64) -> (r: String)
    ensures
        r@ == head@ + crate::text::decimal_text(ms as nat) + " ms"@,
{
    let number = decimal(ms);
    join3(head, number.as_str(), " ms")
}

/// Refuses a transport other than QUIC where QUIC was asked for, given the text
/// of the `transport-mode` option. An empty name means that the attempt has failed
/// already, with an error of its own.
pub fn require(option: &str, typ: &str) -> (r: Result<(), QuicError>)
    ensures
        match r {
            Err(e) => mode_of(option@) == Mode::Quic && typ@.len() > 0 && typ@ != TYP@
                && e.words() == "transport-mode is \"quic\" but the connection fell back to "@
                + crate::text::quoted(typ@),
            Ok(_) => mode_of(option@) != Mode::Quic || typ@.len() == 0 || typ@ == TYP@,
        },
{
    if mode(option) == Mode::Quic && !typ.is_empty() && !same_text(typ, TYP) {
        return Err(QuicError::FellBack(typ.to_owned()));
    }
    Ok(())
}

/// Settings that both ends use for a connection.
#[derive(Debug, Clone, Copy, PartialEq, Eq, Structural)]
pub struct TransportSettings {
    /// Size of the packets that are sent.
    pub initial_mtu: u16,
    /// Whether larger packets are tried. The path drops them without a word, so
    /// there is nothing to learn from trying.
    pub mtu_discovery: bool,
    pub keep_alive_secs: u64,
    pub idle_timeout_secs: u64,
}

/// Checks an idle timeout with `quinn::IdleTimeout::try_from`.
///
/// Claimed of it: exactly the durations of less than 2^62 milliseconds are taken.
#[verifier::external_body]
fn check_idle_timeout(secs: u64) -> (r: Result<(), String>)
    ensures
        r is Ok <==> secs * 1000 < 0x4000_0000_0000_0000,
{
    match quinn::IdleTimeout::try_from(std::time::Duration::from_secs(secs)) {
        Ok(_) => Ok(()),
        Err(e) => Err(e.to_string()),
    }
}

/// Settings that both ends use for a connection.
pub fn transport_config() -> (r: Result<TransportSettings, QuicError>)
    ensures
        r == Ok::<TransportSettings, QuicError>(
            TransportSettings {
                initial_mtu: MAX_UDP_PAYLOAD_SIZE,
                mtu_discovery: false,
                keep_alive_secs: KEEP_ALIVE_SECS,
                idle_timeout_secs: IDLE_TIMEOUT_SECS,
            },
        ),
{
    match check_idle_timeout(IDLE_TIMEOUT_SECS) {
        Ok(_) => Ok(
            TransportSettings {
                initial_mtu: MAX_UDP_PAYLOAD_SIZE,
                mtu_discovery: false,
                keep_alive_secs: KEEP_ALIVE_SECS,
                idle_timeout_secs: IDLE_TIMEOUT_SECS,
            },
        ),
        Err(cause) => Err(QuicError::IdleTimeout(cause)),
    }
}

/// Settings of an endpoint, as quinn holds them.
#[verifier::external_type_specification]
#[verifier::external_body]
pub struct ExEndpointConfig(quinn::EndpointConfig);

/// The largest UDP payload that an endpoint of these settings accepts.
pub uninterp spec fn payload_size_of(config: quinn::EndpointConfig) -> u64;

/// Makes an endpoint's settings with `quinn::EndpointConfig::default`, and sets
/// the payload size that it accepts with `max_udp_payload_size`.
///
/// Claimed of it: sizes from 1200 to 65527 are taken, and are then what
/// `get_max_udp_payload_size` gives; any other is refused. Nothing is claimed of
/// the other settings.
#[verifier::external_body]
fn sized_endpoint_config(size: u16) -> (r: Result<quinn::EndpointConfig, String>)
    ensures
        match r {
            Ok(config) => 1200 <= size <= 65527 && payload_size_of(config) == size,
            Err(_) => !(1200 <= size <= 65527),
        },
{
    let mut config = quinn::EndpointConfig::default();
    match config.max_udp_payload_size(size) {
        Ok(_) => Ok(config),
        Err(e) => Err(e.to_string()),
    }
}

/// Settings of an endpoint that accepts exactly what the path carries.
pub fn endpoint_config() -> (r: Result<quinn::EndpointConfig, QuicError>)
    ensures
        r matches Ok(config) && payload_size_of(config) == MAX_UDP_PAYLOAD_SIZE,
{
    match sized_endpoint_config(MAX_UDP_PAYLOAD_SIZE) {
        Ok(config) => Ok(config),
        Err(cause) => Err(QuicError::PayloadSize(cause)),
    }
}

/// Which end of the connection this is.
#[derive(Debug, Clone, PartialEq, Eq)]
pub enum Side {
    /// It dials the peer at this address.
    Dialing(String),
    /// It waits for the peer.
    Accepting,
}

/// [`Side`] with its text as characters.
#[verifier::ext_equal]
pub enum SideView {
    Dialing(Seq<char>),
    Accepting,
}

impl View for Side {
    type V = SideView;

    open spec fn view(&self) -> SideView {
        match self {
            Side::Dialing(peer) => SideView::Dialing(peer@),
            Side::Accepting => SideView::Accepting,
        }
    }
}

/// How far an attempt has come.
#[derive(Debug, Clone, Copy, PartialEq, Eq)]
pub enum Stage {
    /// The endpoint is being set up.
    Starting,
    /// A peer is waited for.
    Arriving,
    /// The handshake is under way.
    Handshaking,
    /// The endpoint's address is being read.
    Addressing,
    /// The session stream is being opened, on an endpoint of this address.
    Opening(SocketAddr),
    /// The attempt has succeeded or failed.
    Over,
}

/// What can happen to an attempt.
#[derive(Debug, Clone, PartialEq, Eq)]
pub enum AttemptEvent {
    /// The endpoint is up and, if this end dials, the handshake has begun.
    Started,
    /// The endpoint could not be set up.
    SetupFailed(QuicError),
    /// A peer has come.
    Arrived,
    /// The endpoint was closed.
    Closed,
    /// The handshake is done.
    Connected,
    /// The endpoint's address was read.
    LocalAddr(SocketAddr),
    /// The session stream is open, and known by this number.
    Opened(u64),
    /// What was waited for failed.
    Failed(String),
    /// What was waited for took too long.
    TimedOut,
}

/// What the caller has to do for an attempt.
pub enum QuicStep {
    /// Set the endpoint up and, if this end dials, begin the handshake.
    Start,
    /// Wait for a peer, at most so long.
    AwaitPeer { limit_ms: u64 },
    /// Wait for the handshake, at most so long.
    Handshake { limit_ms: u64 },
    /// Read the endpoint's address.
    ReadLocalAddr,
    /// Open the session stream, in at most so long.
    OpenStream { limit_ms: u64 },
    /// Wait for the peer to open the session stream, at most so long.
    AcceptStream { limit_ms: u64 },
    /// Use this connection.
    Done(Stream),
    /// Give up.
    Failed(QuicError),
    /// Nothing: the attempt is over.
    Over,
}

/// [`QuicStep`] with its connection as a value and its error in words.
#[verifier::ext_equal]
pub enum StepView {
    Start,
    AwaitPeer { limit_ms: u64 },
    Handshake { limit_ms: u64 },
    ReadLocalAddr,
    OpenStream { limit_ms: u64 },
    AcceptStream { limit_ms: u64 },
    Done(StreamView),
    Failed(Seq<char>),
    Over,
}

impl View for QuicStep {
    type V = StepView;

    open spec fn view(&self) -> StepView {
        match self {
            QuicStep::Start => StepView::Start,
            QuicStep::AwaitPeer { limit_ms } => StepView::AwaitPeer { limit_ms: *limit_ms },
            QuicStep::Handshake { limit_ms } => StepView::Handshake { limit_ms: *limit_ms },
            QuicStep::ReadLocalAddr => StepView::ReadLocalAddr,
            QuicStep::OpenStream { limit_ms } => StepView::OpenStream { limit_ms: *limit_ms },
            QuicStep::AcceptStream { limit_ms } => StepView::AcceptStream { limit_ms: *limit_ms },
            QuicStep::Done(stream) => StepView::Done(stream@),
            QuicStep::Failed(e) => StepView::Failed(e.words()),
            QuicStep::Over => StepView::Over,
        }
    }
}

/// An attempt to get a QUIC connection to the peer, with a budget of time for all
/// of it.
pub struct Attempt {
    side: Side,
    budget_ms: u64,
    /// What is left of the budget.
    left_ms: u64,
    stage: Stage,
}

/// [`Attempt`] with its text as characters.
#[verifier::ext_equal]
pub struct AttemptView {
    pub side: SideView,
    pub budget_ms: u64,
    /// What is left of the budget.
    pub left_ms: u64,
    pub stage: Stage,
}

impl View for Attempt {
    type V = AttemptView;

    closed spec fn view(&self) -> AttemptView {
        AttemptView {
            side: self.side@,
            budget_ms: self.budget_ms,
            left_ms: self.left_ms,
            stage: self.stage,
        }
    }
}

/// A session over this byte stream, on an endpoint of this address.
pub open spec fn framed(link: u64, local_addr: SocketAddr) -> StreamView {
    StreamView::Tcp(FramedStream(Link { id: link, raw: false }, local_addr, None, 0))
}

/// Makes a session out of a byte stream.
pub fn create_framed(link: u64, local_addr: SocketAddr) -> (r: Stream)
    ensures
        r@ == framed(link, local_addr),
        r.wf(),
{
    Stream::from(link, local_addr)
}

impl AttemptView {
    /// What is to be done in the stage that the attempt is in. A wait gets what is
    /// left of the budget.
    pub open spec fn todo(self) -> StepView {
        let limit_ms = self.left_ms;
        match self.stage {
            Stage::Starting => StepView::Start,
            Stage::Arriving => StepView::AwaitPeer { limit_ms },
            Stage::Handshaking => StepView::Handshake { limit_ms },
            Stage::Addressing => StepView::ReadLocalAddr,
            Stage::Opening(_) => match self.side {
                SideView::Dialing(_) => StepView::OpenStream { limit_ms },
                SideView::Accepting => StepView::AcceptStream { limit_ms },
            },
            Stage::Over => StepView::Over,
        }
    }

    /// Why the attempt fails if its budget is used up in this stage. Only a stage
    /// that waits fails for that.
    pub open spec fn timeout(self) -> Option<Seq<char>> {
        let ms = crate::text::decimal_text(self.budget_ms as nat) + " ms"@;
        match (self.stage, self.side) {
            (Stage::Arriving, _) => Some("no QUIC connection arrived within "@ + ms),
            (Stage::Handshaking, SideView::Dialing(peer)) => Some(
                "QUIC handshake with "@ + peer + " timed out after "@ + ms,
            ),
            (Stage::Handshaking, SideView::Accepting) => Some(
                "the QUIC handshake did not complete within "@ + ms,
            ),
            (Stage::Opening(_), SideView::Dialing(_)) => Some(
                "the QUIC session stream did not open within "@ + ms,
            ),
            (Stage::Opening(_), SideView::Accepting) => Some(
                "the controller did not open a QUIC session stream within "@ + ms,
            ),
            _ => None,
        }
    }

    /// Why the attempt fails, where the event makes it fail.
    pub open spec fn failure(self, event: AttemptEvent) -> Option<Seq<char>> {
        match (self.stage, event) {
            (Stage::Starting, AttemptEvent::SetupFailed(e)) => Some(e.words()),
            (Stage::Arriving, AttemptEvent::Closed) => Some(
                "the QUIC endpoint closed before a peer connected"@,
            ),
            (Stage::Handshaking, AttemptEvent::Failed(cause)) => Some(
                match self.side {
                    SideView::Dialing(peer) => "QUIC handshake with "@ + peer + " failed: "@
                        + cause@,
                    SideView::Accepting => "the QUIC handshake with the controller failed: "@
                        + cause@,
                },
            ),
            (Stage::Addressing, AttemptEvent::Failed(_)) => Some(
                "failed to read the QUIC endpoint's address"@,
            ),
            (Stage::Opening(_), AttemptEvent::Failed(cause)) => Some(
                match self.side {
                    SideView::Dialing(_) => "failed to open the QUIC session stream: "@ + cause@,
                    SideView::Accepting => "failed to accept the QUIC session stream: "@ + cause@,
                },
            ),
            (_, AttemptEvent::TimedOut) => self.timeout(),
            _ => None,
        }
    }

    /// The stage that an event leads to, where the attempt goes on. An event that
    /// does not belong to the stage leaves it.
    pub open spec fn stage_after(self, event: AttemptEvent) -> Stage {
        match (self.stage, event) {
            (Stage::Starting, AttemptEvent::Started) => match self.side {
                SideView::Dialing(_) => Stage::Handshaking,
                SideView::Accepting => Stage::Arriving,
            },
            (Stage::Arriving, AttemptEvent::Arrived) => Stage::Handshaking,
            (Stage::Handshaking, AttemptEvent::Connected) => Stage::Addressing,
            (Stage::Addressing, AttemptEvent::LocalAddr(addr)) => Stage::Opening(addr),
            _ => self.stage,
        }
    }

    /// The attempt after so much time.
    pub open spec fn after_time(self, spent_ms: u64) -> AttemptView {
        let left = self.left_ms - spent_ms;
        AttemptView {
            left_ms: if left < 0 {
                0
            } else {
                left as u64
            },
            ..self
        }
    }

    /// The attempt after an event that came after so much time, and what is to be
    /// done then. A wait that took longer than was left has failed, and so has one
    /// that nothing is left for.
    pub open spec fn next(self, event: AttemptEvent, spent_ms: u64) -> (AttemptView, StepView) {
        let spent = self.after_time(spent_ms);
        let over = AttemptView { stage: Stage::Over, ..spent };
        let late = if spent_ms > self.left_ms {
            self.timeout()
        } else {
            None
        };
        match (self.stage, event, self.failure(event), late) {
            (Stage::Over, _, _, _) => (self, StepView::Over),
            (_, _, Some(words), _) => (over, StepView::Failed(words)),
            (_, _, None, Some(words)) => (over, StepView::Failed(words)),
            (Stage::Opening(local_addr), AttemptEvent::Opened(link), _, _) => (
                over,
                StepView::Done(framed(link, local_addr)),
            ),
            _ => {
                let after = AttemptView { stage: self.stage_after(event), ..spent };
                match after.timeout() {
                    Some(words) if after.left_ms == 0 => (over, StepView::Failed(words)),
                    _ => (after, after.todo()),
                }
            },
        }
    }
}

/// Begins to dial the peer, given the text of the `transport-mode` option, the
/// caller's budget and the address that the socket is connected to, if it is.
pub fn connect(option: &str, timeout_ms: u64, peer: Option<String>) -> (r: Result<
    Attempt,
    QuicError,
>)
    ensures
        match (peer, r) {
            (Some(peer), Ok(attempt)) => attempt@ == (AttemptView {
                side: SideView::Dialing(peer@),
                budget_ms: budget(mode_of(option@), timeout_ms),
                left_ms: budget(mode_of(option@), timeout_ms),
                stage: Stage::Starting,
            }),
            (None, Err(e)) => e == QuicError::NotPunched,
            _ => false,
        },
{
    let budget_ms: u64 = budget_ms(mode(option), timeout_ms);
    match peer {
        Some(peer) => Ok(
            Attempt {
                side: Side::Dialing(peer),
                budget_ms,
                left_ms: budget_ms,
                stage: Stage::Starting,
            },
        ),
        None => Err(QuicError::NotPunched),
    }
}

/// Begins to wait for the peer, given the text of the `transport-mode` option and
/// the caller's budget.
pub fn accept(option: &str, timeout_ms: u64) -> (r: Attempt)
    ensures
        r@ == (AttemptView {
            side: SideView::Accepting,
            budget_ms: budget(mode_of(option@), timeout_ms),
            left_ms: budget(mode_of(option@), timeout_ms),
            stage: Stage::Starting,
        }),
{
    let budget_ms: u64 = budget_ms(mode(option), timeout_ms);
    Attempt { side: Side::Accepting, budget_ms, left_ms: budget_ms, stage: Stage::Starting }
}

impl Attempt {
    /// What is to be done now.
    pub fn todo(&self) -> (r: QuicStep)
        ensures
            r@ == self@.todo(),
    {
        let limit_ms: u64 = self.left_ms;
        match self.stage {
            Stage::Starting => QuicStep::Start,
            Stage::Arriving => QuicStep::AwaitPeer { limit_ms },
            Stage::Handshaking => QuicStep::Handshake { limit_ms },
            Stage::Addressing => QuicStep::ReadLocalAddr,
            Stage::Opening(_) => match self.side {
                Side::Dialing(_) => QuicStep::OpenStream { limit_ms },
                Side::Accepting => QuicStep::AcceptStream { limit_ms },
            },
            Stage::Over => QuicStep::Over,
        }
    }

    /// Takes note of what happened, and of how much time it took since the last
    /// step, and tells what is to be done then.
    pub fn step(&mut self, event: AttemptEvent, spent_ms: u64) -> (r: QuicStep)
        ensures
            (final(self)@, r@) == old(self)@.next(event, spent_ms),
    {
        if matches!(self.stage, Stage::Over) {
            return QuicStep::Over;
        }
        let event = match self.unless_failed(event) {
            Ok(event) => event,
            Err(e) => {
                self.spend(spent_ms);
                return self.fail(e);
            },
        };
        if spent_ms > self.left_ms {
            if let Some(e) = self.timed_out() {
                self.spend(spent_ms);
                return self.fail(e);
            }
        }
        self.spend(spent_ms);
        if let (Stage::Opening(local_addr), AttemptEvent::Opened(link)) = (self.stage, &event) {
            return self.adopt(*link, local_addr);
        }
        self.stage = self.stage_after(&event);
        if self.left_ms == 0 {
            if let Some(e) = self.timed_out() {
                return self.fail(e);
            }
        }
        self.todo()
    }

    /// Takes time off the budget.
    fn spend(&mut self, spent_ms: u64)
        ensures
            final(self)@ == old(self)@.after_time(spent_ms),
            final(self).side == old(self).side,
            final(self).stage == old(self).stage,
    {
        self.left_ms = if spent_ms > self.left_ms {
            0
        } else {
            self.left_ms - spent_ms
        };
    }

    /// Ends the attempt.
    fn fail(&mut self, e: QuicError) -> (r: QuicStep)
        ensures
            final(self)@ == (AttemptView { stage: Stage::Over, ..old(self)@ }),
            r@ == StepView::Failed(e.words()),
    {
        self.stage = Stage::Over;
        QuicStep::Failed(e)
    }

    /// The error of the stage for a budget that is used up.
    fn timed_out(&self) -> (r: Option<QuicError>)
        ensures
            match r {
                Some(e) => self@.timeout() == Some(e.words()),
                None => self@.timeout() is None,
            },
    {
        let budget_ms: u64 = self.budget_ms;
        match (&self.stage, &self.side) {
            (Stage::Arriving, _) => Some(QuicError::NoPeer(budget_ms)),
            (Stage::Handshaking, Side::Dialing(peer)) => Some(
                QuicError::HandshakeTimedOut { peer: peer.clone(), budget_ms },
            ),
            (Stage::Handshaking, Side::Accepting) => Some(
                QuicError::PeerHandshakeTimedOut(budget_ms),
            ),
            (Stage::Opening(_), Side::Dialing(_)) => Some(QuicError::OpenTimedOut(budget_ms)),
            (Stage::Opening(_), Side::Accepting) => Some(QuicError::AcceptTimedOut(budget_ms)),
            _ => None,
        }
    }

    /// The error that an event is in this stage, or the event if it is none.
    fn unless_failed(&self, event: AttemptEvent) -> (r: Result<AttemptEvent, QuicError>)
        ensures
            match r {
                Ok(same) => self@.failure(event) is None && same == event,
                Err(e) => self@.failure(event) == Some(e.words()),
            },
    {
        match (&self.stage, event) {
            (Stage::Starting, AttemptEvent::SetupFailed(e)) => Err(e),
            (Stage::Arriving, AttemptEvent::Closed) => Err(QuicError::ClosedEarly),
            (Stage::Handshaking, AttemptEvent::Failed(cause)) => match &self.side {
                Side::Dialing(peer) => Err(
                    QuicError::HandshakeFailed { peer: peer.clone(), cause },
                ),
                Side::Accepting => Err(QuicError::PeerHandshakeFailed(cause)),
            },
            (Stage::Addressing, AttemptEvent::Failed(_)) => Err(QuicError::NoEndpointAddr),
            (Stage::Opening(_), AttemptEvent::Failed(cause)) => match &self.side {
                Side::Dialing(_) => Err(QuicError::OpenFailed(cause)),
                Side::Accepting => Err(QuicError::AcceptFailed(cause)),
            },
            (_, AttemptEvent::TimedOut) => match self.timed_out() {
                Some(e) => Err(e),
                None => Ok(AttemptEvent::TimedOut),
            },
            (_, event) => Ok(event),
        }
    }

    /// The stage that an event leads to, where the attempt goes on.
    fn stage_after(&self, event: &AttemptEvent) -> (r: Stage)
        ensures
            r == self@.stage_after(*event),
    {
        match (&self.stage, event) {
            (Stage::Starting, AttemptEvent::Started) => match &self.side {
                Side::Dialing(_) => Stage::Handshaking,
                Side::Accepting => Stage::Arriving,
            },
            (Stage::Arriving, AttemptEvent::Arrived) => Stage::Handshaking,
            (Stage::Handshaking, AttemptEvent::Connected) => Stage::Addressing,
            (Stage::Addressing, AttemptEvent::LocalAddr(addr)) => Stage::Opening(*addr),
            _ => self.stage,
        }
    }

    /// Makes the session out of the stream that is open.
    fn adopt(&mut self, link: u64, local_addr: SocketAddr) -> (r: QuicStep)
        ensures
            final(self)@ == (AttemptView { stage: Stage::Over, ..old(self)@ }),
            r@ == StepView::Done(framed(link, local_addr)),
    {
        self.stage = Stage::Over;
        QuicStep::Done(create_framed(link, local_addr))
    }
}

/// Why a datagram was not sent.
#[derive(Debug, Clone, Copy, PartialEq, Eq, Structural)]
pub enum TransmitError {
    /// Several datagrams in one: the socket would send them as one.
    Coalesced,
    /// Only so many bytes of so many went out.
    Short { sent: usize, len: usize },
}

impl TransmitError {
    /// The error in words.
    pub fn message(&self) -> (r: String)
        ensures
            r@ == match self {
                TransmitError::Coalesced => "coalesced UDP transmits are not supported"@,
                TransmitError::Short { sent, len } => "short UDP send: "@
                    + crate::text::decimal_text(*sent as nat) + " of "@
                    + crate::text::decimal_text(*len as nat),
            },
    {
        match self {
            TransmitError::Coalesced => "coalesced UDP transmits are not supported".to_owned(),
            TransmitError::Short { sent, len } => {
                let sent = decimal(*sent as u64);
                let len = decimal(*len as u64);
                let head = join3("short UDP send: ", sent.as_str(), " of ");
                join2(head.as_str(), len.as_str())
            },
        }
    }
}

/// Whether so many bytes in segments of this size may go out as one datagram.
pub fn check_transmit(segment_size: Option<usize>, len: usize) -> (r: Result<(), TransmitError>)
    ensures
        match r {
            Ok(_) => segment_size is None || segment_size == Some(len),
            Err(e) => segment_size is Some && segment_size != Some(len) && e
                == TransmitError::Coalesced,
        },
{
    match segment_size {
        Some(size) => if size != len {
            Err(TransmitError::Coalesced)
        } else {
            Ok(())
        },
        None => Ok(()),
    }
}

/// Whether a datagram went out whole.
pub fn check_sent(sent: usize, len: usize) -> (r: Result<(), TransmitError>)
    ensures
        match r {
            Ok(_) => sent == len,
            Err(e) => sent != len && e == (TransmitError::Short { sent, len }),
        },
{
    if sent == len {
        Ok(())
    } else {
        Err(TransmitError::Short { sent, len })
    }
}

/// A datagram as QUIC wants to hear of it.
#[derive(Debug, Clone, Copy, PartialEq, Eq)]
pub struct Datagram {
    /// Who sent it.
    pub addr: SocketAddr,
    /// How long it is.
    pub len: usize,
    /// How long each datagram in it is.
    pub stride: usize,
}

/// What to report of so many bytes received, given whether there is room for a
/// report and who the socket is connected to. An empty datagram is none.
pub fn received<E>(has_room: bool, len: usize, peer: Result<SocketAddr, E>) -> (r: Result<
    Option<Datagram>,
    E,
>)
    ensures
        match r {
            Ok(None) => !has_room || len == 0,
            Ok(Some(d)) => has_room && len > 0 && peer == Ok::<SocketAddr, E>(d.addr) && d.len
                == len && d.stride == len,
            Err(e) => has_room && len > 0 && peer == Err::<SocketAddr, E>(e),
        },
{
    if !has_room || len == 0 {
        return Ok(None);
    }
    match peer {
        Ok(addr) => Ok(Some(Datagram { addr, len, stride: len })),
        Err(e) => Err(e),
    }
}

} // verus!
