//! What the calls around iroh connections give: identities, addresses, plans and
//! what becomes of a connection.

use crate::hex_text::HexError;
use crate::iroh_transport::{
    accept_one, bind_text, bound_socket, build_endpoint, connect_from, endpoint_id,
    framed_stream_from_iroh, relays_checked, run_accept_loop, secret_key_from_rustdesk,
    sentinel_addr, session_with, AcceptLoop, Accepted, EndpointId, EndpointPlan, IrohConfig,
    SecretKey, TransportError,
};
use crate::iroh_upgrade::OfferError;
use crate::iroh_upgrade_session::{DialError, SessionError};
use crate::message_proto::{
    IrohUpgradeAnswer, IrohUpgradeCommit, IrohUpgradeCommitAck, IrohUpgradeOffer, Message, Union,
};
use crate::net::{IpAddr, SocketAddr};
use crate::tcp::FramedStream;
use vstd::prelude::*;

verus! {

/// An identity is written in 64 digits that read back as it, and two are the same
/// exactly if all their bytes are.
pub proof fn identities(id: &EndpointId, text: String, other: &EndpointId, same: bool)
    requires
        call_ensures(EndpointId::display, (id,), text),
        call_ensures(EndpointId::same, (id, other), same),
    ensures
        text@.len() == 64,
        crate::hex_text::decodes_to(vstd::utf8::encode_utf8(text@), Ok(id.0@)),
        same <==> forall|i: int| 0 <= i < 32 ==> #[trigger] id.0@[i] == other.0@[i],
{
    crate::text_laws::written_bytes_are_read_back(id.0@);
    if forall|i: int| 0 <= i < 32 ==> #[trigger] id.0@[i] == other.0@[i] {
        assert(id.0@ == other.0@);
    }
}

/// The iroh key is the first half of the device's private key, byte for byte, and a
/// key that is too short for that is refused with its length. So a device that keeps
/// its key pair as libsodium does is, over iroh, whom it is elsewhere.
pub proof fn key_is_the_devices_own(
    pair: &(Vec<u8>, Vec<u8>),
    r: Result<SecretKey, TransportError>,
    id: EndpointId,
)
    requires
        call_ensures(secret_key_from_rustdesk, (pair,), r),
        r matches Ok(key) ==> call_ensures(SecretKey::public, (&key,), id),
    ensures
        match r {
            Ok(key) => pair.0@.len() >= 32 && forall|i: int|
                0 <= i < 32 ==> #[trigger] key.0@[i] == pair.0@[i],
            Err(e) => pair.0@.len() < 32 && (e matches TransportError::ShortKey(len) && len
                == pair.0@.len()),
        },
        pair.0@.len() == 64 && pair.0@.skip(32) == pair.1@
            && crate::iroh_transport::public_key_of(pair.0@.take(32)) == pair.1@ ==> r is Ok
            && id.0@ == pair.1@,
{
}

/// An address is made of what it is given: over IPv6 without flow and link. The one
/// that stands for none is all zeros over IPv4.
pub proof fn addresses(
    ip: IpAddr,
    port: u16,
    made: SocketAddr,
    none: SocketAddr,
    sentinel: SocketAddr,
    a: &SocketAddr,
    told: u16,
)
    requires
        call_ensures(SocketAddr::new, (ip, port), made),
        call_ensures(SocketAddr::unspecified, (), none),
        call_ensures(sentinel_addr, (), sentinel),
        call_ensures(SocketAddr::port, (a,), told),
    ensures
        match ip {
            IpAddr::V4(bytes) => made matches SocketAddr::V4 { octets, port: p } && octets == bytes
                && p == port,
            IpAddr::V6(bytes) => made matches SocketAddr::V6 { octets, port: p, flowinfo, scope_id }
                && octets == bytes && p == port && flowinfo == 0 && scope_id == 0,
        },
        none matches SocketAddr::V4 { octets, port: p } && octets@ == seq![0u8, 0, 0, 0] && p == 0,
        sentinel matches SocketAddr::V4 { octets, port: p } && octets@ == seq![0u8, 0, 0, 0] && p
            == 0,
        match *a {
            SocketAddr::V4 { port: p, .. } => told == p,
            SocketAddr::V6 { port: p, .. } => told == p,
        },
{
}

/// A session over iroh goes by its number, is framed, has neither a state nor a
/// timeout, and the address of no connection.
pub open spec fn over_iroh(f: FramedStream, link: u64) -> bool {
    &&& f.0.id == link && !f.0.raw
    &&& f.1 matches SocketAddr::V4 { octets, port } && octets@ == seq![0u8, 0, 0, 0] && port == 0
    &&& f.2 is None
    &&& f.3 == 0
}

/// A session over iroh, however it comes about.
pub proof fn sessions_over_iroh(
    link: u64,
    f: FramedStream,
    peer: EndpointId,
    opened: Result<u64, String>,
    r: Result<(FramedStream, EndpointId), TransportError>,
)
    requires
        call_ensures(framed_stream_from_iroh, (link,), f),
        call_ensures(session_with, (peer, opened), r),
    ensures
        over_iroh(f, link),
        match opened {
            Ok(number) => r matches Ok((stream, id)) && over_iroh(stream, number) && id == peer,
            Err(cause) => r == Err::<(FramedStream, EndpointId), TransportError>(
                TransportError::OpenStream(cause),
            ),
        },
{
}

/// The local address is the one that was set, or any at all.
pub proof fn address_to_bind_to(config: &IrohConfig, r: &str, default: IrohConfig)
    requires
        call_ensures(bind_text, (config,), r),
        call_ensures(IrohConfig::default, (), default),
    ensures
        match config.bind_addr {
            Some(addr) => r@ == addr@,
            None => r@ == "0.0.0.0:0"@,
        },
        default.bind_addr is None && default.relay_urls@.len() == 0 && default.secret_key is None,
{
}

/// Relays pass together or not at all, and then the first that did not is told.
pub proof fn relays_pass_together(
    checks: &Vec<Result<(), String>>,
    r: Result<(), TransportError>,
    first: int,
)
    requires
        call_ensures(relays_checked, (checks,), r),
    ensures
        r is Ok <==> forall|i: int| 0 <= i < checks@.len() ==> #[trigger] checks@[i] is Ok,
        0 <= first < checks@.len() && checks@[first] is Err && (forall|i: int|
            0 <= i < first ==> #[trigger] checks@[i] is Ok) ==> (r matches Err(e) && (
        checks@[first] matches Err(cause) && e.words() == "iroh relay 地址解析失败: "@
            + cause@)),
{
    if let Err(e) = r {
        let i = choose|i: int|
            0 <= i < checks@.len() && crate::iroh_transport::passed_up_to(checks@, i) && (
            #[trigger] checks@[i] matches Err(cause) && e.words()
                == "iroh relay 地址解析失败: "@ + cause@);
        assert(!(checks@[i] is Ok));
        if 0 <= first < checks@.len() && checks@[first] is Err && (forall|j: int|
            0 <= j < first ==> #[trigger] checks@[j] is Ok) {
            if i < first {
                assert(checks@[i] is Ok);
            }
            if first < i {
                assert(checks@[first] is Ok);
            }
        }
    }
}

/// A plan takes over what it was given: the address, the key and all relays in their
/// order. It is made exactly where the address could be had and every relay is one;
/// the address is looked at first.
pub proof fn plans_take_over_what_was_given(
    config: IrohConfig,
    bind: Result<SocketAddr, TransportError>,
    r: Result<EndpointPlan, TransportError>,
)
    requires
        call_ensures(build_endpoint, (config, bind), r),
    ensures
        r is Ok <==> bind is Ok && forall|i: int|
            0 <= i < config.relay_urls@.len() ==> crate::iroh_transport::relay_url_error(
                #[trigger] config.relay_urls@[i]@,
            ) is None,
        r matches Ok(plan) ==> {
            &&& bind == Ok::<SocketAddr, TransportError>(plan.bind)
            &&& plan.secret_key == config.secret_key
            &&& plan.relays@ == config.relay_urls@
            &&& plan.alpn@ == vstd::utf8::encode_utf8("nervdesk/rustdesk-iroh-transport/0"@)
        },
        bind matches Err(e) ==> r == Err::<EndpointPlan, TransportError>(e),
        bind is Ok && r is Err ==> exists|i: int|
            #![trigger config.relay_urls@[i]]
            0 <= i < config.relay_urls@.len() && (crate::iroh_transport::relay_url_error(
                config.relay_urls@[i]@,
            ) matches Some(cause) && r->Err_0.words() == "iroh relay 地址解析失败: "@ + cause)
                && forall|j: int|
                0 <= j < i ==> crate::iroh_transport::relay_url_error(
                    #[trigger] config.relay_urls@[j]@,
                ) is None,
{
    let urls = crate::iroh_transport::urls_view(config.relay_urls@);
    match (bind, r) {
        (Ok(_), Ok(_)) => {
            assert forall|i: int|
                0 <= i
                    < config.relay_urls@.len() implies crate::iroh_transport::relay_url_error(
                #[trigger] config.relay_urls@[i]@,
            ) is None by {
                assert(urls[i] == config.relay_urls@[i]@);
            }
        },
        (Ok(_), Err(e)) => {
            let i = choose|i: int|
                0 <= i < config.relay_urls@.len() && crate::iroh_transport::urls_up_to(urls, i)
                    && crate::iroh_transport::relay_url_error(
                    #[trigger] config.relay_urls@[i]@,
                ) is Some && e.words() == "iroh relay 地址解析失败: "@
                    + crate::iroh_transport::relay_url_error(config.relay_urls@[i]@)->0;
            assert forall|j: int|
                0 <= j < i implies crate::iroh_transport::relay_url_error(
                #[trigger] config.relay_urls@[j]@,
            ) is None by {
                assert(urls[j] == config.relay_urls@[j]@);
            }
            assert(config.relay_urls@[i]@ == urls[i]);
        },
        _ => {},
    }
}

/// Without an endpoint there is neither an identity nor a socket; with one, the
/// identity is its own and the socket the first that it has.
pub proof fn what_an_endpoint_has(
    id: Option<EndpointId>,
    r: Result<EndpointId, TransportError>,
    sockets: Option<Vec<SocketAddr>>,
    q: Result<SocketAddr, TransportError>,
)
    requires
        call_ensures(endpoint_id, (id,), r),
        call_ensures(bound_socket, (sockets,), q),
    ensures
        match id {
            Some(known) => r == Ok::<EndpointId, TransportError>(known),
            None => r == Err::<EndpointId, TransportError>(TransportError::NotInitialized),
        },
        match sockets {
            Some(all) => if all@.len() > 0 {
                q == Ok::<SocketAddr, TransportError>(all@[0])
            } else {
                q == Err::<SocketAddr, TransportError>(TransportError::NoSocket)
            },
            None => q == Err::<SocketAddr, TransportError>(TransportError::NotInitialized),
        },
{
}

/// A connection is used only if the peer has proved to be whom it should be, in
/// every byte; otherwise the error names both.
pub proof fn only_the_expected_peer_will_do(
    expected: EndpointId,
    connected: Result<EndpointId, String>,
    r: Result<EndpointId, TransportError>,
)
    requires
        call_ensures(connect_from, (expected, connected), r),
    ensures
        match connected {
            Ok(actual) => if forall|i: int|
                0 <= i < 32 ==> #[trigger] actual.0@[i] == expected.0@[i] {
                r == Ok::<EndpointId, TransportError>(actual)
            } else {
                r == Err::<EndpointId, TransportError>(
                    TransportError::Mismatch { expected, actual },
                )
            },
            Err(cause) => r == Err::<EndpointId, TransportError>(TransportError::Connect(cause)),
        },
{
    if let Ok(actual) = connected {
        if forall|i: int| 0 <= i < 32 ==> #[trigger] actual.0@[i] == expected.0@[i] {
            assert(actual.0@ == expected.0@);
        }
    }
}

/// What accepting gives is what it came to: a session, an error with its cause, or
/// nothing once the endpoint is closed. And only that ends the loop.
pub proof fn accepting_connections(
    accepted: Accepted,
    r: Result<Option<(FramedStream, EndpointId)>, TransportError>,
    next: AcceptLoop,
)
    requires
        call_ensures(accept_one, (accepted,), r),
        call_ensures(run_accept_loop, (r,), next),
    ensures
        match accepted {
            Accepted::Closed => r matches Ok(None),
            Accepted::Refused(cause) => r matches Err(TransportError::Accept(c)) && c == cause,
            Accepted::HandshakeFailed(cause) => r matches Err(TransportError::Handshake(c)) && c
                == cause,
            Accepted::NoStream(cause) => r matches Err(TransportError::AcceptStream(c)) && c
                == cause,
            Accepted::Stream(link, peer) => r matches Ok(Some((f, id))) && over_iroh(f, link) && id
                == peer,
        },
        match r {
            Ok(Some((f, id))) => next matches AcceptLoop::Handle(g, peer) && g == f && peer == id,
            Ok(None) => next is Stop,
            Err(e) => next matches AcceptLoop::Ignore(why) && why == e,
        },
        next is Stop <==> accepted is Closed,
{
}

/// What checking a relay's address gave is seen as it is: nothing wrong, or what; and
/// so is what reading an endpoint's address gave: the identity, or why not.
pub proof fn outcomes_are_seen_as_they_are(
    checked: Result<(), String>,
    parsed: Result<EndpointId, String>,
)
    ensures
        match checked {
            Ok(_) => crate::iroh_transport::checked_view(checked) is None,
            Err(cause) => crate::iroh_transport::checked_view(checked) == Some(cause@),
        },
        match parsed {
            Ok(id) => crate::iroh_upgrade_session::parsed_view(parsed) == Ok::<
                Seq<u8>,
                Seq<char>,
            >(id.0@),
            Err(cause) => crate::iroh_upgrade_session::parsed_view(parsed) == Err::<
                Seq<u8>,
                Seq<char>,
            >(cause@),
        },
{
}

/// What is fixed of iroh and QUIC connections: the names of the protocols, and how a
/// connection to the wrong peer and one that is over are closed.
pub proof fn connections_are_known_by()
    ensures
        crate::iroh_transport::ALPN@ == "nervdesk/rustdesk-iroh-transport/0"@,
        crate::iroh_transport::MISMATCH_CLOSE_CODE == 1,
        crate::iroh_transport::MISMATCH_CLOSE_REASON@ == "endpoint id mismatch"@,
        crate::quic_stream::ALPN@ == "rustdesk-quic"@,
        crate::quic_stream::SERVER_NAME@ == "quic.rustdesk.local"@,
        crate::quic_stream::TYP@ == "QUIC"@,
        crate::quic_stream::CLOSE_CODE == 0,
        crate::iroh_upgrade::UPGRADE_PROTOCOL_VERSION == 1,
        crate::tcp::MAC_BYTES == 16,
{
}

/// The words for an error with a cause end with the cause as it is, and are otherwise
/// the same for every cause.
pub proof fn causes_are_told_in_full(cause: String, none: String)
    requires
        none@.len() == 0,
    ensures
        TransportError::BindAddr(cause).words() == TransportError::BindAddr(none).words() + cause@,
        TransportError::BindRefused(cause).words() == TransportError::BindRefused(none).words()
            + cause@,
        TransportError::RelayUrl(cause).words() == TransportError::RelayUrl(none).words() + cause@,
        TransportError::Start(cause).words() == TransportError::Start(none).words() + cause@,
        TransportError::Connect(cause).words() == TransportError::Connect(none).words() + cause@,
        TransportError::OpenStream(cause).words() == TransportError::OpenStream(none).words()
            + cause@,
        TransportError::Accept(cause).words() == TransportError::Accept(none).words() + cause@,
        TransportError::Handshake(cause).words() == TransportError::Handshake(none).words()
            + cause@,
        TransportError::AcceptStream(cause).words() == TransportError::AcceptStream(none).words()
            + cause@,
{
    assert(none@ == Seq::<char>::empty());
}

/// A message is the error's words; a mismatch names both identities in full, and a
/// short key its length.
pub proof fn transport_errors_speak(e: &TransportError, r: String)
    requires
        call_ensures(TransportError::message, (e,), r),
    ensures
        r@ == e.words(),
        *e matches TransportError::Mismatch { expected, actual } ==> r@
            == "iroh 对端身份不一致: 期望 "@ + crate::hex_text::hex_digits(expected.0@)
            + ", 实际 "@ + crate::hex_text::hex_digits(actual.0@),
        *e matches TransportError::ShortKey(len) ==> r@ == "RustDesk 私钥长度异常: "@
            + crate::text::decimal_text(len as nat) + " （期望 libsodium 的 64 字节）"@,
{
}

/// The other errors tell what they were given, as it is.
pub proof fn other_errors_speak(
    a: &SessionError,
    session: String,
    b: &DialError,
    dialled: String,
    c: &HexError,
    hex: String,
    d: &OfferError,
    offer: String,
)
    requires
        call_ensures(SessionError::message, (a,), session),
        call_ensures(DialError::message, (b,), dialled),
        call_ensures(HexError::message, (c,), hex),
        call_ensures(OfferError::message, (d,), offer),
    ensures
        match *a {
            SessionError::Endpoint(cause) => session@ == cause@,
            SessionError::Accept(cause) => session@ == cause@,
        },
        match *b {
            DialError::NoEndpoint => dialled@ == "未启动 endpoint"@,
            DialError::NoPeerAddr => dialled@ == "还不知道对端 iroh 地址"@,
            DialError::BadPeerAddr(cause) => dialled@ == "对端 iroh 地址解析失败: "@ + cause@,
        },
        match *c {
            HexError::InvalidHexCharacter { c: bad, index } => hex@ == "Invalid character "@
                + crate::text::quoted_char(bad) + (" at position "@ + crate::text::decimal_text(
                index as nat,
            )),
            HexError::OddLength => hex@ == "Odd number of digits"@,
            HexError::InvalidStringLength => hex@ == "Invalid string length"@,
        },
        offer@ == "本端 iroh 地址为空，无法发起升级"@,
{
}

/// Messages start empty, and hold what was last put in.
pub proof fn messages_hold_what_was_put_in(
    empty: Message,
    offer: IrohUpgradeOffer,
    answer: IrohUpgradeAnswer,
    a: &mut Message,
    o: IrohUpgradeOffer,
    b: &mut Message,
    n: IrohUpgradeAnswer,
    c: &mut Message,
    commit: IrohUpgradeCommit,
    d: &mut Message,
    ack: IrohUpgradeCommitAck,
)
    requires
        call_ensures(Message::new, (), empty),
        call_ensures(IrohUpgradeOffer::new, (), offer),
        call_ensures(IrohUpgradeAnswer::new, (), answer),
        call_ensures(Message::set_iroh_upgrade_offer, (a, o), ()),
        call_ensures(Message::set_iroh_upgrade_answer, (b, n), ()),
        call_ensures(Message::set_iroh_upgrade_commit, (c, commit), ()),
        call_ensures(Message::set_iroh_upgrade_commit_ack, (d, ack), ()),
    ensures
        empty.union is None,
        offer.endpoint_addr@.len() == 0 && offer.version == 0,
        !answer.accepted && answer.endpoint_addr@.len() == 0 && answer.reason@.len() == 0,
        final(a).union == Some(Union::IrohUpgradeOffer(o)),
        final(b).union == Some(Union::IrohUpgradeAnswer(n)),
        final(c).union == Some(Union::IrohUpgradeCommit(commit)),
        final(d).union == Some(Union::IrohUpgradeCommitAck(ack)),
{
}

} // verus!
