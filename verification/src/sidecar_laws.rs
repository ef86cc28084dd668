//! What holds of attempts to use the sidecar over all events.

use crate::hex_text::HexError;
use crate::net::SocketAddr;
use crate::quic_sidecar::{
    abbreviate, available, dial, dial_request, endpoint_id_of, ensure_online,
    ensure_online_request, ensure_sidecar, parse_peer_endpoint_id, reply_text, request_line,
    run_relay, sidecar_candidates, sidecar_path, try_relay, verify_peer_uid, Candidate,
    CandidateView, Control, ControlView, PeerIdError, PeerUser, Relay, RelayEvent, RelayStage,
    RelayStep, RelayStepView, RelayView, SidecarError, SidecarStart, CONTROL_TIMEOUT_SECS,
    RELAY_ALPN, SIDECAR_IPC_POSTFIX, SIDECAR_NAME, SIDECAR_ROLE, SIDECAR_SPAWN_TIMEOUT_SECS,
};
use crate::stream::Stream;
use vstd::prelude::*;

verus! {

/// An identity that is written in hexadecimal digits, with any space around, is
/// read back as it was.
pub proof fn written_identity_is_read_back(before: Seq<char>, id: Seq<u8>, after: Seq<char>)
    requires
        crate::text_laws::all_whitespace(before),
        crate::text_laws::all_whitespace(after),
    ensures
        crate::hex_text::decodes_to(
            crate::quic_sidecar::id_digits(before + crate::hex_text::hex_digits(id) + after),
            Ok(id),
        ),
{
    crate::text_laws::trimming_keeps_digits(before, id, after);
    crate::text_laws::written_bytes_are_read_back(id);
}

/// The process is trusted: it belongs to the same user, or the system lets no
/// other user connect.
pub open spec fn trusted(relay: RelayView, peer: PeerUser) -> bool {
    peer == PeerUser::Uid(relay.own_uid) || peer is Enforced
}

/// A session comes only from a sidecar of the same user.
pub proof fn session_comes_from_the_same_user(relay: RelayView, event: RelayEvent)
    requires
        relay.next(event).1 is Done,
    ensures
        relay.stage is Connecting,
        event matches RelayEvent::Connected { peer, .. } && trusted(relay, peer),
{
}

/// The attempt after a sequence of events.
pub open spec fn run(relay: RelayView, events: Seq<RelayEvent>) -> RelayView
    decreases events.len(),
{
    if events.len() == 0 {
        relay
    } else {
        run(relay, events.drop_last()).next(events.last()).0
    }
}

proof fn run_keeps_to_trusted(relay: RelayView, events: Seq<RelayEvent>)
    requires
        relay.asked is None,
    ensures
        run(relay, events).own_uid == relay.own_uid,
        run(relay, events).asked matches Some(peer) ==> trusted(relay, peer),
    decreases events.len(),
{
    if events.len() > 0 {
        run_keeps_to_trusted(relay, events.drop_last());
    }
}

/// However an attempt goes, nothing is asked of a process of another user: where a
/// request is to be sent, the control connection is to a trusted process.
pub proof fn requests_go_to_the_same_user(
    endpoint_id: Seq<u8>,
    token_present: bool,
    own_uid: u32,
    addr: crate::net::SocketAddr,
    events: Seq<RelayEvent>,
)
    ensures
        ({
            let now = run(RelayView::fresh(endpoint_id, token_present, own_uid, addr), events);
            now.todo() is Ask ==> (now.asked matches Some(peer) && trusted(now, peer))
        }),
{
    run_keeps_to_trusted(RelayView::fresh(endpoint_id, token_present, own_uid, addr), events);
}

/// However an attempt goes, no reply of another user is taken: a reply that changes
/// anything comes over a control connection to a trusted process.
pub proof fn replies_come_from_the_same_user(
    endpoint_id: Seq<u8>,
    token_present: bool,
    own_uid: u32,
    addr: crate::net::SocketAddr,
    events: Seq<RelayEvent>,
    reply: Control,
)
    ensures
        ({
            let now = run(RelayView::fresh(endpoint_id, token_present, own_uid, addr), events);
            now.next(RelayEvent::Reply(reply)).0 != now ==> (now.asked matches Some(peer)
                && trusted(now, peer))
        }),
{
    run_keeps_to_trusted(RelayView::fresh(endpoint_id, token_present, own_uid, addr), events);
}

/// A control connection to a process that is not trusted ends the attempt before
/// anything is asked.
pub proof fn stranger_ends_the_attempt(relay: RelayView, peer: PeerUser)
    requires
        relay.todo() is OpenControl,
        !trusted(relay, peer),
    ensures
        relay.next(RelayEvent::ControlOpened(peer)).1 is GiveUp,
        relay.next(RelayEvent::ControlOpened(peer)).0.stage is Over,
{
}

/// The peer is dialled only once the sidecar is online, and then the peer that
/// was asked for, under the session protocol's name.
pub proof fn dial_follows_online(relay: RelayView, event: RelayEvent)
    requires
        !(relay.stage is Dialing),
        relay.next(event).0.stage is Dialing,
    ensures
        relay.stage is GoingOnline,
        event matches RelayEvent::Reply(reply) && reply@.online_failure() is None,
        relay.next(event).0.request() == Some(
            ControlView::Dial {
                remote_endpoint_id: relay.endpoint_id,
                alpn: vstd::utf8::encode_utf8(crate::quic_sidecar::RELAY_ALPN@),
            },
        ),
{
}

/// The program is found on `PATH`: where there is a file in a directory of `PATH`
/// and none in the places before it, that file is the sidecar's program.
pub proof fn program_is_found_on_path(
    knows_own_dir: bool,
    path_dirs: Seq<Seq<char>>,
    k: int,
    present: Seq<bool>,
)
    requires
        0 <= k < path_dirs.len(),
        present.len() == crate::quic_sidecar::places(seq![], knows_own_dir, path_dirs).len(),
        present[crate::quic_sidecar::beside(knows_own_dir).len() + k],
        forall|j: int|
            0 <= j < crate::quic_sidecar::beside(knows_own_dir).len() + k
                ==> !#[trigger] present[j],
    ensures
        ({
            let i = crate::quic_sidecar::beside(knows_own_dir).len() + k;
            &&& crate::quic_sidecar::first_present(present, i)
            &&& forall|other: int|
                crate::quic_sidecar::first_present(present, other) ==> other == i
            &&& crate::quic_sidecar::places(seq![], knows_own_dir, path_dirs)[i]
                == CandidateView::OnPath {
                dir: path_dirs[k],
                name: crate::quic_sidecar::SIDECAR_NAME@,
            }
        }),
{
    let i = crate::quic_sidecar::beside(knows_own_dir).len() + k;
    assert(present[i]);
    assert forall|other: int|
        crate::quic_sidecar::first_present(present, other) implies other == i by {
        if other < i {
            assert(!present[other]);
        }
        if i < other {
            assert(!present[i]);
        }
    }
}

/// What happens in an attempt in which nothing goes wrong, up to the data
/// connection: the sidecar listens or is started, and each request is answered.
pub open spec fn undisturbed(
    started_now: bool,
    user: PeerUser,
    online: Control,
    dialled: Control,
) -> Seq<RelayEvent> {
    let begin = if started_now {
        seq![RelayEvent::Spawned, RelayEvent::Waited]
    } else {
        seq![RelayEvent::Listening]
    };
    begin.push(RelayEvent::ControlOpened(user)).push(RelayEvent::Reply(online)).push(
        RelayEvent::ControlOpened(user),
    ).push(RelayEvent::Reply(dialled))
}

proof fn run_of_one_more(relay: RelayView, events: Seq<RelayEvent>, next: RelayEvent)
    ensures
        run(relay, events.push(next)) == run(relay, events).next(next).0,
{
    assert(events.push(next).drop_last() == events);
}

/// An attempt in which nothing goes wrong ends with a session over the data
/// connection, framed and not encrypted yet, after the sidecar has said by which
/// path it reached the peer.
pub proof fn undisturbed_attempt_succeeds(
    relay: RelayView,
    started_now: bool,
    user: PeerUser,
    online: Control,
    dialled: Control,
    link: u64,
)
    requires
        relay.stage is Starting,
        relay.asked is None,
        trusted(relay, user),
        online@.online_failure() is None,
        dialled@.dial_failure() is None,
    ensures
        ({
            let now = run(relay, undisturbed(started_now, user, online, dialled));
            &&& now.todo() == (RelayStepView::Connect { path: dialled@.path_taken() })
            &&& now.next(RelayEvent::Connected { link, peer: user }).1 == RelayStepView::Done(
                crate::quic_stream::framed(link, relay.addr),
            )
        }),
{
    let none = Seq::<RelayEvent>::empty();
    let begin = if started_now {
        assert(seq![RelayEvent::Spawned] == none.push(RelayEvent::Spawned));
        run_of_one_more(relay, none, RelayEvent::Spawned);
        run_of_one_more(relay, none.push(RelayEvent::Spawned), RelayEvent::Waited);
        none.push(RelayEvent::Spawned).push(RelayEvent::Waited)
    } else {
        run_of_one_more(relay, none, RelayEvent::Listening);
        none.push(RelayEvent::Listening)
    };
    assert(run(relay, begin) == RelayView { stage: RelayStage::GoingOnline, ..relay });
    let opened = begin.push(RelayEvent::ControlOpened(user));
    run_of_one_more(relay, begin, RelayEvent::ControlOpened(user));
    let replied = opened.push(RelayEvent::Reply(online));
    run_of_one_more(relay, opened, RelayEvent::Reply(online));
    let reopened = replied.push(RelayEvent::ControlOpened(user));
    run_of_one_more(relay, replied, RelayEvent::ControlOpened(user));
    run_of_one_more(relay, reopened, RelayEvent::Reply(dialled));
    assert(undisturbed(started_now, user, online, dialled) == reopened.push(
        RelayEvent::Reply(dialled),
    ));
}

/// Whatever fails, and at whatever point, the attempt is over and the caller is
/// told to fall back.
pub proof fn every_failure_falls_back(relay: RelayView, event: RelayEvent)
    requires
        !(relay.stage is Over),
        event is Failed || relay.failure(event) is Some,
    ensures
        relay.next(event).1 is GiveUp,
        relay.next(event).0.stage is Over,
{
}

/// How far a stage is along.
pub open spec fn rank(stage: RelayStage) -> int {
    match stage {
        RelayStage::Starting => 0,
        RelayStage::Appearing => 1,
        RelayStage::GoingOnline => 2,
        RelayStage::Dialing => 3,
        RelayStage::Connecting => 4,
        RelayStage::Over => 5,
    }
}

/// An attempt never goes back a stage and never changes whom it is to reach, and
/// one that is over stays over and asks for nothing.
pub proof fn attempt_only_advances(relay: RelayView, event: RelayEvent)
    ensures
        rank(relay.next(event).0.stage) >= rank(relay.stage),
        relay.next(event).0.endpoint_id == relay.endpoint_id,
        relay.next(event).0.own_uid == relay.own_uid,
        relay.next(event).0.addr == relay.addr,
        relay.stage is Over ==> relay.next(event) == (relay, RelayStepView::Over),
{
}

/// A control message is seen as what it is, with all that is in it.
pub proof fn control_message_is_seen_as_it_is(m: Control)
    ensures
        match m {
            Control::EnsureOnline { relay_url, token_present } => m@ == (
            ControlView::EnsureOnline { relay_url: relay_url@, token_present }),
            Control::Dial { remote_endpoint_id, alpn } => m@ == (ControlView::Dial {
                remote_endpoint_id: remote_endpoint_id@,
                alpn: alpn@,
            }),
            Control::DialResult { ok, reason, path } => {
                &&& m@ is DialResult && m@->ok == ok
                &&& match reason {
                    Some(text) => m@->DialResult_reason == Some(text@),
                    None => m@->DialResult_reason is None,
                }
                &&& match path {
                    Some(text) => m@->DialResult_path == Some(text@),
                    None => m@->DialResult_path is None,
                }
            },
            Control::Incoming { remote_endpoint_id, path } => {
                &&& m@ is Incoming && m@->Incoming_remote_endpoint_id == remote_endpoint_id@
                &&& match path {
                    Some(text) => m@->Incoming_path == Some(text@),
                    None => m@->Incoming_path is None,
                }
            },
            Control::Accept { decision, reason } => {
                &&& m@ is Accept && m@->decision == decision
                &&& match reason {
                    Some(text) => m@->Accept_reason == Some(text@),
                    None => m@->Accept_reason is None,
                }
            },
            Control::Shutdown {  } => m@ == ControlView::Shutdown,
        },
{
}

/// What is fixed of the sidecar: its name, its socket, its part, how long it may take
/// to listen and to reply, and the name of the session protocol.
pub proof fn sidecar_is_known_by()
    ensures
        SIDECAR_NAME@ == "nervdesk-quic-sidecar"@,
        SIDECAR_IPC_POSTFIX@ == "-sidecar"@,
        SIDECAR_ROLE@ == "serve"@,
        SIDECAR_SPAWN_TIMEOUT_SECS == 10,
        CONTROL_TIMEOUT_SECS == 15,
        RELAY_ALPN@ == "/nervdesk/p3/1"@,
{
}

/// A step is seen as what it is, an error by its words.
pub proof fn relay_step_is_seen_as_it_is(step: RelayStep)
    ensures
        match step {
            RelayStep::Start => step@ == RelayStepView::Start,
            RelayStep::AwaitSocket { limit_secs } => step@ == (RelayStepView::AwaitSocket {
                limit_secs,
            }),
            RelayStep::OpenControl => step@ == RelayStepView::OpenControl,
            RelayStep::Ask(message) => step@ == RelayStepView::Ask(message@),
            RelayStep::Connect { path } => step@ == (RelayStepView::Connect { path: path@ }),
            RelayStep::Done(stream) => step@ == RelayStepView::Done(stream@),
            RelayStep::GiveUp(e) => step@ == RelayStepView::GiveUp(e.words()),
            RelayStep::Over => step@ == RelayStepView::Over,
        },
{
}

/// The short form of a message names what it is about: a relay, the first four
/// bytes of an identity, or a decision; and a result its path.
pub proof fn messages_in_short(m: &Control, r: String)
    requires
        call_ensures(Control::display, (m,), r),
    ensures
        match *m {
            Control::EnsureOnline { relay_url, .. } => r@ == "EnsureOnline("@ + relay_url@ + ")"@,
            Control::Dial { remote_endpoint_id, .. } => r@ == "Dial("@
                + crate::hex_text::hex_digits(remote_endpoint_id@.take(4)) + "..)"@,
            Control::DialResult { ok, path, .. } => r@ == "DialResult(ok="@ + (if ok {
                "true"@
            } else {
                "false"@
            }) + ", path="@ + (match path {
                Some(text) => "Some("@ + crate::text::quoted(text@) + ")"@,
                None => "None"@,
            }) + ")"@,
            Control::Incoming { remote_endpoint_id, .. } => r@ == "Incoming("@
                + crate::hex_text::hex_digits(remote_endpoint_id@.take(4)) + "..)"@,
            Control::Accept { decision, .. } => r@ == "Accept("@ + (if decision {
                "true"@
            } else {
                "false"@
            }) + ")"@,
            Control::Shutdown {  } => r@ == "Shutdown"@,
        },
        r@ == m@.text(),
{
}

/// An identity in short is the first four bytes of it.
pub proof fn identity_in_short(id: &[u8; 32], r: String)
    requires
        call_ensures(abbreviate, (id,), r),
    ensures
        r@.len() == 8,
        r@ == crate::hex_text::hex_digits(id@.take(4)),
{
}

/// Errors tell what they were given, as it is.
pub proof fn sidecar_errors_speak(e: &SidecarError, r: String)
    requires
        call_ensures(SidecarError::message, (e,), r),
    ensures
        r@ == e.words(),
        match *e {
            SidecarError::Spawn(cause) => r@ == "failed to spawn nervdesk-quic-sidecar: "@
                + cause@,
            SidecarError::ForeignUid { peer, own } => r@ == "sidecar owned by uid "@
                + crate::text::decimal_text(peer as nat) + ", refusing (we are uid "@
                + crate::text::decimal_text(own as nat)
                + "); possible privilege boundary crossing"@,
            SidecarError::Offline(reason) => r@ == "sidecar could not reach relay: "@ + reason@,
            SidecarError::DialFailed(reason) => r@ == "sidecar dial failed: "@ + reason@,
            SidecarError::Unexpected(reply) => r@ == "unexpected control reply: "@ + reply@,
            SidecarError::Control(cause) => r@ == cause@,
            SidecarError::NoPeerUid => r@ == "sidecar peer uid unavailable"@,
            SidecarError::NotFound => true,
        },
{
    reveal_strlit("failed to spawn ");
    reveal_strlit("nervdesk-quic-sidecar");
    reveal_strlit(": ");
    reveal_strlit("failed to spawn nervdesk-quic-sidecar: ");
    assert("failed to spawn "@ + "nervdesk-quic-sidecar"@ + ": "@
        == "failed to spawn nervdesk-quic-sidecar: "@);
}

/// A place is seen as what it is.
pub proof fn candidate_is_seen_as_it_is(c: Candidate)
    ensures
        match c {
            Candidate::Configured(path) => c@ == CandidateView::Configured(path@),
            Candidate::Beside(name) => c@ == CandidateView::Beside(name@),
            Candidate::OnPath { dir, name } => c@ == (CandidateView::OnPath {
                dir: dir@,
                name: name@,
            }),
            Candidate::Named(name) => c@ == CandidateView::Named(name@),
        },
{
}

/// The places to look at: a configured one alone; otherwise both names beside the
/// program, if it knows where it is, then the name in each directory of `PATH`, in
/// their order, and the name by itself last.
pub proof fn places_to_look_at(
    configured: String,
    knows_own_dir: bool,
    path_dirs: &Vec<String>,
    r: Vec<Candidate>,
    k: int,
)
    requires
        call_ensures(sidecar_candidates, (configured, knows_own_dir, path_dirs), r),
        0 <= k < path_dirs@.len(),
    ensures
        ({
            let first: int = if knows_own_dir {
                2
            } else {
                0
            };
            if configured@.len() > 0 {
                r@.len() == 1 && (r@[0] matches Candidate::Configured(path) && path@
                    == configured@)
            } else {
                &&& r@.len() == first + path_dirs@.len() + 1
                &&& knows_own_dir ==> (r@[0] matches Candidate::Beside(name) && name@
                    == "nervdesk-quic-sidecar"@)
                &&& knows_own_dir ==> (r@[1] matches Candidate::Beside(name) && name@
                    == "nervdesk-quic-sidecar.exe"@)
                &&& r@[first + k] matches Candidate::OnPath { dir, name } && dir@
                    == path_dirs@[k]@ && name@ == "nervdesk-quic-sidecar"@
                &&& r@[first + path_dirs@.len()] matches Candidate::Named(name) && name@
                    == "nervdesk-quic-sidecar"@
            }
        }),
{
    reveal_strlit("nervdesk-quic-sidecar");
    reveal_strlit(".exe");
    reveal_strlit("nervdesk-quic-sidecar.exe");
    assert("nervdesk-quic-sidecar"@ + ".exe"@ == "nervdesk-quic-sidecar.exe"@);
    let seen = crate::quic_sidecar::candidates_view(r@);
    let first: int = if knows_own_dir {
        2
    } else {
        0
    };
    assert(seen.len() == r@.len());
    if configured@.len() > 0 {
        assert(r@[0]@ == seen[0]);
    } else {
        let dirs = crate::quic_sidecar::dirs_view(path_dirs@);
        assert(dirs[k] == path_dirs@[k]@);
        if knows_own_dir {
            assert(r@[0]@ == seen[0]);
            assert(r@[1]@ == seen[1]);
        }
        assert(r@[first + k]@ == seen[first + k]);
        assert(r@[first + path_dirs@.len()]@ == seen[first + path_dirs@.len()]);
    }
}

/// The same where `PATH` is empty.
pub proof fn places_without_a_path(
    configured: String,
    knows_own_dir: bool,
    path_dirs: &Vec<String>,
    r: Vec<Candidate>,
)
    requires
        call_ensures(sidecar_candidates, (configured, knows_own_dir, path_dirs), r),
        path_dirs@.len() == 0,
    ensures
        ({
            let first: int = if knows_own_dir {
                2
            } else {
                0
            };
            if configured@.len() > 0 {
                r@.len() == 1 && (r@[0] matches Candidate::Configured(path) && path@
                    == configured@)
            } else {
                &&& r@.len() == first + 1
                &&& knows_own_dir ==> (r@[0] matches Candidate::Beside(name) && name@
                    == "nervdesk-quic-sidecar"@)
                &&& knows_own_dir ==> (r@[1] matches Candidate::Beside(name) && name@
                    == "nervdesk-quic-sidecar.exe"@)
                &&& r@[first] matches Candidate::Named(name) && name@ == "nervdesk-quic-sidecar"@
            }
        }),
{
    reveal_strlit("nervdesk-quic-sidecar");
    reveal_strlit(".exe");
    reveal_strlit("nervdesk-quic-sidecar.exe");
    assert("nervdesk-quic-sidecar"@ + ".exe"@ == "nervdesk-quic-sidecar.exe"@);
    let seen = crate::quic_sidecar::candidates_view(r@);
    let first: int = if knows_own_dir {
        2
    } else {
        0
    };
    assert(seen.len() == r@.len());
    if configured@.len() > 0 {
        assert(r@[0]@ == seen[0]);
    } else {
        if knows_own_dir {
            assert(r@[0]@ == seen[0]);
            assert(r@[1]@ == seen[1]);
        }
        assert(r@[first]@ == seen[first]);
    }
}

/// The program is at the first place with a file, it is there exactly if there is
/// one, and it is started from there exactly if nothing listens yet.
pub proof fn first_place_with_a_file(
    listening: bool,
    present: &Vec<bool>,
    place: Option<usize>,
    there: bool,
    r: Result<SidecarStart, SidecarError>,
)
    requires
        call_ensures(sidecar_path, (present,), place),
        call_ensures(available, (present,), there),
        call_ensures(ensure_sidecar, (listening, present), r),
    ensures
        match place {
            Some(i) => there && i < present@.len() && present@[i as int] && forall|j: int|
                0 <= j < i ==> !#[trigger] present@[j],
            None => !there && forall|j: int| 0 <= j < present@.len() ==> !#[trigger] present@[j],
        },
        listening ==> r == Ok::<SidecarStart, SidecarError>(SidecarStart::Running),
        !listening ==> match place {
            Some(i) => r == Ok::<SidecarStart, SidecarError>(SidecarStart::Spawn(i)),
            None => r == Err::<SidecarStart, SidecarError>(SidecarError::NotFound),
        },
{
    if let Some(i) = place {
        assert(present@[i as int]);
        if let Ok(SidecarStart::Spawn(k)) = r {
            if k < i {
                assert(!present@[k as int]);
            }
            if i < k {
                assert(!present@[i as int]);
            }
        }
    } else {
        assert forall|j: int| 0 <= j < present@.len() implies !#[trigger] present@[j] by {
            if present@[j] {
                assert(present@.contains(true));
            }
        }
        if let Ok(SidecarStart::Spawn(k)) = r {
            assert(present@[k as int]);
            assert(present@.contains(true));
        }
    }
}

/// Only a process of the same user is trusted, or one on a system that sees to it;
/// the error says which user it was, or that it could not be told.
pub proof fn whom_to_trust(peer: PeerUser, own: u32, r: Result<(), SidecarError>)
    requires
        call_ensures(verify_peer_uid, (peer, own), r),
    ensures
        match peer {
            PeerUser::Uid(uid) => if uid == own {
                r is Ok
            } else {
                r == Err::<(), SidecarError>(SidecarError::ForeignUid { peer: uid, own })
            },
            PeerUser::Unknown => r == Err::<(), SidecarError>(SidecarError::NoPeerUid),
            PeerUser::Enforced => r is Ok,
        },
{
}

/// A request goes out as its JSON and one line end; what comes back is read without
/// the line ends behind.
pub proof fn requests_and_replies_are_lines(
    json: &str,
    line: Vec<u8>,
    bytes: &[u8],
    reply: String,
) -> (to: int)
    requires
        call_ensures(request_line, (json,), line),
        call_ensures(reply_text, (bytes,), reply),
    ensures
        line@.len() == vstd::utf8::encode_utf8(json@).len() + 1,
        line@.drop_last() == vstd::utf8::encode_utf8(json@),
        line@.last() == 10,
        ({
            let text = crate::text::utf8_lossy(bytes@);
            &&& 0 <= to <= text.len()
            &&& reply@ == text.take(to)
            &&& forall|i: int| to <= i < text.len() ==> #[trigger] text[i] == '\n'
            &&& to > 0 ==> text[to - 1] != '\n'
            &&& vstd::utf8::valid_utf8(bytes@) && !vstd::utf8::decode_utf8(bytes@).contains('\n')
                ==> reply@ == vstd::utf8::decode_utf8(bytes@)
        }),
{
    if vstd::utf8::valid_utf8(bytes@) && !vstd::utf8::decode_utf8(bytes@).contains('\n') {
        let read = vstd::utf8::decode_utf8(bytes@);
        if read.len() > 0 {
            assert(read.contains(read.last()));
        }
    }
    assert(line@.drop_last() == vstd::utf8::encode_utf8(json@));
    crate::text_laws::line_ends_behind_are_left_out(crate::text::utf8_lossy(bytes@))
}

/// Requests say what they are asked to say.
pub proof fn requests_say_what_is_asked(
    relay_url: &str,
    token_present: bool,
    online: Control,
    id: [u8; 32],
    alpn: &[u8],
    dialled: Control,
)
    requires
        call_ensures(ensure_online_request, (relay_url, token_present), online),
        call_ensures(dial_request, (id, alpn), dialled),
    ensures
        online matches Control::EnsureOnline { relay_url: url, token_present: token } && url@
            == relay_url@ && token == token_present,
        dialled matches Control::Dial { remote_endpoint_id, alpn: name } && remote_endpoint_id@
            == id@ && name@ == alpn@,
{
}

/// Why a reply is none that a request hoped for, if it is not: a result that says
/// no, with its reason, or anything that is no result.
pub open spec fn complaint(reply: Control, refused: Seq<char>) -> Option<Seq<char>> {
    match reply {
        Control::DialResult { ok, reason, .. } => if ok {
            None
        } else {
            Some(
                refused + (match reason {
                    Some(text) => text@,
                    None => "unknown"@,
                }),
            )
        },
        _ => Some("unexpected control reply: "@ + reply@.text()),
    }
}

/// The path that a result names, or the relay where it names none.
pub open spec fn named_path(reply: Control) -> Seq<char> {
    match reply {
        Control::DialResult { path: Some(text), .. } => text@,
        _ => "relay"@,
    }
}

/// A reply is taken for what it says: only a result that says yes is a success, and
/// every other is an error with its reason.
pub proof fn replies_are_taken_for_what_they_say(
    reply: &Control,
    online: Result<(), SidecarError>,
    dialled: Result<String, SidecarError>,
)
    requires
        call_ensures(ensure_online, (reply,), online),
        call_ensures(dial, (reply,), dialled),
    ensures
        match complaint(*reply, "sidecar could not reach relay: "@) {
            None => online is Ok,
            Some(words) => online matches Err(e) && e.words() == words,
        },
        match complaint(*reply, "sidecar dial failed: "@) {
            None => dialled matches Ok(path) && path@ == named_path(*reply),
            Some(words) => dialled matches Err(e) && e.words() == words,
        },
{
}

/// An identity is its bytes, if there are 32 of them.
pub proof fn identities_have_a_length(bytes: &Vec<u8>, r: Result<[u8; 32], PeerIdError>)
    requires
        call_ensures(endpoint_id_of, (bytes,), r),
    ensures
        match r {
            Ok(id) => bytes@.len() == 32 && id@ == bytes@,
            Err(e) => bytes@.len() != 32 && (e matches PeerIdError::WrongLength(len) && len
                == bytes@.len()),
        },
{
}

/// An identity is read out of the option's text whenever that is its digits with
/// space around, and out of no other text.
pub proof fn identities_are_read_from_their_digits(raw: &str, r: Result<[u8; 32], PeerIdError>)
    requires
        call_ensures(parse_peer_endpoint_id, (raw,), r),
    ensures
        match r {
            Ok(id) => crate::hex_text::decodes_to(
                vstd::utf8::encode_utf8(crate::text::trimmed(raw@)),
                Ok(id@),
            ),
            Err(PeerIdError::NotHex(e)) => crate::hex_text::decodes_to(
                vstd::utf8::encode_utf8(crate::text::trimmed(raw@)),
                Err(e),
            ),
            Err(PeerIdError::WrongLength(len)) => len != 32,
        },
        forall|before: Seq<char>, id: Seq<u8>, after: Seq<char>|
            crate::text_laws::all_whitespace(before) && crate::text_laws::all_whitespace(after)
                && id.len() == 32 && raw@ == #[trigger] (before + crate::hex_text::hex_digits(id)
                + after) ==> (r matches Ok(read) && read@ == id),
{
    assert forall|before: Seq<char>, id: Seq<u8>, after: Seq<char>|
        crate::text_laws::all_whitespace(before) && crate::text_laws::all_whitespace(after)
            && id.len() == 32 && raw@ == #[trigger] (before + crate::hex_text::hex_digits(id)
            + after) implies (r matches Ok(read) && read@ == id) by {
        written_identity_is_read_back(before, id, after);
        let digits = crate::quic_sidecar::id_digits(raw@);
        match r {
            Ok(read) => {
                crate::text_laws::decoding_has_one_outcome(digits, Ok(id), Ok(read@));
            },
            Err(PeerIdError::NotHex(e)) => {
                crate::text_laws::decoding_has_one_outcome(digits, Ok(id), Err(e));
            },
            Err(PeerIdError::WrongLength(len)) => {
                let bytes = choose|bytes: Seq<u8>|
                    bytes.len() == len && #[trigger] crate::hex_text::decodes_to(
                        digits,
                        Ok(bytes),
                    );
                crate::text_laws::decoding_has_one_outcome(digits, Ok(id), Ok(bytes));
            },
        }
    }
}

/// Errors of reading an identity tell what was wrong.
pub proof fn identity_errors_speak(e: &PeerIdError, r: String)
    requires
        call_ensures(PeerIdError::message, (e,), r),
    ensures
        match *e {
            PeerIdError::NotHex(cause) => r@
                == "sidecar-peer-endpoint-id not a valid hex peer id: "@ + cause.words()
                + "; skipping"@,
            PeerIdError::WrongLength(len) => r@ == "sidecar-peer-endpoint-id is "@
                + crate::text::decimal_text(len as nat)
                + " bytes, expected 32; skipping sidecar relay"@,
        },
{
}

/// An attempt that has just begun, for this peer and this user.
pub open spec fn just_begun(
    relay: RelayView,
    token_present: bool,
    own_uid: u32,
    addr: SocketAddr,
) -> bool {
    &&& relay.token_present == token_present
    &&& relay.own_uid == own_uid
    &&& relay.addr == addr
    &&& relay.asked is None
    &&& relay.path.len() == 0
    &&& relay.stage is Starting
}

/// Beginning an attempt takes what it is given: the peer, whether there is a token,
/// the user and the address.
pub proof fn beginning(
    id: [u8; 32],
    token_present: bool,
    own_uid: u32,
    addr: SocketAddr,
    relay: Relay,
    raw: &str,
    r: Result<Relay, PeerIdError>,
)
    requires
        call_ensures(run_relay, (id, token_present, own_uid, addr), relay),
        call_ensures(try_relay, (raw, token_present, own_uid, addr), r),
    ensures
        relay@.endpoint_id == id@ && just_begun(relay@, token_present, own_uid, addr),
        r matches Ok(tried) ==> just_begun(tried@, token_present, own_uid, addr)
            && tried@.endpoint_id.len() == 32,
{
}

/// An attempt begins whenever the option's text is an identity's digits with space
/// around, and is for that identity.
pub proof fn beginning_with_an_identity(
    before: Seq<char>,
    id: Seq<u8>,
    after: Seq<char>,
    raw: &str,
    token_present: bool,
    own_uid: u32,
    addr: SocketAddr,
    r: Result<Relay, PeerIdError>,
)
    requires
        crate::text_laws::all_whitespace(before),
        crate::text_laws::all_whitespace(after),
        id.len() == 32,
        raw@ == before + crate::hex_text::hex_digits(id) + after,
        call_ensures(try_relay, (raw, token_present, own_uid, addr), r),
    ensures
        r matches Ok(relay) && relay@.endpoint_id == id,
{
    written_identity_is_read_back(before, id, after);
    let digits = crate::quic_sidecar::id_digits(raw@);
    match r {
        Ok(relay) => {
            crate::text_laws::decoding_has_one_outcome(digits, Ok(id), Ok(relay@.endpoint_id));
        },
        Err(PeerIdError::NotHex(e)) => {
            crate::text_laws::decoding_has_one_outcome(digits, Ok(id), Err(e));
        },
        Err(PeerIdError::WrongLength(len)) => {
            let bytes = choose|bytes: Seq<u8>|
                bytes.len() == len && #[trigger] crate::hex_text::decodes_to(digits, Ok(bytes));
            crate::text_laws::decoding_has_one_outcome(digits, Ok(id), Ok(bytes));
        },
    }
}

/// An attempt begins exactly where an identity can be read out of the option's text,
/// is for that identity, and otherwise fails as reading it does.
pub proof fn attempts_begin_where_an_identity_is_read(
    raw: &str,
    token_present: bool,
    own_uid: u32,
    addr: SocketAddr,
    read: Result<[u8; 32], PeerIdError>,
    r: Result<Relay, PeerIdError>,
)
    requires
        call_ensures(parse_peer_endpoint_id, (raw,), read),
        call_ensures(try_relay, (raw, token_present, own_uid, addr), r),
    ensures
        match read {
            Ok(id) => r matches Ok(relay) && relay@.endpoint_id == id@,
            Err(e) => r == Err::<Relay, PeerIdError>(e),
        },
{
    let digits = crate::quic_sidecar::id_digits(raw@);
    let first = outcome_of_reading(
        digits,
        match read {
            Ok(id) => Ok(id@),
            Err(e) => Err(e),
        },
    );
    let second = outcome_of_reading(
        digits,
        match r {
            Ok(relay) => Ok(relay@.endpoint_id),
            Err(e) => Err(e),
        },
    );
    crate::text_laws::decoding_has_one_outcome(digits, first, second);
}

proof fn outcome_of_reading(digits: Seq<u8>, r: Result<Seq<u8>, PeerIdError>) -> (outcome: Result<
    Seq<u8>,
    HexError,
>)
    requires
        match r {
            Ok(id) => id.len() == 32 && crate::hex_text::decodes_to(digits, Ok(id)),
            Err(PeerIdError::NotHex(e)) => crate::hex_text::decodes_to(digits, Err(e)),
            Err(PeerIdError::WrongLength(len)) => len != 32 && exists|bytes: Seq<u8>|
                bytes.len() == len && #[trigger] crate::hex_text::decodes_to(digits, Ok(bytes)),
        },
    ensures
        crate::hex_text::decodes_to(digits, outcome),
        match r {
            Ok(id) => outcome == Ok::<Seq<u8>, HexError>(id),
            Err(PeerIdError::NotHex(e)) => outcome == Err::<Seq<u8>, HexError>(e),
            Err(PeerIdError::WrongLength(len)) => outcome matches Ok(bytes) && bytes.len() == len,
        },
{
    match r {
        Ok(id) => Ok(id),
        Err(PeerIdError::NotHex(e)) => Err(e),
        Err(PeerIdError::WrongLength(len)) => Ok(
            choose|bytes: Seq<u8>|
                bytes.len() == len && #[trigger] crate::hex_text::decodes_to(digits, Ok(bytes)),
        ),
    }
}

/// What the attempt is about does not change: the peer, the token, the user and the
/// address.
pub open spec fn same_aim(before: RelayView, after: RelayView) -> bool {
    &&& after.endpoint_id == before.endpoint_id
    &&& after.token_present == before.token_present
    &&& after.own_uid == before.own_uid
    &&& after.addr == before.addr
}

/// What is to be done goes by the stage. Each request takes a control connection,
/// and then says exactly this: to be online, with an empty relay address and the
/// token that the attempt was begun with; or to dial the peer, under the session
/// protocol's name.
pub open spec fn to_be_done(relay: RelayView, r: RelayStep) -> bool {
    match (relay.stage, relay.asked) {
        (RelayStage::Starting, _) => r is Start,
        (RelayStage::Appearing, _) => r matches RelayStep::AwaitSocket { limit_secs } && limit_secs
            == 10,
        (RelayStage::GoingOnline | RelayStage::Dialing, None) => r is OpenControl,
        (RelayStage::GoingOnline, Some(_)) => r matches RelayStep::Ask(
            Control::EnsureOnline { relay_url, token_present },
        ) && relay_url@.len() == 0 && token_present == relay.token_present,
        (RelayStage::Dialing, Some(_)) => r matches RelayStep::Ask(
            Control::Dial { remote_endpoint_id, alpn },
        ) && remote_endpoint_id@ == relay.endpoint_id && alpn@ == vstd::utf8::encode_utf8(
            "/nervdesk/p3/1"@,
        ),
        (RelayStage::Connecting, _) => r matches RelayStep::Connect { path } && path@
            == relay.path,
        (RelayStage::Over, _) => r is Over,
    }
}

/// What is to be done, asked at any time; and the peer is told as it is.
pub proof fn what_is_to_be_done(relay: &Relay, r: RelayStep, id: &[u8; 32])
    requires
        call_ensures(Relay::todo, (relay,), r),
        call_ensures(Relay::endpoint_id, (relay,), id),
    ensures
        to_be_done(relay@, r),
        id@ == relay@.endpoint_id,
{
}

/// The attempt is over and the caller is to fall back, for this reason.
pub open spec fn fell_back(before: RelayView, after: RelayView, r: RelayStep, words: Seq<char>) -> bool {
    &&& same_aim(before, after)
    &&& after.stage is Over
    &&& after.asked is None
    &&& r matches RelayStep::GiveUp(e) && e.words() == words
}

/// The attempt goes on in a stage, and asks for what that takes.
pub open spec fn goes_on(
    before: RelayView,
    after: RelayView,
    r: RelayStep,
    stage: RelayStage,
    asked: Option<PeerUser>,
    path: Seq<char>,
) -> bool {
    &&& same_aim(before, after)
    &&& after.stage == stage
    &&& after.asked == asked
    &&& after.path == path
    &&& to_be_done(after, r)
}

/// Why a user is not trusted, if it is not, in words.
pub open spec fn distrusted(peer: PeerUser, own: u32) -> Option<Seq<char>> {
    match peer {
        PeerUser::Uid(uid) => if uid == own {
            None
        } else {
            Some(
                "sidecar owned by uid "@ + crate::text::decimal_text(uid as nat)
                    + ", refusing (we are uid "@ + crate::text::decimal_text(own as nat)
                    + "); possible privilege boundary crossing"@,
            )
        },
        PeerUser::Unknown => Some("sidecar peer uid unavailable"@),
        PeerUser::Enforced => None,
    }
}

/// An attempt that is over takes no event.
pub proof fn nothing_happens_to_an_attempt_that_is_over(
    relay: &mut Relay,
    event: RelayEvent,
    r: RelayStep,
)
    requires
        call_ensures(Relay::step, (relay, event), r),
        old(relay)@.stage is Over,
    ensures
        final(relay)@ == old(relay)@,
        r is Over,
{
}

/// In every other stage a failure ends the attempt, with its own words.
pub proof fn failures_end_the_attempt(relay: &mut Relay, e: SidecarError, r: RelayStep)
    requires
        call_ensures(Relay::step, (relay, RelayEvent::Failed(e)), r),
        !(old(relay)@.stage is Over),
    ensures
        fell_back(old(relay)@, final(relay)@, r, e.words()),
{
}

/// The sidecar is there: one that listens is asked at once, one that was started is
/// waited for first.
pub proof fn having_the_sidecar_running(relay: &mut Relay, event: RelayEvent, r: RelayStep)
    requires
        call_ensures(Relay::step, (relay, event), r),
        old(relay)@.stage is Starting || old(relay)@.stage is Appearing,
        !(event is Failed),
    ensures
        goes_on(
            old(relay)@,
            final(relay)@,
            r,
            match (old(relay)@.stage, event) {
                (RelayStage::Starting, RelayEvent::Listening) => RelayStage::GoingOnline,
                (RelayStage::Starting, RelayEvent::Spawned) => RelayStage::Appearing,
                (RelayStage::Appearing, RelayEvent::Waited) => RelayStage::GoingOnline,
                (stage, _) => stage,
            },
            old(relay)@.asked,
            old(relay)@.path,
        ),
{
}

/// While there is no control connection: one to a trusted process is used, one to
/// any other ends the attempt, and a reply is not taken.
pub proof fn opening_a_control_connection(relay: &mut Relay, event: RelayEvent, r: RelayStep)
    requires
        call_ensures(Relay::step, (relay, event), r),
        old(relay)@.stage is GoingOnline || old(relay)@.stage is Dialing,
        old(relay)@.asked is None,
        !(event is Failed),
    ensures
        match event {
            RelayEvent::ControlOpened(peer) => match distrusted(peer, old(relay)@.own_uid) {
                Some(words) => fell_back(old(relay)@, final(relay)@, r, words),
                None => goes_on(
                    old(relay)@,
                    final(relay)@,
                    r,
                    old(relay)@.stage,
                    Some(peer),
                    old(relay)@.path,
                ),
            },
            _ => goes_on(
                old(relay)@,
                final(relay)@,
                r,
                old(relay)@.stage,
                None,
                old(relay)@.path,
            ),
        },
{
}

/// Once the sidecar was asked to be online: a yes leads on to the dial, on another
/// connection, and anything else that it says ends the attempt.
pub proof fn waiting_to_be_online(relay: &mut Relay, event: RelayEvent, r: RelayStep)
    requires
        call_ensures(Relay::step, (relay, event), r),
        old(relay)@.stage is GoingOnline,
        old(relay)@.asked is Some,
        !(event is Failed),
    ensures
        match event {
            RelayEvent::Reply(reply) => match complaint(
                reply,
                "sidecar could not reach relay: "@,
            ) {
                Some(words) => fell_back(old(relay)@, final(relay)@, r, words),
                None => goes_on(
                    old(relay)@,
                    final(relay)@,
                    r,
                    RelayStage::Dialing,
                    None,
                    old(relay)@.path,
                ),
            },
            _ => goes_on(
                old(relay)@,
                final(relay)@,
                r,
                RelayStage::GoingOnline,
                old(relay)@.asked,
                old(relay)@.path,
            ),
        },
{
}

/// Once the sidecar was asked to dial: a yes leads on to the data connection, with
/// the path that it names, and anything else that it says ends the attempt.
pub proof fn waiting_for_the_dial(relay: &mut Relay, event: RelayEvent, r: RelayStep)
    requires
        call_ensures(Relay::step, (relay, event), r),
        old(relay)@.stage is Dialing,
        old(relay)@.asked is Some,
        !(event is Failed),
    ensures
        match event {
            RelayEvent::Reply(reply) => match complaint(reply, "sidecar dial failed: "@) {
                Some(words) => fell_back(old(relay)@, final(relay)@, r, words),
                None => goes_on(
                    old(relay)@,
                    final(relay)@,
                    r,
                    RelayStage::Connecting,
                    None,
                    named_path(reply),
                ),
            },
            _ => goes_on(
                old(relay)@,
                final(relay)@,
                r,
                RelayStage::Dialing,
                old(relay)@.asked,
                old(relay)@.path,
            ),
        },
{
}

/// While the data connection is made: one to a trusted process is the session,
/// framed, at the attempt's address, with neither a state nor a timeout; one to any
/// other ends the attempt.
pub proof fn making_the_data_connection(relay: &mut Relay, event: RelayEvent, r: RelayStep)
    requires
        call_ensures(Relay::step, (relay, event), r),
        old(relay)@.stage is Connecting,
        !(event is Failed),
    ensures
        match event {
            RelayEvent::Connected { link, peer } => match distrusted(peer, old(relay)@.own_uid) {
                Some(words) => fell_back(old(relay)@, final(relay)@, r, words),
                None => {
                    &&& same_aim(old(relay)@, final(relay)@)
                    &&& final(relay)@.stage is Over
                    &&& r matches RelayStep::Done(Stream::Tcp(f)) && f.0.id == link && !f.0.raw
                        && f.1 == old(relay)@.addr && f.2 is None && f.3 == 0
                },
            },
            _ => goes_on(
                old(relay)@,
                final(relay)@,
                r,
                RelayStage::Connecting,
                old(relay)@.asked,
                old(relay)@.path,
            ),
        },
{
}

/// Over any events, whenever the sidecar is asked to be online it is told an empty
/// relay address, and of a token exactly if the attempt was begun with one; and
/// whenever it is asked to dial, the peer is the one that the attempt was begun for.
pub proof fn requests_say_what_the_attempt_was_begun_with(
    relay: RelayView,
    events: Seq<RelayEvent>,
)
    ensures
        ({
            let now = run(relay, events);
            &&& now.token_present == relay.token_present
            &&& now.endpoint_id == relay.endpoint_id
            &&& now.addr == relay.addr
            &&& now.stage is GoingOnline && now.todo() is Ask ==> now.todo() == RelayStepView::Ask(
                ControlView::EnsureOnline {
                    relay_url: seq![],
                    token_present: relay.token_present,
                },
            )
            &&& now.stage is Dialing && now.todo() is Ask ==> now.todo() == RelayStepView::Ask(
                ControlView::Dial {
                    remote_endpoint_id: relay.endpoint_id,
                    alpn: vstd::utf8::encode_utf8("/nervdesk/p3/1"@),
                },
            )
        }),
    decreases events.len(),
{
    if events.len() > 0 {
        requests_say_what_the_attempt_was_begun_with(relay, events.drop_last());
    }
}

} // verus!
