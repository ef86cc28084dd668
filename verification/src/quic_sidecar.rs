//! QUIC through a sidecar process on this machine.
//!
//! The sidecar holds the QUIC session to a relay and lends it out as a byte
//! stream. The caller finds and starts it, carries control messages to it and
//! connects to it. This module says what to look for, what to ask, what a reply
//! means and whom to trust.

use crate::hex_text::{decode, encode, HexError};
use crate::net::SocketAddr;
use crate::stream::{Stream, StreamView};
use crate::tcp::{FramedStream, Link};
use crate::text::{decimal, join2, join3, quote, read_lossy, trim, trim_newlines};
use vstd::prelude::*;

verus! {

/// Name of the sidecar's program.
pub const SIDECAR_NAME: &'static str = "nervdesk-quic-sidecar";

/// What the name of the sidecar's socket ends with.
pub const SIDECAR_IPC_POSTFIX: &'static str = "-sidecar";

/// The sidecar's argument that makes it serve.
pub const SIDECAR_ROLE: &'static str = "serve";

/// How long to wait for the sidecar's socket to appear, once it is started.
pub const SIDECAR_SPAWN_TIMEOUT_SECS: u64 = 10;

/// How long the sidecar may take for a reply.
pub const CONTROL_TIMEOUT_SECS: u64 = 15;

/// Name of the session protocol towards the peer.
pub const RELAY_ALPN: &'static str = "/nervdesk/p3/1";

/// A control message to or from the sidecar.
#[derive(Debug, Clone, PartialEq, Eq)]
pub enum Control {
    /// Asks the sidecar to be online at the relay.
    EnsureOnline { relay_url: String, token_present: bool },
    /// Asks the sidecar to dial a peer, and to take a data connection then.
    Dial { remote_endpoint_id: [u8; 32], alpn: Vec<u8> },
    /// Tells how that went: by which path, or why not.
    DialResult { ok: bool, reason: Option<String>, path: Option<String> },
    /// Tells of a peer that dials in.
    Incoming { remote_endpoint_id: [u8; 32], path: Option<String> },
    /// Lets it in, or not.
    Accept { decision: bool, reason: Option<String> },
    /// Asks the sidecar to end.
    Shutdown {},
}

/// [`Control`] with its text and its bytes as sequences.
#[verifier::ext_equal]
pub enum ControlView {
    EnsureOnline { relay_url: Seq<char>, token_present: bool },
    Dial { remote_endpoint_id: Seq<u8>, alpn: Seq<u8> },
    DialResult { ok: bool, reason: Option<Seq<char>>, path: Option<Seq<char>> },
    Incoming { remote_endpoint_id: Seq<u8>, path: Option<Seq<char>> },
    Accept { decision: bool, reason: Option<Seq<char>> },
    Shutdown,
}

/// An optional text as characters.
pub open spec fn option_view(s: Option<String>) -> Option<Seq<char>> {
    match s {
        Some(s) => Some(s@),
        None => None,
    }
}

impl View for Control {
    type V = ControlView;

    open spec fn view(&self) -> ControlView {
        match self {
            Control::EnsureOnline { relay_url, token_present } => ControlView::EnsureOnline {
                relay_url: relay_url@,
                token_present: *token_present,
            },
            Control::Dial { remote_endpoint_id, alpn } => ControlView::Dial {
                remote_endpoint_id: remote_endpoint_id@,
                alpn: alpn@,
            },
            Control::DialResult { ok, reason, path } => ControlView::DialResult {
                ok: *ok,
                reason: option_view(*reason),
                path: option_view(*path),
            },
            Control::Incoming { remote_endpoint_id, path } => ControlView::Incoming {
                remote_endpoint_id: remote_endpoint_id@,
                path: option_view(*path),
            },
            Control::Accept { decision, reason } => ControlView::Accept {
                decision: *decision,
                reason: option_view(*reason),
            },
            Control::Shutdown {  } => ControlView::Shutdown,
        }
    }
}

/// A truth value as text.
pub open spec fn bool_text(b: bool) -> Seq<char> {
    if b {
        "true"@
    } else {
        "false"@
    }
}

/// An optional text as `{:?}` writes it.
pub open spec fn quoted_option(s: Option<Seq<char>>) -> Seq<char> {
    match s {
        Some(s) => "Some("@ + crate::text::quoted(s) + ")"@,
        None => "None"@,
    }
}

/// The first bytes of an identity, as digits.
pub open spec fn short_id(id: Seq<u8>) -> Seq<char> {
    crate::hex_text::hex_digits(id.subrange(0, 4))
}

fn bool_word(b: bool) -> (r: &'static str)
    ensures
        r@ == bool_text(b),
{
    if b {
        "true"
    } else {
        "false"
    }
}

fn quote_option(s: &Option<String>) -> (r: String)
    ensures
        r@ == quoted_option(option_view(*s)),
{
    match s {
        Some(s) => {
            let quoted = quote(s.as_str());
            join3("Some(", quoted.as_str(), ")")
        },
        None => "None".to_owned(),
    }
}

/// The first bytes of an identity, for logs.
pub fn abbreviate(id: &[u8; 32]) -> (r: String)
    ensures
        r@ == short_id(id@),
{
    let head = vstd::slice::slice_subrange(id.as_slice(), 0, 4);
    encode(head)
}

impl ControlView {
    /// The message in short.
    pub open spec fn text(self) -> Seq<char> {
        match self {
            ControlView::EnsureOnline { relay_url, .. } => "EnsureOnline("@ + relay_url + ")"@,
            ControlView::Dial { remote_endpoint_id, .. } => "Dial("@ + short_id(remote_endpoint_id)
                + "..)"@,
            ControlView::DialResult { ok, path, .. } => "DialResult(ok="@ + bool_text(ok)
                + ", path="@ + quoted_option(path) + ")"@,
            ControlView::Incoming { remote_endpoint_id, .. } => "Incoming("@ + short_id(
                remote_endpoint_id,
            ) + "..)"@,
            ControlView::Accept { decision, .. } => "Accept("@ + bool_text(decision) + ")"@,
            ControlView::Shutdown => "Shutdown"@,
        }
    }

    /// Why a reply means that the sidecar is not online, if it does.
    pub open spec fn online_failure(self) -> Option<Seq<char>> {
        match self {
            ControlView::DialResult { ok, reason, .. } => if ok {
                None
            } else {
                Some("sidecar could not reach relay: "@ + reason_text(reason))
            },
            other => Some("unexpected control reply: "@ + other.text()),
        }
    }

    /// By which path a reply says that the peer was reached.
    pub open spec fn path_taken(self) -> Seq<char> {
        match self {
            ControlView::DialResult { path: Some(path), .. } => path,
            _ => "relay"@,
        }
    }

    /// Why a reply means that the peer was not reached, if it does.
    pub open spec fn dial_failure(self) -> Option<Seq<char>> {
        match self {
            ControlView::DialResult { ok, reason, .. } => if ok {
                None
            } else {
                Some("sidecar dial failed: "@ + reason_text(reason))
            },
            other => Some("unexpected control reply: "@ + other.text()),
        }
    }
}

impl Control {
    /// The message in short, for logs and errors.
    pub fn display(&self) -> (r: String)
        ensures
            r@ == self@.text(),
    {
        match self {
            Control::EnsureOnline { relay_url, .. } => join3(
                "EnsureOnline(",
                relay_url.as_str(),
                ")",
            ),
            Control::Dial { remote_endpoint_id, .. } => {
                let id = abbreviate(remote_endpoint_id);
                join3("Dial(", id.as_str(), "..)")
            },
            Control::DialResult { ok, path, .. } => {
                let path = quote_option(path);
                let head = join3("DialResult(ok=", bool_word(*ok), ", path=");
                join3(head.as_str(), path.as_str(), ")")
            },
            Control::Incoming { remote_endpoint_id, .. } => {
                let id = abbreviate(remote_endpoint_id);
                join3("Incoming(", id.as_str(), "..)")
            },
            Control::Accept { decision, .. } => join3("Accept(", bool_word(*decision), ")"),
            Control::Shutdown {  } => "Shutdown".to_owned(),
        }
    }
}

/// What went wrong with the sidecar.
#[derive(Debug, Clone, PartialEq, Eq)]
pub enum SidecarError {
    /// The program was not found.
    NotFound,
    /// The program did not start.
    Spawn(String),
    /// It could not be told who is at the other end.
    NoPeerUid,
    /// Somebody else is at the other end.
    ForeignUid { peer: u32, own: u32 },
    /// The sidecar did not get online.
    Offline(String),
    /// The sidecar did not reach the peer.
    DialFailed(String),
    /// The reply is no reply to the request, with its short form.
    Unexpected(String),
    /// The sidecar could not be talked to, with the transport's words.
    Control(String),
}

/// A reason, or a word for none.
pub open spec fn reason_text(reason: Option<Seq<char>>) -> Seq<char> {
    match reason {
        Some(reason) => reason,
        None => "unknown"@,
    }
}

fn reason_or_unknown(reason: &Option<String>) -> (r: String)
    ensures
        r@ == reason_text(option_view(*reason)),
{
    match reason {
        Some(reason) => reason.clone(),
        None => "unknown".to_owned(),
    }
}

impl SidecarError {
    /// What the error is in words.
    pub open spec fn words(self) -> Seq<char> {
        match self {
            SidecarError::NotFound => SIDECAR_NAME@
                + " not found (set `sidecar-path` local option or place it next to the executable)"@,
            SidecarError::Spawn(cause) => "failed to spawn "@ + SIDECAR_NAME@ + ": "@ + cause@,
            SidecarError::NoPeerUid => "sidecar peer uid unavailable"@,
            SidecarError::ForeignUid { peer, own } => "sidecar owned by uid "@
                + crate::text::decimal_text(peer as nat) + ", refusing (we are uid "@
                + crate::text::decimal_text(own as nat)
                + "); possible privilege boundary crossing"@,
            SidecarError::Offline(reason) => "sidecar could not reach relay: "@ + reason@,
            SidecarError::DialFailed(reason) => "sidecar dial failed: "@ + reason@,
            SidecarError::Unexpected(reply) => "unexpected control reply: "@ + reply@,
            SidecarError::Control(cause) => cause@,
        }
    }

    /// The error in words.
    pub fn message(&self) -> (r: String)
        ensures
            r@ == self.words(),
    {
        match self {
            SidecarError::NotFound => join2(
                SIDECAR_NAME,
                " not found (set `sidecar-path` local option or place it next to the executable)",
            ),
            SidecarError::Spawn(cause) => {
                let head = join3("failed to spawn ", SIDECAR_NAME, ": ");
                join2(head.as_str(), cause.as_str())
            },
            SidecarError::NoPeerUid => "sidecar peer uid unavailable".to_owned(),
            SidecarError::ForeignUid { peer, own } => {
                let peer = decimal(*peer as u64);
                let own = decimal(*own as u64);
                let head = join3(
                    "sidecar owned by uid ",
                    peer.as_str(),
                    ", refusing (we are uid ",
                );
                join3(head.as_str(), own.as_str(), "); possible privilege boundary crossing")
            },
            SidecarError::Offline(reason) => join2(
                "sidecar could not reach relay: ",
                reason.as_str(),
            ),
            SidecarError::DialFailed(reason) => join2("sidecar dial failed: ", reason.as_str()),
            SidecarError::Unexpected(reply) => join2("unexpected control reply: ", reply.as_str()),
            SidecarError::Control(cause) => cause.clone(),
        }
    }
}

/// Where the sidecar's program may be.
#[derive(Debug, Clone, PartialEq, Eq)]
pub enum Candidate {
    /// Where the configuration says.
    Configured(String),
    /// A file of this name in the directory of the running program.
    Beside(String),
    /// A file of this name in this directory, in which programs are looked for.
    OnPath { dir: String, name: String },
    /// A file of this name in the working directory.
    Named(String),
}

/// [`Candidate`] with its text as characters.
#[verifier::ext_equal]
pub enum CandidateView {
    Configured(Seq<char>),
    Beside(Seq<char>),
    OnPath { dir: Seq<char>, name: Seq<char> },
    Named(Seq<char>),
}

impl View for Candidate {
    type V = CandidateView;

    open spec fn view(&self) -> CandidateView {
        match self {
            Candidate::Configured(path) => CandidateView::Configured(path@),
            Candidate::Beside(name) => CandidateView::Beside(name@),
            Candidate::OnPath { dir, name } => CandidateView::OnPath { dir: dir@, name: name@ },
            Candidate::Named(name) => CandidateView::Named(name@),
        }
    }
}

/// Candidates with their text as characters.
pub open spec fn candidates_view(candidates: Seq<Candidate>) -> Seq<CandidateView> {
    candidates.map_values(|c: Candidate| c@)
}

/// Directories with their text as characters.
pub open spec fn dirs_view(dirs: Seq<String>) -> Seq<Seq<char>> {
    dirs.map_values(|d: String| d@)
}

/// The sidecar's program in each of a list of directories.
pub open spec fn on_path(dirs: Seq<Seq<char>>) -> Seq<CandidateView> {
    dirs.map_values(|d: Seq<char>| CandidateView::OnPath { dir: d, name: SIDECAR_NAME@ })
}

/// The sidecar's program beside the running one.
pub open spec fn beside(knows_own_dir: bool) -> Seq<CandidateView> {
    if knows_own_dir {
        seq![
            CandidateView::Beside(SIDECAR_NAME@),
            CandidateView::Beside(SIDECAR_NAME@ + ".exe"@),
        ]
    } else {
        seq![]
    }
}

/// Where to look for the sidecar's program, best first. A configured place is the
/// only one. Otherwise it is looked for beside the running program, then in each
/// directory of `PATH` in order, and at last in the working directory.
pub open spec fn places(
    configured: Seq<char>,
    knows_own_dir: bool,
    path_dirs: Seq<Seq<char>>,
) -> Seq<CandidateView> {
    if configured.len() > 0 {
        seq![CandidateView::Configured(configured)]
    } else {
        beside(knows_own_dir) + on_path(path_dirs) + seq![CandidateView::Named(SIDECAR_NAME@)]
    }
}

/// Where to look for the sidecar's program, best first, given the text of the
/// `sidecar-path` option, whether the running program knows its directory, and the
/// directories of `PATH`.
pub fn sidecar_candidates(configured: String, knows_own_dir: bool, path_dirs: &Vec<String>) -> (r:
    Vec<Candidate>)
    ensures
        candidates_view(r@) == places(configured@, knows_own_dir, dirs_view(path_dirs@)),
{
    let mut v: Vec<Candidate> = Vec::new();
    if !configured.as_str().is_empty() {
        v.push(Candidate::Configured(configured));
        return v;
    }
    if knows_own_dir {
        v.push(Candidate::Beside(SIDECAR_NAME.to_owned()));
        v.push(Candidate::Beside(join2(SIDECAR_NAME, ".exe")));
    }
    let ghost dirs = dirs_view(path_dirs@);
    let mut i: usize = 0;
    assert(candidates_view(v@) == beside(knows_own_dir) + on_path(dirs.take(0)));
    while i < path_dirs.len()
        invariant
            i <= path_dirs@.len(),
            dirs == dirs_view(path_dirs@),
            candidates_view(v@) == beside(knows_own_dir) + on_path(dirs.take(i as int)),
        decreases path_dirs@.len() - i,
    {
        let ghost before = v@;
        let candidate = Candidate::OnPath {
            dir: path_dirs[i].clone(),
            name: SIDECAR_NAME.to_owned(),
        };
        let ghost added = candidate@;
        v.push(candidate);
        assert(candidates_view(v@) == candidates_view(before).push(added));
        assert(on_path(dirs.take(i + 1)) == on_path(dirs.take(i as int)).push(added));
        i = i + 1;
    }
    assert(dirs.take(i as int) == dirs);
    v.push(Candidate::Named(SIDECAR_NAME.to_owned()));
    v
}

/// The first place at which there is a file.
pub open spec fn first_present(present: Seq<bool>, i: int) -> bool {
    0 <= i < present.len() && present[i] && forall|j: int| 0 <= j < i ==> !#[trigger] present[j]
}

/// The place of the sidecar's program, given at which of the candidates there is
/// a file.
pub fn sidecar_path(present: &Vec<bool>) -> (r: Option<usize>)
    ensures
        match r {
            Some(i) => first_present(present@, i as int),
            None => !present@.contains(true),
        },
{
    let mut i: usize = 0;
    while i < present.len()
        invariant
            i <= present@.len(),
            forall|j: int| 0 <= j < i ==> !#[trigger] present@[j],
        decreases present@.len() - i,
    {
        if present[i] {
            return Some(i);
        }
        i = i + 1;
    }
    None
}

/// Whether there is a sidecar on this machine, given at which of the candidates
/// there is a file.
pub fn available(present: &Vec<bool>) -> (r: bool)
    ensures
        r == present@.contains(true),
{
    match sidecar_path(present) {
        Some(i) => {
            assert(present@[i as int]);
            true
        },
        None => false,
    }
}

/// What to do to have a sidecar.
#[derive(Debug, Clone, PartialEq, Eq)]
pub enum SidecarStart {
    /// Nothing: it listens already.
    Running,
    /// Start the program at this candidate.
    Spawn(usize),
}

/// What to do to have a sidecar, given whether its socket is there and at which
/// of the candidates there is a file.
pub fn ensure_sidecar(listening: bool, present: &Vec<bool>) -> (r: Result<
    SidecarStart,
    SidecarError,
>)
    ensures
        match r {
            Ok(SidecarStart::Running) => listening,
            Ok(SidecarStart::Spawn(i)) => !listening && first_present(present@, i as int),
            Err(e) => !listening && !present@.contains(true) && e == SidecarError::NotFound,
        },
{
    if listening {
        return Ok(SidecarStart::Running);
    }
    match sidecar_path(present) {
        Some(i) => Ok(SidecarStart::Spawn(i)),
        None => Err(SidecarError::NotFound),
    }
}

/// The user that the process at the other end of a connection runs under.
#[derive(Debug, Clone, Copy, PartialEq, Eq, Structural)]
pub enum PeerUser {
    /// The user of this number.
    Uid(u32),
    /// It could not be told.
    Unknown,
    /// There is nothing to tell: on this platform the system itself lets no other
    /// user connect.
    Enforced,
}

/// Why a process of this user is not trusted, if it is not.
pub open spec fn distrust(peer: PeerUser, own: u32) -> Option<SidecarError> {
    match peer {
        PeerUser::Uid(uid) => if uid == own {
            None
        } else {
            Some(SidecarError::ForeignUid { peer: uid, own })
        },
        PeerUser::Unknown => Some(SidecarError::NoPeerUid),
        PeerUser::Enforced => None,
    }
}

/// Makes sure that the sidecar runs under the same user.
pub fn verify_peer_uid(peer: PeerUser, own: u32) -> (r: Result<(), SidecarError>)
    ensures
        match r {
            Ok(_) => distrust(peer, own) is None,
            Err(e) => distrust(peer, own) == Some(e),
        },
{
    match peer {
        PeerUser::Uid(uid) => if uid != own {
            Err(SidecarError::ForeignUid { peer: uid, own })
        } else {
            Ok(())
        },
        PeerUser::Unknown => Err(SidecarError::NoPeerUid),
        PeerUser::Enforced => Ok(()),
    }
}

/// The bytes of a request, given the message as JSON: one line.
pub fn request_line(json: &str) -> (r: Vec<u8>)
    ensures
        r@ == vstd::utf8::encode_utf8(json@).push(10),
{
    let mut r = vstd::slice::slice_to_vec(json.as_bytes());
    r.push(10);
    r
}

/// The JSON of a reply, given everything that the sidecar sent. The line ends
/// behind it are left out.
pub fn reply_text(bytes: &[u8]) -> (r: String)
    ensures
        r@ == crate::text::without_trailing_newlines(crate::text::utf8_lossy(bytes@)),
        vstd::utf8::valid_utf8(bytes@) ==> r@ == crate::text::without_trailing_newlines(
            vstd::utf8::decode_utf8(bytes@),
        ),
{
    let text = read_lossy(bytes);
    trim_newlines(text.as_str()).to_owned()
}

/// The request to be online at a relay.
pub fn ensure_online_request(relay_url: &str, token_present: bool) -> (r: Control)
    ensures
        r@ == (ControlView::EnsureOnline { relay_url: relay_url@, token_present }),
{
    Control::EnsureOnline { relay_url: relay_url.to_owned(), token_present }
}

/// What a reply to the request to be online means.
pub fn ensure_online(reply: &Control) -> (r: Result<(), SidecarError>)
    ensures
        match r {
            Ok(_) => reply@.online_failure() is None,
            Err(e) => reply@.online_failure() == Some(e.words()),
        },
{
    match reply {
        Control::DialResult { ok, reason, .. } => if *ok {
            Ok(())
        } else {
            Err(SidecarError::Offline(reason_or_unknown(reason)))
        },
        other => Err(SidecarError::Unexpected(other.display())),
    }
}

/// The request to dial a peer.
pub fn dial_request(remote_endpoint_id: [u8; 32], alpn: &[u8]) -> (r: Control)
    ensures
        r@ == (ControlView::Dial { remote_endpoint_id: remote_endpoint_id@, alpn: alpn@ }),
{
    Control::Dial { remote_endpoint_id, alpn: vstd::slice::slice_to_vec(alpn) }
}

/// What a reply to the request to dial means: the path to the peer, or the error.
pub fn dial(reply: &Control) -> (r: Result<String, SidecarError>)
    ensures
        match r {
            Ok(by) => reply@.dial_failure() is None && by@ == reply@.path_taken(),
            Err(e) => reply@.dial_failure() == Some(e.words()),
        },
{
    match reply {
        Control::DialResult { ok, reason, path } => if *ok {
            match path {
                Some(path) => Ok(path.clone()),
                None => Ok("relay".to_owned()),
            }
        } else {
            Err(SidecarError::DialFailed(reason_or_unknown(reason)))
        },
        other => Err(SidecarError::Unexpected(other.display())),
    }
}

/// Why an option's text is no peer identity.
#[derive(Debug, Clone, Copy, PartialEq, Eq)]
pub enum PeerIdError {
    /// It is no hexadecimal number.
    NotHex(HexError),
    /// It has so many bytes, and should have 32.
    WrongLength(usize),
}

impl PeerIdError {
    /// The error in words.
    pub fn message(&self) -> (r: String)
        ensures
            r@ == match self {
                PeerIdError::NotHex(e) =>
                    "sidecar-peer-endpoint-id not a valid hex peer id: "@ + e.words()
                    + "; skipping"@,
                PeerIdError::WrongLength(len) => "sidecar-peer-endpoint-id is "@
                    + crate::text::decimal_text(*len as nat)
                    + " bytes, expected 32; skipping sidecar relay"@,
            },
    {
        match self {
            PeerIdError::NotHex(e) => {
                let e = e.message();
                join3("sidecar-peer-endpoint-id not a valid hex peer id: ", e.as_str(), "; skipping")
            },
            PeerIdError::WrongLength(len) => {
                let len = decimal(*len as u64);
                join3(
                    "sidecar-peer-endpoint-id is ",
                    len.as_str(),
                    " bytes, expected 32; skipping sidecar relay",
                )
            },
        }
    }
}

/// The identity that decoded bytes are, if there are as many as it takes.
pub fn endpoint_id_of(bytes: &Vec<u8>) -> (r: Result<[u8; 32], PeerIdError>)
    ensures
        match r {
            Ok(id) => id@ == bytes@,
            Err(e) => bytes@.len() != 32 && (e matches PeerIdError::WrongLength(len) && len
                == bytes@.len()),
        },
{
    if bytes.len() != 32 {
        return Err(PeerIdError::WrongLength(bytes.len()));
    }
    let mut id: [u8; 32] = [0; 32];
    let mut i: usize = 0;
    while i < 32
        invariant
            i <= 32,
            bytes@.len() == 32,
            id@.len() == 32,
            forall|j: int| 0 <= j < i ==> id@[j] == bytes@[j],
        decreases 32 - i,
    {
        id[i] = bytes[i];
        i = i + 1;
    }
    assert(id@ == bytes@);
    Ok(id)
}

/// The text that an identity is read from.
pub open spec fn id_digits(raw: Seq<char>) -> Seq<u8> {
    vstd::utf8::encode_utf8(crate::text::trimmed(raw))
}

/// Reads the text of the `sidecar-peer-endpoint-id` option: 64 hexadecimal
/// digits, with any space around.
pub fn parse_peer_endpoint_id(raw: &str) -> (r: Result<[u8; 32], PeerIdError>)
    ensures
        match r {
            Ok(id) => crate::hex_text::decodes_to(id_digits(raw@), Ok(id@)),
            Err(PeerIdError::NotHex(e)) => crate::hex_text::decodes_to(id_digits(raw@), Err(e)),
            Err(PeerIdError::WrongLength(len)) => len != 32 && exists|bytes: Seq<u8>|
                bytes.len() == len && #[trigger] crate::hex_text::decodes_to(
                    id_digits(raw@),
                    Ok(bytes),
                ),
        },
{
    match decode(trim(raw)) {
        Ok(bytes) => {
            assert(crate::hex_text::decodes_to(id_digits(raw@), Ok(bytes@)));
            endpoint_id_of(&bytes)
        },
        Err(e) => Err(PeerIdError::NotHex(e)),
    }
}

/// How far an attempt to use the sidecar has come.
#[derive(Debug, Clone, Copy, PartialEq, Eq, Structural)]
pub enum RelayStage {
    /// The sidecar is being looked for, and started if it is not there.
    Starting,
    /// It was started, and its socket is waited for.
    Appearing,
    /// It is asked to be online.
    GoingOnline,
    /// It is asked to dial the peer.
    Dialing,
    /// The data connection to it is being made.
    Connecting,
    /// The attempt has succeeded or failed.
    Over,
}

/// What can happen to such an attempt.
#[derive(Debug, Clone, PartialEq, Eq)]
pub enum RelayEvent {
    /// The sidecar listens already.
    Listening,
    /// It was started.
    Spawned,
    /// Its socket has appeared, or has been waited for long enough.
    Waited,
    /// A control connection is there, to a process of this user.
    ControlOpened(PeerUser),
    /// The process at the other end of the control connection replied.
    Reply(Control),
    /// The data connection is there and known by this number, to a process of
    /// this user.
    Connected { link: u64, peer: PeerUser },
    /// What was to be done failed.
    Failed(SidecarError),
}

/// What the caller has to do for such an attempt.
pub enum RelayStep {
    /// Have the sidecar running, see [`ensure_sidecar`].
    Start,
    /// Wait for its socket to appear, at most so long.
    AwaitSocket { limit_secs: u64 },
    /// Open a control connection to it.
    OpenControl,
    /// Send this on the control connection, and hand the reply back.
    Ask(Control),
    /// Connect to the sidecar for data. The peer was reached by this path.
    Connect { path: String },
    /// Use this connection.
    Done(Stream),
    /// Fall back to another transport, for this reason.
    GiveUp(SidecarError),
    /// Nothing: the attempt is over.
    Over,
}

/// [`RelayStep`] with its connection as a value and its error in words.
#[verifier::ext_equal]
pub enum RelayStepView {
    Start,
    AwaitSocket { limit_secs: u64 },
    OpenControl,
    Ask(ControlView),
    Connect { path: Seq<char> },
    Done(StreamView),
    GiveUp(Seq<char>),
    Over,
}

impl View for RelayStep {
    type V = RelayStepView;

    open spec fn view(&self) -> RelayStepView {
        match self {
            RelayStep::Start => RelayStepView::Start,
            RelayStep::AwaitSocket { limit_secs } => RelayStepView::AwaitSocket {
                limit_secs: *limit_secs,
            },
            RelayStep::OpenControl => RelayStepView::OpenControl,
            RelayStep::Ask(message) => RelayStepView::Ask(message@),
            RelayStep::Connect { path } => RelayStepView::Connect { path: path@ },
            RelayStep::Done(stream) => RelayStepView::Done(stream@),
            RelayStep::GiveUp(e) => RelayStepView::GiveUp(e.words()),
            RelayStep::Over => RelayStepView::Over,
        }
    }
}

/// An attempt to reach the peer through the sidecar.
pub struct Relay {
    endpoint_id: [u8; 32],
    token_present: bool,
    own_uid: u32,
    addr: SocketAddr,
    /// The user at the other end of the control connection, while there is one.
    asked: Option<PeerUser>,
    /// By which path the peer was reached.
    path: String,
    stage: RelayStage,
}

/// [`Relay`] with its identity and its text as sequences.
#[verifier::ext_equal]
pub struct RelayView {
    /// Whom to reach.
    pub endpoint_id: Seq<u8>,
    /// A token for the relay is at hand.
    pub token_present: bool,
    /// The user that the sidecar has to belong to.
    pub own_uid: u32,
    /// The address that the session goes by.
    pub addr: SocketAddr,
    /// The user at the other end of the control connection, while there is one.
    pub asked: Option<PeerUser>,
    /// By which path the peer was reached.
    pub path: Seq<char>,
    pub stage: RelayStage,
}

impl View for Relay {
    type V = RelayView;

    closed spec fn view(&self) -> RelayView {
        RelayView {
            endpoint_id: self.endpoint_id@,
            token_present: self.token_present,
            own_uid: self.own_uid,
            addr: self.addr,
            asked: self.asked,
            path: self.path@,
            stage: self.stage,
        }
    }
}

impl RelayView {
    /// An attempt that has not begun.
    pub open spec fn fresh(
        endpoint_id: Seq<u8>,
        token_present: bool,
        own_uid: u32,
        addr: SocketAddr,
    ) -> RelayView {
        RelayView {
            endpoint_id,
            token_present,
            own_uid,
            addr,
            asked: None,
            path: seq![],
            stage: RelayStage::Starting,
        }
    }

    /// What the sidecar is asked in the stage that the attempt is in. It knows its
    /// relay, so it is not told one.
    pub open spec fn request(self) -> Option<ControlView> {
        match self.stage {
            RelayStage::GoingOnline => Some(
                ControlView::EnsureOnline { relay_url: seq![], token_present: self.token_present },
            ),
            RelayStage::Dialing => Some(
                ControlView::Dial {
                    remote_endpoint_id: self.endpoint_id,
                    alpn: vstd::utf8::encode_utf8(RELAY_ALPN@),
                },
            ),
            _ => None,
        }
    }

    /// What is to be done in the stage that the attempt is in. Every request takes
    /// a control connection of its own.
    pub open spec fn todo(self) -> RelayStepView {
        match (self.stage, self.request(), self.asked) {
            (RelayStage::Starting, _, _) => RelayStepView::Start,
            (RelayStage::Appearing, _, _) => RelayStepView::AwaitSocket {
                limit_secs: SIDECAR_SPAWN_TIMEOUT_SECS,
            },
            (_, Some(_), None) => RelayStepView::OpenControl,
            (_, Some(message), Some(_)) => RelayStepView::Ask(message),
            (RelayStage::Connecting, _, _) => RelayStepView::Connect { path: self.path },
            _ => RelayStepView::Over,
        }
    }

    /// Why the attempt fails, where the event makes it fail.
    pub open spec fn failure(self, event: RelayEvent) -> Option<Seq<char>> {
        match (self.stage, event, self.asked) {
            (RelayStage::Over, _, _) => None,
            (_, RelayEvent::Failed(e), _) => Some(e.words()),
            (
                RelayStage::GoingOnline | RelayStage::Dialing,
                RelayEvent::ControlOpened(peer),
                None,
            ) => match distrust(peer, self.own_uid) {
                Some(e) => Some(e.words()),
                None => None,
            },
            (RelayStage::GoingOnline, RelayEvent::Reply(reply), Some(_)) => reply@.online_failure(),
            (RelayStage::Dialing, RelayEvent::Reply(reply), Some(_)) => reply@.dial_failure(),
            (RelayStage::Connecting, RelayEvent::Connected { peer, .. }, _) => match distrust(
                peer,
                self.own_uid,
            ) {
                Some(e) => Some(e.words()),
                None => None,
            },
            _ => None,
        }
    }

    /// The attempt after an event that lets it go on. An event that does not belong
    /// to the stage changes nothing, and neither does a reply that nobody was asked
    /// for.
    pub open spec fn advanced(self, event: RelayEvent) -> RelayView {
        match (self.stage, event, self.asked) {
            (RelayStage::Starting, RelayEvent::Listening, _) => RelayView {
                stage: RelayStage::GoingOnline,
                ..self
            },
            (RelayStage::Starting, RelayEvent::Spawned, _) => RelayView {
                stage: RelayStage::Appearing,
                ..self
            },
            (RelayStage::Appearing, RelayEvent::Waited, _) => RelayView {
                stage: RelayStage::GoingOnline,
                ..self
            },
            (
                RelayStage::GoingOnline | RelayStage::Dialing,
                RelayEvent::ControlOpened(peer),
                None,
            ) => RelayView { asked: Some(peer), ..self },
            (RelayStage::GoingOnline, RelayEvent::Reply(_), Some(_)) => RelayView {
                stage: RelayStage::Dialing,
                asked: None,
                ..self
            },
            (RelayStage::Dialing, RelayEvent::Reply(reply), Some(_)) => RelayView {
                stage: RelayStage::Connecting,
                asked: None,
                path: reply@.path_taken(),
                ..self
            },
            _ => self,
        }
    }

    /// The attempt after an event, and what is to be done then.
    pub open spec fn next(self, event: RelayEvent) -> (RelayView, RelayStepView) {
        let over = RelayView { stage: RelayStage::Over, asked: None, ..self };
        match (self.stage, event, self.failure(event)) {
            (RelayStage::Over, _, _) => (self, RelayStepView::Over),
            (_, _, Some(words)) => (over, RelayStepView::GiveUp(words)),
            (RelayStage::Connecting, RelayEvent::Connected { link, .. }, _) => (
                over,
                RelayStepView::Done(
                    StreamView::Tcp(
                        FramedStream(Link { id: link, raw: false }, self.addr, None, 0),
                    ),
                ),
            ),
            _ => (self.advanced(event), self.advanced(event).todo()),
        }
    }
}

/// Begins to reach a peer through the sidecar, by its identity.
pub fn run_relay(endpoint_id: [u8; 32], token_present: bool, own_uid: u32, addr: SocketAddr) -> (r:
    Relay)
    ensures
        r@ == RelayView::fresh(endpoint_id@, token_present, own_uid, addr),
{
    Relay {
        endpoint_id,
        token_present,
        own_uid,
        addr,
        asked: None,
        path: String::new(),
        stage: RelayStage::Starting,
    }
}

/// Begins to reach a peer through the sidecar, given the text of the
/// `sidecar-peer-endpoint-id` option. Without an identity in it there is nobody
/// to reach, and the caller falls back.
pub fn try_relay(raw: &str, token_present: bool, own_uid: u32, addr: SocketAddr) -> (r: Result<
    Relay,
    PeerIdError,
>)
    ensures
        match r {
            Ok(relay) => relay@ == RelayView::fresh(
                relay@.endpoint_id,
                token_present,
                own_uid,
                addr,
            ) && relay@.endpoint_id.len() == 32 && crate::hex_text::decodes_to(
                id_digits(raw@),
                Ok(relay@.endpoint_id),
            ),
            Err(PeerIdError::NotHex(e)) => crate::hex_text::decodes_to(id_digits(raw@), Err(e)),
            Err(PeerIdError::WrongLength(len)) => len != 32 && exists|bytes: Seq<u8>|
                bytes.len() == len && #[trigger] crate::hex_text::decodes_to(
                    id_digits(raw@),
                    Ok(bytes),
                ),
        },
{
    match parse_peer_endpoint_id(raw) {
        Ok(id) => Ok(run_relay(id, token_present, own_uid, addr)),
        Err(e) => Err(e),
    }
}

impl Relay {
    /// Whom to reach.
    pub fn endpoint_id(&self) -> (r: &[u8; 32])
        ensures
            r@ == self@.endpoint_id,
    {
        &self.endpoint_id
    }

    /// What the sidecar is asked in the stage that the attempt is in.
    fn request(&self) -> (r: Option<Control>)
        ensures
            match r {
                Some(message) => self@.request() == Some(message@),
                None => self@.request() is None,
            },
    {
        match self.stage {
            RelayStage::GoingOnline => {
                proof {
                    reveal_strlit("");
                }
                Some(ensure_online_request("", self.token_present))
            },
            RelayStage::Dialing => Some(dial_request(self.endpoint_id, RELAY_ALPN.as_bytes())),
            _ => None,
        }
    }

    /// What is to be done now.
    pub fn todo(&self) -> (r: RelayStep)
        ensures
            r@ == self@.todo(),
    {
        if let Some(message) = self.request() {
            return match self.asked {
                Some(_) => RelayStep::Ask(message),
                None => RelayStep::OpenControl,
            };
        }
        match self.stage {
            RelayStage::Starting => RelayStep::Start,
            RelayStage::Appearing => RelayStep::AwaitSocket {
                limit_secs: SIDECAR_SPAWN_TIMEOUT_SECS,
            },
            RelayStage::Connecting => RelayStep::Connect { path: self.path.clone() },
            _ => RelayStep::Over,
        }
    }

    /// Takes note of what happened, and tells what is to be done then.
    pub fn step(&mut self, event: RelayEvent) -> (r: RelayStep)
        ensures
            (final(self)@, r@) == old(self)@.next(event),
    {
        if self.stage == RelayStage::Over {
            return RelayStep::Over;
        }
        match event {
            RelayEvent::Listening => {
                if self.stage == RelayStage::Starting {
                    self.stage = RelayStage::GoingOnline;
                }
                self.todo()
            },
            RelayEvent::Spawned => {
                if self.stage == RelayStage::Starting {
                    self.stage = RelayStage::Appearing;
                }
                self.todo()
            },
            RelayEvent::Waited => {
                if self.stage == RelayStage::Appearing {
                    self.stage = RelayStage::GoingOnline;
                }
                self.todo()
            },
            RelayEvent::ControlOpened(peer) => self.control_opened(peer),
            RelayEvent::Reply(reply) => self.replied(&reply),
            RelayEvent::Connected { link, peer } => {
                if self.stage != RelayStage::Connecting {
                    return self.todo();
                }
                match verify_peer_uid(peer, self.own_uid) {
                    Ok(_) => {
                        self.stage = RelayStage::Over;
                        self.asked = None;
                        RelayStep::Done(Stream::from(link, self.addr))
                    },
                    Err(e) => self.give_up(e),
                }
            },
            RelayEvent::Failed(e) => self.give_up(e),
        }
    }

    /// Nothing is asked of a process that is not trusted.
    fn control_opened(&mut self, peer: PeerUser) -> (r: RelayStep)
        requires
            !(old(self)@.stage is Over),
        ensures
            (final(self)@, r@) == old(self)@.next(RelayEvent::ControlOpened(peer)),
    {
        let asking = self.stage == RelayStage::GoingOnline || self.stage == RelayStage::Dialing;
        if asking && self.asked.is_none() {
            match verify_peer_uid(peer, self.own_uid) {
                Ok(_) => {
                    self.asked = Some(peer);
                },
                Err(e) => {
                    return self.give_up(e);
                },
            }
        }
        self.todo()
    }

    /// A reply counts only from the process that was asked.
    fn replied(&mut self, reply: &Control) -> (r: RelayStep)
        requires
            !(old(self)@.stage is Over),
        ensures
            (final(self)@, r@) == old(self)@.next(RelayEvent::Reply(*reply)),
    {
        if self.asked.is_none() {
            return self.todo();
        }
        match self.stage {
            RelayStage::GoingOnline => match ensure_online(reply) {
                Ok(_) => {
                    self.stage = RelayStage::Dialing;
                    self.asked = None;
                    self.todo()
                },
                Err(e) => self.give_up(e),
            },
            RelayStage::Dialing => match dial(reply) {
                Ok(path) => {
                    self.stage = RelayStage::Connecting;
                    self.asked = None;
                    self.path = path;
                    self.todo()
                },
                Err(e) => self.give_up(e),
            },
            _ => self.todo(),
        }
    }

    /// Ends the attempt.
    fn give_up(&mut self, e: SidecarError) -> (r: RelayStep)
        ensures
            final(self)@ == (RelayView { stage: RelayStage::Over, asked: None, ..old(self)@ }),
            r@ == RelayStepView::GiveUp(e.words()),
    {
        self.stage = RelayStage::Over;
        self.asked = None;
        RelayStep::GiveUp(e)
    }
}

} // verus!
