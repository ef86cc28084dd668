//! The upgrade state machine.
//!
//! An established connection is moved to iroh while it is in use. The two
//! sides agree over the old channel, which is ordered and reliable, so that
//! receiving `Commit` means that everything sent before it has been handled.
//!
//! ```text
//!   initiator A                                 responder B
//!      |--- Offer(endpoint_addr_A, version) ------>|   (old channel)
//!      |<-- Answer(accepted, endpoint_addr_B) -----|   (old channel)
//!      |=========== A dials iroh =================>|
//!      |--- Commit ------------------------------->|   (old channel)
//!      |<-- CommitAck -----------------------------|   (old channel)
//!      X======== both move to iroh ===============X
//! ```
//!
//! Only the initiator dials. A peer that does not know the upgrade never
//! answers the offer; the initiator then times out and stays on the old channel.

use crate::text::{decimal, join2, join3};
use vstd::prelude::*;

verus! {

/// Version of the upgrade protocol, raised by incompatible changes.
pub const UPGRADE_PROTOCOL_VERSION: u32 = 1;

/// Which part this side plays in the upgrade.
#[derive(Debug, Clone, Copy, PartialEq, Eq, Structural)]
pub enum Role {
    /// Starts the upgrade, and dials.
    Initiator,
    /// Answers the offer, and accepts the connection.
    Responder,
}

/// State of the upgrade on one side.
#[derive(Debug, Clone, PartialEq, Eq)]
pub enum State {
    /// Nothing has happened yet.
    Idle,
    /// Initiator: the offer is out, no answer yet.
    OfferSent,
    /// Addresses are exchanged, the iroh connection is being made.
    Connecting,
    /// Responder: iroh is ready, waiting for `Commit`.
    AwaitingCommit,
    /// Initiator: `Commit` is out, waiting for `CommitAck`.
    CommitSent,
    /// The session runs on iroh.
    Switched,
    /// The offer was refused, with the reason given.
    Rejected(String),
    /// Timed out or failed, and fell back to the old channel.
    Failed(String),
}

/// What the machine asks its caller to do.
#[derive(Debug, Clone, PartialEq, Eq)]
pub enum Action {
    /// Send the offer on the old channel.
    SendOffer,
    /// Send the answer on the old channel.
    SendAnswer { accepted: bool, reason: String },
    /// Dial the peer over iroh.
    DialIroh,
    /// Send `Commit` on the old channel.
    SendCommit,
    /// Send `CommitAck` on the old channel.
    SendCommitAck,
    /// Move the session to iroh, its encryption state included.
    SwitchTransport,
    /// Give up and stay on the old channel.
    Fallback,
}

/// What can happen to the machine.
#[derive(Debug, Clone)]
pub enum Event<'a> {
    /// This side decides to upgrade.
    Start,
    /// The peer's offer arrived.
    OfferReceived { endpoint_addr: &'a str, version: u32 },
    /// The peer's answer arrived.
    AnswerReceived { accepted: bool, endpoint_addr: &'a str, reason: &'a str },
    /// The iroh connection is up and the peer's identity is checked.
    IrohConnected,
    /// The iroh connection could not be made.
    IrohFailed(&'a str),
    /// The current phase took too long.
    Timeout,
    /// `Commit` arrived.
    CommitReceived,
    /// `CommitAck` arrived.
    CommitAckReceived,
}

/// The upgrade state machine of one side.
#[derive(Debug, Clone)]
pub struct Upgrade {
    role: Role,
    state: State,
    peer_addr: Option<String>,
    local_addr: String,
}

/// Why an offer payload cannot be made.
#[derive(Debug, Clone, Copy, PartialEq, Eq, Structural)]
pub enum OfferError {
    /// This side has no iroh address to offer.
    EmptyLocalAddr,
}

impl OfferError {
    /// The error in words.
    pub fn message(&self) -> (r: String)
        ensures
            r@ == "本端 iroh 地址为空，无法发起升级"@,
    {
        "本端 iroh 地址为空，无法发起升级".to_owned()
    }
}

/// [`State`] with its text as characters.
#[verifier::ext_equal]
pub enum StateView {
    Idle,
    OfferSent,
    Connecting,
    AwaitingCommit,
    CommitSent,
    Switched,
    Rejected(Seq<char>),
    Failed(Seq<char>),
}

/// [`Action`] with its text as characters.
#[verifier::ext_equal]
pub enum ActionView {
    SendOffer,
    SendAnswer { accepted: bool, reason: Seq<char> },
    DialIroh,
    SendCommit,
    SendCommitAck,
    SwitchTransport,
    Fallback,
}

/// [`Event`] with its text as characters.
#[verifier::ext_equal]
pub enum EventView {
    Start,
    OfferReceived { endpoint_addr: Seq<char>, version: u32 },
    AnswerReceived { accepted: bool, endpoint_addr: Seq<char>, reason: Seq<char> },
    IrohConnected,
    IrohFailed(Seq<char>),
    Timeout,
    CommitReceived,
    CommitAckReceived,
}

/// [`Upgrade`] with its text as characters.
#[verifier::ext_equal]
pub struct UpgradeView {
    pub role: Role,
    pub state: StateView,
    pub peer_addr: Option<Seq<char>>,
    pub local_addr: Seq<char>,
}

impl View for State {
    type V = StateView;

    open spec fn view(&self) -> StateView {
        match self {
            State::Idle => StateView::Idle,
            State::OfferSent => StateView::OfferSent,
            State::Connecting => StateView::Connecting,
            State::AwaitingCommit => StateView::AwaitingCommit,
            State::CommitSent => StateView::CommitSent,
            State::Switched => StateView::Switched,
            State::Rejected(reason) => StateView::Rejected(reason@),
            State::Failed(reason) => StateView::Failed(reason@),
        }
    }
}

impl View for Action {
    type V = ActionView;

    open spec fn view(&self) -> ActionView {
        match self {
            Action::SendOffer => ActionView::SendOffer,
            Action::SendAnswer { accepted, reason } => ActionView::SendAnswer {
                accepted: *accepted,
                reason: reason@,
            },
            Action::DialIroh => ActionView::DialIroh,
            Action::SendCommit => ActionView::SendCommit,
            Action::SendCommitAck => ActionView::SendCommitAck,
            Action::SwitchTransport => ActionView::SwitchTransport,
            Action::Fallback => ActionView::Fallback,
        }
    }
}

impl<'a> View for Event<'a> {
    type V = EventView;

    open spec fn view(&self) -> EventView {
        match self {
            Event::Start => EventView::Start,
            Event::OfferReceived { endpoint_addr, version } => EventView::OfferReceived {
                endpoint_addr: endpoint_addr@,
                version: *version,
            },
            Event::AnswerReceived { accepted, endpoint_addr, reason } => EventView::AnswerReceived {
                accepted: *accepted,
                endpoint_addr: endpoint_addr@,
                reason: reason@,
            },
            Event::IrohConnected => EventView::IrohConnected,
            Event::IrohFailed(cause) => EventView::IrohFailed(cause@),
            Event::Timeout => EventView::Timeout,
            Event::CommitReceived => EventView::CommitReceived,
            Event::CommitAckReceived => EventView::CommitAckReceived,
        }
    }
}

/// The actions of a list, with their text as characters.
pub open spec fn actions_view(actions: Seq<Action>) -> Seq<ActionView> {
    actions.map_values(|a: Action| a@)
}

impl StateView {
    /// Nothing can change the state any more.
    pub open spec fn is_terminal(self) -> bool {
        self is Switched || self is Rejected || self is Failed
    }
}

/// Why an offer of another protocol version is refused.
pub open spec fn version_mismatch(version: u32) -> Seq<char> {
    "升级协议版本不兼容：本端 "@ + decimal_ours() + "，对端 "@ + crate::text::decimal_text(
        version as nat,
    )
}

/// This side's protocol version in decimal.
pub open spec fn decimal_ours() -> Seq<char> {
    crate::text::decimal_text(UPGRADE_PROTOCOL_VERSION as nat)
}

/// What a timeout in a waiting state is reported as.
pub open spec fn timeout_reason(state: StateView) -> Seq<char> {
    match state {
        StateView::OfferSent => "等待 Answer 超时（对端可能不支持升级）"@,
        StateView::Connecting => "iroh 建连超时"@,
        StateView::CommitSent => "等待 CommitAck 超时"@,
        _ => "等待 Commit 超时"@,
    }
}

/// The state that an event leads to: the protocol's transition table. Any pair
/// that is not listed leaves the state as it is.
pub open spec fn next_state(role: Role, state: StateView, event: EventView) -> StateView {
    match (state, event) {
        (StateView::Idle, EventView::Start) if role is Initiator => StateView::OfferSent,
        (StateView::Idle, EventView::OfferReceived { version, .. }) if role is Responder => if version
            == UPGRADE_PROTOCOL_VERSION {
            StateView::Connecting
        } else {
            StateView::Rejected(version_mismatch(version))
        },
        (StateView::OfferSent, EventView::AnswerReceived { accepted, reason, .. }) => if accepted {
            StateView::Connecting
        } else {
            StateView::Rejected(reason)
        },
        (StateView::Connecting, EventView::IrohConnected) => match role {
            Role::Initiator => StateView::CommitSent,
            Role::Responder => StateView::AwaitingCommit,
        },
        (StateView::AwaitingCommit, EventView::CommitReceived) => StateView::Switched,
        (StateView::CommitSent, EventView::CommitAckReceived) => StateView::Switched,
        (_, EventView::IrohFailed(cause)) if !state.is_terminal() => StateView::Failed(
            "iroh 建连失败："@ + cause,
        ),
        (_, EventView::Timeout) if !state.is_terminal() && !(state is Idle) => StateView::Failed(
            timeout_reason(state),
        ),
        _ => state,
    }
}

/// What has to be done on the way from one state to another.
pub open spec fn actions_between(role: Role, from: StateView, to: StateView) -> Seq<ActionView> {
    if from == to {
        seq![]
    } else {
        match to {
            StateView::OfferSent => seq![ActionView::SendOffer],
            StateView::Connecting => match role {
                Role::Initiator => seq![ActionView::DialIroh],
                Role::Responder => seq![ActionView::SendAnswer { accepted: true, reason: seq![] }],
            },
            StateView::CommitSent => seq![ActionView::SendCommit],
            StateView::Switched => match role {
                Role::Initiator => seq![ActionView::SwitchTransport],
                Role::Responder => seq![ActionView::SendCommitAck, ActionView::SwitchTransport],
            },
            StateView::Rejected(reason) => match role {
                Role::Initiator => seq![ActionView::Fallback],
                Role::Responder => seq![ActionView::SendAnswer { accepted: false, reason }],
            },
            StateView::Failed(_) => seq![ActionView::Fallback],
            StateView::Idle | StateView::AwaitingCommit => seq![],
        }
    }
}

/// The peer's iroh address that an event brings, if the machine takes it.
pub open spec fn learned_addr(role: Role, state: StateView, event: EventView) -> Option<Seq<char>> {
    match event {
        EventView::OfferReceived { endpoint_addr, .. } if next_state(role, state, event)
            != state && next_state(role, state, event) is Connecting => Some(endpoint_addr),
        EventView::AnswerReceived { endpoint_addr, .. } if next_state(role, state, event)
            != state && next_state(role, state, event) is Connecting => Some(endpoint_addr),
        _ => None,
    }
}

impl UpgradeView {
    /// Each side only ever visits its own states.
    pub open spec fn wf(self) -> bool {
        match self.role {
            Role::Initiator => !(self.state is AwaitingCommit),
            Role::Responder => !(self.state is OfferSent) && !(self.state is CommitSent),
        }
    }

    /// A machine that nothing has happened to.
    pub open spec fn fresh(role: Role, local_addr: Seq<char>) -> UpgradeView {
        UpgradeView { role, state: StateView::Idle, peer_addr: None, local_addr }
    }

    /// The machine after an event.
    pub open spec fn next(self, event: EventView) -> UpgradeView {
        UpgradeView {
            state: next_state(self.role, self.state, event),
            peer_addr: match learned_addr(self.role, self.state, event) {
                Some(addr) => Some(addr),
                None => self.peer_addr,
            },
            ..self
        }
    }

    /// What the machine asks for on an event.
    pub open spec fn actions(self, event: EventView) -> Seq<ActionView> {
        actions_between(self.role, self.state, next_state(self.role, self.state, event))
    }
}

impl State {
    /// Whether nothing can change the state any more.
    pub fn is_terminal(&self) -> (r: bool)
        ensures
            r == self@.is_terminal(),
    {
        matches!(self, State::Switched | State::Rejected(_) | State::Failed(_))
    }

    /// Whether the session runs on iroh.
    pub fn is_switched(&self) -> (r: bool)
        ensures
            r == (self@ is Switched),
    {
        matches!(self, State::Switched)
    }
}

impl View for Upgrade {
    type V = UpgradeView;

    closed spec fn view(&self) -> UpgradeView {
        UpgradeView {
            role: self.role,
            state: self.state@,
            peer_addr: match self.peer_addr {
                Some(addr) => Some(addr@),
                None => None,
            },
            local_addr: self.local_addr@,
        }
    }
}

impl Upgrade {
    /// A machine that has not started, for a side with the given address.
    pub fn new(role: Role, local_addr: String) -> (r: Upgrade)
        ensures
            r@ == UpgradeView::fresh(role, local_addr@),
            r@.wf(),
    {
        Upgrade { role, state: State::Idle, peer_addr: None, local_addr }
    }

    /// The current state.
    pub fn state(&self) -> (r: &State)
        ensures
            r@ == self@.state,
    {
        &self.state
    }

    /// The part this side plays.
    pub fn role(&self) -> (r: Role)
        ensures
            r == self@.role,
    {
        self.role
    }

    /// The peer's iroh address, once it is known.
    pub fn peer_addr(&self) -> (r: Option<&str>)
        ensures
            match r {
                Some(addr) => self@.peer_addr == Some(addr@),
                None => self@.peer_addr is None,
            },
    {
        match &self.peer_addr {
            Some(addr) => Some(addr.as_str()),
            None => None,
        }
    }

    /// Handles an event and returns what is to be done, in order.
    ///
    /// A terminal state takes no event and asks for nothing.
    pub fn step(&mut self, event: Event<'_>) -> (r: Vec<Action>)
        requires
            old(self)@.wf(),
        ensures
            final(self)@ == old(self)@.next(event@),
            final(self)@.wf(),
            actions_view(r@) == old(self)@.actions(event@),
    {
        if self.state.is_terminal() {
            return Vec::new();
        }
        let mut actions: Vec<Action> = Vec::new();
        match event {
            Event::Start => {
                if matches!(self.state, State::Idle) && self.role == Role::Initiator {
                    self.state = State::OfferSent;
                    actions.push(Action::SendOffer);
                }
            },
            Event::OfferReceived { endpoint_addr, version } => {
                if matches!(self.state, State::Idle) && self.role == Role::Responder {
                    if version != UPGRADE_PROTOCOL_VERSION {
                        let ours = decimal(UPGRADE_PROTOCOL_VERSION as u64);
                        let theirs = decimal(version as u64);
                        let head = join3("升级协议版本不兼容：本端 ", ours.as_str(), "，对端 ");
                        let reason = join2(head.as_str(), theirs.as_str());
                        self.state = State::Rejected(reason.clone());
                        actions.push(Action::SendAnswer { accepted: false, reason });
                    } else {
                        self.peer_addr = Some(endpoint_addr.to_owned());
                        self.state = State::Connecting;
                        actions.push(Action::SendAnswer { accepted: true, reason: String::new() });
                    }
                }
            },
            Event::AnswerReceived { accepted, endpoint_addr, reason } => {
                if matches!(self.state, State::OfferSent) {
                    if !accepted {
                        self.state = State::Rejected(reason.to_owned());
                        actions.push(Action::Fallback);
                    } else {
                        self.peer_addr = Some(endpoint_addr.to_owned());
                        self.state = State::Connecting;
                        actions.push(Action::DialIroh);
                    }
                }
            },
            Event::IrohConnected => {
                if matches!(self.state, State::Connecting) {
                    match self.role {
                        Role::Initiator => {
                            self.state = State::CommitSent;
                            actions.push(Action::SendCommit);
                        },
                        // The responder waits for the peer's Commit.
                        Role::Responder => {
                            self.state = State::AwaitingCommit;
                        },
                    }
                }
            },
            Event::CommitReceived => {
                if matches!(self.state, State::AwaitingCommit) {
                    self.state = State::Switched;
                    actions.push(Action::SendCommitAck);
                    actions.push(Action::SwitchTransport);
                }
            },
            Event::CommitAckReceived => {
                if matches!(self.state, State::CommitSent) {
                    self.state = State::Switched;
                    actions.push(Action::SwitchTransport);
                }
            },
            Event::IrohFailed(cause) => {
                self.state = State::Failed(join2("iroh 建连失败：", cause));
                actions.push(Action::Fallback);
            },
            Event::Timeout => {
                let reason = match self.state {
                    // Typically a peer that does not know the upgrade.
                    State::OfferSent => "等待 Answer 超时（对端可能不支持升级）",
                    State::Connecting => "iroh 建连超时",
                    State::CommitSent => "等待 CommitAck 超时",
                    State::AwaitingCommit => "等待 Commit 超时",
                    _ => {
                        return actions;
                    },
                };
                self.state = State::Failed(reason.to_owned());
                actions.push(Action::Fallback);
            },
        }
        actions
    }

    /// The address to put into the offer.
    pub fn make_offer_payload(&self) -> (r: Result<String, OfferError>)
        ensures
            match r {
                Ok(addr) => self@.local_addr.len() > 0 && addr@ == self@.local_addr,
                Err(e) => self@.local_addr.len() == 0 && e == OfferError::EmptyLocalAddr,
            },
    {
        if self.local_addr.as_str().is_empty() {
            return Err(OfferError::EmptyLocalAddr);
        }
        Ok(self.local_addr.clone())
    }
}

} // verus!
