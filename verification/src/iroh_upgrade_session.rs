//! One upgrade of one connection: the state machine together with its messages
//! and with the iroh connection that it leads to.
//!
//! The caller owns the endpoint, dials and accepts. The session tells it when,
//! takes the outcome, and answers with [`Order`]s to be carried out in order. The
//! order matters: the transition has to be in place before `Commit` goes out, or
//! what the session sends in between would be lost.

use crate::iroh_transport::{EndpointId, IrohConfig};
use crate::iroh_upgrade::{
    Action, ActionView, Event, EventView, Role, State, StateView, Upgrade, UpgradeView,
    UPGRADE_PROTOCOL_VERSION,
};
use crate::message_proto::{
    IrohUpgradeAnswer, IrohUpgradeCommit, IrohUpgradeCommitAck, IrohUpgradeOffer, Message, Union,
    UnionView,
};
use crate::tcp::FramedStream;
use crate::text::join2;
use vstd::prelude::*;

verus! {

/// A message of the upgrade.
#[derive(Debug, Clone, PartialEq, Eq)]
pub enum IncomingUpgrade {
    Offer { endpoint_addr: String, version: u32 },
    Answer { accepted: bool, endpoint_addr: String, reason: String },
    Commit,
    CommitAck,
}

/// The event that a message's content is to the state machine, if it belongs to
/// an upgrade.
pub open spec fn event_of(union: UnionView) -> Option<EventView> {
    match union {
        UnionView::Offer { endpoint_addr, version } => Some(
            EventView::OfferReceived { endpoint_addr, version },
        ),
        UnionView::Answer { accepted, endpoint_addr, reason } => Some(
            EventView::AnswerReceived { accepted, endpoint_addr, reason },
        ),
        UnionView::Commit => Some(EventView::CommitReceived),
        UnionView::CommitAck => Some(EventView::CommitAckReceived),
        UnionView::Other(_) => None,
    }
}

/// The content of the message that an action sends, if it sends one. Only a side
/// that goes along with the upgrade tells its address.
pub open spec fn message_of(action: ActionView, local_addr: Seq<char>) -> Option<UnionView> {
    match action {
        ActionView::SendOffer => Some(
            UnionView::Offer { endpoint_addr: local_addr, version: UPGRADE_PROTOCOL_VERSION },
        ),
        ActionView::SendAnswer { accepted, reason } => Some(
            UnionView::Answer {
                accepted,
                endpoint_addr: if accepted {
                    local_addr
                } else {
                    seq![]
                },
                reason,
            },
        ),
        ActionView::SendCommit => Some(UnionView::Commit),
        ActionView::SendCommitAck => Some(UnionView::CommitAck),
        ActionView::DialIroh | ActionView::SwitchTransport | ActionView::Fallback => None,
    }
}

impl View for IncomingUpgrade {
    type V = EventView;

    open spec fn view(&self) -> EventView {
        match self {
            IncomingUpgrade::Offer { endpoint_addr, version } => EventView::OfferReceived {
                endpoint_addr: endpoint_addr@,
                version: *version,
            },
            IncomingUpgrade::Answer { accepted, endpoint_addr, reason } => EventView::AnswerReceived {
                accepted: *accepted,
                endpoint_addr: endpoint_addr@,
                reason: reason@,
            },
            IncomingUpgrade::Commit => EventView::CommitReceived,
            IncomingUpgrade::CommitAck => EventView::CommitAckReceived,
        }
    }
}

impl IncomingUpgrade {
    /// Recognises a message of the upgrade; any other gives `None`.
    pub fn from_union(union: &Union) -> (r: Option<IncomingUpgrade>)
        ensures
            match r {
                Some(incoming) => event_of(union@) == Some(incoming@),
                None => event_of(union@) is None,
            },
    {
        match union {
            Union::IrohUpgradeOffer(o) => Some(
                IncomingUpgrade::Offer {
                    endpoint_addr: o.endpoint_addr.clone(),
                    version: o.version,
                },
            ),
            Union::IrohUpgradeAnswer(a) => Some(
                IncomingUpgrade::Answer {
                    accepted: a.accepted,
                    endpoint_addr: a.endpoint_addr.clone(),
                    reason: a.reason.clone(),
                },
            ),
            Union::IrohUpgradeCommit(_) => Some(IncomingUpgrade::Commit),
            Union::IrohUpgradeCommitAck(_) => Some(IncomingUpgrade::CommitAck),
            Union::Other(_) => None,
        }
    }

    /// The event that the message is to the state machine.
    pub fn to_event(&self) -> (r: Event<'_>)
        ensures
            r@ == self@,
    {
        match self {
            IncomingUpgrade::Offer { endpoint_addr, version } => Event::OfferReceived {
                endpoint_addr: endpoint_addr.as_str(),
                version: *version,
            },
            IncomingUpgrade::Answer { accepted, endpoint_addr, reason } => Event::AnswerReceived {
                accepted: *accepted,
                endpoint_addr: endpoint_addr.as_str(),
                reason: reason.as_str(),
            },
            IncomingUpgrade::Commit => Event::CommitReceived,
            IncomingUpgrade::CommitAck => Event::CommitAckReceived,
        }
    }
}

/// The message that an action sends, if it sends one.
pub fn action_to_message(action: &Action, local_addr: &str) -> (r: Option<Message>)
    ensures
        match r {
            Some(m) => m@ is Some && m@ == message_of(action@, local_addr@),
            None => message_of(action@, local_addr@) is None,
        },
{
    match action {
        Action::SendOffer => {
            let mut m = Message::new();
            let mut o = IrohUpgradeOffer::new();
            o.endpoint_addr = local_addr.to_owned();
            o.version = UPGRADE_PROTOCOL_VERSION;
            m.set_iroh_upgrade_offer(o);
            Some(m)
        },
        Action::SendAnswer { accepted, reason } => {
            let mut m = Message::new();
            let mut a = IrohUpgradeAnswer::new();
            a.accepted = *accepted;
            a.reason = reason.clone();
            a.endpoint_addr = if *accepted {
                local_addr.to_owned()
            } else {
                String::new()
            };
            m.set_iroh_upgrade_answer(a);
            Some(m)
        },
        Action::SendCommit => {
            let mut m = Message::new();
            m.set_iroh_upgrade_commit(IrohUpgradeCommit::new());
            Some(m)
        },
        Action::SendCommitAck => {
            let mut m = Message::new();
            m.set_iroh_upgrade_commit_ack(IrohUpgradeCommitAck::new());
            Some(m)
        },
        Action::DialIroh | Action::SwitchTransport | Action::Fallback => None,
    }
}

/// What the caller has to do for the session. Orders are carried out in order.
pub enum Order {
    /// Put the transition from the connection in use to this one in its place.
    Install(FramedStream),
    /// Send this message on the old channel.
    Send(Message),
    /// Transition: `Commit` is out.
    CommitSent,
    /// Transition: `CommitAck` arrived; switch, and flush what was held back.
    CommitAckReceived,
    /// Transition: `CommitAck` is out; switch.
    CommitAckSent,
    /// Transition: the upgrade failed; go back to the old channel, and flush what
    /// was held back there.
    Abort,
}

/// [`Order`] with its text as characters.
#[verifier::ext_equal]
pub enum OrderView {
    Install(FramedStream),
    Send(Option<UnionView>),
    CommitSent,
    CommitAckReceived,
    CommitAckSent,
    Abort,
}

impl View for Order {
    type V = OrderView;

    open spec fn view(&self) -> OrderView {
        match self {
            Order::Install(stream) => OrderView::Install(*stream),
            Order::Send(message) => OrderView::Send(message@),
            Order::CommitSent => OrderView::CommitSent,
            Order::CommitAckReceived => OrderView::CommitAckReceived,
            Order::CommitAckSent => OrderView::CommitAckSent,
            Order::Abort => OrderView::Abort,
        }
    }
}

impl Order {
    /// The order in a word, for logs: streams and messages are left out.
    pub fn label(&self) -> (r: &'static str)
        ensures
            r@ == match self {
                Order::Install(_) => "Install(<iroh 流>)"@,
                Order::Send(_) => "Send(<消息>)"@,
                Order::CommitSent => "CommitSent"@,
                Order::CommitAckReceived => "CommitAckReceived"@,
                Order::CommitAckSent => "CommitAckSent"@,
                Order::Abort => "Abort"@,
            },
    {
        match self {
            Order::Install(_) => "Install(<iroh 流>)",
            Order::Send(_) => "Send(<消息>)",
            Order::CommitSent => "CommitSent",
            Order::CommitAckReceived => "CommitAckReceived",
            Order::CommitAckSent => "CommitAckSent",
            Order::Abort => "Abort",
        }
    }
}

/// Orders with their text as characters.
pub open spec fn orders_view(orders: Seq<Order>) -> Seq<OrderView> {
    orders.map_values(|o: Order| o@)
}

/// A dial that the caller has to make: the peer's address as the peer wrote it,
/// and the identity in it, which the peer has to prove.
#[derive(Debug, Clone, PartialEq, Eq)]
pub struct DialRequest {
    pub peer_addr: String,
    pub peer_id: EndpointId,
}

/// [`DialRequest`] with its text and its identity as sequences.
#[verifier::ext_equal]
pub struct DialView {
    pub peer_addr: Seq<char>,
    pub peer_id: Seq<u8>,
}

impl View for DialRequest {
    type V = DialView;

    open spec fn view(&self) -> DialView {
        DialView { peer_addr: self.peer_addr@, peer_id: self.peer_id.0@ }
    }
}

/// What the caller found out about its endpoint.
#[derive(Debug, Clone, PartialEq, Eq)]
pub enum EndpointReport {
    /// It could not be started.
    NotStarted(String),
    /// It is up, and its address cannot be written down.
    Unreadable(String),
    /// It is up, at this address.
    Up(String),
}

/// What a look at the dial under way gave.
#[derive(Clone, PartialEq, Eq)]
pub enum DialPoll {
    /// It is connected, to a peer of this identity.
    Connected(FramedStream, EndpointId),
    /// It failed.
    Failed(String),
    /// It is still under way.
    Empty,
    /// It ended without a word.
    Disconnected,
}

/// Why a session could not go on.
#[derive(Debug, Clone, PartialEq, Eq)]
pub enum SessionError {
    /// The endpoint is not there, with its own words.
    Endpoint(String),
    /// Accepting a connection failed, with its own words.
    Accept(String),
}

impl SessionError {
    /// The error in words.
    pub fn message(&self) -> (r: String)
        ensures
            r@ == match self {
                SessionError::Endpoint(cause) => cause@,
                SessionError::Accept(cause) => cause@,
            },
    {
        match self {
            SessionError::Endpoint(cause) => cause.clone(),
            SessionError::Accept(cause) => cause.clone(),
        }
    }
}

/// Why no dial was made.
#[derive(Debug, Clone, PartialEq, Eq)]
pub enum DialError {
    /// There is no endpoint to dial from.
    NoEndpoint,
    /// The peer has not told its address.
    NoPeerAddr,
    /// The peer's address makes no sense, with the parser's words.
    BadPeerAddr(String),
}

impl DialError {
    /// The error in words.
    pub fn message(&self) -> (r: String)
        ensures
            r@ == match self {
                DialError::NoEndpoint => "未启动 endpoint"@,
                DialError::NoPeerAddr => "还不知道对端 iroh 地址"@,
                DialError::BadPeerAddr(cause) => "对端 iroh 地址解析失败: "@ + cause@,
            },
    {
        match self {
            DialError::NoEndpoint => "未启动 endpoint".to_owned(),
            DialError::NoPeerAddr => "还不知道对端 iroh 地址".to_owned(),
            DialError::BadPeerAddr(cause) => join2("对端 iroh 地址解析失败: ", cause.as_str()),
        }
    }
}

/// What `serde_json` makes of a text that should be an iroh endpoint address: the
/// endpoint's identity, or the parser's words.
pub uninterp spec fn endpoint_addr_of(json: Seq<char>) -> Result<Seq<u8>, Seq<char>>;

/// What parsing an address gave, with its bytes and its text as sequences.
pub open spec fn parsed_view(parsed: Result<EndpointId, String>) -> Result<Seq<u8>, Seq<char>> {
    match parsed {
        Ok(id) => Ok(id.0@),
        Err(cause) => Err(cause@),
    }
}

/// Reads an endpoint address with `serde_json::from_str` into
/// `iroh::EndpointAddr`, and gives the 32 bytes of its `id`.
///
/// Claimed of it: whether the text is an address, the identity in it and the
/// words for a text that is none depend on the text alone.
#[verifier::external_body]
fn parse_endpoint_addr(json: &str) -> (r: Result<EndpointId, String>)
    ensures
        parsed_view(r) == endpoint_addr_of(json@),
{
    match serde_json::from_str::<iroh::EndpointAddr>(json) {
        Ok(addr) => Ok(EndpointId(*addr.id.as_bytes())),
        Err(e) => Err(e.to_string()),
    }
}

/// One upgrade of one connection.
pub struct UpgradeSession {
    upgrade: Upgrade,
    cfg: IrohConfig,
    /// The endpoint's address, once the endpoint is up.
    endpoint: Option<String>,
    peer_id: Option<EndpointId>,
    dialing: bool,
    dial: Option<DialRequest>,
    ready: Option<FramedStream>,
    orders: Vec<Order>,
}

/// [`UpgradeSession`] with its text as characters.
#[verifier::ext_equal]
pub struct SessionView {
    pub upgrade: UpgradeView,
    /// How the endpoint is to be set up.
    pub cfg: IrohConfig,
    /// The endpoint's address, once the endpoint is up.
    pub endpoint: Option<Seq<char>>,
    /// The identity of the connected peer.
    pub peer_id: Option<EndpointId>,
    /// A dial is under way, or asked for.
    pub dialing: bool,
    /// The dial that the caller has not taken yet.
    pub dial: Option<DialView>,
    /// A connection that is not installed yet.
    pub ready: Option<FramedStream>,
    /// Orders that the caller has not taken yet.
    pub orders: Seq<OrderView>,
}

/// The orders that come of an action. Moving to iroh is two different things:
/// the initiator moves when the acknowledgement has come, the responder when it
/// is out.
pub open spec fn orders_for(role: Role, action: ActionView, local_addr: Seq<char>) -> Seq<
    OrderView,
> {
    match action {
        ActionView::SendOffer | ActionView::SendAnswer { .. } => seq![
            OrderView::Send(message_of(action, local_addr)),
        ],
        ActionView::SendCommit => seq![
            OrderView::Send(Some(UnionView::Commit)),
            OrderView::CommitSent,
        ],
        ActionView::SendCommitAck => seq![
            OrderView::Send(Some(UnionView::CommitAck)),
            OrderView::CommitAckSent,
        ],
        ActionView::SwitchTransport => if role is Initiator {
            seq![OrderView::CommitAckReceived]
        } else {
            seq![]
        },
        ActionView::Fallback => seq![OrderView::Abort],
        ActionView::DialIroh => seq![],
    }
}

impl SessionView {
    /// The machine is in a state of its own side.
    pub open spec fn wf(self) -> bool {
        self.upgrade.wf()
    }

    /// A session that nothing has happened to.
    pub open spec fn fresh(role: Role, cfg: IrohConfig) -> SessionView {
        SessionView {
            upgrade: UpgradeView::fresh(role, seq![]),
            cfg,
            endpoint: None,
            peer_id: None,
            dialing: false,
            dial: None,
            ready: None,
            orders: seq![],
        }
    }

    /// The address that goes into messages.
    pub open spec fn local_addr(self) -> Seq<char> {
        match self.endpoint {
            Some(addr) => addr,
            None => seq![],
        }
    }

    /// The session with a dial asked for.
    pub open spec fn dialing_to(self, peer_addr: Seq<char>, peer_id: Seq<u8>) -> SessionView {
        SessionView { dialing: true, dial: Some(DialView { peer_addr, peer_id }), ..self }
    }

    /// The session after looking for somebody to dial, where the peer's address
    /// reads as given.
    pub open spec fn after_dial(self, parsed: Result<Seq<u8>, Seq<char>>) -> SessionView {
        match (self.endpoint, self.upgrade.peer_addr, parsed) {
            (Some(_), Some(peer_addr), Ok(peer_id)) => self.dialing_to(peer_addr, peer_id),
            _ => self,
        }
    }

    /// The session after a report on the endpoint.
    pub open spec fn with_report(self, report: EndpointReport) -> SessionView {
        match report {
            EndpointReport::NotStarted(_) => self,
            EndpointReport::Unreadable(_) => SessionView { endpoint: Some(seq![]), ..self },
            EndpointReport::Up(addr) => SessionView { endpoint: Some(addr@), ..self },
        }
    }

    /// The session without a dial or a connection.
    pub open spec fn without_iroh(self) -> SessionView {
        SessionView { dialing: false, dial: None, ready: None, ..self }
    }

    /// The session with further orders.
    pub open spec fn with_orders(self, orders: Seq<OrderView>) -> SessionView {
        SessionView { orders: self.orders + orders, ..self }
    }

    /// The session after a connection was handed to it, and an order given to
    /// install it.
    pub open spec fn connected(self, stream: FramedStream, peer: EndpointId) -> SessionView {
        SessionView { peer_id: Some(peer), ready: None, ..self }.with_orders(
            seq![OrderView::Install(stream)],
        )
    }

    /// The session after an action, where the peer's address reads as given.
    pub open spec fn after_action(
        self,
        action: ActionView,
        parsed: Result<Seq<u8>, Seq<char>>,
    ) -> SessionView {
        let base = match action {
            ActionView::DialIroh => self.after_dial(parsed),
            ActionView::Fallback => self.without_iroh(),
            _ => self,
        };
        base.with_orders(orders_for(self.upgrade.role, action, self.local_addr()))
    }

    /// The session after a list of actions, where the peer's address reads as
    /// given.
    pub open spec fn after_actions(
        self,
        actions: Seq<ActionView>,
        parsed: Result<Seq<u8>, Seq<char>>,
    ) -> SessionView
        decreases actions.len(),
    {
        if actions.len() == 0 {
            self
        } else {
            self.after_actions(actions.drop_last(), parsed).after_action(actions.last(), parsed)
        }
    }

    /// The session after an event, where the peer's address reads as given.
    pub open spec fn after_event(
        self,
        event: EventView,
        parsed: Result<Seq<u8>, Seq<char>>,
    ) -> SessionView {
        SessionView { upgrade: self.upgrade.next(event), ..self }.after_actions(
            self.upgrade.actions(event),
            parsed,
        )
    }

    /// The session with its machine replaced by a fresh one.
    pub open spec fn restarted(self, role: Role, local_addr: Seq<char>) -> SessionView {
        SessionView { upgrade: UpgradeView::fresh(role, local_addr), ..self }
    }

    /// The session after an event, with the peer's address read by the parser.
    pub open spec fn on_event(self, event: EventView) -> SessionView {
        self.after_event(event, peer_reading(self.upgrade.next(event)))
    }

    /// A connection is waited for.
    pub open spec fn wants_accept(self) -> bool {
        self.upgrade.role is Responder && self.upgrade.state is Connecting && self.endpoint is Some
    }

    /// The session without the dial that has come to its end.
    pub open spec fn dial_over(self) -> SessionView {
        SessionView { dialing: false, dial: None, ..self }
    }

    /// The session once its orders are taken.
    pub open spec fn drained(self) -> SessionView {
        SessionView { orders: seq![], ..self }
    }
}

/// What the peer's address reads as, if the peer has told one.
pub open spec fn peer_reading(upgrade: UpgradeView) -> Result<Seq<u8>, Seq<char>> {
    match upgrade.peer_addr {
        Some(addr) => endpoint_addr_of(addr),
        None => Err(seq![]),
    }
}

impl View for UpgradeSession {
    type V = SessionView;

    closed spec fn view(&self) -> SessionView {
        SessionView {
            upgrade: self.upgrade@,
            cfg: self.cfg,
            endpoint: match self.endpoint {
                Some(addr) => Some(addr@),
                None => None,
            },
            peer_id: self.peer_id,
            dialing: self.dialing,
            dial: match self.dial {
                Some(request) => Some(request@),
                None => None,
            },
            ready: self.ready,
            orders: orders_view(self.orders@),
        }
    }
}

impl UpgradeSession {
    /// A session that has not started.
    pub fn new(role: Role, cfg: IrohConfig) -> (r: UpgradeSession)
        ensures
            r@ == SessionView::fresh(role, cfg),
            r@.wf(),
    {
        UpgradeSession {
            upgrade: Upgrade::new(role, String::new()),
            cfg,
            endpoint: None,
            peer_id: None,
            dialing: false,
            dial: None,
            ready: None,
            orders: Vec::new(),
        }
    }

    /// Adds an order.
    fn push(&mut self, order: Order)
        ensures
            final(self)@ == old(self)@.with_orders(seq![order@]),
    {
        let ghost before = self.orders@;
        let ghost view = order@;
        self.orders.push(order);
        assert(orders_view(self.orders@) == orders_view(before) + seq![view]);
    }

    /// Asks for a dial to the peer, given what reading its address gave. An
    /// address that cannot be read leaves the session as it is.
    pub fn begin_dial(&mut self, peer_addr: String, parsed: Result<EndpointId, String>) -> (r:
        Result<(), DialError>)
        ensures
            match parsed {
                Ok(peer_id) => r is Ok && final(self)@ == old(self)@.dialing_to(
                    peer_addr@,
                    peer_id.0@,
                ),
                Err(cause) => r == Err::<(), DialError>(DialError::BadPeerAddr(cause))
                    && final(self)@ == old(self)@,
            },
    {
        match parsed {
            Ok(peer_id) => {
                self.dialing = true;
                self.dial = Some(DialRequest { peer_addr, peer_id });
                Ok(())
            },
            Err(cause) => Err(DialError::BadPeerAddr(cause)),
        }
    }

    /// Asks for a dial to the peer at the address that it told.
    pub fn spawn_dial(&mut self) -> (r: Result<(), DialError>)
        ensures
            final(self)@ == old(self)@.after_dial(peer_reading(old(self)@.upgrade)),
            match (old(self)@.endpoint, old(self)@.upgrade.peer_addr) {
                (None, _) => r == Err::<(), DialError>(DialError::NoEndpoint),
                (Some(_), None) => r == Err::<(), DialError>(DialError::NoPeerAddr),
                (Some(_), Some(addr)) => match (endpoint_addr_of(addr), r) {
                    (Ok(_), Ok(_)) => true,
                    (Err(cause), Err(DialError::BadPeerAddr(e))) => e@ == cause,
                    _ => false,
                },
            },
    {
        if self.endpoint.is_none() {
            return Err(DialError::NoEndpoint);
        }
        let peer_addr = match self.upgrade.peer_addr() {
            Some(addr) => addr.to_owned(),
            None => {
                return Err(DialError::NoPeerAddr);
            },
        };
        let parsed = parse_endpoint_addr(peer_addr.as_str());
        self.begin_dial(peer_addr, parsed)
    }

    /// Takes the orders to be carried out. To be called after each of the others.
    pub fn drain_orders(&mut self) -> (r: Vec<Order>)
        ensures
            final(self)@ == old(self)@.drained(),
            orders_view(r@) == old(self)@.orders,
    {
        let mut taken: Vec<Order> = Vec::new();
        std::mem::swap(&mut taken, &mut self.orders);
        taken
    }

    /// The part this side plays.
    pub fn role(&self) -> (r: Role)
        ensures
            r == self@.upgrade.role,
    {
        self.upgrade.role()
    }

    /// The state of the upgrade.
    pub fn state(&self) -> (r: &State)
        ensures
            r@ == self@.upgrade.state,
    {
        self.upgrade.state()
    }

    /// Whether the session has to be looked after at intervals. Once the upgrade
    /// is over, one way or the other, there is nothing left to do.
    pub fn needs_tick(&self) -> (r: bool)
        ensures
            r == !self@.upgrade.state.is_terminal(),
    {
        !self.upgrade.state().is_terminal()
    }

    /// How the endpoint is to be set up.
    pub fn config(&self) -> (r: &IrohConfig)
        ensures
            *r == self@.cfg,
    {
        &self.cfg
    }

    /// Whether the endpoint is up, as far as the session was told.
    pub fn has_endpoint(&self) -> (r: bool)
        ensures
            r == (self@.endpoint is Some),
    {
        self.endpoint.is_some()
    }

    /// Whether a dial is under way, or asked for.
    pub fn is_dialing(&self) -> (r: bool)
        ensures
            r == self@.dialing,
    {
        self.dialing
    }

    /// Takes the dial that was asked for.
    pub fn take_dial(&mut self) -> (r: Option<DialRequest>)
        ensures
            final(self)@ == (SessionView { dial: None, ..old(self)@ }),
            match r {
                Some(request) => old(self)@.dial == Some(request@),
                None => old(self)@.dial is None,
            },
    {
        self.dial.take()
    }

    /// The identity of the peer, once it is connected.
    pub fn peer_id(&self) -> (r: Option<EndpointId>)
        ensures
            r == self@.peer_id,
    {
        self.peer_id
    }

    /// Takes note of the endpoint, which is only started for an upgrade, and
    /// gives its address.
    pub fn ensure_endpoint(&mut self, report: EndpointReport) -> (r: Result<String, SessionError>)
        ensures
            final(self)@ == old(self)@.with_report(report),
            match report {
                EndpointReport::NotStarted(cause) => r == Err::<String, SessionError>(
                    SessionError::Endpoint(cause),
                ),
                EndpointReport::Unreadable(cause) => r == Err::<String, SessionError>(
                    SessionError::Endpoint(cause),
                ),
                EndpointReport::Up(addr) => r == Ok::<String, SessionError>(addr),
            },
    {
        match report {
            EndpointReport::NotStarted(cause) => Err(SessionError::Endpoint(cause)),
            EndpointReport::Unreadable(cause) => {
                self.endpoint = Some(String::new());
                Err(SessionError::Endpoint(cause))
            },
            EndpointReport::Up(addr) => {
                self.endpoint = Some(addr.clone());
                Ok(addr)
            },
        }
    }

    /// Carries actions out, as far as the session can, and turns the rest into
    /// orders.
    fn apply(&mut self, actions: Vec<Action>)
        ensures
            final(self)@ == old(self)@.after_actions(
                crate::iroh_upgrade::actions_view(actions@),
                peer_reading(old(self)@.upgrade),
            ),
    {
        let local = match &self.endpoint {
            Some(addr) => addr.clone(),
            None => String::new(),
        };
        let ghost all = crate::iroh_upgrade::actions_view(actions@);
        let ghost parsed = peer_reading(self@.upgrade);
        let ghost before = self@;
        let mut i: usize = 0;
        assert(all.take(0) == Seq::<ActionView>::empty());
        while i < actions.len()
            invariant
                i <= actions@.len(),
                all == crate::iroh_upgrade::actions_view(actions@),
                parsed == peer_reading(before.upgrade),
                local@ == before.local_addr(),
                self@ == before.after_actions(all.take(i as int), parsed),
                self@.upgrade == before.upgrade,
                self@.endpoint == before.endpoint,
            decreases actions@.len() - i,
        {
            let ghost mid = self@;
            let action = &actions[i];
            match action {
                Action::DialIroh => {
                    // A dial that cannot be made ends in a timeout.
                    let _ = self.spawn_dial();
                },
                Action::SendCommit => {
                    // Commit goes out before the commit window begins.
                    if let Some(m) = action_to_message(action, local.as_str()) {
                        self.push(Order::Send(m));
                    }
                    self.push(Order::CommitSent);
                },
                Action::SendCommitAck => {
                    if let Some(m) = action_to_message(action, local.as_str()) {
                        self.push(Order::Send(m));
                    }
                    self.push(Order::CommitAckSent);
                },
                Action::SwitchTransport => {
                    // The responder moves when its acknowledgement is out.
                    if self.upgrade.role() == Role::Initiator {
                        self.push(Order::CommitAckReceived);
                    }
                },
                Action::Fallback => {
                    self.dialing = false;
                    self.dial = None;
                    self.ready = None;
                    self.push(Order::Abort);
                },
                Action::SendOffer | Action::SendAnswer { .. } => {
                    if let Some(m) = action_to_message(action, local.as_str()) {
                        self.push(Order::Send(m));
                    }
                },
            }
            proof {
                assert(self@ == mid.after_action(all[i as int], parsed));
                assert(all.take(i + 1).drop_last() == all.take(i as int));
                assert(all.take(i + 1).last() == all[i as int]);
            }
            i = i + 1;
        }
        assert(all.take(i as int) == all);
    }

    /// Hands the connection that is ready over to be installed. This has to come
    /// before `Commit`.
    fn emit_install_if_ready(&mut self)
        ensures
            final(self)@ == match old(self)@.ready {
                Some(stream) => SessionView { ready: None, ..old(self)@ }.with_orders(
                    seq![OrderView::Install(stream)],
                ),
                None => old(self)@,
            },
    {
        if let Some(stream) = self.ready.take() {
            self.push(Order::Install(stream));
        }
    }

    /// Runs the machine on an event.
    fn step(&mut self, event: Event<'_>)
        requires
            old(self)@.wf(),
        ensures
            final(self)@ == old(self)@.on_event(event@),
            final(self)@.wf(),
    {
        let actions = self.upgrade.step(event);
        self.apply(actions);
        proof {
            lemma_actions_keep_the_machine(
                SessionView { upgrade: old(self)@.upgrade.next(event@), ..old(self)@ },
                old(self)@.upgrade.actions(event@),
                peer_reading(old(self)@.upgrade.next(event@)),
            );
        }
    }

    /// Initiator: starts the upgrade, from the beginning.
    pub fn start(&mut self, report: EndpointReport) -> (r: Result<Vec<Order>, SessionError>)
        requires
            old(self)@.wf(),
        ensures
            final(self)@.wf(),
            match (report, r) {
                (EndpointReport::Up(addr), Ok(orders)) => {
                    let after = old(self)@.with_report(report).restarted(
                        Role::Initiator,
                        addr@,
                    ).on_event(EventView::Start);
                    final(self)@ == after.drained() && orders_view(orders@) == after.orders
                },
                (EndpointReport::NotStarted(cause), Err(e)) => e == SessionError::Endpoint(cause)
                    && final(self)@ == old(self)@.with_report(report),
                (EndpointReport::Unreadable(cause), Err(e)) => e == SessionError::Endpoint(cause)
                    && final(self)@ == old(self)@.with_report(report),
                _ => false,
            },
    {
        match self.ensure_endpoint(report) {
            Ok(local) => {
                self.upgrade = Upgrade::new(Role::Initiator, local);
                self.step(Event::Start);
                Ok(self.drain_orders())
            },
            Err(e) => Err(e),
        }
    }

    /// Whether handling this message takes the endpoint: an offer to a responder
    /// does, and makes it begin again.
    pub fn needs_endpoint(&self, incoming: &IncomingUpgrade) -> (r: bool)
        ensures
            r == (incoming@ is OfferReceived && self@.upgrade.role is Responder),
    {
        matches!(incoming, IncomingUpgrade::Offer { .. }) && self.upgrade.role()
            == Role::Responder
    }

    /// Handles a message of the upgrade. The report is looked at only where
    /// [`UpgradeSession::needs_endpoint`] says so.
    pub fn handle(&mut self, incoming: &IncomingUpgrade, report: EndpointReport) -> (r: Result<
        Vec<Order>,
        SessionError,
    >)
        requires
            old(self)@.wf(),
        ensures
            final(self)@.wf(),
            if incoming@ is OfferReceived && old(self)@.upgrade.role is Responder {
                match (report, r) {
                    (EndpointReport::Up(addr), Ok(orders)) => {
                        let after = old(self)@.with_report(report).restarted(
                            Role::Responder,
                            addr@,
                        ).on_event(incoming@);
                        final(self)@ == after.drained() && orders_view(orders@) == after.orders
                    },
                    (EndpointReport::NotStarted(cause), Err(e)) => e == SessionError::Endpoint(
                        cause,
                    ) && final(self)@ == old(self)@.with_report(report),
                    (EndpointReport::Unreadable(cause), Err(e)) => e == SessionError::Endpoint(
                        cause,
                    ) && final(self)@ == old(self)@.with_report(report),
                    _ => false,
                }
            } else {
                let after = old(self)@.on_event(incoming@);
                r matches Ok(orders) && final(self)@ == after.drained() && orders_view(orders@)
                    == after.orders
            },
    {
        if self.needs_endpoint(incoming) {
            match self.ensure_endpoint(report) {
                Ok(local) => {
                    self.upgrade = Upgrade::new(Role::Responder, local);
                },
                Err(e) => {
                    return Err(e);
                },
            }
        }
        let event = incoming.to_event();
        self.step(event);
        Ok(self.drain_orders())
    }

    /// The current phase took too long. Once the upgrade is over this does
    /// nothing, and no order is given out.
    pub fn tick(&mut self) -> (r: Vec<Order>)
        requires
            old(self)@.wf(),
        ensures
            final(self)@.wf(),
            if old(self)@.upgrade.state.is_terminal() {
                final(self)@ == old(self)@ && r@ == Seq::<Order>::empty()
            } else {
                let after = old(self)@.on_event(EventView::Timeout);
                final(self)@ == after.drained() && orders_view(r@) == after.orders
            },
    {
        if self.upgrade.state().is_terminal() {
            return Vec::new();
        }
        self.step(Event::Timeout);
        self.drain_orders()
    }

    /// Whether the caller should look for an incoming connection.
    pub fn wants_accept(&self) -> (r: bool)
        ensures
            r == self@.wants_accept(),
    {
        self.upgrade.role() == Role::Responder && matches!(
            self.upgrade.state(),
            State::Connecting
        ) && self.endpoint.is_some()
    }

    /// Responder: takes what looking for an incoming connection gave, and tells
    /// whether it was a connection. What was found is ignored unless a connection
    /// is waited for.
    pub fn poll_accept(
        &mut self,
        accepted: Result<Option<(FramedStream, EndpointId)>, String>,
    ) -> (r: Result<bool, SessionError>)
        requires
            old(self)@.wf(),
        ensures
            final(self)@.wf(),
            match accepted {
                _ if !old(self)@.wants_accept() => r == Ok::<bool, SessionError>(false)
                    && final(self)@ == old(self)@,
                Ok(Some((stream, peer))) => r == Ok::<bool, SessionError>(true) && final(self)@
                    == old(self)@.connected(stream, peer).on_event(EventView::IrohConnected),
                Ok(None) => r == Ok::<bool, SessionError>(false) && final(self)@ == old(self)@,
                Err(cause) => r == Err::<bool, SessionError>(SessionError::Accept(cause))
                    && final(self)@ == old(self)@,
            },
    {
        if !self.wants_accept() {
            return Ok(false);
        }
        match accepted {
            Ok(Some((stream, peer))) => {
                self.ready = Some(stream);
                self.peer_id = Some(peer);
                // The transition is installed before the machine goes on.
                self.emit_install_if_ready();
                self.step(Event::IrohConnected);
                Ok(true)
            },
            Ok(None) => Ok(false),
            Err(cause) => Err(SessionError::Accept(cause)),
        }
    }

    /// Takes what a look at the dial gave, and tells whether it was a connection.
    /// Without a dial there is nothing to look at.
    pub fn poll_dial(&mut self, polled: DialPoll) -> (r: bool)
        requires
            old(self)@.wf(),
        ensures
            final(self)@.wf(),
            r == (old(self)@.dialing && polled is Connected),
            final(self)@ == match polled {
                _ if !old(self)@.dialing => old(self)@,
                DialPoll::Connected(stream, peer) => old(self)@.dial_over().connected(
                    stream,
                    peer,
                ).on_event(EventView::IrohConnected),
                DialPoll::Failed(cause) => old(self)@.dial_over().on_event(
                    EventView::IrohFailed(cause@),
                ),
                DialPoll::Empty => old(self)@,
                DialPoll::Disconnected => old(self)@.dial_over().on_event(
                    EventView::IrohFailed("拨号任务意外结束"@),
                ),
            },
    {
        if !self.dialing {
            return false;
        }
        match polled {
            DialPoll::Connected(stream, peer) => {
                self.ready = Some(stream);
                self.peer_id = Some(peer);
                self.dialing = false;
                self.dial = None;
                // The transition is installed before the machine asks for Commit.
                self.emit_install_if_ready();
                self.step(Event::IrohConnected);
                true
            },
            DialPoll::Failed(cause) => {
                self.dialing = false;
                self.dial = None;
                self.step(Event::IrohFailed(cause.as_str()));
                false
            },
            DialPoll::Empty => false,
            DialPoll::Disconnected => {
                self.dialing = false;
                self.dial = None;
                self.step(Event::IrohFailed("拨号任务意外结束"));
                false
            },
        }
    }
}

/// Carrying actions out does not touch the machine.
proof fn lemma_actions_keep_the_machine(
    s: SessionView,
    actions: Seq<ActionView>,
    parsed: Result<Seq<u8>, Seq<char>>,
)
    ensures
        s.after_actions(actions, parsed).upgrade == s.upgrade,
    decreases actions.len(),
{
    if actions.len() > 0 {
        lemma_actions_keep_the_machine(s, actions.drop_last(), parsed);
    }
}

} // verus!
