//! The messages of the upgrade, as the session protocol carries them.

use vstd::prelude::*;

verus! {

/// Offers an upgrade: where the sender can be reached, and which protocol version
/// it speaks.
#[derive(Debug, Clone, PartialEq, Eq)]
pub struct IrohUpgradeOffer {
    pub endpoint_addr: String,
    pub version: u32,
}

/// Answers an offer.
#[derive(Debug, Clone, PartialEq, Eq)]
pub struct IrohUpgradeAnswer {
    pub accepted: bool,
    pub endpoint_addr: String,
    pub reason: String,
}

/// Tells that nothing but the acknowledgement is expected on the old channel.
#[derive(Debug, Clone, PartialEq, Eq)]
pub struct IrohUpgradeCommit {}

/// Acknowledges the commit.
#[derive(Debug, Clone, PartialEq, Eq)]
pub struct IrohUpgradeCommitAck {}

/// What a message holds.
#[derive(Debug, Clone, PartialEq, Eq)]
pub enum Union {
    IrohUpgradeOffer(IrohUpgradeOffer),
    IrohUpgradeAnswer(IrohUpgradeAnswer),
    IrohUpgradeCommit(IrohUpgradeCommit),
    IrohUpgradeCommitAck(IrohUpgradeCommitAck),
    /// Anything that is not part of an upgrade, by its field number.
    Other(u32),
}

/// A message of the session protocol.
#[derive(Debug, Clone, PartialEq, Eq)]
pub struct Message {
    pub union: Option<Union>,
}

/// [`Union`] with its text as characters.
#[verifier::ext_equal]
pub enum UnionView {
    Offer { endpoint_addr: Seq<char>, version: u32 },
    Answer { accepted: bool, endpoint_addr: Seq<char>, reason: Seq<char> },
    Commit,
    CommitAck,
    Other(u32),
}

impl View for Union {
    type V = UnionView;

    open spec fn view(&self) -> UnionView {
        match self {
            Union::IrohUpgradeOffer(o) => UnionView::Offer {
                endpoint_addr: o.endpoint_addr@,
                version: o.version,
            },
            Union::IrohUpgradeAnswer(a) => UnionView::Answer {
                accepted: a.accepted,
                endpoint_addr: a.endpoint_addr@,
                reason: a.reason@,
            },
            Union::IrohUpgradeCommit(_) => UnionView::Commit,
            Union::IrohUpgradeCommitAck(_) => UnionView::CommitAck,
            Union::Other(field) => UnionView::Other(*field),
        }
    }
}

impl View for Message {
    type V = Option<UnionView>;

    open spec fn view(&self) -> Option<UnionView> {
        match self.union {
            Some(union) => Some(union@),
            None => None,
        }
    }
}

impl IrohUpgradeOffer {
    /// An offer with nothing in it.
    pub fn new() -> (r: IrohUpgradeOffer)
        ensures
            r.endpoint_addr@ == Seq::<char>::empty(),
            r.version == 0,
    {
        IrohUpgradeOffer { endpoint_addr: String::new(), version: 0 }
    }
}

impl IrohUpgradeAnswer {
    /// An answer with nothing in it, which refuses.
    pub fn new() -> (r: IrohUpgradeAnswer)
        ensures
            !r.accepted,
            r.endpoint_addr@ == Seq::<char>::empty(),
            r.reason@ == Seq::<char>::empty(),
    {
        IrohUpgradeAnswer { accepted: false, endpoint_addr: String::new(), reason: String::new() }
    }
}

impl IrohUpgradeCommit {
    /// A commit.
    pub fn new() -> (r: IrohUpgradeCommit)
        ensures
            r == (IrohUpgradeCommit {  }),
    {
        IrohUpgradeCommit {  }
    }
}

impl IrohUpgradeCommitAck {
    /// An acknowledgement.
    pub fn new() -> (r: IrohUpgradeCommitAck)
        ensures
            r == (IrohUpgradeCommitAck {  }),
    {
        IrohUpgradeCommitAck {  }
    }
}

impl Message {
    /// A message that holds nothing.
    pub fn new() -> (r: Message)
        ensures
            r@ is None,
            r.union is None,
    {
        Message { union: None }
    }

    /// Makes this an offer.
    pub fn set_iroh_upgrade_offer(&mut self, o: IrohUpgradeOffer)
        ensures
            final(self).union == Some(Union::IrohUpgradeOffer(o)),
    {
        self.union = Some(Union::IrohUpgradeOffer(o));
    }

    /// Makes this an answer.
    pub fn set_iroh_upgrade_answer(&mut self, a: IrohUpgradeAnswer)
        ensures
            final(self).union == Some(Union::IrohUpgradeAnswer(a)),
    {
        self.union = Some(Union::IrohUpgradeAnswer(a));
    }

    /// Makes this a commit.
    pub fn set_iroh_upgrade_commit(&mut self, c: IrohUpgradeCommit)
        ensures
            final(self).union == Some(Union::IrohUpgradeCommit(c)),
    {
        self.union = Some(Union::IrohUpgradeCommit(c));
    }

    /// Makes this an acknowledgement.
    pub fn set_iroh_upgrade_commit_ack(&mut self, c: IrohUpgradeCommitAck)
        ensures
            final(self).union == Some(Union::IrohUpgradeCommitAck(c)),
    {
        self.union = Some(Union::IrohUpgradeCommitAck(c));
    }
}

} // verus!
