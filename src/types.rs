use vstd::prelude::*;

verus! {

/// Compares two byte arrays element by element.
pub fn same_bytes<const N: usize>(a: &[u8; N], b: &[u8; N]) -> (r: bool)
    ensures
        r == (a@ == b@),
{
    let mut i: usize = 0;
    while i < N
        invariant
            0 <= i <= N,
            a@.len() == N,
            b@.len() == N,
            forall|j: int| 0 <= j < i ==> a@[j] == b@[j],
        decreases N - i,
    {
        if a[i] != b[i] {
            return false;
        }
        i = i + 1;
    }
    assert(a@ =~= b@);
    true
}

/// A validator's address: the 20-byte digest of its public key.
#[derive(Clone, Copy, Debug)]
pub struct Address {
    pub bytes: [u8; 20],
}

impl View for Address {
    type V = Seq<u8>;

    open spec fn view(&self) -> Seq<u8> {
        self.bytes@
    }
}

impl Address {
    pub fn new(bytes: [u8; 20]) -> (r: Address)
        ensures
            r@ == bytes@,
    {
        Address { bytes }
    }

    pub fn same(&self, other: &Address) -> (r: bool)
        ensures
            r == (self@ == other@),
    {
        same_bytes(&self.bytes, &other.bytes)
    }
}

/// A 32-byte content digest; blocks with equal digests are equal.
#[derive(Clone, Copy, Debug)]
pub struct Digest {
    pub bytes: [u8; 32],
}

impl View for Digest {
    type V = Seq<u8>;

    open spec fn view(&self) -> Seq<u8> {
        self.bytes@
    }
}

impl Digest {
    pub fn new(bytes: [u8; 32]) -> (r: Digest)
        ensures
            r@ == bytes@,
    {
        Digest { bytes }
    }

    pub fn same(&self, other: &Digest) -> (r: bool)
        ensures
            r == (self@ == other@),
    {
        same_bytes(&self.bytes, &other.bytes)
    }
}

/// A proposal attempt: the block height being decided and the round within it.
#[derive(Clone, Copy, Debug, PartialEq, Eq, Structural)]
pub struct ConsensusView {
    pub sequence: u64,
    pub round: u64,
}

/// Where a message's view stands relative to the replica's current view.
#[derive(Clone, Copy, Debug, PartialEq, Eq, Structural)]
pub enum ViewClass {
    FutureMessage,
    OldMessage,
    Same,
}

/// Lexicographic order on (sequence, round).
pub open spec fn view_lt(a: ConsensusView, b: ConsensusView) -> bool {
    a.sequence < b.sequence || (a.sequence == b.sequence && a.round < b.round)
}

pub open spec fn classify_spec(current: ConsensusView, msg: ConsensusView) -> ViewClass {
    if view_lt(msg, current) {
        ViewClass::OldMessage
    } else if view_lt(current, msg) {
        ViewClass::FutureMessage
    } else {
        ViewClass::Same
    }
}

/// Classifies the view `msg` of an incoming message against the current view.
pub fn classify_view(current: &ConsensusView, msg: &ConsensusView) -> (r: ViewClass)
    ensures
        r == classify_spec(*current, *msg),
        r == ViewClass::Same <==> *msg == *current,
{
    if msg.sequence < current.sequence || (msg.sequence == current.sequence && msg.round
        < current.round) {
        ViewClass::OldMessage
    } else if current.sequence < msg.sequence || (current.sequence == msg.sequence
        && current.round < msg.round) {
        ViewClass::FutureMessage
    } else {
        ViewClass::Same
    }
}

/// Block header: height, content digest, parent digest and timestamp in nanoseconds.
#[derive(Clone, Copy, Debug)]
pub struct Header {
    pub height: u64,
    pub hash: Digest,
    pub prev_hash: Digest,
    pub time: u64,
}

#[derive(Clone, Debug)]
pub struct Block {
    pub header: Header,
    pub payload: Vec<u8>,
}

impl View for Block {
    type V = (Header, Seq<u8>);

    open spec fn view(&self) -> (Header, Seq<u8>) {
        (self.header, self.payload@)
    }
}

impl Block {
    /// A copy with the same header and payload.
    pub fn duplicate(&self) -> (r: Block)
        ensures
            r@ == self@,
    {
        let payload = self.payload.clone();
        assert(payload@ =~= self.payload@);
        Block { header: self.header, payload }
    }

    pub fn height(&self) -> (r: u64)
        ensures
            r == self.header.height,
    {
        self.header.height
    }

    pub fn hash(&self) -> (r: Digest)
        ensures
            r == self.header.hash,
    {
        self.header.hash
    }
}

/// A candidate block offered for consensus.
#[derive(Clone, Debug)]
pub struct Proposal {
    pub block: Block,
}

impl View for Proposal {
    type V = (Header, Seq<u8>);

    open spec fn view(&self) -> (Header, Seq<u8>) {
        self.block@
    }
}

impl Proposal {
    pub fn duplicate(&self) -> (r: Proposal)
        ensures
            r@ == self@,
    {
        Proposal { block: self.block.duplicate() }
    }
}

/// A proposal handed down by the upper layer for the current height.
#[derive(Clone, Debug)]
pub struct Request {
    pub proposal: Proposal,
}

#[derive(Clone, Debug)]
pub struct PrePrepare {
    pub view: ConsensusView,
    pub proposal: Proposal,
}

impl View for PrePrepare {
    type V = (ConsensusView, (Header, Seq<u8>));

    open spec fn view(&self) -> (ConsensusView, (Header, Seq<u8>)) {
        (self.view, self.proposal@)
    }
}

impl PrePrepare {
    pub fn new(view: ConsensusView, proposal: Proposal) -> (r: PrePrepare)
        ensures
            r.view == view,
            r.proposal == proposal,
    {
        PrePrepare { view, proposal }
    }

    pub fn duplicate(&self) -> (r: PrePrepare)
        ensures
            r@ == self@,
    {
        PrePrepare { view: self.view, proposal: self.proposal.duplicate() }
    }

    /// The digest of the proposed block.
    pub open spec fn digest(&self) -> Seq<u8> {
        self.proposal.block.header.hash@
    }
}

/// The object of a PREPARE or COMMIT vote.
#[derive(Clone, Copy, Debug)]
pub struct Subject {
    pub view: ConsensusView,
    pub digest: Digest,
}

#[derive(Clone, Copy, Debug, PartialEq, Eq, Structural)]
pub enum MessageType {
    Preprepare,
    Prepare,
    Commit,
    RoundChange,
}

/// The typed content a gossip message carries.
#[derive(Clone, Debug)]
pub enum Payload {
    Preprepare(PrePrepare),
    Subject(Subject),
    Round(ConsensusView),
}

/// A signed gossip unit: its kind, its content and an optional signature.
#[derive(Clone, Debug)]
pub struct GossipMessage {
    pub kind: MessageType,
    pub payload: Payload,
    pub signature: Option<Vec<u8>>,
}

/// Whether `kind` and `payload` agree, so that the message can be read.
pub open spec fn well_formed_spec(kind: MessageType, payload: Payload) -> bool {
    match payload {
        Payload::Preprepare(_) => kind == MessageType::Preprepare,
        Payload::Subject(_) => kind == MessageType::Prepare || kind == MessageType::Commit,
        Payload::Round(_) => kind == MessageType::RoundChange,
    }
}

impl GossipMessage {
    pub fn new(kind: MessageType, payload: Payload, signature: Option<Vec<u8>>) -> (r:
        GossipMessage)
        ensures
            r.kind == kind,
            r.payload == payload,
            r.signature == signature,
    {
        GossipMessage { kind, payload, signature }
    }

    /// The PRE-PREPARE this message carries, if it is one.
    pub fn preprepare(&self) -> (r: Option<&PrePrepare>)
        ensures
            match r {
                Some(p) => self.kind == MessageType::Preprepare && self.payload
                    == Payload::Preprepare(*p),
                None => !(self.kind == MessageType::Preprepare && self.payload is Preprepare),
            },
    {
        match &self.payload {
            Payload::Preprepare(p) => {
                if self.kind == MessageType::Preprepare {
                    Some(p)
                } else {
                    None
                }
            },
            _ => None,
        }
    }
}

/// Errors a backend reports when verifying a proposal.
#[derive(Clone, Copy, Debug, PartialEq, Eq, Structural)]
pub enum EngineError {
    FutureBlock,
    InvalidProposal,
    InvalidSignature,
    InconsistentSubject,
}

/// Errors surfaced by the message handlers.
#[derive(Clone, Copy, Debug, PartialEq, Eq, Structural)]
pub enum ConsensusError {
    OldMessage,
    FutureMessage,
    InconsistentSubject,
    NotFromProposer,
    NotFromValidator,
    FutureBlockMessage,
    Engine(EngineError),
    Unknown(EngineError),
    MalformedMessage,
}

pub type ConsensusResult = Result<(), ConsensusError>;

/// The replica's progress within a round.
#[derive(Clone, Copy, Debug, PartialEq, Eq, Structural)]
pub enum State {
    AcceptRequest,
    Preprepared,
    Prepared,
    Committed,
    Final,
}

pub open spec fn state_rank(s: State) -> nat {
    match s {
        State::AcceptRequest => 0,
        State::Preprepared => 1,
        State::Prepared => 2,
        State::Committed => 3,
        State::Final => 4,
    }
}

} // verus!
