use vstd::prelude::*;

use crate::round_state::{addresses, opt_preprepare, RoundState};
use crate::timer::{round_timeout, round_timeout_spec};
use crate::types::{
    Address, ConsensusResult, ConsensusView, Digest, EngineError, GossipMessage, Header,
    MessageType, Payload, PrePrepare, Proposal, State, Subject,
};
use crate::validator::{no_duplicates, ValidatorSet};

verus! {

/// What the core hands to the world around it after handling an event.
#[derive(Debug)]
pub enum Output {
    /// Gossip this message to all validators.
    Broadcast(GossipMessage),
    /// Re-inject the buffered PRE-PREPARE after this many milliseconds.
    FutureBlockTimer(u64),
    /// Arm the round timer: the round it guards and its duration.
    RoundTimer(u64, u64),
    /// Finalize this proposal with the senders of the COMMIT certificate.
    Commit(Proposal, Vec<Address>),
    /// Cancel the round timer and the future-block timer.
    CancelTimers,
}

/// A PREPARE or COMMIT broadcast for the subject (view, digest).
pub open spec fn subject_output(kind: MessageType, view: ConsensusView, digest: Digest) -> Output {
    Output::Broadcast(
        GossipMessage {
            kind,
            payload: Payload::Subject(Subject { view, digest }),
            signature: None,
        },
    )
}

/// The ROUND-CHANGE broadcast for round `round` at `sequence`.
pub open spec fn round_change_output(sequence: u64, round: u64) -> Output {
    Output::Broadcast(
        GossipMessage {
            kind: MessageType::RoundChange,
            payload: Payload::Round(ConsensusView { sequence, round }),
            signature: None,
        },
    )
}

/// The services a replica consults: block verification, stored headers, validator
/// snapshots and proposal lookup.
pub trait Backend {
    /// Verifies a proposal; the delay is the time to wait when the block is from the future.
    fn verify(&self, proposal: &Proposal) -> (u64, Result<(), EngineError>);

    fn get_header_by_height(&self, height: u64) -> Option<Header>;

    fn validators(&self, height: u64) -> ValidatorSet;

    fn has_proposal(&self, hash: &Digest, height: u64) -> bool;
}

/// The per-node consensus state machine.
#[derive(Debug)]
pub struct Core {
    pub address: Address,
    pub val_set: ValidatorSet,
    pub state: State,
    pub current_state: RoundState,
    /// Timestamp in nanoseconds of the accepted proposal.
    pub consensus_timestamp: u64,
    /// ROUND-CHANGE votes received: (target round, sender).
    pub round_changes: Vec<(u64, Address)>,
    pub base_timeout: u64,
    pub max_timeout: u64,
    pub outbox: Vec<Output>,
}

pub open spec fn all_members(vs: ValidatorSet, s: Seq<Address>) -> bool {
    forall|i: int| 0 <= i < s.len() ==> vs@.contains(#[trigger] s[i]@)
}

/// No (round, sender) pair occurs twice.
pub open spec fn distinct_votes(s: Seq<(u64, Address)>) -> bool {
    forall|i: int, j: int|
        0 <= i < s.len() && 0 <= j < s.len() && i != j && s[i].0 == s[j].0 ==> s[i].1@ != s[j].1@
}

impl Core {
    pub open spec fn wf(&self) -> bool {
        &&& self.val_set.wf()
        &&& self.current_state.view.round < u64::MAX
        &&& no_duplicates(addresses(self.current_state.prepares@))
        &&& no_duplicates(addresses(self.current_state.commits@))
        &&& all_members(self.val_set, self.current_state.prepares@)
        &&& all_members(self.val_set, self.current_state.commits@)
        &&& distinct_votes(self.round_changes@)
        &&& (self.state == State::AcceptRequest ==> self.current_state.preprepare is None)
        &&& self.lock_consistent()
    }

    /// While locked, the PRE-PREPARE acted on carries the locked digest.
    pub open spec fn lock_consistent(&self) -> bool {
        match (self.current_state.lock, self.current_state.preprepare) {
            (Some(l), Some(p)) => p.digest() == l.digest@,
            _ => true,
        }
    }

    pub open spec fn view_spec(&self) -> ConsensusView {
        self.current_state.view
    }

    /// Whether `a` is the proposer of the current view.
    pub open spec fn proposer_is(&self, a: Seq<u8>) -> bool {
        self.val_set@.len() > 0 && self.val_set@[self.val_set.proposer_of(
            self.view_spec().sequence as nat,
            self.view_spec().round as nat,
        ) as int] == a
    }

    /// Everything but the outbox is as in `o`.
    pub open spec fn same_but_outbox(&self, o: Core) -> bool {
        &&& self.address == o.address
        &&& self.val_set == o.val_set
        &&& self.state == o.state
        &&& self.current_state == o.current_state
        &&& self.consensus_timestamp == o.consensus_timestamp
        &&& self.round_changes == o.round_changes
        &&& self.base_timeout == o.base_timeout
        &&& self.max_timeout == o.max_timeout
    }

    /// The outputs of a round change request: the ROUND-CHANGE for the next round and
    /// its longer timer.
    pub open spec fn next_round_change_outputs(&self) -> Seq<Output> {
        let next = (self.current_state.view.round + 1) as u64;
        seq![
            round_change_output(self.current_state.view.sequence, next),
            Output::RoundTimer(
                next,
                round_timeout_spec(
                    self.base_timeout as nat,
                    self.max_timeout as nat,
                    next as nat,
                ) as u64,
            ),
        ]
    }

    /// `self` is `o` after `pp` was accepted: timestamp and PRE-PREPARE set.
    pub open spec fn accepted_from(&self, o: Core, pp: PrePrepare) -> bool {
        &&& self.address == o.address
        &&& self.val_set == o.val_set
        &&& self.consensus_timestamp == pp.proposal.block.header.time
        &&& opt_preprepare(self.current_state.preprepare) == Some(pp@)
        &&& self.current_state.view == o.current_state.view
        &&& self.current_state.prepares == o.current_state.prepares
        &&& self.current_state.commits == o.current_state.commits
        &&& self.current_state.lock == o.current_state.lock
        &&& self.current_state.locked_proposal == o.current_state.locked_proposal
        &&& self.current_state.pending_request == o.current_state.pending_request
        &&& self.round_changes == o.round_changes
        &&& self.base_timeout == o.base_timeout
        &&& self.max_timeout == o.max_timeout
    }

    /// How handling a PRE-PREPARE from the proposer of the current view ends, once the
    /// backend has answered `verified` (with `delay`) on its proposal.
    pub open spec fn preprepare_outcome(
        o: Core,
        n: Core,
        pp: PrePrepare,
        delay: u64,
        verified: Result<(), EngineError>,
        r: ConsensusResult,
    ) -> bool {
        let digest = pp.proposal.block.header.hash;
        match verified {
            Err(EngineError::FutureBlock) => {
                &&& r == Err::<(), _>(crate::types::ConsensusError::FutureBlockMessage)
                &&& n.same_but_outbox(o)
                &&& n.outbox@ == o.outbox@.push(Output::FutureBlockTimer(delay))
            },
            Err(e) => {
                &&& r == Err::<(), _>(crate::types::ConsensusError::Unknown(e))
                &&& n.same_but_outbox(o)
                &&& n.outbox@ == o.outbox@ + o.next_round_change_outputs()
            },
            Ok(()) => {
                &&& r == Ok::<(), crate::types::ConsensusError>(())
                &&& if o.state != State::AcceptRequest {
                    n.same_but_outbox(o) && n.outbox@ == o.outbox@
                } else {
                    match o.current_state.lock {
                        Some(l) => if l.digest@ == digest@ {
                            &&& n.accepted_from(o, pp)
                            &&& n.state == State::Prepared
                            &&& n.outbox@ == o.outbox@.push(
                                subject_output(MessageType::Commit, o.view_spec(), digest),
                            )
                        } else {
                            &&& n.same_but_outbox(o)
                            &&& n.outbox@ == o.outbox@ + o.next_round_change_outputs()
                        },
                        None => {
                            &&& n.accepted_from(o, pp)
                            &&& n.state == State::Preprepared
                            &&& n.outbox@ == o.outbox@.push(
                                subject_output(MessageType::Prepare, o.view_spec(), digest),
                            )
                        },
                    }
                }
            },
        }
    }

    /// Starts a replica at `height`, round 0, ready for a PRE-PREPARE.
    pub fn new(
        address: Address,
        val_set: ValidatorSet,
        height: u64,
        base_timeout: u64,
        max_timeout: u64,
    ) -> (r: Core)
        requires
            val_set.wf(),
        ensures
            r.wf(),
            r.address == address,
            r.val_set == val_set,
            r.state == State::AcceptRequest,
            r.current_state.view == (ConsensusView { sequence: height, round: 0 }),
            r.current_state.preprepare is None,
            r.current_state.lock is None,
            r.current_state.prepares@.len() == 0,
            r.current_state.commits@.len() == 0,
            r.round_changes@.len() == 0,
            r.base_timeout == base_timeout,
            r.max_timeout == max_timeout,
            r.outbox@ == seq![
                Output::RoundTimer(
                    0,
                    round_timeout_spec(base_timeout as nat, max_timeout as nat, 0) as u64,
                ),
            ],
    {
        let t = round_timeout(base_timeout, max_timeout, 0);
        let mut outbox: Vec<Output> = Vec::new();
        outbox.push(Output::RoundTimer(0, t));
        let current_state = RoundState::new(ConsensusView { sequence: height, round: 0 });
        let r = Core {
            address,
            val_set,
            state: State::AcceptRequest,
            current_state,
            consensus_timestamp: 0,
            round_changes: Vec::new(),
            base_timeout,
            max_timeout,
            outbox,
        };
        assert(r.outbox@ =~= seq![Output::RoundTimer(0, t)]);
        r
    }

    pub fn current_view(&self) -> (r: ConsensusView)
        ensures
            r == self.view_spec(),
    {
        self.current_state.view
    }

    pub fn val_set(&self) -> (r: &ValidatorSet)
        ensures
            *r == self.val_set,
    {
        &self.val_set
    }

    /// Whether this replica is the proposer of the current view.
    pub fn is_proposer(&self) -> (r: bool)
        ensures
            r == self.proposer_is(self.address@),
    {
        self.val_set.is_proposer(
            &self.address,
            self.current_state.view.sequence,
            self.current_state.view.round,
        )
    }

    /// Broadcasts a vote of `kind` for `digest` at the current view.
    pub(crate) fn broadcast_subject(&mut self, kind: MessageType, digest: Digest)
        ensures
            final(self).same_but_outbox(*old(self)),
            final(self).outbox@ == old(self).outbox@.push(
                subject_output(kind, old(self).view_spec(), digest),
            ),
    {
        let msg = GossipMessage::new(
            kind,
            Payload::Subject(Subject { view: self.current_state.view, digest }),
            None,
        );
        self.outbox.push(Output::Broadcast(msg));
    }

    /// Emits COMMIT for an already committed block on behalf of a lagging peer.
    pub fn send_commit_for_old_block(&mut self, view: &ConsensusView, digest: Digest)
        ensures
            final(self).same_but_outbox(*old(self)),
            final(self).outbox@ == old(self).outbox@.push(
                subject_output(MessageType::Commit, *view, digest),
            ),
    {
        let msg = GossipMessage::new(
            MessageType::Commit,
            Payload::Subject(Subject { view: *view, digest }),
            None,
        );
        self.outbox.push(Output::Broadcast(msg));
    }

    /// Asks to move to the next round: ROUND-CHANGE for round + 1 and its timer.
    pub fn send_next_round_change(&mut self)
        requires
            old(self).wf(),
        ensures
            final(self).same_but_outbox(*old(self)),
            final(self).outbox@ == old(self).outbox@ + old(self).next_round_change_outputs(),
    {
        let next = self.current_state.view.round + 1;
        let t = round_timeout(self.base_timeout, self.max_timeout, next);
        let msg = GossipMessage::new(
            MessageType::RoundChange,
            Payload::Round(ConsensusView { sequence: self.current_state.view.sequence, round: next }),
            None,
        );
        self.outbox.push(Output::Broadcast(msg));
        self.outbox.push(Output::RoundTimer(next, t));
        assert(self.outbox@ =~= old(self).outbox@ + old(self).next_round_change_outputs());
    }
}

} // verus!
