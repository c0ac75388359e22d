use vstd::prelude::*;

use crate::engine::{all_members, subject_output, Core, Output};
use crate::round_state::{addresses, insert_distinct, opt_proposal, Lock};
use crate::types::{
    classify_spec, classify_view, Address, ConsensusError, ConsensusResult, MessageType, State,
    Subject, ViewClass, state_rank,
};
use crate::validator::{no_duplicates, quorum_spec};

verus! {

/// The error a PREPARE or COMMIT for `s` from `src` meets before it is counted, if any.
/// A vote that arrives before the PRE-PREPARE it is for gets `FutureMessage`: like any
/// future message, the embedding keeps it and delivers it again once the PRE-PREPARE is
/// in, and it is dropped on round change, when its view is old.
pub open spec fn vote_error(o: Core, s: Subject, src: Address) -> Option<ConsensusError> {
    let class = classify_spec(o.view_spec(), s.view);
    if class == ViewClass::OldMessage {
        Some(ConsensusError::OldMessage)
    } else if class == ViewClass::FutureMessage {
        Some(ConsensusError::FutureMessage)
    } else if !o.val_set@.contains(src@) {
        Some(ConsensusError::NotFromValidator)
    } else {
        match o.current_state.preprepare {
            None => Some(ConsensusError::FutureMessage),
            Some(p) => if p.proposal.block.header.hash@ != s.digest@ {
                Some(ConsensusError::InconsistentSubject)
            } else {
                None
            },
        }
    }
}

/// `v` after counting `src` once.
pub open spec fn with_voter(v: Seq<Address>, src: Address) -> Seq<Address> {
    if addresses(v).contains(src@) {
        v
    } else {
        v.push(src)
    }
}

proof fn lemma_with_voter_keeps(vs: crate::validator::ValidatorSet, v: Seq<Address>, src: Address)
    requires
        no_duplicates(addresses(v)),
        all_members(vs, v),
        vs@.contains(src@),
    ensures
        no_duplicates(addresses(with_voter(v, src))),
        all_members(vs, with_voter(v, src)),
{
    let w = with_voter(v, src);
    if !addresses(v).contains(src@) {
        assert(addresses(w) =~= addresses(v).push(src@));
        assert forall|i: int| 0 <= i < w.len() implies vs@.contains(#[trigger] w[i]@) by {
            if i < v.len() {
                assert(w[i] == v[i]);
            }
        }
    }
}

/// How a PREPARE for `subject` from `src` takes the replica from `o` to `n` with result
/// `r`: refused with its error, or counted once; at 2f+1 distinct senders the replica
/// locks on the digest, becomes `Prepared` and broadcasts COMMIT.
pub open spec fn prepare_outcome(
    o: Core,
    n: Core,
    subject: Subject,
    src: Address,
    r: ConsensusResult,
) -> bool {
    match vote_error(o, subject, src) {
        Some(e) => r == Err::<(), _>(e) && n == o,
        None => {
            let votes = with_voter(o.current_state.prepares@, src);
            let reached = votes.len() >= quorum_spec(o.val_set@.len())
                && state_rank(o.state) < state_rank(State::Prepared);
            &&& r == Ok::<(), ConsensusError>(())
            &&& n.current_state.prepares@ == votes
            &&& n.address == o.address
            &&& n.val_set == o.val_set
            &&& n.current_state.view == o.current_state.view
            &&& n.current_state.preprepare == o.current_state.preprepare
            &&& n.current_state.commits == o.current_state.commits
            &&& n.current_state.pending_request
                == o.current_state.pending_request
            &&& n.consensus_timestamp == o.consensus_timestamp
            &&& n.round_changes == o.round_changes
            &&& n.base_timeout == o.base_timeout
            &&& n.max_timeout == o.max_timeout
            &&& reached ==> n.state == State::Prepared
                && n.current_state.lock == Some(
                Lock { digest: subject.digest, view: o.view_spec() },
            ) && opt_proposal(n.current_state.locked_proposal) == Some(
                o.current_state.preprepare->0.proposal@,
            ) && n.outbox@ == o.outbox@.push(
                subject_output(MessageType::Commit, o.view_spec(), subject.digest),
            )
            &&& !reached ==> n.state == o.state
                && n.current_state.lock == o.current_state.lock
                && n.current_state.locked_proposal
                == o.current_state.locked_proposal
                && n.outbox == o.outbox
        },
    }
}

/// How a COMMIT for `subject` from `src` takes the replica from `o` to `n` with result
/// `r`: refused with its error, or counted once; at 2f+1 distinct senders the replica
/// hands the proposal and the certificate over, cancels its timers and is `Final`.
pub open spec fn commit_outcome(
    o: Core,
    n: Core,
    subject: Subject,
    src: Address,
    r: ConsensusResult,
) -> bool {
    match vote_error(o, subject, src) {
        Some(e) => r == Err::<(), _>(e) && n == o,
        None => {
            let votes = with_voter(o.current_state.commits@, src);
            let reached = votes.len() >= quorum_spec(o.val_set@.len())
                && state_rank(o.state) < state_rank(State::Committed);
            &&& r == Ok::<(), ConsensusError>(())
            &&& n.current_state.commits@ == votes
            &&& n.address == o.address
            &&& n.val_set == o.val_set
            &&& n.current_state.view == o.current_state.view
            &&& n.current_state.preprepare == o.current_state.preprepare
            &&& n.current_state.prepares == o.current_state.prepares
            &&& n.current_state.lock == o.current_state.lock
            &&& n.current_state.locked_proposal
                == o.current_state.locked_proposal
            &&& n.current_state.pending_request
                == o.current_state.pending_request
            &&& n.consensus_timestamp == o.consensus_timestamp
            &&& n.round_changes == o.round_changes
            &&& n.base_timeout == o.base_timeout
            &&& n.max_timeout == o.max_timeout
            &&& reached ==> n.state == State::Final
                && n.outbox@.len() == o.outbox@.len() + 2
                && n.outbox@.subrange(0, o.outbox@.len() as int) == o.outbox@
                && is_commit_output(
                n.outbox@[o.outbox@.len() as int],
                o.current_state.preprepare->0.proposal@,
                addresses(votes),
            ) && n.outbox@.last() == Output::CancelTimers
            &&& !reached ==> n.state == o.state && n.outbox
                == o.outbox
        },
    }
}

impl Core {
    /// Handles a PREPARE vote for `subject` from `src`. At 2f+1 distinct senders the
    /// replica locks on the digest, becomes `Prepared` and broadcasts COMMIT.
    pub fn handle_prepare(&mut self, subject: &Subject, src: &Address) -> (r: ConsensusResult)
        requires
        old(self).wf(),
        ensures
        final(self).wf(),
        prepare_outcome(*old(self), *final(self), *subject, *src, r),
    {
        match self.check_vote(subject, src) {
        Some(e) => return Err(e),
        None => {},
        }
        let ghost before = self.current_state.prepares@;
        insert_distinct(&mut self.current_state.prepares, src);
        proof {
        lemma_with_voter_keeps(self.val_set, before, *src);
        }
        assert(self.current_state.prepares@ == with_voter(before, *src));
        if self.current_state.prepares.len() >= self.val_set.quorum()
        && (self.state == State::AcceptRequest || self.state == State::Preprepared) {
        let proposal = match &self.current_state.preprepare {
        Some(p) => p.proposal.duplicate(),
        None => return Ok(()),
        };
        self.current_state.lock = Some(
        Lock { digest: subject.digest, view: self.current_state.view },
        );
        self.current_state.locked_proposal = Some(proposal);
        self.state = State::Prepared;
        self.broadcast_subject(MessageType::Commit, subject.digest);
        }
        Ok(())
    }

    /// Handles a COMMIT vote for `subject` from `src`. At 2f+1 distinct senders the
    /// replica hands the proposal and the certificate to the backend and is `Final`; the
    /// embedding enters the next height with `start` once the backend has committed.
    pub fn handle_commit(&mut self, subject: &Subject, src: &Address) -> (r: ConsensusResult)
        requires
        old(self).wf(),
        ensures
        final(self).wf(),
        commit_outcome(*old(self), *final(self), *subject, *src, r),
    {
        match self.check_vote(subject, src) {
        Some(e) => return Err(e),
        None => {},
        }
        let ghost before = self.current_state.commits@;
        insert_distinct(&mut self.current_state.commits, src);
        proof {
        lemma_with_voter_keeps(self.val_set, before, *src);
        }
        assert(self.current_state.commits@ == with_voter(before, *src));
        if self.current_state.commits.len() >= self.val_set.quorum()
        && self.state != State::Committed && self.state != State::Final {
        let proposal = match &self.current_state.preprepare {
        Some(p) => p.proposal.duplicate(),
        None => return Ok(()),
        };
        self.state = State::Committed;
        let certificate = copy_addresses(&self.current_state.commits);
        self.outbox.push(Output::Commit(proposal, certificate));
        self.outbox.push(Output::CancelTimers);
        self.state = State::Final;
        assert(self.outbox@.subrange(0, old(self).outbox@.len() as int) =~= old(self).outbox@);
        }
        Ok(())
    }

    /// The checks a vote passes before it is counted.
    fn check_vote(&self, subject: &Subject, src: &Address) -> (r: Option<ConsensusError>)
        ensures
        r == vote_error(*self, *subject, *src),
    {
        match classify_view(&self.current_state.view, &subject.view) {
        ViewClass::OldMessage => return Some(ConsensusError::OldMessage),
        ViewClass::FutureMessage => return Some(ConsensusError::FutureMessage),
        ViewClass::Same => {},
        }
        if !self.val_set.contains(src) {
        return Some(ConsensusError::NotFromValidator);
        }
        match &self.current_state.preprepare {
        None => Some(ConsensusError::FutureMessage),
        Some(p) => {
        if p.proposal.block.header.hash.same(&subject.digest) {
            None
        } else {
            Some(ConsensusError::InconsistentSubject)
        }
        },
        }
    }
}

/// `o` hands `proposal` to the backend with a certificate signed by `voters`.
pub open spec fn is_commit_output(o: Output, proposal: (crate::types::Header, Seq<u8>), voters: Seq<Seq<u8>>) -> bool {
    match o {
        Output::Commit(p, cert) => p@ == proposal && addresses(cert@) == voters,
        _ => false,
    }
}

/// A copy of a list of addresses.
pub fn copy_addresses(v: &Vec<Address>) -> (r: Vec<Address>)
    ensures
        r@ == v@,
{
    let mut r: Vec<Address> = Vec::new();
    let mut i: usize = 0;
    while i < v.len()
        invariant
        0 <= i <= v@.len(),
        r@ == v@.subrange(0, i as int),
        decreases v@.len() - i,
    {
        r.push(v[i]);
        i = i + 1;
        assert(r@ =~= v@.subrange(0, i as int));
    }
    assert(v@.subrange(0, v@.len() as int) =~= v@);
    r
}

} // verus!
