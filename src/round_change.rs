use vstd::prelude::*;

use crate::engine::{distinct_votes, Core, Output};
use crate::preprepare::{is_preprepare_broadcast, HandlePreprepare};
use crate::round_state::{opt_proposal, opt_request, RoundState};
use crate::timer::{round_timeout, round_timeout_spec};
use crate::types::{Address, ConsensusError, ConsensusResult, ConsensusView, Request, State};
use crate::validator::{faulty_spec, quorum_spec, ValidatorSet};

verus! {

/// Number of ROUND-CHANGE votes for `round` in `s`.
pub open spec fn count_votes(s: Seq<(u64, Address)>, round: u64) -> nat
    decreases s.len(),
{
    if s.len() == 0 {
        0
    } else {
        count_votes(s.drop_last(), round) + if s.last().0 == round {
            1nat
        } else {
            0nat
        }
    }
}

pub open spec fn has_vote(s: Seq<(u64, Address)>, round: u64, a: Seq<u8>) -> bool {
    exists|i: int| 0 <= i < s.len() && s[i].0 == round && #[trigger] s[i].1@ == a
}

/// `s` after recording the vote of `a` for `round` once.
pub open spec fn with_vote(s: Seq<(u64, Address)>, round: u64, a: Address) -> Seq<(u64, Address)> {
    if has_vote(s, round, a@) {
        s
    } else {
        s.push((round, a))
    }
}

/// The error a ROUND-CHANGE for `v` from `src` meets before it is counted, if any.
pub open spec fn round_change_error(o: Core, v: ConsensusView, src: Address) -> Option<
    ConsensusError,
> {
    if !o.val_set@.contains(src@) {
        Some(ConsensusError::NotFromValidator)
    } else if v.sequence < o.view_spec().sequence || (v.sequence == o.view_spec().sequence
        && v.round < o.view_spec().round) {
        Some(ConsensusError::OldMessage)
    } else if v.sequence > o.view_spec().sequence {
        Some(ConsensusError::FutureMessage)
    } else if v.round == u64::MAX {
        Some(ConsensusError::MalformedMessage)
    } else {
        None
    }
}

/// The proposal a replica offers when it proposes: its locked block, else the pending one.
pub open spec fn proposal_to_offer(o: Core) -> Option<(crate::types::Header, Seq<u8>)> {
    match opt_proposal(o.current_state.locked_proposal) {
        Some(p) => Some(p),
        None => opt_request(o.current_state.pending_request),
    }
}

/// `o` is the PRE-PREPARE at `view` for what `c` has to offer.
pub open spec fn offers(o: Output, view: ConsensusView, c: Core) -> bool {
    match proposal_to_offer(c) {
        Some(p) => is_preprepare_broadcast(o, view, p),
        None => false,
    }
}

/// `n` has moved to `round` of the same height: votes and PRE-PREPARE dropped, lock and
/// pending request kept, ready for a PRE-PREPARE.
pub open spec fn moved_to_round(o: Core, n: Core, round: u64) -> bool {
    &&& n.current_state.view == ConsensusView { sequence: o.view_spec().sequence, round }
    &&& n.state == State::AcceptRequest
    &&& n.current_state.preprepare is None
    &&& n.current_state.prepares@.len() == 0
    &&& n.current_state.commits@.len() == 0
    &&& n.current_state.lock == o.current_state.lock
    &&& n.current_state.locked_proposal == o.current_state.locked_proposal
    &&& n.current_state.pending_request == o.current_state.pending_request
}

proof fn lemma_count_push(s: Seq<(u64, Address)>, x: (u64, Address), round: u64)
    ensures
        count_votes(s.push(x), round) == count_votes(s, round) + if x.0 == round {
            1nat
        } else {
            0nat
        },
{
    assert(s.push(x).drop_last() =~= s);
}

proof fn lemma_count_le_len(s: Seq<(u64, Address)>, round: u64)
    ensures
        count_votes(s, round) <= s.len(),
    decreases s.len(),
{
    if s.len() > 0 {
        lemma_count_le_len(s.drop_last(), round);
    }
}

/// Counts the votes for `round`.
fn count_round(v: &Vec<(u64, Address)>, round: u64) -> (r: usize)
    ensures
        r == count_votes(v@, round),
{
    let mut c: usize = 0;
    let mut i: usize = 0;
    while i < v.len()
        invariant
            0 <= i <= v@.len(),
            c == count_votes(v@.subrange(0, i as int), round),
        decreases v@.len() - i,
    {
        proof {
            assert(v@.subrange(0, i as int + 1) =~= v@.subrange(0, i as int).push(v@[i as int]));
            lemma_count_push(v@.subrange(0, i as int), v@[i as int], round);
            lemma_count_le_len(v@.subrange(0, i as int), round);
        }
        if v[i].0 == round {
            c = c + 1;
        }
        i = i + 1;
    }
    assert(v@.subrange(0, v@.len() as int) =~= v@);
    c
}

/// Records the vote of `a` for `round` unless it is already there.
fn add_vote(v: &mut Vec<(u64, Address)>, round: u64, a: &Address) -> (added: bool)
    requires
        distinct_votes(old(v)@),
    ensures
        final(v)@ == with_vote(old(v)@, round, *a),
        added == !has_vote(old(v)@, round, a@),
        distinct_votes(final(v)@),
{
    let n = v.len();
    let mut i: usize = 0;
    while i < n
        invariant
            n == v@.len(),
            v@ == old(v)@,
            distinct_votes(old(v)@),
            0 <= i <= n,
            forall|j: int| 0 <= j < i ==> !(v@[j].0 == round && v@[j].1@ == a@),
        decreases n - i,
    {
        if v[i].0 == round && v[i].1.same(a) {
            assert(v@[i as int].0 == round && v@[i as int].1@ == a@);
            return false;
        }
        i = i + 1;
    }
    v.push((round, *a));
    assert(distinct_votes(v@)) by {
        assert forall|x: int, y: int|
            0 <= x < v@.len() && 0 <= y < v@.len() && x != y && v@[x].0 == v@[y].0 implies v@[x].1@
            != v@[y].1@ by {
            if x == n as int {
                assert(v@[y] == old(v)@[y]);
            } else if y == n as int {
                assert(v@[x] == old(v)@[x]);
            } else {
                assert(v@[x] == old(v)@[x]);
                assert(v@[y] == old(v)@[y]);
            }
        }
    }
    true
}

/// `n` is `o` after entering `height` with the validator snapshot `vs`: round 0, a fresh
/// round state, no votes, and a round timer.
pub open spec fn started(o: Core, n: Core, height: u64, vs: ValidatorSet) -> bool {
    &&& n.address == o.address
    &&& n.val_set == vs
    &&& n.state == State::AcceptRequest
    &&& n.current_state.view == (ConsensusView { sequence: height, round: 0 })
    &&& n.current_state.preprepare is None
    &&& n.current_state.lock is None
    &&& n.current_state.locked_proposal is None
    &&& n.current_state.pending_request is None
    &&& n.current_state.prepares@.len() == 0
    &&& n.current_state.commits@.len() == 0
    &&& n.round_changes@.len() == 0
    &&& n.base_timeout == o.base_timeout
    &&& n.max_timeout == o.max_timeout
    &&& n.consensus_timestamp == o.consensus_timestamp
    &&& n.outbox@ == o.outbox@.push(
        Output::RoundTimer(
            0,
            round_timeout_spec(o.base_timeout as nat, o.max_timeout as nat, 0) as u64,
        ),
    )
}

/// Whether `n`, having adopted its round from `o`, proposes: it is the round's proposer
/// and has a locked or pending block of its height to offer.
pub open spec fn will_offer(o: Core, n: Core) -> bool {
    match proposal_to_offer(o) {
        Some(p) => n.proposer_is(n.address@) && p.0.height == n.view_spec().sequence,
        None => false,
    }
}

/// How a ROUND-CHANGE for `v` from `src` takes the replica from `o` to `n` with result
/// `r`: refused with its error, or counted once. With f+1 votes for a later round the
/// replica jumps to it; with the 2f+1-th vote for its round it arms the round timer and,
/// when it proposes, broadcasts its PRE-PREPARE.
pub open spec fn round_change_outcome(
    o: Core,
    n: Core,
    v: ConsensusView,
    src: Address,
    r: ConsensusResult,
) -> bool {
    match round_change_error(o, v, src) {
        Some(e) => r == Err::<(), _>(e) && n == o,
        None => {
            let votes = with_vote(o.round_changes@, v.round, src);
            let count = count_votes(votes, v.round);
            let jump = v.round > o.view_spec().round && count >= faulty_spec(o.val_set@.len())
                + 1;
            let quorum = !has_vote(o.round_changes@, v.round, src@) && count == quorum_spec(
                o.val_set@.len(),
            );
            let timer = Output::RoundTimer(
                v.round,
                round_timeout_spec(o.base_timeout as nat, o.max_timeout as nat, v.round as nat)
                    as u64,
            );
            &&& r == Ok::<(), ConsensusError>(())
            &&& n.round_changes@ == votes
            &&& n.address == o.address
            &&& n.val_set == o.val_set
            &&& n.base_timeout == o.base_timeout
            &&& n.max_timeout == o.max_timeout
            &&& n.consensus_timestamp == o.consensus_timestamp
            &&& jump ==> moved_to_round(o, n, v.round)
            &&& !jump ==> n.state == o.state && n.current_state == o.current_state
            &&& !quorum ==> n.outbox == o.outbox
            &&& quorum ==> n.outbox@.len() > o.outbox@.len()
            &&& quorum ==> n.outbox@.subrange(0, o.outbox@.len() as int) == o.outbox@
            &&& quorum ==> n.outbox@[o.outbox@.len() as int] == timer
            &&& quorum && will_offer(o, n) ==> n.outbox@.len() == o.outbox@.len() + 2 && offers(
                n.outbox@.last(),
                n.view_spec(),
                o,
            )
            &&& quorum && !will_offer(o, n) ==> n.outbox@.len() == o.outbox@.len() + 1
        },
    }
}

impl Core {
    /// Enters `height` with the validator snapshot `val_set`: round 0, a fresh round
    /// state, no votes, and a round timer.
    pub fn start(&mut self, height: u64, val_set: ValidatorSet)
        requires
            val_set.wf(),
        ensures
            final(self).wf(),
            started(*old(self), *final(self), height, val_set),
    {
        self.val_set = val_set;
        self.state = State::AcceptRequest;
        self.current_state = RoundState::new(ConsensusView { sequence: height, round: 0 });
        self.round_changes = Vec::new();
        let t = round_timeout(self.base_timeout, self.max_timeout, 0);
        self.outbox.push(Output::RoundTimer(0, t));
    }

    /// The round timer armed for `round` expired: if it still guards the current round of
    /// an unfinished height, the replica asks for the next round.
    pub fn on_round_timeout(&mut self, round: u64)
        requires
            old(self).wf(),
        ensures
            final(self).wf(),
            final(self).same_but_outbox(*old(self)),
            round == old(self).view_spec().round && old(self).state != State::Final
                ==> final(self).outbox@ == old(self).outbox@ + old(self).next_round_change_outputs(),
            !(round == old(self).view_spec().round && old(self).state != State::Final)
                ==> final(self).outbox == old(self).outbox,
    {
        if round == self.current_state.view.round && self.state != State::Final {
            self.send_next_round_change();
        }
    }

    /// Takes a proposal from the upper layer for the current height: it is kept, and
    /// proposed at once when this replica proposes and awaits a PRE-PREPARE.
    pub fn on_request(&mut self, request: Request)
        requires
            old(self).wf(),
        ensures
            final(self).wf(),
            request.proposal.block.header.height != old(self).view_spec().sequence
                ==> *final(self) == *old(self),
            request.proposal.block.header.height == old(self).view_spec().sequence ==> {
                let sends = old(self).proposer_is(old(self).address@) && old(self).state
                    == State::AcceptRequest;
                &&& opt_request(final(self).current_state.pending_request) == Some(
                    request.proposal@,
                )
                &&& final(self).state == old(self).state
                &&& final(self).val_set == old(self).val_set
                &&& final(self).current_state.view == old(self).current_state.view
                &&& final(self).current_state.preprepare == old(self).current_state.preprepare
                &&& final(self).current_state.lock == old(self).current_state.lock
                &&& sends ==> final(self).outbox@.len() == old(self).outbox@.len() + 1
                    && final(self).outbox@.drop_last() == old(self).outbox@
                    && is_preprepare_broadcast(
                    final(self).outbox@.last(),
                    old(self).view_spec(),
                    request.proposal@,
                )
                &&& !sends ==> final(self).outbox == old(self).outbox
            },
    {
        if request.proposal.block.height() != self.current_state.view.sequence {
            return;
        }
        let sends = self.is_proposer() && self.state == State::AcceptRequest;
        if sends {
            self.send_preprepare(&request);
        }
        self.current_state.pending_request = Some(request);
    }

    /// Handles a ROUND-CHANGE from `src` asking for `view.round` at height `view.sequence`.
    /// With f+1 votes for a later round the replica jumps to it; with the 2f+1-th vote
    /// for its round it arms the round timer and, as proposer, offers its locked or
    /// pending proposal.
    pub fn handle_round_change(&mut self, view: &ConsensusView, src: &Address) -> (r:
        ConsensusResult)
        requires
            old(self).wf(),
        ensures
            final(self).wf(),
            round_change_outcome(*old(self), *final(self), *view, *src, r),
    {
        if !self.val_set.contains(src) {
            return Err(ConsensusError::NotFromValidator);
        }
        let cur = self.current_state.view;
        if view.sequence < cur.sequence || (view.sequence == cur.sequence && view.round
            < cur.round) {
            return Err(ConsensusError::OldMessage);
        }
        if view.sequence > cur.sequence {
            return Err(ConsensusError::FutureMessage);
        }
        if view.round == u64::MAX {
            return Err(ConsensusError::MalformedMessage);
        }
        let added = add_vote(&mut self.round_changes, view.round, src);
        let count = count_round(&self.round_changes, view.round);
        if view.round > cur.round && count > self.val_set.f() {
            self.current_state.view = ConsensusView { sequence: cur.sequence, round: view.round };
            self.current_state.preprepare = None;
            self.current_state.prepares = Vec::new();
            self.current_state.commits = Vec::new();
            self.state = State::AcceptRequest;
        }
        if added && count == self.val_set.quorum() {
            let ghost mid = self.outbox@;
            let t = round_timeout(self.base_timeout, self.max_timeout, view.round);
            self.outbox.push(Output::RoundTimer(view.round, t));
            let ghost with_timer = self.outbox@;
            let offer = match &self.current_state.locked_proposal {
                Some(p) => Some(Request { proposal: p.duplicate() }),
                None => match &self.current_state.pending_request {
                    Some(req) => Some(Request { proposal: req.proposal.duplicate() }),
                    None => None,
                },
            };
            match offer {
                Some(req) => {
                    self.send_preprepare(&req);
                },
                None => {},
            }
            assert(self.outbox@.len() > mid.len());
            assert(self.outbox@[mid.len() as int] == with_timer[mid.len() as int]);
            assert(self.outbox@.subrange(0, old(self).outbox@.len() as int) =~= old(self).outbox@);
        }
        Ok(())
    }
}

} // verus!
