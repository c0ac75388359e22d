use vstd::prelude::*;

use crate::engine::{Backend, Core, Output};
use crate::preprepare::{preprepare_handled, HandlePreprepare};
use crate::round_change::{round_change_outcome, started};
use crate::round_state::addresses;
use crate::types::{
    view_lt, Address, ConsensusError, ConsensusResult, ConsensusView, GossipMessage, MessageType,
    Payload, State,
};
use crate::validator::{quorum_spec, ValidatorSet};
use crate::votes::{commit_outcome, prepare_outcome, with_voter};

verus! {

/// `o` is a COMMIT at view `v` for the digest `d`.
pub open spec fn is_commit_for(o: Output, v: ConsensusView, d: Seq<u8>) -> bool {
    match o {
        Output::Broadcast(m) => m.kind == MessageType::Commit && match m.payload {
            Payload::Subject(s) => s.view == v && s.digest@ == d,
            _ => false,
        },
        _ => false,
    }
}

/// After a height was finalized in `mid`, `n` has entered the next height with a
/// duplicate-free validator snapshot, or stays as `mid` when no such snapshot or no next
/// height exists.
pub open spec fn next_height_entered(mid: Core, n: Core) -> bool {
    ||| n == mid
    ||| mid.view_spec().sequence < u64::MAX && exists|vs: ValidatorSet|
        #![trigger started(mid, n, (mid.view_spec().sequence + 1) as u64, vs)]
        vs.wf() && started(mid, n, (mid.view_spec().sequence + 1) as u64, vs)
}

/// `payload` is a vote from `src` that brings the COMMITs of `o` to a quorum.
pub open spec fn commit_quorum_reached(o: Core, payload: Payload, src: Address) -> bool {
    match payload {
        Payload::Subject(_) => with_voter(o.current_state.commits@, src).len() >= quorum_spec(
            o.val_set@.len(),
        ),
        _ => false,
    }
}

/// How the gossip message `msg` from `src` takes the replica from `o` to `n` with result
/// `r`: each kind goes to its handler; a height finalized by a COMMIT is followed by the
/// next one; a message whose kind and content disagree is refused.
pub open spec fn gossip_outcome(o: Core, n: Core, msg: GossipMessage, src: Address, r: ConsensusResult) -> bool {
    match (msg.kind, msg.payload) {
        (MessageType::Preprepare, _) => preprepare_handled(o, n, msg, src, r),
        (MessageType::Prepare, Payload::Subject(s)) => prepare_outcome(o, n, s, src, r),
        (MessageType::Commit, Payload::Subject(s)) => exists|mid: Core|
            #![trigger commit_outcome(o, mid, s, src, r)]
            commit_outcome(o, mid, s, src, r) && if o.state != State::Final && mid.state
                == State::Final {
                next_height_entered(mid, n)
            } else {
                n == mid
            },
        (MessageType::RoundChange, Payload::Round(v)) => round_change_outcome(o, n, v, src, r),
        _ => r == Err::<(), _>(ConsensusError::MalformedMessage) && n == o,
    }
}

impl Core {
    /// Routes a gossip message from `src` to the handler of its kind. Once a COMMIT
    /// quorum finalizes the height, the replica enters the next one with the backend's
    /// validator snapshot for it.
    pub fn on_gossip<B: Backend>(&mut self, backend: &B, msg: &GossipMessage, src: &Address) -> (r:
        ConsensusResult)
        requires
            old(self).wf(),
        ensures
            final(self).wf(),
            gossip_outcome(*old(self), *final(self), *msg, *src, r),
            // the view never goes back
            !view_lt(final(self).view_spec(), old(self).view_spec()),
            // a PRE-PREPARE once acted on stays for the rest of its view
            final(self).view_spec() == old(self).view_spec()
                && old(self).current_state.preprepare is Some
                ==> final(self).current_state.preprepare == old(self).current_state.preprepare,
            // a lock stays on its digest for the rest of its height
            old(self).current_state.lock matches Some(l) ==> (final(self).view_spec().sequence
                == old(self).view_spec().sequence ==> (final(self).current_state.lock matches Some(
                m,
            ) && m.digest@ == l.digest@)),
            // an unlocked replica becomes Prepared only on a quorum of PREPAREs
            old(self).current_state.lock is None && old(self).state != State::Prepared
                && final(self).state == State::Prepared
                ==> final(self).current_state.prepares@.len() >= quorum_spec(final(self).val_set@.len()),
            // a height is finished only on a quorum of COMMITs
            old(self).state != State::Final && (final(self).state == State::Final
                || final(self).view_spec().sequence != old(self).view_spec().sequence)
                ==> commit_quorum_reached(*old(self), msg.payload, *src),
            // every COMMIT sent for the current view names the digest the replica is locked on
            final(self).outbox@.len() >= old(self).outbox@.len(),
            final(self).outbox@.subrange(0, old(self).outbox@.len() as int) == old(self).outbox@,
            forall|i: int, d: Seq<u8>|
                old(self).outbox@.len() <= i < final(self).outbox@.len() && #[trigger] is_commit_for(
                    final(self).outbox@[i],
                    old(self).view_spec(),
                    d,
                ) ==> (final(self).current_state.lock matches Some(l) && l.digest@ == d),
    {
        match (&msg.kind, &msg.payload) {
            (MessageType::Preprepare, _) => self.handle(backend, msg, src),
            (MessageType::Prepare, Payload::Subject(s)) => self.handle_prepare(s, src),
            (MessageType::Commit, Payload::Subject(s)) => {
                let was_final = self.state == State::Final;
                let r = self.handle_commit(s, src);
                let ghost mid = *self;
                if !was_final && self.state == State::Final
                    && self.current_state.view.sequence < u64::MAX {
                    let next = self.current_state.view.sequence + 1;
                    let vs = backend.validators(next);
                    if vs.is_wf() {
                        self.start(next, vs);
                        assert(started(mid, *self, next, vs));
                    }
                }
                r
            },
            (MessageType::RoundChange, Payload::Round(v)) => self.handle_round_change(v, src),
            _ => Err(ConsensusError::MalformedMessage),
        }
    }
}

} // verus!
