use vstd::prelude::*;

use crate::engine::{subject_output, Backend, Core, Output};
use crate::types::{
    classify_spec, classify_view, Address, ConsensusView, ConsensusError, ConsensusResult, EngineError,
    GossipMessage, Header, MessageType, Payload, PrePrepare, Request, State, ViewClass,
};
use crate::validator::ValidatorSet;

verus! {

/// Whether a replayed PRE-PREPARE for an already committed block deserves a COMMIT:
/// `Err` when the stored header is missing or differs, `Ok(true)` when `src` was the
/// proposer elected at the previous height for the message's round and the proposal is
/// known, `Ok(false)` otherwise.
pub open spec fn old_preprepare_spec(
    pp: PrePrepare,
    src: Address,
    stored: Option<Header>,
    prev: Option<ValidatorSet>,
    has_proposal: bool,
) -> Result<bool, ConsensusError> {
    let h = pp.proposal.block.header;
    match stored {
        None => Err(ConsensusError::Engine(EngineError::InvalidProposal)),
        Some(s) => if s.hash@ != h.hash@ {
            Err(ConsensusError::Engine(EngineError::InvalidProposal))
        } else {
            match prev {
                Some(vs) => Ok(
                    h.height > 0 && vs@.len() > 0 && vs@[vs.proposer_of(
                        (h.height - 1) as nat,
                        pp.view.round as nat,
                    ) as int] == src@ && has_proposal,
                ),
                None => Ok(false),
            }
        },
    }
}

/// Decides the catch-up reply to an old PRE-PREPARE from what the backend answered: the
/// header stored at the block's height, the validator set of the height before, and
/// whether the proposal is known.
pub fn old_preprepare_reply(
    pp: &PrePrepare,
    src: &Address,
    stored: Option<Header>,
    prev: Option<ValidatorSet>,
    has_proposal: bool,
) -> (r: Result<bool, ConsensusError>)
    ensures
        r == old_preprepare_spec(*pp, *src, stored, prev, has_proposal),
{
    let block = &pp.proposal.block;
    match stored {
        None => Err(ConsensusError::Engine(EngineError::InvalidProposal)),
        Some(header) => {
            if !header.hash.same(&block.header.hash) {
                return Err(ConsensusError::Engine(EngineError::InvalidProposal));
            }
            match prev {
                Some(vs) => {
                    let height = block.height();
                    if height == 0 {
                        return Ok(false);
                    }
                    Ok(vs.is_proposer(src, height - 1, pp.view.round) && has_proposal)
                },
                None => Ok(false),
            }
        },
    }
}

/// `o` broadcasts an unsigned PRE-PREPARE for `proposal` at `view`.
pub open spec fn is_preprepare_broadcast(
    o: Output,
    view: ConsensusView,
    proposal: (Header, Seq<u8>),
) -> bool {
    match o {
        Output::Broadcast(m) => {
            &&& m.kind == MessageType::Preprepare
            &&& m.signature is None
            &&& match m.payload {
                Payload::Preprepare(p) => p@ == (view, proposal),
                _ => false,
            }
        },
        _ => false,
    }
}

/// How handling the PRE-PREPARE message `msg` from `src` takes the replica from `o` to
/// `n` with result `r`, whatever the backend answers. A malformed message is refused; a
/// future one is dropped; an old one gets the catch-up reply that the backend's answers
/// decide; one of the current view from a sender that is not its proposer is refused;
/// otherwise the backend's verdict on the proposal decides.
pub open spec fn preprepare_handled(
    o: Core,
    n: Core,
    msg: GossipMessage,
    src: Address,
    r: ConsensusResult,
) -> bool {
    match msg.payload {
        Payload::Preprepare(pp) => if msg.kind != MessageType::Preprepare {
            r == Err::<(), _>(ConsensusError::MalformedMessage) && n == o
        } else {
            let class = classify_spec(o.view_spec(), pp.view);
            let digest = pp.proposal.block.header.hash;
            if class == ViewClass::FutureMessage {
                r == Ok::<(), ConsensusError>(()) && n == o
            } else if class == ViewClass::OldMessage {
                exists|stored: Option<Header>, prev: Option<ValidatorSet>, has: bool|
                    #![trigger old_preprepare_spec(pp, src, stored, prev, has)]
                    match old_preprepare_spec(pp, src, stored, prev, has) {
                        Err(e) => r == Err::<(), _>(e) && n == o,
                        Ok(true) => {
                            &&& r == Ok::<(), ConsensusError>(())
                            &&& n.same_but_outbox(o)
                            &&& n.outbox@ == o.outbox@.push(
                                subject_output(MessageType::Commit, pp.view, digest),
                            )
                        },
                        Ok(false) => r == Ok::<(), ConsensusError>(()) && n == o,
                    }
            } else if !o.proposer_is(src@) {
                r == Err::<(), _>(ConsensusError::NotFromProposer) && n == o
            } else {
                exists|delay: u64, verified: Result<(), EngineError>|
                    #![trigger Core::preprepare_outcome(o, n, pp, delay, verified, r)]
                    Core::preprepare_outcome(o, n, pp, delay, verified, r)
            }
        },
        _ => r == Err::<(), _>(ConsensusError::MalformedMessage) && n == o,
    }
}

/// The PRE-PREPARE phase: sending a proposal, handling one, accepting it.
pub trait HandlePreprepare {
    spec fn inv(&self) -> bool;

    /// Broadcasts a PRE-PREPARE for `request` when this replica proposes at its height.
    fn send_preprepare(&mut self, request: &Request)
        requires
            old(self).inv(),
        ensures
            final(self).inv(),
    ;

    /// Handles a PRE-PREPARE message from `src`. An old one is answered with a COMMIT when
    /// it replays the committed block from the proposer elected for it.
    fn handle<B: Backend>(&mut self, backend: &B, msg: &GossipMessage, src: &Address) -> (r:
        ConsensusResult)
        requires
            old(self).inv(),
        ensures
            final(self).inv(),
    ;

    /// Records `preprepare` as the one being acted on.
    fn accept(&mut self, preprepare: &PrePrepare)
        requires
            old(self).inv(),
    ;
}

impl Core {
    /// Finishes handling a PRE-PREPARE of the current view from its proposer, given the
    /// backend's verdict on the proposal.
    pub fn handle_verified_preprepare(
        &mut self,
        pp: &PrePrepare,
        delay: u64,
        verified: Result<(), EngineError>,
    ) -> (r: ConsensusResult)
        requires
            old(self).wf(),
            pp.view == old(self).view_spec(),
        ensures
            final(self).wf(),
            Core::preprepare_outcome(*old(self), *final(self), *pp, delay, verified, r),
    {
        match verified {
            Err(EngineError::FutureBlock) => {
                self.outbox.push(Output::FutureBlockTimer(delay));
                return Err(ConsensusError::FutureBlockMessage);
            },
            Err(e) => {
                self.send_next_round_change();
                return Err(ConsensusError::Unknown(e));
            },
            Ok(()) => {},
        }
        if self.state == State::AcceptRequest {
            let digest = pp.proposal.block.hash();
            match self.current_state.get_lock_hash() {
                Some(locked) => {
                    if locked.same(&digest) {
                        self.accept(pp);
                        self.state = State::Prepared;
                        self.broadcast_subject(MessageType::Commit, digest);
                    } else {
                        self.send_next_round_change();
                    }
                },
                None => {
                    self.accept(pp);
                    self.state = State::Preprepared;
                    self.broadcast_subject(MessageType::Prepare, digest);
                },
            }
        }
        Ok(())
    }
}

impl HandlePreprepare for Core {
    open spec fn inv(&self) -> bool {
        self.wf()
    }

    fn send_preprepare(&mut self, request: &Request)
        ensures
            final(self).same_but_outbox(*old(self)),
            ({
                let sends = old(self).view_spec().sequence == request.proposal.block.header.height
                    && old(self).proposer_is(old(self).address@);
                &&& sends ==> final(self).outbox@.len() == old(self).outbox@.len() + 1
                &&& sends ==> final(self).outbox@.drop_last() == old(self).outbox@
                &&& sends ==> is_preprepare_broadcast(
                    final(self).outbox@.last(),
                    old(self).view_spec(),
                    request.proposal@,
                )
                &&& !sends ==> final(self).outbox@ == old(self).outbox@
            }),
    {
        if self.current_state.height() == request.proposal.block.height() && self.is_proposer() {
            let preprepare = PrePrepare::new(self.current_view(), request.proposal.duplicate());
            let msg = GossipMessage::new(
                MessageType::Preprepare,
                Payload::Preprepare(preprepare),
                None,
            );
            self.outbox.push(Output::Broadcast(msg));
            assert(self.outbox@.drop_last() =~= old(self).outbox@);
        }
    }

    fn handle<B: Backend>(&mut self, backend: &B, msg: &GossipMessage, src: &Address) -> (r:
        ConsensusResult)
        ensures
            preprepare_handled(*old(self), *final(self), *msg, *src, r),
    {
        let pp = match msg.preprepare() {
            Some(p) => p,
            None => return Err(ConsensusError::MalformedMessage),
        };
        let digest = pp.proposal.block.hash();
        match classify_view(&self.current_state.view, &pp.view) {
            ViewClass::FutureMessage => {
                return Ok(());
            },
            ViewClass::OldMessage => {
                let height = pp.proposal.block.height();
                let stored = backend.get_header_by_height(height);
                let prev = if height > 0 {
                    Some(backend.validators(height - 1))
                } else {
                    None
                };
                let has = backend.has_proposal(&digest, height);
                let ghost g_prev = prev;
                match old_preprepare_reply(pp, src, stored, prev, has) {
                    Err(e) => {
                        assert(old_preprepare_spec(*pp, *src, stored, g_prev, has) is Err);
                        return Err(e);
                    },
                    Ok(true) => {
                        self.send_commit_for_old_block(&pp.view, digest);
                        assert(old_preprepare_spec(*pp, *src, stored, g_prev, has) == Ok::<
                            bool,
                            ConsensusError,
                        >(true));
                        return Ok(());
                    },
                    Ok(false) => {
                        assert(old_preprepare_spec(*pp, *src, stored, g_prev, has) == Ok::<
                            bool,
                            ConsensusError,
                        >(false));
                        return Ok(());
                    },
                }
            },
            ViewClass::Same => {},
        }
        if !self.val_set.is_proposer(src, self.current_state.view.sequence, self.current_state.view.round) {
            return Err(ConsensusError::NotFromProposer);
        }
        let (delay, verified) = backend.verify(&pp.proposal);
        self.handle_verified_preprepare(pp, delay, verified)
    }

    fn accept(&mut self, preprepare: &PrePrepare)
        ensures
            final(self).accepted_from(*old(self), *preprepare),
            final(self).state == old(self).state,
            final(self).outbox == old(self).outbox,
    {
        self.consensus_timestamp = preprepare.proposal.block.header.time;
        self.current_state.set_preprepare(preprepare.duplicate());
    }
}

} // verus!
