use bft::engine::{Backend, Core, Output};
use bft::preprepare::{old_preprepare_reply, HandlePreprepare};
use bft::timer::round_timeout;
use bft::types::{
    classify_view, Address, Block, ConsensusError, ConsensusView, Digest, EngineError,
    GossipMessage, Header, MessageType, Payload, PrePrepare, Proposal, Request, State, Subject,
    ViewClass,
};
use bft::validator::{ProposerPolicy, ValidatorSet};

fn addr(n: u8) -> Address {
    Address::new([n; 20])
}

fn digest(n: u8) -> Digest {
    Digest::new([n; 32])
}

fn proposal(height: u64, hash: u8, time: u64) -> Proposal {
    Proposal {
        block: Block {
            header: Header { height, hash: digest(hash), prev_hash: digest(0), time },
            payload: vec![1, 2, 3],
        },
    }
}

fn validators() -> ValidatorSet {
    ValidatorSet::new(vec![addr(1), addr(2), addr(3), addr(4)], ProposerPolicy::RoundRobin)
        .unwrap()
}

struct TestBackend {
    verdict: Result<(), EngineError>,
    delay: u64,
    headers: Vec<Header>,
    known: bool,
}

impl TestBackend {
    fn accepting() -> TestBackend {
        TestBackend { verdict: Ok(()), delay: 0, headers: vec![], known: true }
    }
}

impl Backend for TestBackend {
    fn verify(&self, _proposal: &Proposal) -> (u64, Result<(), EngineError>) {
        (self.delay, self.verdict)
    }

    fn get_header_by_height(&self, height: u64) -> Option<Header> {
        self.headers.iter().find(|h| h.height == height).copied()
    }

    fn validators(&self, _height: u64) -> ValidatorSet {
        validators()
    }

    fn has_proposal(&self, _hash: &Digest, _height: u64) -> bool {
        self.known
    }
}

fn view(sequence: u64, round: u64) -> ConsensusView {
    ConsensusView { sequence, round }
}

fn preprepare_msg(v: ConsensusView, p: Proposal) -> GossipMessage {
    GossipMessage::new(MessageType::Preprepare, Payload::Preprepare(PrePrepare::new(v, p)), None)
}

fn vote_msg(kind: MessageType, v: ConsensusView, d: u8) -> GossipMessage {
    GossipMessage::new(kind, Payload::Subject(Subject { view: v, digest: digest(d) }), None)
}

fn round_change_msg(v: ConsensusView) -> GossipMessage {
    GossipMessage::new(MessageType::RoundChange, Payload::Round(v), None)
}

// At height 1, round 0 the round-robin proposer is validator index 1, i.e. addr(2).
fn replica(me: u8) -> Core {
    Core::new(addr(me), validators(), 1, 1000, 8000)
}

fn broadcasts(core: &Core, kind: MessageType) -> usize {
    core.outbox
        .iter()
        .filter(|o| matches!(o, Output::Broadcast(m) if m.kind == kind))
        .count()
}

#[test]
fn happy_path_four_validators_reach_final() {
    let backend = TestBackend::accepting();
    let b = proposal(1, 7, 42);
    let mut replicas: Vec<Core> = (1..=4).map(replica).collect();
    for r in replicas.iter_mut() {
        let res = r.on_gossip(&backend, &preprepare_msg(view(1, 0), b.clone()), &addr(2));
        assert_eq!(res, Ok(()));
        assert_eq!(r.state, State::Preprepared);
        assert_eq!(r.consensus_timestamp, 42);
    }
    for r in replicas.iter_mut() {
        for s in 1..=3 {
            assert_eq!(r.on_gossip(&backend, &vote_msg(MessageType::Prepare, view(1, 0), 7), &addr(s)), Ok(()));
        }
        assert_eq!(r.state, State::Prepared);
        assert!(r.current_state.lock.is_some());
        for s in 1..=3 {
            assert_eq!(r.on_gossip(&backend, &vote_msg(MessageType::Commit, view(1, 0), 7), &addr(s)), Ok(()));
        }
        // finalized: handed over, timers cancelled, next height entered
        let n = r.outbox.len();
        match &r.outbox[n - 3] {
            Output::Commit(p, cert) => {
                assert!(p.block.header.hash.same(&digest(7)));
                assert_eq!(cert.len(), 3);
            }
            other => panic!("expected a commit, got {:?}", other),
        }
        assert!(matches!(r.outbox[n - 2], Output::CancelTimers));
        assert!(matches!(r.outbox[n - 1], Output::RoundTimer(0, 1000)));
        assert_eq!(r.state, State::AcceptRequest);
        assert_eq!(r.current_view(), view(2, 0));
        assert!(r.current_state.lock.is_none());
        assert!(r.current_state.commits.is_empty());
    }
}

#[test]
fn commit_quorum_enters_next_height_with_backend_snapshot() {
    struct NextSnapshot(TestBackend);
    impl Backend for NextSnapshot {
        fn verify(&self, p: &Proposal) -> (u64, Result<(), EngineError>) {
            self.0.verify(p)
        }
        fn get_header_by_height(&self, height: u64) -> Option<Header> {
            self.0.get_header_by_height(height)
        }
        fn validators(&self, height: u64) -> ValidatorSet {
            if height == 1 {
                validators()
            } else {
                ValidatorSet::new(vec![], ProposerPolicy::RoundRobin).unwrap()
            }
        }
        fn has_proposal(&self, hash: &Digest, height: u64) -> bool {
            self.0.has_proposal(hash, height)
        }
    }
    let backend = NextSnapshot(TestBackend::accepting());
    let mut r = replica(3);
    r.on_gossip(&backend, &preprepare_msg(view(1, 0), proposal(1, 7, 0)), &addr(2)).unwrap();
    for s in 1..=3 {
        r.on_gossip(&backend, &vote_msg(MessageType::Commit, view(1, 0), 7), &addr(s)).unwrap();
    }
    // the snapshot the backend gives for height 2 is installed
    assert_eq!(r.current_view(), view(2, 0));
    assert_eq!(r.val_set().len(), 0);
}

#[test]
fn prepare_quorum_needs_distinct_senders() {
    let backend = TestBackend::accepting();
    let mut r = replica(3);
    r.on_gossip(&backend, &preprepare_msg(view(1, 0), proposal(1, 7, 0)), &addr(2)).unwrap();
    for _ in 0..5 {
        r.on_gossip(&backend, &vote_msg(MessageType::Prepare, view(1, 0), 7), &addr(1)).unwrap();
    }
    r.on_gossip(&backend, &vote_msg(MessageType::Prepare, view(1, 0), 7), &addr(4)).unwrap();
    assert_eq!(r.current_state.prepares.len(), 2);
    assert_eq!(r.state, State::Preprepared);
    r.on_gossip(&backend, &vote_msg(MessageType::Prepare, view(1, 0), 7), &addr(3)).unwrap();
    assert_eq!(r.state, State::Prepared);
}

#[test]
fn votes_from_outsiders_and_for_other_digests_are_refused() {
    let backend = TestBackend::accepting();
    let mut r = replica(3);
    assert_eq!(
        r.on_gossip(&backend, &vote_msg(MessageType::Prepare, view(1, 0), 7), &addr(1)),
        Err(ConsensusError::FutureMessage)
    );
    r.on_gossip(&backend, &preprepare_msg(view(1, 0), proposal(1, 7, 0)), &addr(2)).unwrap();
    assert_eq!(
        r.on_gossip(&backend, &vote_msg(MessageType::Prepare, view(1, 0), 7), &addr(9)),
        Err(ConsensusError::NotFromValidator)
    );
    assert_eq!(
        r.on_gossip(&backend, &vote_msg(MessageType::Commit, view(1, 0), 8), &addr(1)),
        Err(ConsensusError::InconsistentSubject)
    );
    assert_eq!(
        r.on_gossip(&backend, &vote_msg(MessageType::Commit, view(0, 3), 7), &addr(1)),
        Err(ConsensusError::OldMessage)
    );
    assert_eq!(
        r.on_gossip(&backend, &vote_msg(MessageType::Commit, view(1, 2), 7), &addr(1)),
        Err(ConsensusError::FutureMessage)
    );
}

#[test]
fn equivocating_proposer_is_accepted_once_per_view() {
    let backend = TestBackend::accepting();
    let mut r = replica(3);
    r.on_gossip(&backend, &preprepare_msg(view(1, 0), proposal(1, 7, 0)), &addr(2)).unwrap();
    r.on_gossip(&backend, &preprepare_msg(view(1, 0), proposal(1, 8, 0)), &addr(2)).unwrap();
    let pp = r.current_state.preprepare.as_ref().unwrap();
    assert!(pp.proposal.block.header.hash.same(&digest(7)));
    assert_eq!(broadcasts(&r, MessageType::Prepare), 1);
}

#[test]
fn preprepare_from_non_proposer_is_refused() {
    let backend = TestBackend::accepting();
    let mut r = replica(3);
    let res = r.on_gossip(&backend, &preprepare_msg(view(1, 0), proposal(1, 7, 0)), &addr(1));
    assert_eq!(res, Err(ConsensusError::NotFromProposer));
    assert_eq!(r.state, State::AcceptRequest);
}

#[test]
fn invalid_proposal_triggers_round_change() {
    let backend = TestBackend { verdict: Err(EngineError::InvalidProposal), ..TestBackend::accepting() };
    let mut r = replica(3);
    let res = r.on_gossip(&backend, &preprepare_msg(view(1, 0), proposal(1, 7, 0)), &addr(2));
    assert_eq!(res, Err(ConsensusError::Unknown(EngineError::InvalidProposal)));
    assert_eq!(r.state, State::AcceptRequest);
    let n = r.outbox.len();
    match (&r.outbox[n - 2], &r.outbox[n - 1]) {
        (Output::Broadcast(m), Output::RoundTimer(round, t)) => {
            assert_eq!(m.kind, MessageType::RoundChange);
            match &m.payload {
                Payload::Round(v) => assert_eq!(*v, view(1, 1)),
                _ => panic!("round change without a round"),
            }
            assert_eq!(*round, 1);
            assert_eq!(*t, 2000);
        }
        _ => panic!("expected a round change and its timer"),
    }
}

#[test]
fn future_block_arms_timer_without_round_change() {
    let backend = TestBackend { verdict: Err(EngineError::FutureBlock), delay: 2000, ..TestBackend::accepting() };
    let mut r = replica(3);
    let before = r.outbox.len();
    let res = r.on_gossip(&backend, &preprepare_msg(view(1, 0), proposal(1, 7, 0)), &addr(2));
    assert_eq!(res, Err(ConsensusError::FutureBlockMessage));
    assert_eq!(r.outbox.len(), before + 1);
    assert!(matches!(r.outbox.last(), Some(Output::FutureBlockTimer(2000))));
    assert_eq!(broadcasts(&r, MessageType::RoundChange), 0);
    // the timer re-injects the PRE-PREPARE; now it verifies
    let ok = TestBackend::accepting();
    r.on_gossip(&ok, &preprepare_msg(view(1, 0), proposal(1, 7, 0)), &addr(2)).unwrap();
    assert_eq!(r.state, State::Preprepared);
}

#[test]
fn lagging_peer_gets_commit_for_old_block() {
    let stored = Header { height: 1, hash: digest(7), prev_hash: digest(0), time: 0 };
    let backend = TestBackend { headers: vec![stored], ..TestBackend::accepting() };
    let mut r = Core::new(addr(3), validators(), 2, 1000, 8000);
    // previous height 0, round 0: proposer index 0, addr(1)
    let msg = preprepare_msg(view(1, 0), proposal(1, 7, 0));
    for _ in 0..3 {
        let before = r.outbox.len();
        assert_eq!(r.on_gossip(&backend, &msg, &addr(1)), Ok(()));
        assert_eq!(r.outbox.len(), before + 1);
        match r.outbox.last() {
            Some(Output::Broadcast(m)) => {
                assert_eq!(m.kind, MessageType::Commit);
                match &m.payload {
                    Payload::Subject(s) => {
                        assert_eq!(s.view, view(1, 0));
                        assert!(s.digest.same(&digest(7)));
                    }
                    _ => panic!("commit without a subject"),
                }
            }
            _ => panic!("expected a commit"),
        }
        assert_eq!(r.state, State::AcceptRequest);
        assert_eq!(r.current_view(), view(2, 0));
    }
    // a different sender gets nothing
    let before = r.outbox.len();
    assert_eq!(r.on_gossip(&backend, &msg, &addr(4)), Ok(()));
    assert_eq!(r.outbox.len(), before);
    // a block that differs from the stored one is invalid
    let other = preprepare_msg(view(1, 0), proposal(1, 9, 0));
    assert_eq!(
        r.on_gossip(&backend, &other, &addr(1)),
        Err(ConsensusError::Engine(EngineError::InvalidProposal))
    );
    // no stored header at all
    let empty = TestBackend::accepting();
    assert_eq!(
        r.on_gossip(&empty, &msg, &addr(1)),
        Err(ConsensusError::Engine(EngineError::InvalidProposal))
    );
}

#[test]
fn old_preprepare_reply_decides_from_backend_answers() {
    let pp = PrePrepare::new(view(1, 0), proposal(1, 7, 0));
    let stored = Header { height: 1, hash: digest(7), prev_hash: digest(0), time: 0 };
    assert_eq!(old_preprepare_reply(&pp, &addr(1), Some(stored), Some(validators()), true), Ok(true));
    assert_eq!(old_preprepare_reply(&pp, &addr(1), Some(stored), Some(validators()), false), Ok(false));
    assert_eq!(old_preprepare_reply(&pp, &addr(2), Some(stored), Some(validators()), true), Ok(false));
    assert_eq!(old_preprepare_reply(&pp, &addr(1), Some(stored), None, true), Ok(false));
    assert_eq!(
        old_preprepare_reply(&pp, &addr(1), None, Some(validators()), true),
        Err(ConsensusError::Engine(EngineError::InvalidProposal))
    );
}

#[test]
fn future_preprepare_is_dropped_without_error() {
    let backend = TestBackend::accepting();
    let mut r = replica(3);
    let before = r.outbox.len();
    assert_eq!(r.on_gossip(&backend, &preprepare_msg(view(2, 0), proposal(2, 7, 0)), &addr(2)), Ok(()));
    assert_eq!(r.outbox.len(), before);
    assert!(r.current_state.preprepare.is_none());
}

#[test]
fn malformed_message_is_refused() {
    let backend = TestBackend::accepting();
    let mut r = replica(3);
    let bad = GossipMessage::new(MessageType::Prepare, Payload::Round(view(1, 0)), None);
    assert_eq!(r.on_gossip(&backend, &bad, &addr(1)), Err(ConsensusError::MalformedMessage));
    let bad = GossipMessage::new(MessageType::Commit, Payload::Preprepare(PrePrepare::new(view(1, 0), proposal(1, 7, 0))), None);
    assert_eq!(r.handle(&backend, &bad, &addr(2)), Err(ConsensusError::MalformedMessage));
}

fn lock_on(r: &mut Core, backend: &TestBackend, d: u8) {
    r.on_gossip(backend, &preprepare_msg(view(1, 0), proposal(1, d, 0)), &addr(2)).unwrap();
    for s in 1..=3 {
        r.on_gossip(backend, &vote_msg(MessageType::Prepare, view(1, 0), d), &addr(s)).unwrap();
    }
    assert_eq!(r.state, State::Prepared);
}

#[test]
fn round_change_jump_on_f_plus_one() {
    let backend = TestBackend::accepting();
    let mut r = replica(3);
    lock_on(&mut r, &backend, 7);
    r.on_gossip(&backend, &round_change_msg(view(1, 3)), &addr(1)).unwrap();
    assert_eq!(r.current_view(), view(1, 0));
    r.on_gossip(&backend, &round_change_msg(view(1, 3)), &addr(1)).unwrap();
    assert_eq!(r.current_view(), view(1, 0));
    r.on_gossip(&backend, &round_change_msg(view(1, 3)), &addr(4)).unwrap();
    assert_eq!(r.current_view(), view(1, 3));
    assert_eq!(r.state, State::AcceptRequest);
    assert!(r.current_state.preprepare.is_none());
    assert!(r.current_state.prepares.is_empty());
    assert!(r.current_state.lock.unwrap().digest.same(&digest(7)));
    assert_eq!(
        r.on_gossip(&backend, &round_change_msg(view(1, 2)), &addr(1)),
        Err(ConsensusError::OldMessage)
    );
    assert_eq!(
        r.on_gossip(&backend, &round_change_msg(view(1, 4)), &addr(9)),
        Err(ConsensusError::NotFromValidator)
    );
}

#[test]
fn locked_replica_refuses_other_digest_and_commits_locked_one() {
    let backend = TestBackend::accepting();
    let mut r = replica(3);
    lock_on(&mut r, &backend, 7);
    for s in [1, 2] {
        r.on_gossip(&backend, &round_change_msg(view(1, 1)), &addr(s)).unwrap();
    }
    assert_eq!(r.current_view(), view(1, 1));
    // round 1 proposer: (1 + 1) % 4 = 2, addr(3) is this replica
    let rounds_before = broadcasts(&r, MessageType::RoundChange);
    r.on_gossip(&backend, &preprepare_msg(view(1, 1), proposal(1, 8, 0)), &addr(3)).unwrap();
    assert_eq!(r.state, State::AcceptRequest);
    assert_eq!(broadcasts(&r, MessageType::RoundChange), rounds_before + 1);
    for s in [1, 2] {
        r.on_gossip(&backend, &round_change_msg(view(1, 2)), &addr(s)).unwrap();
    }
    // round 2 proposer: (1 + 2) % 4 = 3, addr(4)
    r.on_gossip(&backend, &preprepare_msg(view(1, 2), proposal(1, 7, 0)), &addr(4)).unwrap();
    assert_eq!(r.state, State::Prepared);
    assert!(matches!(r.outbox.last(), Some(Output::Broadcast(m)) if m.kind == MessageType::Commit));
    for s in 1..=3 {
        r.on_gossip(&backend, &vote_msg(MessageType::Commit, view(1, 2), 7), &addr(s)).unwrap();
    }
    assert_eq!(r.current_view(), view(2, 0));
    let n = r.outbox.len();
    assert!(matches!(&r.outbox[n - 3], Output::Commit(p, _) if p.block.header.hash.same(&digest(7))));
}

#[test]
fn handle_commit_alone_stops_at_final() {
    let backend = TestBackend::accepting();
    let mut r = replica(3);
    r.on_gossip(&backend, &preprepare_msg(view(1, 0), proposal(1, 7, 0)), &addr(2)).unwrap();
    for s in 1..=3 {
        let subject = Subject { view: view(1, 0), digest: digest(7) };
        r.handle_commit(&subject, &addr(s)).unwrap();
    }
    assert_eq!(r.state, State::Final);
    assert!(matches!(r.outbox.last(), Some(Output::CancelTimers)));
}

#[test]
fn round_change_quorum_lets_new_proposer_offer_pending_request() {
    let backend = TestBackend::accepting();
    // round 1 proposer is addr(3)
    let mut r = replica(3);
    r.on_request(Request { proposal: proposal(1, 5, 0) });
    assert_eq!(broadcasts(&r, MessageType::Preprepare), 0);
    for s in [1, 2, 4] {
        r.on_gossip(&backend, &round_change_msg(view(1, 1)), &addr(s)).unwrap();
    }
    assert_eq!(r.current_view(), view(1, 1));
    assert_eq!(broadcasts(&r, MessageType::Preprepare), 1);
    let n = r.outbox.len();
    assert!(matches!(r.outbox[n - 2], Output::RoundTimer(1, 2000)));
    match r.outbox.last() {
        Some(Output::Broadcast(m)) => match &m.payload {
            Payload::Preprepare(p) => {
                assert_eq!(p.view, view(1, 1));
                assert!(p.proposal.block.header.hash.same(&digest(5)));
            }
            _ => panic!("expected a PRE-PREPARE"),
        },
        _ => panic!("expected a broadcast"),
    }
    // a fourth vote does not fire again
    r.on_gossip(&backend, &round_change_msg(view(1, 1)), &addr(3)).unwrap();
    assert_eq!(broadcasts(&r, MessageType::Preprepare), 1);
}

#[test]
fn proposer_sends_preprepare_on_request() {
    let mut p = replica(2);
    p.on_request(Request { proposal: proposal(1, 5, 0) });
    assert_eq!(broadcasts(&p, MessageType::Preprepare), 1);
    let mut q = replica(2);
    q.send_preprepare(&Request { proposal: proposal(2, 5, 0) });
    assert_eq!(broadcasts(&q, MessageType::Preprepare), 0);
    let mut other = replica(1);
    other.send_preprepare(&Request { proposal: proposal(1, 5, 0) });
    assert_eq!(broadcasts(&other, MessageType::Preprepare), 0);
    // a request for another height is ignored
    let mut s = replica(2);
    s.on_request(Request { proposal: proposal(3, 5, 0) });
    assert!(s.current_state.pending_request.is_none());
}

#[test]
fn accept_records_timestamp_and_preprepare() {
    let mut r = replica(3);
    r.accept(&PrePrepare::new(view(1, 0), proposal(1, 7, 123)));
    assert_eq!(r.consensus_timestamp, 123);
    assert!(r.current_state.preprepare.as_ref().unwrap().proposal.block.header.hash.same(&digest(7)));
    assert_eq!(r.state, State::AcceptRequest);
}

#[test]
fn start_enters_next_height() {
    let backend = TestBackend::accepting();
    let mut r = replica(3);
    lock_on(&mut r, &backend, 7);
    r.start(2, validators());
    assert_eq!(r.current_view(), view(2, 0));
    assert_eq!(r.state, State::AcceptRequest);
    assert!(r.current_state.lock.is_none());
    assert!(matches!(r.outbox.last(), Some(Output::RoundTimer(0, 1000))));
}

#[test]
fn proposer_election_is_deterministic() {
    let a = validators();
    let b = validators();
    for h in 0..10u64 {
        for round in 0..10u64 {
            assert_eq!(a.calc_proposer(h, round), b.calc_proposer(h, round));
        }
    }
    assert_eq!(a.calc_proposer(1, 0), Some(1));
    assert_eq!(a.calc_proposer(u64::MAX, u64::MAX), Some(((u64::MAX as u128 * 2) % 4) as usize));
    let sticky = ValidatorSet::new(vec![addr(1), addr(2), addr(3)], ProposerPolicy::Sticky).unwrap();
    assert_eq!(sticky.calc_proposer(5, 0), Some(0));
    assert_eq!(sticky.calc_proposer(9, 4), Some(1));
    let empty = ValidatorSet::new(vec![], ProposerPolicy::RoundRobin).unwrap();
    assert_eq!(empty.calc_proposer(1, 1), None);
    assert!(!empty.is_proposer(&addr(1), 1, 1));
}

#[test]
fn validator_set_rejects_duplicates_and_counts_quorum() {
    assert!(ValidatorSet::new(vec![addr(1), addr(2), addr(1)], ProposerPolicy::RoundRobin).is_none());
    let vs = validators();
    assert_eq!(vs.f(), 1);
    assert_eq!(vs.quorum(), 3);
    assert!(vs.contains(&addr(4)));
    assert!(!vs.contains(&addr(5)));
    let seven = ValidatorSet::new((1..=7).map(addr).collect(), ProposerPolicy::RoundRobin).unwrap();
    assert_eq!(seven.f(), 2);
    assert_eq!(seven.quorum(), 5);
    assert_eq!(vs.get_by_index(4).map(|a| a.bytes), None);
}

#[test]
fn view_classification() {
    let cur = view(5, 2);
    assert_eq!(classify_view(&cur, &view(5, 2)), ViewClass::Same);
    assert_eq!(classify_view(&cur, &view(5, 1)), ViewClass::OldMessage);
    assert_eq!(classify_view(&cur, &view(4, 9)), ViewClass::OldMessage);
    assert_eq!(classify_view(&cur, &view(5, 3)), ViewClass::FutureMessage);
    assert_eq!(classify_view(&cur, &view(6, 0)), ViewClass::FutureMessage);
}

#[test]
fn round_timeout_doubles_and_caps() {
    assert_eq!(round_timeout(1000, 8000, 0), 1000);
    assert_eq!(round_timeout(1000, 8000, 1), 2000);
    assert_eq!(round_timeout(1000, 8000, 3), 8000);
    assert_eq!(round_timeout(1000, 8000, 60), 8000);
    assert_eq!(round_timeout(1000, 8000, u64::MAX), 8000);
    assert_eq!(round_timeout(9000, 8000, 0), 8000);
    assert_eq!(round_timeout(u64::MAX, u64::MAX, 5), u64::MAX);
}

#[test]
fn round_timeout_asks_for_next_round_only_for_current_round() {
    let mut r = replica(3);
    let before = r.outbox.len();
    r.on_round_timeout(5);
    assert_eq!(r.outbox.len(), before);
    r.on_round_timeout(0);
    assert_eq!(r.outbox.len(), before + 2);
    assert!(matches!(r.outbox.last(), Some(Output::RoundTimer(1, 2000))));
    assert_eq!(r.current_view(), view(1, 0));
}

#[test]
fn earlier_round_of_same_height_goes_through_catch_up() {
    let stored = Header { height: 1, hash: digest(7), prev_hash: digest(0), time: 0 };
    let backend = TestBackend { headers: vec![stored], ..TestBackend::accepting() };
    let mut r = replica(3);
    for s in [1, 2] {
        r.on_gossip(&backend, &round_change_msg(view(1, 1)), &addr(s)).unwrap();
    }
    assert_eq!(r.current_view(), view(1, 1));
    let before = r.outbox.len();
    let msg = preprepare_msg(view(1, 0), proposal(1, 7, 0));
    assert_eq!(r.on_gossip(&backend, &msg, &addr(2)), Ok(()));
    assert_eq!(r.outbox.len(), before);
    assert!(r.current_state.preprepare.is_none());
}

#[test]
fn earlier_round_of_same_height_without_stored_header_is_invalid() {
    let backend = TestBackend::accepting();
    let mut r = replica(3);
    for s in [1, 2] {
        r.on_gossip(&backend, &round_change_msg(view(1, 1)), &addr(s)).unwrap();
    }
    let before = r.outbox.len();
    let msg = preprepare_msg(view(1, 0), proposal(1, 7, 0));
    assert_eq!(
        r.on_gossip(&backend, &msg, &addr(2)),
        Err(ConsensusError::Engine(EngineError::InvalidProposal))
    );
    assert_eq!(r.outbox.len(), before);
}

#[test]
fn round_change_quorum_without_offer_only_arms_timer() {
    let backend = TestBackend::accepting();
    // round 1 proposer is addr(3); this one has nothing to propose
    let mut r = replica(3);
    for s in [1, 2, 4] {
        r.on_gossip(&backend, &round_change_msg(view(1, 1)), &addr(s)).unwrap();
    }
    assert_eq!(broadcasts(&r, MessageType::Preprepare), 0);
    assert!(matches!(r.outbox.last(), Some(Output::RoundTimer(1, 2000))));
    // a replica that is not the proposer does not offer its pending block
    let mut q = replica(1);
    q.on_request(Request { proposal: proposal(1, 5, 0) });
    for s in [1, 2, 4] {
        q.on_gossip(&backend, &round_change_msg(view(1, 1)), &addr(s)).unwrap();
    }
    assert_eq!(broadcasts(&q, MessageType::Preprepare), 0);
}
