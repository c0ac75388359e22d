use vstd::prelude::*;
use vstd::set_lib::{lemma_len_subset, lemma_set_difference_len, lemma_set_intersect_union_lens};

use crate::engine::Core;
use crate::types::{EngineError, ConsensusResult, PrePrepare};
use crate::validator::{faulty_spec, no_duplicates, quorum_spec, ValidatorSet};

verus! {

/// Proposer election is a function of the validator sequence, the policy, the height and
/// the round: two replicas holding the same set elect the same proposer.
pub proof fn lemma_proposer_determinism(a: ValidatorSet, b: ValidatorSet, height: nat, round: nat)
    requires
        a@ == b@,
        a.policy_spec() == b.policy_spec(),
    ensures
        a.proposer_of(height, round) == b.proposer_of(height, round),
{
}

/// Once a replica acts on a PRE-PREPARE, no later PRE-PREPARE of the same view replaces
/// it, whatever the backend says of the newcomer.
pub proof fn lemma_single_acceptance_per_view(
    o: Core,
    n: Core,
    pp: PrePrepare,
    delay: u64,
    verified: Result<(), EngineError>,
    r: ConsensusResult,
)
    requires
        o.wf(),
        Core::preprepare_outcome(o, n, pp, delay, verified, r),
        o.current_state.preprepare is Some,
    ensures
        n.current_state.preprepare == o.current_state.preprepare,
{
}

/// A locked replica accepts only a PRE-PREPARE that carries its locked digest, and keeps
/// its lock while doing so.
pub proof fn lemma_locked_accepts_only_locked(
    o: Core,
    n: Core,
    pp: PrePrepare,
    delay: u64,
    verified: Result<(), EngineError>,
    r: ConsensusResult,
)
    requires
        o.wf(),
        Core::preprepare_outcome(o, n, pp, delay, verified, r),
        o.current_state.lock is Some,
        n.current_state.preprepare != o.current_state.preprepare,
    ensures
        pp.digest() == o.current_state.lock->0.digest@,
        n.current_state.lock == o.current_state.lock,
{
}

/// In a well-formed replica that is locked, the PRE-PREPARE it acts on carries the
/// locked digest.
pub proof fn lemma_lock_covers_preprepare(c: Core)
    requires
        c.wf(),
        c.current_state.lock is Some,
        c.current_state.preprepare is Some,
    ensures
        c.current_state.preprepare->0.digest() == c.current_state.lock->0.digest@,
{
}

/// Two quorums (2f+1 distinct members each) of a set of 3f+1 validators share at least
/// f+1 members, so at least one correct validator is in both.
pub proof fn lemma_quorums_intersect(vs: Seq<Seq<u8>>, a: Seq<Seq<u8>>, b: Seq<Seq<u8>>)
    requires
        no_duplicates(vs),
        no_duplicates(a),
        no_duplicates(b),
        forall|i: int| 0 <= i < a.len() ==> vs.contains(#[trigger] a[i]),
        forall|i: int| 0 <= i < b.len() ==> vs.contains(#[trigger] b[i]),
        a.len() >= quorum_spec(vs.len()),
        b.len() >= quorum_spec(vs.len()),
        vs.len() == 3 * faulty_spec(vs.len()) + 1,
    ensures
        a.to_set().intersect(b.to_set()).len() >= faulty_spec(vs.len()) + 1,
{
    assert(vs.no_duplicates());
    assert(a.no_duplicates());
    assert(b.no_duplicates());
    vs.unique_seq_to_set();
    a.unique_seq_to_set();
    b.unique_seq_to_set();
    let sa = a.to_set();
    let sb = b.to_set();
    lemma_set_intersect_union_lens(sa, sb);
    assert(sa.union(sb).subset_of(vs.to_set())) by {
        assert forall|x: Seq<u8>| sa.union(sb).contains(x) implies vs.to_set().contains(x) by {
            if sa.contains(x) {
                let i = choose|i: int| 0 <= i < a.len() && a[i] == x;
                assert(vs.contains(a[i]));
            } else {
                let i = choose|i: int| 0 <= i < b.len() && b[i] == x;
                assert(vs.contains(b[i]));
            }
        }
    }
    lemma_len_subset(sa.union(sb), vs.to_set());
}

/// Agreement at one height. Let `a` and `b` be the COMMIT certificates (2f+1 distinct
/// members each of a set of 3f+1 validators) on which two replicas finalized the digests
/// `da` and `db`. If at most f validators are faulty, and every correct validator sends
/// COMMIT for a single digest at that height (`committed`), then `da == db`.
pub proof fn lemma_agreement(
    vs: Seq<Seq<u8>>,
    a: Seq<Seq<u8>>,
    b: Seq<Seq<u8>>,
    faulty: Set<Seq<u8>>,
    committed: spec_fn(Seq<u8>) -> Seq<u8>,
    da: Seq<u8>,
    db: Seq<u8>,
)
    requires
        no_duplicates(vs),
        no_duplicates(a),
        no_duplicates(b),
        forall|i: int| 0 <= i < a.len() ==> vs.contains(#[trigger] a[i]),
        forall|i: int| 0 <= i < b.len() ==> vs.contains(#[trigger] b[i]),
        a.len() >= quorum_spec(vs.len()),
        b.len() >= quorum_spec(vs.len()),
        vs.len() == 3 * faulty_spec(vs.len()) + 1,
        faulty.finite(),
        faulty.len() <= faulty_spec(vs.len()),
        forall|i: int| 0 <= i < a.len() && !faulty.contains(a[i]) ==> committed(#[trigger] a[i]) == da,
        forall|i: int| 0 <= i < b.len() && !faulty.contains(b[i]) ==> committed(#[trigger] b[i]) == db,
    ensures
        da == db,
{
    lemma_quorums_intersect(vs, a, b);
    let both = a.to_set().intersect(b.to_set());
    assert(both.finite());
    lemma_set_difference_len(both, faulty);
    lemma_len_subset(both.intersect(faulty), faulty);
    let correct = both.difference(faulty);
    assert(correct.len() >= 1);
    let x = correct.choose();
    assert(correct.contains(x));
    let i = choose|i: int| 0 <= i < a.len() && a[i] == x;
    let j = choose|j: int| 0 <= j < b.len() && b[j] == x;
    assert(committed(a[i]) == da);
    assert(committed(b[j]) == db);
}

} // verus!
