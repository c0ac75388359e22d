use vstd::prelude::*;

verus! {

/// Round timer duration: `base` at round 0, doubled every round, never above `max`.
pub open spec fn round_timeout_spec(base: nat, max: nat, round: nat) -> nat
    decreases round,
{
    if round == 0 {
        if base <= max {
            base
        } else {
            max
        }
    } else {
        let t = 2 * round_timeout_spec(base, max, (round - 1) as nat);
        if t <= max {
            t
        } else {
            max
        }
    }
}

/// Once the cap is reached it stays reached.
proof fn lemma_timeout_stays_capped(base: nat, max: nat, i: nat, round: nat)
    requires
        i <= round,
        round_timeout_spec(base, max, i) == max,
    ensures
        round_timeout_spec(base, max, round) == max,
    decreases round - i,
{
    if i < round {
        lemma_timeout_stays_capped(base, max, i + 1, round);
    }
}

proof fn lemma_timeout_bounded(base: nat, max: nat, round: nat)
    ensures
        round_timeout_spec(base, max, round) <= max,
    decreases round,
{
    if round > 0 {
        lemma_timeout_bounded(base, max, (round - 1) as nat);
    }
}

/// Duration of the round timer for `round`: `min(base * 2^round, max)`.
pub fn round_timeout(base: u64, max: u64, round: u64) -> (r: u64)
    ensures
        r == round_timeout_spec(base as nat, max as nat, round as nat),
{
    let mut t: u64 = if base <= max {
        base
    } else {
        max
    };
    let mut i: u64 = 0;
    while i < round && t < max
        invariant
            i <= round,
            t == round_timeout_spec(base as nat, max as nat, i as nat),
        decreases round - i,
    {
        proof {
            lemma_timeout_bounded(base as nat, max as nat, i as nat);
        }
        t = if t <= max / 2 {
            2 * t
        } else {
            max
        };
        i = i + 1;
    }
    if i < round {
        proof {
            lemma_timeout_bounded(base as nat, max as nat, i as nat);
            lemma_timeout_stays_capped(base as nat, max as nat, i as nat, round as nat);
        }
    }
    t
}

} // verus!
