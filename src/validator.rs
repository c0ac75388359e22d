use vstd::prelude::*;
use vstd::arithmetic::div_mod::lemma_add_mod_noop;

use crate::types::Address;

verus! {

/// How the proposer of a (height, round) is elected.
#[derive(Clone, Copy, Debug, PartialEq, Eq, Structural)]
pub enum ProposerPolicy {
    /// The role moves to the next validator with every height and every round.
    RoundRobin,
    /// The same validator opens every height; the role moves only on round change.
    Sticky,
}

/// Index of the proposer among `n` validators.
pub open spec fn proposer_index_spec(policy: ProposerPolicy, n: nat, height: nat, round: nat) -> nat
    recommends
        n > 0,
{
    match policy {
        ProposerPolicy::RoundRobin => (height + round) % n,
        ProposerPolicy::Sticky => round % n,
    }
}

/// Tolerated faulty count of a set of `n` validators: the largest f with 3f + 1 <= n.
pub open spec fn faulty_spec(n: nat) -> nat {
    if n == 0 {
        0
    } else {
        ((n - 1) as nat) / 3
    }
}

pub open spec fn quorum_spec(n: nat) -> nat {
    2 * faulty_spec(n) + 1
}

pub open spec fn no_duplicates(s: Seq<Seq<u8>>) -> bool {
    forall|i: int, j: int| 0 <= i < s.len() && 0 <= j < s.len() && i != j ==> s[i] != s[j]
}

/// Whether no address occurs twice in `v`.
fn distinct_addresses(v: &Vec<Address>) -> (r: bool)
    ensures
        r == no_duplicates(v@.map_values(|a: Address| a@)),
{
    let ghost vs = v@.map_values(|a: Address| a@);
    let n = v.len();
    let mut i: usize = 0;
    while i < n
        invariant
            n == v@.len(),
            vs == v@.map_values(|a: Address| a@),
            0 <= i <= n,
            forall|a: int, b: int| 0 <= a < i && 0 <= b < n && a != b ==> vs[a] != vs[b],
        decreases n - i,
    {
        let mut j: usize = 0;
        while j < n
            invariant
                n == v@.len(),
                vs == v@.map_values(|a: Address| a@),
                0 <= i < n,
                0 <= j <= n,
                forall|a: int, b: int| 0 <= a < i && 0 <= b < n && a != b ==> vs[a] != vs[b],
                forall|b: int| 0 <= b < j && i != b ==> vs[i as int] != vs[b],
            decreases n - j,
        {
            if i != j && v[i].same(&v[j]) {
                assert(vs[i as int] == vs[j as int]);
                return false;
            }
            j = j + 1;
        }
        i = i + 1;
    }
    true
}

/// An ordered set of validators, without duplicates, with its election policy.
#[derive(Clone, Debug)]
pub struct ValidatorSet {
    validators: Vec<Address>,
    policy: ProposerPolicy,
}

impl View for ValidatorSet {
    type V = Seq<Seq<u8>>;

    closed spec fn view(&self) -> Seq<Seq<u8>> {
        self.validators@.map_values(|a: Address| a@)
    }
}

impl ValidatorSet {
    pub closed spec fn policy_spec(&self) -> ProposerPolicy {
        self.policy
    }

    pub open spec fn wf(&self) -> bool {
        no_duplicates(self@)
    }

    /// Index of the proposer at (height, round); only meaningful on a non-empty set.
    pub open spec fn proposer_of(&self, height: nat, round: nat) -> nat {
        proposer_index_spec(self.policy_spec(), self@.len(), height, round)
    }

    /// Builds a set from `validators` in the given order; `None` if an address repeats.
    pub fn new(validators: Vec<Address>, policy: ProposerPolicy) -> (r: Option<ValidatorSet>)
        ensures
            r is Some <==> no_duplicates(validators@.map_values(|a: Address| a@)),
            r matches Some(vs) ==> vs@ == validators@.map_values(|a: Address| a@)
                && vs.policy_spec() == policy && vs.wf(),
    {
        if distinct_addresses(&validators) {
            Some(ValidatorSet { validators, policy })
        } else {
            None
        }
    }

    /// Whether no address repeats; true of every set built by `new`.
    pub fn is_wf(&self) -> (r: bool)
        ensures
            r == self.wf(),
    {
        distinct_addresses(&self.validators)
    }

    pub fn len(&self) -> (r: usize)
        ensures
            r == self@.len(),
    {
        self.validators.len()
    }

    pub fn policy(&self) -> (r: ProposerPolicy)
        ensures
            r == self.policy_spec(),
    {
        self.policy
    }

    pub fn get_by_index(&self, i: usize) -> (r: Option<Address>)
        ensures
            i < self@.len() ==> (r matches Some(a) && a@ == self@[i as int]),
            i >= self@.len() ==> r is None,
    {
        if i < self.validators.len() {
            Some(self.validators[i])
        } else {
            None
        }
    }

    /// Whether `addr` is a member of the set.
    pub fn contains(&self, addr: &Address) -> (r: bool)
        ensures
            r == self@.contains(addr@),
    {
        let n = self.validators.len();
        let mut i: usize = 0;
        while i < n
            invariant
                n == self@.len(),
                0 <= i <= n,
                forall|j: int| 0 <= j < i ==> self@[j] != addr@,
            decreases n - i,
        {
            if self.validators[i].same(addr) {
                assert(self@[i as int] == addr@);
                return true;
            }
            i = i + 1;
        }
        false
    }

    /// Tolerated faulty count f for this set.
    pub fn f(&self) -> (r: usize)
        ensures
            r == faulty_spec(self@.len()),
    {
        let n = self.validators.len();
        if n == 0 {
            0
        } else {
            (n - 1) / 3
        }
    }

    /// Number of distinct votes that make a quorum: 2f + 1.
    pub fn quorum(&self) -> (r: usize)
        ensures
            r == quorum_spec(self@.len()),
    {
        let n = self.validators.len();
        if n == 0 {
            1
        } else {
            let f = (n - 1) / 3;
            assert(2 * f + 1 <= n) by (nonlinear_arith)
                requires
                    f == (n - 1) / 3,
                    n >= 1,
            ;
            2 * f + 1
        }
    }

    /// Elects the proposer for (height, round): its index, or `None` on an empty set.
    pub fn calc_proposer(&self, height: u64, round: u64) -> (r: Option<usize>)
        ensures
            self@.len() == 0 ==> r is None,
            self@.len() > 0 ==> (r matches Some(i) && i as nat == self.proposer_of(
                height as nat,
                round as nat,
            )),
            r matches Some(i) ==> i < self@.len(),
    {
        let n = self.validators.len();
        if n == 0 {
            return None;
        }
        let n64 = n as u64;
        let idx: u64 = match self.policy {
            ProposerPolicy::RoundRobin => {
                proof {
                    lemma_add_mod_noop(height as int, round as int, n as int);
                }
                (((height % n64) as u128 + (round % n64) as u128) % (n64 as u128)) as u64
            },
            ProposerPolicy::Sticky => round % n64,
        };
        Some(idx as usize)
    }

    /// Whether `addr` is the elected proposer for (height, round).
    pub fn is_proposer(&self, addr: &Address, height: u64, round: u64) -> (r: bool)
        ensures
            r == (self@.len() > 0 && self@[self.proposer_of(height as nat, round as nat) as int]
                == addr@),
    {
        match self.calc_proposer(height, round) {
            Some(i) => {
                assert(self.proposer_of(height as nat, round as nat) < self@.len());
                assert(i as int == self.proposer_of(height as nat, round as nat));
                assert(self@[i as int] == self.validators@[i as int]@);
                self.validators[i].same(addr)
            },
            None => false,
        }
    }
}

} // verus!
