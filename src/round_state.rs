use vstd::prelude::*;

use crate::types::{Address, ConsensusView, Digest, Header, PrePrepare, Proposal, Request};

verus! {

/// The digest a replica is locked on and the view in which it locked.
#[derive(Clone, Copy, Debug)]
pub struct Lock {
    pub digest: Digest,
    pub view: ConsensusView,
}

/// The spec value of an optional PRE-PREPARE.
pub open spec fn opt_preprepare(p: Option<PrePrepare>) -> Option<(ConsensusView, (Header, Seq<u8>))> {
    match p {
        Some(x) => Some(x@),
        None => None,
    }
}

pub open spec fn opt_proposal(p: Option<Proposal>) -> Option<(Header, Seq<u8>)> {
    match p {
        Some(x) => Some(x@),
        None => None,
    }
}

pub open spec fn opt_request(p: Option<Request>) -> Option<(Header, Seq<u8>)> {
    match p {
        Some(x) => Some(x.proposal@),
        None => None,
    }
}

pub open spec fn addresses(v: Seq<Address>) -> Seq<Seq<u8>> {
    v.map_values(|a: Address| a@)
}

/// Mutable state of the height in progress.
#[derive(Debug)]
pub struct RoundState {
    pub view: ConsensusView,
    pub preprepare: Option<PrePrepare>,
    /// Distinct senders of PREPARE for the current subject.
    pub prepares: Vec<Address>,
    /// Distinct senders of COMMIT for the current subject.
    pub commits: Vec<Address>,
    pub lock: Option<Lock>,
    /// The block the lock was taken on, kept to be proposed again after a round change.
    pub locked_proposal: Option<Proposal>,
    pub pending_request: Option<Request>,
}

impl RoundState {
    pub fn new(view: ConsensusView) -> (r: RoundState)
        ensures
            r.view == view,
            r.preprepare is None,
            r.prepares@.len() == 0,
            r.commits@.len() == 0,
            r.lock is None,
            r.locked_proposal is None,
            r.pending_request is None,
    {
        RoundState {
            view,
            preprepare: None,
            prepares: Vec::new(),
            commits: Vec::new(),
            lock: None,
            locked_proposal: None,
            pending_request: None,
        }
    }

    pub fn height(&self) -> (r: u64)
        ensures
            r == self.view.sequence,
    {
        self.view.sequence
    }

    pub fn is_locked(&self) -> (r: bool)
        ensures
            r == self.lock is Some,
    {
        self.lock.is_some()
    }

    pub fn get_lock_hash(&self) -> (r: Option<Digest>)
        ensures
            r == match self.lock {
                Some(l) => Some(l.digest),
                None => None,
            },
    {
        match &self.lock {
            Some(l) => Some(l.digest),
            None => None,
        }
    }

    pub fn set_preprepare(&mut self, preprepare: PrePrepare)
        ensures
            final(self).preprepare == Some(preprepare),
            final(self).view == old(self).view,
            final(self).prepares == old(self).prepares,
            final(self).commits == old(self).commits,
            final(self).lock == old(self).lock,
            final(self).locked_proposal == old(self).locked_proposal,
            final(self).pending_request == old(self).pending_request,
    {
        self.preprepare = Some(preprepare);
    }
}

/// Adds `a` to `v` unless an equal address is already there.
pub fn insert_distinct(v: &mut Vec<Address>, a: &Address)
    ensures
        addresses(old(v)@).contains(a@) ==> final(v)@ == old(v)@,
        !addresses(old(v)@).contains(a@) ==> final(v)@ == old(v)@.push(*a),
{
    let n = v.len();
    let mut i: usize = 0;
    while i < n
        invariant
            n == v@.len(),
            0 <= i <= n,
            forall|j: int| 0 <= j < i ==> addresses(v@)[j] != a@,
        decreases n - i,
    {
        if v[i].same(a) {
            assert(addresses(v@)[i as int] == a@);
            return;
        }
        i = i + 1;
    }
    v.push(*a);
}

} // verus!
