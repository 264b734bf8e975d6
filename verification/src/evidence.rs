use vstd::prelude::*;

use crate::release::accepts_approvals;
use crate::state::{lemma_records_kept, Escrow};
use crate::types::{Address, Error, EscrowError, Failure};

verus! {

/// Longest work evidence (a link or content hash) a freelancer may submit.
pub const MAX_EVIDENCE_BYTES: usize = 256;

/// No (contract, milestone) pair holds two evidence entries.
pub open spec fn evidence_keys_distinct(s: Seq<(u32, u32, Vec<u8>)>) -> bool {
    forall|i: int, j: int|
        0 <= i < j < s.len() ==> (#[trigger] s[i]).0 != (#[trigger] s[j]).0 || s[i].1 != s[j].1
}

/// Whether entry `i` holds the evidence of milestone `index` of contract `id`.
pub open spec fn evidence_entry(s: Seq<(u32, u32, Vec<u8>)>, i: int, id: u32, index: u32) -> bool {
    0 <= i < s.len() && s[i].0 == id && s[i].1 == index
}

/// The evidence stored for milestone `index` of contract `id`, if any.
pub open spec fn evidence_at(s: Seq<(u32, u32, Vec<u8>)>, id: u32, index: u32) -> Option<Seq<u8>> {
    if exists|i: int| #[trigger] evidence_entry(s, i, id, index) {
        Some(s[choose|i: int| #[trigger] evidence_entry(s, i, id, index)].2@)
    } else {
        None
    }
}

proof fn lemma_evidence_at(s: Seq<(u32, u32, Vec<u8>)>, i: int)
    requires
        evidence_keys_distinct(s),
        0 <= i < s.len(),
    ensures
        evidence_at(s, s[i].0, s[i].1) == Some(s[i].2@),
{
    let (id, index) = (s[i].0, s[i].1);
    assert(evidence_entry(s, i, id, index));
    let j = choose|j: int| #[trigger] evidence_entry(s, j, id, index);
    if j < i {
        assert(s[j].0 != s[i].0 || s[j].1 != s[i].1);
    } else if i < j {
        assert(s[i].0 != s[j].0 || s[i].1 != s[j].1);
    }
}

/// After entry `k` of `s0` is replaced (or, with `k == s0.len()`, appended)
/// by the evidence of (`id`, `index`), that evidence is found there and every
/// other milestone's evidence is unchanged.
proof fn lemma_evidence_stored(
    s0: Seq<(u32, u32, Vec<u8>)>,
    s1: Seq<(u32, u32, Vec<u8>)>,
    k: int,
    id: u32,
    index: u32,
)
    requires
        evidence_keys_distinct(s0),
        0 <= k <= s0.len(),
        k < s0.len() ==> s0[k].0 == id && s0[k].1 == index && s1.len() == s0.len(),
        k == s0.len() ==> forall|i: int| 0 <= i < s0.len() ==> !evidence_entry(s0, i, id, index),
        k == s0.len() ==> s1.len() == s0.len() + 1,
        forall|i: int| 0 <= i < s0.len() && i != k ==> s1[i] == s0[i],
        s1[k].0 == id && s1[k].1 == index,
    ensures
        evidence_keys_distinct(s1),
        evidence_at(s1, id, index) == Some(s1[k].2@),
        forall|a: u32, b: u32| a != id || b != index ==> evidence_at(s1, a, b) == evidence_at(s0, a, b),
{
    assert(evidence_keys_distinct(s1)) by {
        assert forall|p: int, q: int| 0 <= p < q < s1.len() implies (#[trigger] s1[p]).0
            != (#[trigger] s1[q]).0 || s1[p].1 != s1[q].1 by {
            if p != k && q != k {
                assert(s0[p].0 != s0[q].0 || s0[p].1 != s0[q].1);
            } else if p == k {
                if k < s0.len() {
                    assert(s0[p].0 != s0[q].0 || s0[p].1 != s0[q].1);
                }
            } else {
                if k < s0.len() {
                    assert(s0[p].0 != s0[q].0 || s0[p].1 != s0[q].1);
                } else {
                    assert(!evidence_entry(s0, p, id, index));
                }
            }
        }
    }
    lemma_evidence_at(s1, k);
    assert forall|a: u32, b: u32| a != id || b != index implies evidence_at(s1, a, b) == evidence_at(
        s0,
        a,
        b,
    ) by {
        if exists|i: int| #[trigger] evidence_entry(s0, i, a, b) {
            let i = choose|i: int| #[trigger] evidence_entry(s0, i, a, b);
            assert(i != k);
            lemma_evidence_at(s0, i);
            lemma_evidence_at(s1, i);
        } else {
            assert forall|i: int| !#[trigger] evidence_entry(s1, i, a, b) by {
                if 0 <= i < s1.len() && i != k {
                    assert(!evidence_entry(s0, i, a, b));
                }
            }
        }
    }
}

/// Position of the evidence entry of (`id`, `index`).
fn find_evidence(s: &Vec<(u32, u32, Vec<u8>)>, id: u32, index: u32) -> (r: Option<usize>)
    ensures
        match r {
            Some(i) => evidence_entry(s@, i as int, id, index),
            None => forall|i: int| 0 <= i < s@.len() ==> !evidence_entry(s@, i, id, index),
        },
{
    let mut i: usize = 0;
    while i < s.len()
        invariant
            0 <= i <= s@.len(),
            forall|k: int| 0 <= k < i ==> !evidence_entry(s@, k, id, index),
        decreases s.len() - i,
    {
        if s[i].0 == id && s[i].1 == index {
            return Some(i);
        }
        i = i + 1;
    }
    None
}

/// A copy of `bytes`.
fn copy_bytes(bytes: &[u8]) -> (r: Vec<u8>)
    ensures
        r@ == bytes@,
{
    let mut r: Vec<u8> = Vec::new();
    let mut i: usize = 0;
    while i < bytes.len()
        invariant
            0 <= i <= bytes@.len(),
            r@ == bytes@.take(i as int),
        decreases bytes.len() - i,
    {
        r.push(bytes[i]);
        i = i + 1;
        assert(r@ =~= bytes@.take(i as int));
    }
    assert(bytes@.take(bytes@.len() as int) =~= bytes@);
    r
}

impl Escrow {
    /// The error `submit_work_evidence` rejects with, if any, in check order.
    pub open spec fn evidence_precheck(
        &self,
        contract_id: u32,
        caller: Address,
        milestone_index: u32,
        len: nat,
    ) -> Result<(), Failure> {
        let c = self.contract_view(contract_id);
        let ms = self.milestones_view(contract_id);
        if self.paused_view() {
            Err(Failure::Escrow(EscrowError::ContractPaused))
        } else if !self.has_contract(contract_id) {
            Err(Failure::Core(Error::ContractNotFound))
        } else if self.finalized_view(contract_id) {
            Err(Failure::Escrow(EscrowError::AlreadyFinalized))
        } else if caller != c.freelancer {
            Err(Failure::Core(Error::UnauthorizedRole))
        } else if !accepts_approvals(c.status) {
            Err(Failure::Core(Error::InvalidState))
        } else if milestone_index >= ms.len() {
            Err(Failure::Core(Error::IndexOutOfBounds))
        } else if ms[milestone_index as int].released {
            Err(Failure::Core(Error::MilestoneAlreadyReleased))
        } else if ms[milestone_index as int].refunded {
            Err(Failure::Core(Error::AlreadyRefunded))
        } else if len > MAX_EVIDENCE_BYTES {
            Err(Failure::Escrow(EscrowError::EvidenceTooLong))
        } else {
            Ok(())
        }
    }

    /// Records the freelancer's work evidence (at most `MAX_EVIDENCE_BYTES`
    /// bytes, such as a content link) for an unsettled milestone of a funded
    /// contract, replacing any evidence submitted for it before.
    ///
    /// Authorization: `caller`, which must be the contract's freelancer.
    pub fn submit_work_evidence(
        &mut self,
        contract_id: u32,
        caller: Address,
        milestone_index: u32,
        evidence: &[u8],
    ) -> (r: Result<bool, Failure>)
        requires
            old(self).wf(),
        ensures
            final(self).wf(),
            old(self).history_preserved(final(self)),
            old(self).evidence_precheck(contract_id, caller, milestone_index, evidence@.len()) matches Err(e)
                ==> r == Err::<bool, Failure>(e) && *final(self) == *old(self),
            old(self).evidence_precheck(contract_id, caller, milestone_index, evidence@.len()) is Ok ==> {
                &&& r == Ok::<bool, Failure>(true)
                &&& final(self).evidence_view(contract_id, milestone_index) == Some(evidence@)
                &&& forall|id: u32, index: u32|
                    id != contract_id || index != milestone_index ==> (#[trigger] final(self).evidence_view(id, index))
                        == old(self).evidence_view(id, index)
                &&& old(self).others_unchanged(final(self), 0)
                &&& old(self).globals_unchanged(final(self))
            },
    {
        if self.paused {
            return Err(Failure::Escrow(EscrowError::ContractPaused));
        }
        let i = match self.slot(contract_id) {
            Some(i) => i,
            None => {
                return Err(Failure::Core(Error::ContractNotFound));
            },
        };
        if self.finalizations[i].is_some() {
            return Err(Failure::Escrow(EscrowError::AlreadyFinalized));
        }
        let c = self.contracts[i];
        if caller != c.freelancer {
            return Err(Failure::Core(Error::UnauthorizedRole));
        }
        match c.status {
            crate::types::ContractStatus::Funded | crate::types::ContractStatus::PartiallyFunded => {},
            _ => {
                return Err(Failure::Core(Error::InvalidState));
            },
        }
        let idx = milestone_index as usize;
        if idx >= self.milestones[i].len() {
            return Err(Failure::Core(Error::IndexOutOfBounds));
        }
        if self.milestones[i][idx].released {
            return Err(Failure::Core(Error::MilestoneAlreadyReleased));
        }
        if self.milestones[i][idx].refunded {
            return Err(Failure::Core(Error::AlreadyRefunded));
        }
        if evidence.len() > MAX_EVIDENCE_BYTES {
            return Err(Failure::Escrow(EscrowError::EvidenceTooLong));
        }
        let bytes = copy_bytes(evidence);
        let ghost old_self = *self;
        let ghost s0 = self.evidence@;
        let k = match find_evidence(&self.evidence, contract_id, milestone_index) {
            Some(k) => {
                self.evidence.set(k, (contract_id, milestone_index, bytes));
                k
            },
            None => {
                self.evidence.push((contract_id, milestone_index, bytes));
                self.evidence.len() - 1
            },
        };
        proof {
            lemma_evidence_stored(s0, self.evidence@, k as int, contract_id, milestone_index);
            lemma_records_kept(old_self, *self);
        }
        Ok(true)
    }

    /// The work evidence submitted for milestone `milestone_index` of
    /// contract `contract_id`, if any.
    pub fn get_work_evidence(&self, contract_id: u32, milestone_index: u32) -> (r: Option<Vec<u8>>)
        requires
            self.wf(),
        ensures
            match r {
                Some(v) => self.evidence_view(contract_id, milestone_index) == Some(v@),
                None => self.evidence_view(contract_id, milestone_index) is None,
            },
    {
        match find_evidence(&self.evidence, contract_id, milestone_index) {
            Some(k) => {
                proof {
                    lemma_evidence_at(self.evidence@, k as int);
                }
                Some(copy_bytes(self.evidence[k].2.as_slice()))
            },
            None => None,
        }
    }
}

} // verus!
