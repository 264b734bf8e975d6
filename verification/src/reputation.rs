use vstd::prelude::*;

use crate::registry::{get_value, lookup, upsert};
use crate::state::{
    credits_nonneg, issued_count, lemma_issued_count_le, lemma_issued_count_set, lemma_records_kept, record_wf,
    reputation_ok, reputations_wf, Escrow,
};
use crate::types::{Address, ContractStatus, Error, EscrowError, Failure, Reputation};

verus! {

/// Reputation of a freelancer with nothing issued yet.
pub open spec fn empty_reputation() -> Reputation {
    Reputation { completed_contracts: 0, total_rating: 0, last_rating: 0 }
}

/// The reputation after one more completed contract rated `rating`.
pub open spec fn rated(rep: Reputation, rating: i128) -> Reputation {
    Reputation {
        completed_contracts: (rep.completed_contracts + 1) as i128,
        total_rating: (rep.total_rating + rating) as i128,
        last_rating: rating,
    }
}

/// Rating one more contract keeps every stored reputation consistent when
/// the rated freelancer's new reputation is.
proof fn lemma_rated_reputations(
    old: Seq<(Address, Reputation)>,
    new: Seq<(Address, Reputation)>,
    issued: nat,
    freelancer: Address,
)
    requires
        reputations_wf(old, issued),
        lookup(new, freelancer) is Some,
        reputation_ok(lookup(new, freelancer).unwrap(), issued + 1),
        forall|b: Address| b != freelancer ==> lookup(new, b) == lookup(old, b),
    ensures
        reputations_wf(new, issued + 1),
{
    assert forall|a: Address| (#[trigger] lookup(new, a)) is Some implies reputation_ok(
        lookup(new, a).unwrap(),
        issued + 1,
    ) by {
        if a != freelancer {
            assert(lookup(new, a) == lookup(old, a));
        }
    }
}

/// Average rating of a reputation scaled by 100 (two implied decimals,
/// rounded down), or `None` when nothing was rated.
pub open spec fn average_rating(rep: Option<Reputation>) -> Option<i128> {
    match rep {
        Some(r) => if r.completed_contracts > 0 {
            Some((r.total_rating * 100 / (r.completed_contracts as int)) as i128)
        } else {
            None
        },
        None => None,
    }
}

impl Escrow {
    /// Average rating of `address` scaled by 100 (a 4.5 average reads 450),
    /// or `None` when it has no rated contract.
    pub fn get_average_rating(&self, address: Address) -> (r: Option<i128>)
        requires
            self.wf(),
        ensures
            r == average_rating(self.reputation_view(address)),
    {
        match get_value(&self.reputations, address) {
            Some(rep) => {
                proof {
                    assert(reputation_ok(rep, issued_count(self.reputation_issued@)));
                    lemma_issued_count_le(self.reputation_issued@);
                }
                if rep.completed_contracts > 0 {
                    Some(rep.total_rating * 100 / rep.completed_contracts)
                } else {
                    None
                }
            },
            None => None,
        }
    }

    /// The freelancer's reputation, or the empty one.
    pub open spec fn reputation_or_empty(&self, a: Address) -> Reputation {
        match self.reputation_view(a) {
            Some(r) => r,
            None => empty_reputation(),
        }
    }

    /// The error `issue_reputation` rejects with, if any, in check order.
    pub open spec fn reputation_precheck(
        &self,
        contract_id: u32,
        caller: Address,
        freelancer: Address,
        rating: i128,
    ) -> Result<(), Failure> {
        let c = self.contract_view(contract_id);
        let rep = self.reputation_or_empty(c.freelancer);
        if self.paused_view() {
            Err(Failure::Escrow(EscrowError::ContractPaused))
        } else if !self.has_contract(contract_id) {
            Err(Failure::Core(Error::ContractNotFound))
        } else if self.finalized_view(contract_id) {
            Err(Failure::Escrow(EscrowError::AlreadyFinalized))
        } else if caller != c.client {
            Err(Failure::Core(Error::UnauthorizedRole))
        } else if freelancer != c.freelancer {
            Err(Failure::Core(Error::FreelancerMismatch))
        } else if rating < 1 || rating > 5 {
            Err(Failure::Escrow(EscrowError::InvalidRating))
        } else if c.status != ContractStatus::Completed {
            Err(Failure::Escrow(EscrowError::NotCompleted))
        } else if self.reputation_issued_view(contract_id) {
            Err(Failure::Escrow(EscrowError::ReputationAlreadyIssued))
        } else if c.client == c.freelancer {
            Err(Failure::Escrow(EscrowError::SelfRating))
        } else if self.credits_view(c.freelancer) <= 0 {
            Err(Failure::Escrow(EscrowError::NotCompleted))
        } else if rep.completed_contracts + 1 > i128::MAX || rep.total_rating + rating > i128::MAX {
            Err(Failure::Escrow(EscrowError::PotentialOverflow))
        } else {
            Ok(())
        }
    }

    /// Rates the freelancer of a completed contract, once per contract. The
    /// rating (1 to 5) is added to the freelancer's reputation and one pending
    /// reputation credit is consumed; a freelancer with no credit left (the
    /// contract completed without a release, e.g. through refunds) cannot be
    /// rated, and the call fails with `NotCompleted`.
    ///
    /// Authorization: `caller`, which must be the contract's client.
    pub fn issue_reputation(&mut self, contract_id: u32, caller: Address, freelancer: Address, rating: i128) -> (r: Result<
        bool,
        Failure,
    >)
        requires
            old(self).wf(),
        ensures
            final(self).wf(),
            old(self).history_preserved(final(self)),
            old(self).reputation_precheck(contract_id, caller, freelancer, rating) matches Err(e) ==> r
                == Err::<bool, Failure>(e) && *final(self) == *old(self),
            old(self).reputation_precheck(contract_id, caller, freelancer, rating) is Ok ==> {
                &&& r == Ok::<bool, Failure>(true)
                &&& final(self).reputation_issued_view(contract_id)
                &&& final(self).contract_view(contract_id) == old(self).contract_view(contract_id)
                &&& final(self).milestones_view(contract_id) == old(self).milestones_view(contract_id)
                &&& final(self).approvals_view(contract_id) == old(self).approvals_view(contract_id)
                &&& final(self).finalization_view(contract_id) == old(self).finalization_view(contract_id)
                &&& final(self).reputation_view(freelancer) == Some(
                    rated(old(self).reputation_or_empty(freelancer), rating),
                )
                &&& final(self).credits_view(freelancer) == old(self).credits_view(freelancer) - 1
                &&& forall|a: Address|
                    a != freelancer ==> #[trigger] final(self).reputation_view(a) == old(
                        self,
                    ).reputation_view(a)
                &&& forall|a: Address|
                    a != freelancer ==> #[trigger] final(self).credits_view(a) == old(
                        self,
                    ).credits_view(a)
                &&& final(self).fees_view() == old(self).fees_view()
                &&& old(self).others_unchanged(final(self), contract_id)
                &&& old(self).only_flags_changed_none(final(self))
            },
    {
        if self.paused {
            return Err(Failure::Escrow(EscrowError::ContractPaused));
        }
        let i = match self.slot(contract_id) {
            Some(i) => i,
            None => {
                return Err(Failure::Core(Error::ContractNotFound));
            },
        };
        if self.finalizations[i].is_some() {
            return Err(Failure::Escrow(EscrowError::AlreadyFinalized));
        }
        let c = self.contracts[i];
        if caller != c.client {
            return Err(Failure::Core(Error::UnauthorizedRole));
        }
        if freelancer != c.freelancer {
            return Err(Failure::Core(Error::FreelancerMismatch));
        }
        if rating < 1 || rating > 5 {
            return Err(Failure::Escrow(EscrowError::InvalidRating));
        }
        if c.status != ContractStatus::Completed {
            return Err(Failure::Escrow(EscrowError::NotCompleted));
        }
        if self.reputation_issued[i] {
            return Err(Failure::Escrow(EscrowError::ReputationAlreadyIssued));
        }
        if c.client == c.freelancer {
            return Err(Failure::Escrow(EscrowError::SelfRating));
        }
        let pending = match get_value(&self.pending_credits, c.freelancer) {
            Some(v) => v,
            None => 0,
        };
        if pending <= 0 {
            return Err(Failure::Escrow(EscrowError::NotCompleted));
        }
        let new_pending = pending - 1;
        let rep = match get_value(&self.reputations, c.freelancer) {
            Some(r) => r,
            None => Reputation { completed_contracts: 0, total_rating: 0, last_rating: 0 },
        };
        let completed = match rep.completed_contracts.checked_add(1) {
            Some(v) => v,
            None => {
                return Err(Failure::Escrow(EscrowError::PotentialOverflow));
            },
        };
        let total_rating = match rep.total_rating.checked_add(rating) {
            Some(v) => v,
            None => {
                return Err(Failure::Escrow(EscrowError::PotentialOverflow));
            },
        };
        let ghost old_self = *self;
        self.reputation_issued.set(i, true);
        upsert(&mut self.pending_credits, c.freelancer, new_pending);
        upsert(
            &mut self.reputations,
            c.freelancer,
            Reputation { completed_contracts: completed, total_rating, last_rating: rating },
        );
        proof {
            assert(credits_nonneg(self.pending_credits@)) by {
                assert forall|a: Address| (#[trigger] lookup(self.pending_credits@, a)) is Some
                    implies lookup(self.pending_credits@, a).unwrap() >= 0 by {
                    if a != c.freelancer {
                        assert(lookup(old_self.pending_credits@, a) == lookup(self.pending_credits@, a));
                    }
                }
            }
            lemma_records_kept(old_self, *self);
            lemma_issued_count_set(old_self.reputation_issued@, i as int);
            let issued = issued_count(old_self.reputation_issued@);
            if lookup(old_self.reputations@, c.freelancer) is Some {
                assert(reputation_ok(lookup(old_self.reputations@, c.freelancer).unwrap(), issued));
            }
            lemma_rated_reputations(old_self.reputations@, self.reputations@, issued, c.freelancer);
        }
        Ok(true)
    }
}

} // verus!
