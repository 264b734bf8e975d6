use vstd::prelude::*;

use crate::amounts::{
    lemma_scan_ok, milestone_scan, validate_deposit_amount, validate_milestone_amounts,
    deposit_check, MAX_TOTAL_ESCROW_STROOPS,
};
use crate::milestones::{
    all_settled, covered, fresh_milestones, lemma_amount_le_total, lemma_fresh_total, lemma_same_flags,
    lemma_sum_bounds, lemma_take_step, lemma_total_amount_same, lemma_unsettled_totals,
    milestone_books, redistribute, same_flags, settled, total_amount,
};
use crate::state::{copy_milestones, lemma_issued_count_push, lemma_records_replaced, record_wf, Escrow};
use crate::types::{
    Address, Contract, ContractStatus, Error, EscrowError, Failure, Milestone, MilestoneApprovals,
    ReleaseAuthorization,
};

verus! {

/// The error `create_contract` rejects with, if any, in the order the checks run.
pub open spec fn create_precheck(
    paused: bool,
    count: nat,
    client: Address,
    freelancer: Address,
    arbiter: Option<Address>,
    amounts: Seq<i128>,
    mode: ReleaseAuthorization,
) -> Result<(), Failure> {
    if paused {
        Err(Failure::Escrow(EscrowError::ContractPaused))
    } else if client == freelancer {
        Err(Failure::Escrow(EscrowError::InvalidParticipant))
    } else if arbiter matches Some(a) && (a == client || a == freelancer) {
        Err(Failure::Core(Error::InvalidArbiter))
    } else if arbiter is None && (mode == ReleaseAuthorization::ArbiterOnly || mode
        == ReleaseAuthorization::ClientAndArbiter) {
        Err(Failure::Core(Error::MissingArbiter))
    } else if amounts.len() == 0 {
        Err(Failure::Escrow(EscrowError::EmptyMilestones))
    } else if amounts.len() > MAX_MILESTONES {
        Err(Failure::Escrow(EscrowError::InvalidMilestone))
    } else if let Err(e) = milestone_scan(amounts, 0, MAX_TOTAL_ESCROW_STROOPS as int) {
        Err(Failure::Escrow(e))
    } else if count >= u32::MAX {
        Err(Failure::Core(Error::ContractIdOverflow))
    } else {
        Ok(())
    }
}

/// Most milestones a contract may have (the protocol's default limit).
pub const MAX_MILESTONES: usize = 16;

/// A newly created contract record.
pub open spec fn new_contract(
    client: Address,
    freelancer: Address,
    arbiter: Option<Address>,
    mode: ReleaseAuthorization,
) -> Contract {
    Contract {
        client,
        freelancer,
        arbiter,
        status: ContractStatus::Created,
        total_deposited: 0,
        funded_amount: 0,
        released_amount: 0,
        refunded_amount: 0,
        release_authorization: mode,
        reputation_issued: false,
    }
}

/// The status a deposit leaves: fully funded or partially funded.
pub open spec fn funding_status(funded: int, total: int) -> ContractStatus {
    if funded == total {
        ContractStatus::Funded
    } else {
        ContractStatus::PartiallyFunded
    }
}

impl Escrow {
    /// Contracts that existed before are unchanged (new ones may follow).
    pub open spec fn existing_unchanged(&self, other: &Escrow) -> bool {
        &&& other.contract_count() >= self.contract_count()
        &&& forall|k: u32|
            #![trigger other.contract_view(k)]
            #![trigger other.milestones_view(k)]
            #![trigger other.approvals_view(k)]
            #![trigger other.reputation_issued_view(k)]
            #![trigger other.finalization_view(k)]
            self.has_contract(k) ==> {
                &&& other.contract_view(k) == self.contract_view(k)
                &&& other.milestones_view(k) == self.milestones_view(k)
                &&& other.approvals_view(k) == self.approvals_view(k)
                &&& other.reputation_issued_view(k) == self.reputation_issued_view(k)
                &&& other.finalization_view(k) == self.finalization_view(k)
            }
    }

    /// The error `deposit_funds` rejects with, if any, in check order.
    pub open spec fn deposit_precheck(&self, contract_id: u32, caller: Address, amount: i128) -> Result<
        (),
        Failure,
    > {
        let c = self.contract_view(contract_id);
        let total = total_amount(self.milestones_view(contract_id));
        if self.paused_view() {
            Err(Failure::Escrow(EscrowError::ContractPaused))
        } else if !self.has_contract(contract_id) {
            Err(Failure::Core(Error::ContractNotFound))
        } else if self.finalized_view(contract_id) {
            Err(Failure::Escrow(EscrowError::AlreadyFinalized))
        } else if caller != c.client {
            Err(Failure::Core(Error::UnauthorizedRole))
        } else if c.status != ContractStatus::Created && c.status
            != ContractStatus::PartiallyFunded {
            Err(Failure::Core(Error::InvalidState))
        } else if let Err(e) = deposit_check(
            amount as int,
            c.funded_amount as int,
            MAX_TOTAL_ESCROW_STROOPS as int,
        ) {
            Err(Failure::Escrow(e))
        } else if c.funded_amount + amount > total {
            Err(Failure::Escrow(EscrowError::InvalidDepositAmount))
        } else {
            Ok(())
        }
    }

    /// The error `cancel_contract` rejects with, if any, in check order.
    pub open spec fn cancel_precheck(&self, contract_id: u32, caller: Address) -> Result<(), Failure> {
        let c = self.contract_view(contract_id);
        if self.paused_view() {
            Err(Failure::Escrow(EscrowError::ContractPaused))
        } else if !self.has_contract(contract_id) {
            Err(Failure::Core(Error::ContractNotFound))
        } else if caller != c.client && caller != c.freelancer {
            Err(Failure::Core(Error::UnauthorizedRole))
        } else if c.status != ContractStatus::Created && c.status
            != ContractStatus::PartiallyFunded && c.status != ContractStatus::Funded {
            Err(Failure::Core(Error::InvalidState))
        } else {
            Ok(())
        }
    }

    /// Creates an escrow contract between `client` and `freelancer` with the
    /// given milestone amounts (one to `MAX_MILESTONES` of them) and returns
    /// its id (ids count up from 1).
    ///
    /// Authorization: `client`.
    #[verifier::spinoff_prover]
    pub fn create_contract(
        &mut self,
        client: Address,
        freelancer: Address,
        arbiter: Option<Address>,
        milestone_amounts: &[i128],
        release_authorization: ReleaseAuthorization,
    ) -> (r: Result<u32, Failure>)
        requires
            old(self).wf(),
        ensures
            final(self).wf(),
            old(self).history_preserved(final(self)),
            create_precheck(
                old(self).paused_view(),
                old(self).contract_count(),
                client,
                freelancer,
                arbiter,
                milestone_amounts@,
                release_authorization,
            ) matches Err(e) ==> r == Err::<u32, Failure>(e) && *final(self) == *old(self),
            create_precheck(
                old(self).paused_view(),
                old(self).contract_count(),
                client,
                freelancer,
                arbiter,
                milestone_amounts@,
                release_authorization,
            ) is Ok ==> {
                let id = (old(self).contract_count() + 1) as u32;
                &&& r == Ok::<u32, Failure>(id)
                &&& final(self).contract_count() == old(self).contract_count() + 1
                &&& final(self).contract_view(id) == new_contract(
                    client,
                    freelancer,
                    arbiter,
                    release_authorization,
                )
                &&& final(self).milestones_view(id) == fresh_milestones(milestone_amounts@)
                &&& final(self).approvals_view(id) == Seq::new(
                    milestone_amounts@.len(),
                    |i: int| None::<MilestoneApprovals>,
                )
                &&& !final(self).reputation_issued_view(id)
                &&& !final(self).finalized_view(id)
                &&& old(self).existing_unchanged(final(self))
                &&& old(self).globals_unchanged(final(self))
            },
    {
        if self.paused {
            return Err(Failure::Escrow(EscrowError::ContractPaused));
        }
        if client == freelancer {
            return Err(Failure::Escrow(EscrowError::InvalidParticipant));
        }
        match arbiter {
            Some(a) => {
                if a == client || a == freelancer {
                    return Err(Failure::Core(Error::InvalidArbiter));
                }
            },
            None => {
                match release_authorization {
                    ReleaseAuthorization::ArbiterOnly | ReleaseAuthorization::ClientAndArbiter => {
                        return Err(Failure::Core(Error::MissingArbiter));
                    },
                    _ => {},
                }
            },
        }
        if milestone_amounts.len() == 0 {
            return Err(Failure::Escrow(EscrowError::EmptyMilestones));
        }
        if milestone_amounts.len() > MAX_MILESTONES {
            return Err(Failure::Escrow(EscrowError::InvalidMilestone));
        }
        let total = match validate_milestone_amounts(milestone_amounts, MAX_TOTAL_ESCROW_STROOPS) {
            Ok(t) => t,
            Err(e) => {
                return Err(Failure::Escrow(e));
            },
        };
        let count = self.contracts.len();
        if count >= 4294967295usize {
            return Err(Failure::Core(Error::ContractIdOverflow));
        }
        proof {
            lemma_scan_ok(milestone_amounts@, 0, MAX_TOTAL_ESCROW_STROOPS as int);
            lemma_fresh_total(milestone_amounts@);
        }
        let mut ms: Vec<Milestone> = Vec::new();
        let mut aps: Vec<Option<MilestoneApprovals>> = Vec::new();
        let mut i: usize = 0;
        while i < milestone_amounts.len()
            invariant
                0 <= i <= milestone_amounts@.len(),
                ms@.len() == i,
                aps@.len() == i,
                forall|k: int| 0 <= k < i ==> #[trigger] ms@[k] == fresh_milestones(milestone_amounts@)[k],
                forall|k: int| 0 <= k < i ==> #[trigger] aps@[k] == None::<MilestoneApprovals>,
            decreases milestone_amounts.len() - i,
        {
            ms.push(
                Milestone {
                    amount: milestone_amounts[i],
                    funded_amount: 0,
                    released: false,
                    refunded: false,
                    refunded_amount: 0,
                },
            );
            aps.push(None);
            i = i + 1;
        }
        let c = Contract {
            client,
            freelancer,
            arbiter,
            status: ContractStatus::Created,
            total_deposited: 0,
            funded_amount: 0,
            released_amount: 0,
            refunded_amount: 0,
            release_authorization,
            reputation_issued: false,
        };
        proof {
            let fm = fresh_milestones(milestone_amounts@);
            assert(ms@ =~= fm);
            assert(aps@ =~= Seq::new(milestone_amounts@.len(), |i: int| None::<MilestoneApprovals>));
            lemma_unsettled_totals(fm);
            assert forall|k: int| 0 <= k < fm.len() implies (#[trigger] fm[k]).funded_amount == covered(
                fm[k].amount as int,
                total_amount(fm.take(k)),
                0,
            ) by {
                lemma_amount_le_total(fm, k);
            }
            assert(!all_settled(fm)) by {
                assert(!settled(fm[0]));
            }
            assert(record_wf(c, ms@, aps@));
        }
        let ghost old_self = *self;
        self.contracts.push(c);
        self.milestones.push(ms);
        self.approvals.push(aps);
        self.reputation_issued.push(false);
        self.finalizations.push(None);
        proof {
            lemma_issued_count_push(old_self.reputation_issued@);
            assert forall|k: int| 0 <= k < self.contracts@.len() implies record_wf(
                #[trigger] self.contracts@[k],
                self.milestones@[k]@,
                self.approvals@[k]@,
            ) by {
                if k < old_self.contracts@.len() {
                    assert(self.contracts@[k] == old_self.contracts@[k]);
                    assert(self.milestones@[k] == old_self.milestones@[k]);
                    assert(self.approvals@[k] == old_self.approvals@[k]);
                }
            }
        }
        Ok((count + 1) as u32)
    }

    /// Deposits `amount` into contract `contract_id`. Deposits accumulate up
    /// to the milestone total; the contract is `Funded` once fully covered and
    /// `PartiallyFunded` before.
    ///
    /// Authorization: `caller`, which must be the contract's client.
    #[verifier::rlimit(40)]
    #[verifier::spinoff_prover]
    pub fn deposit_funds(&mut self, contract_id: u32, caller: Address, amount: i128) -> (r: Result<
        bool,
        Failure,
    >)
        requires
            old(self).wf(),
        ensures
            final(self).wf(),
            old(self).history_preserved(final(self)),
            old(self).deposit_precheck(contract_id, caller, amount) matches Err(e) ==> r == Err::<
                bool,
                Failure,
            >(e) && *final(self) == *old(self),
            old(self).deposit_precheck(contract_id, caller, amount) is Ok ==> {
                let c = old(self).contract_view(contract_id);
                let ms = old(self).milestones_view(contract_id);
                let funded = c.funded_amount + amount;
                &&& r == Ok::<bool, Failure>(true)
                &&& final(self).contract_view(contract_id) == Contract {
                    funded_amount: funded as i128,
                    total_deposited: funded as i128,
                    status: funding_status(funded, total_amount(ms)),
                    ..c
                }
                &&& final(self).milestones_view(contract_id) == redistribute(ms, funded)
                &&& final(self).approvals_view(contract_id) == old(self).approvals_view(contract_id)
                &&& final(self).reputation_issued_view(contract_id) == old(self).reputation_issued_view(contract_id)
                &&& final(self).finalization_view(contract_id) == old(self).finalization_view(contract_id)
                &&& old(self).others_unchanged(final(self), contract_id)
                &&& old(self).globals_unchanged(final(self))
            },
    {
        if self.paused {
            return Err(Failure::Escrow(EscrowError::ContractPaused));
        }
        let i = match self.slot(contract_id) {
            Some(i) => i,
            None => {
                return Err(Failure::Core(Error::ContractNotFound));
            },
        };
        if self.finalizations[i].is_some() {
            return Err(Failure::Escrow(EscrowError::AlreadyFinalized));
        }
        let c = self.contracts[i];
        if caller != c.client {
            return Err(Failure::Core(Error::UnauthorizedRole));
        }
        match c.status {
            ContractStatus::Created | ContractStatus::PartiallyFunded => {},
            _ => {
                return Err(Failure::Core(Error::InvalidState));
            },
        }
        let funded = match validate_deposit_amount(amount, c.funded_amount, MAX_TOTAL_ESCROW_STROOPS) {
            Ok(t) => t,
            Err(e) => {
                return Err(Failure::Escrow(e));
            },
        };
        let ghost old_ms = self.milestones@[i as int]@;
        proof {
            assert(record_wf(self.contracts@[i as int], old_ms, self.approvals@[i as int]@));
        }
        let mut ms = copy_milestones(&self.milestones[i]);
        let total = milestone_total(&ms);
        if funded > total {
            return Err(Failure::Escrow(EscrowError::InvalidDepositAmount));
        }
        let mut prefix: i128 = 0;
        let mut k: usize = 0;
        while k < ms.len()
            invariant
                ms@.len() == old_ms.len(),
                0 <= k <= old_ms.len(),
                forall|j: int| 0 <= j < old_ms.len() ==> (#[trigger] old_ms[j]).amount > 0,
                total == total_amount(old_ms),
                total <= MAX_TOTAL_ESCROW_STROOPS,
                0 <= funded <= total,
                prefix == total_amount(old_ms.take(k as int)),
                forall|j: int| 0 <= j < k ==> #[trigger] ms@[j] == redistribute(old_ms, funded as int)[j],
                forall|j: int| k <= j < old_ms.len() ==> #[trigger] ms@[j] == old_ms[j],
            decreases old_ms.len() - k,
        {
            let m = ms[k];
            proof {
                lemma_amount_le_total(old_ms, k as int);
                lemma_take_step(old_ms, k as int);
            }
            let avail = funded - prefix;
            let cov: i128 = if avail <= 0 {
                0
            } else if avail >= m.amount {
                m.amount
            } else {
                avail
            };
            ms.set(k, Milestone { funded_amount: cov, ..m });
            prefix = prefix + m.amount;
            k = k + 1;
        }
        let new_status = if funded == total {
            ContractStatus::Funded
        } else {
            ContractStatus::PartiallyFunded
        };
        let nc = Contract { funded_amount: funded, total_deposited: funded, status: new_status, ..c };
        proof {
            let nm = redistribute(old_ms, funded as int);
            assert(ms@ =~= nm);
            assert(same_flags(nm, old_ms));
            lemma_same_flags(nm, old_ms);
            lemma_total_amount_same(nm, old_ms);
            lemma_sum_bounds(old_ms);
            assert(milestone_books(nm, funded as int)) by {
                assert forall|j: int| 0 <= j < nm.len() implies (#[trigger] nm[j]).funded_amount
                    == covered(nm[j].amount as int, total_amount(nm.take(j)), funded as int) && nm[j].refunded_amount
                    == (if nm[j].refunded {
                    nm[j].amount
                } else {
                    0
                }) by {
                    assert(old_ms[j].refunded_amount == (if old_ms[j].refunded {
                        old_ms[j].amount
                    } else {
                        0
                    }));
                }
            }
            assert(!all_settled(old_ms));
            assert(record_wf(nc, ms@, self.approvals@[i as int]@));
        }
        let ghost old_self = *self;
        self.contracts.set(i, nc);
        self.milestones.set(i, ms);
        proof {
            lemma_records_replaced(old_self, *self, i as int);
        }
        Ok(true)
    }

    /// Cancels a contract on behalf of its client or freelancer while it is
    /// `Created`, `PartiallyFunded` or `Funded`; the contract becomes
    /// `Refunded`. Its balance stays recorded and is returned milestone by
    /// milestone through `refund_unreleased_milestones`.
    ///
    /// Authorization: `caller`.
    pub fn cancel_contract(&mut self, contract_id: u32, caller: Address) -> (r: Result<bool, Failure>)
        requires
            old(self).wf(),
        ensures
            final(self).wf(),
            old(self).history_preserved(final(self)),
            old(self).cancel_precheck(contract_id, caller) matches Err(e) ==> r == Err::<bool, Failure>(e)
                && *final(self) == *old(self),
            old(self).cancel_precheck(contract_id, caller) is Ok ==> {
                &&& r == Ok::<bool, Failure>(true)
                &&& final(self).contract_view(contract_id) == Contract {
                    status: ContractStatus::Refunded,
                    ..old(self).contract_view(contract_id)
                }
                &&& final(self).milestones_view(contract_id) == old(self).milestones_view(contract_id)
                &&& final(self).approvals_view(contract_id) == old(self).approvals_view(contract_id)
                &&& final(self).reputation_issued_view(contract_id) == old(self).reputation_issued_view(contract_id)
                &&& final(self).finalization_view(contract_id) == old(self).finalization_view(contract_id)
                &&& old(self).others_unchanged(final(self), contract_id)
                &&& old(self).globals_unchanged(final(self))
            },
    {
        if self.paused {
            return Err(Failure::Escrow(EscrowError::ContractPaused));
        }
        let i = match self.slot(contract_id) {
            Some(i) => i,
            None => {
                return Err(Failure::Core(Error::ContractNotFound));
            },
        };
        let c = self.contracts[i];
        if caller != c.client && caller != c.freelancer {
            return Err(Failure::Core(Error::UnauthorizedRole));
        }
        match c.status {
            ContractStatus::Created | ContractStatus::PartiallyFunded | ContractStatus::Funded => {},
            _ => {
                return Err(Failure::Core(Error::InvalidState));
            },
        }
        let nc = Contract { status: ContractStatus::Refunded, ..c };
        proof {
            assert(record_wf(c, self.milestones@[i as int]@, self.approvals@[i as int]@));
        }
        self.contracts.set(i, nc);
        Ok(true)
    }
}

/// Sum of the milestone amounts of a stored contract.
pub(crate) fn milestone_total(ms: &Vec<Milestone>) -> (r: i128)
    requires
        forall|j: int| 0 <= j < ms@.len() ==> (#[trigger] ms@[j]).amount > 0,
        total_amount(ms@) <= MAX_TOTAL_ESCROW_STROOPS,
    ensures
        r == total_amount(ms@),
{
    let mut t: i128 = 0;
    let mut k: usize = 0;
    while k < ms.len()
        invariant
            0 <= k <= ms@.len(),
            forall|j: int| 0 <= j < ms@.len() ==> (#[trigger] ms@[j]).amount > 0,
            total_amount(ms@) <= MAX_TOTAL_ESCROW_STROOPS,
            t == total_amount(ms@.take(k as int)),
        decreases ms.len() - k,
    {
        proof {
            lemma_amount_le_total(ms@, k as int);
            lemma_take_step(ms@, k as int);
        }
        t = t + ms[k].amount;
        k = k + 1;
    }
    proof {
        assert(ms@.take(k as int) =~= ms@);
    }
    t
}

} // verus!
