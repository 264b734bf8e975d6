use vstd::prelude::*;

use crate::amounts::MAX_TOTAL_ESCROW_STROOPS;
use crate::milestones::{
    all_refunded, all_settled, lemma_sum_bounds, lemma_total_amount_same, lemma_update_sums,
    refunded_total, released_total, same_amounts, total_amount,
};
use crate::release::all_settled_exec;
use crate::state::{copy_milestones, lemma_records_replaced, record_wf, Escrow};
use crate::types::{Contract, ContractStatus, Error, EscrowError, Failure, Milestone};

verus! {

/// Some index occurs twice.
pub open spec fn has_duplicates(idxs: Seq<u32>) -> bool {
    exists|i: int, j: int| 0 <= i < j < idxs.len() && idxs[i] == idxs[j]
}

/// Position `j` is among the requested indices.
pub open spec fn marked(idxs: Seq<u32>, j: int) -> bool {
    exists|p: int| 0 <= p < idxs.len() && idxs[p] as int == j
}

/// A milestone after being refunded.
pub open spec fn refund_of(m: Milestone) -> Milestone {
    Milestone { refunded: true, refunded_amount: m.amount, ..m }
}

/// The milestones after refunding the requested positions.
pub open spec fn refund_mark(ms: Seq<Milestone>, idxs: Seq<u32>) -> Seq<Milestone> {
    Seq::new(ms.len(), |j: int| if marked(idxs, j) { refund_of(ms[j]) } else { ms[j] })
}

/// Checks the requested indices in order: the first one out of range,
/// released or already refunded decides the error; otherwise the result is
/// the sum of their amounts.
pub open spec fn refund_scan(ms: Seq<Milestone>, idxs: Seq<u32>) -> Result<int, Failure>
    decreases idxs.len(),
{
    if idxs.len() == 0 {
        Ok(0)
    } else {
        let i = idxs[0] as int;
        if i >= ms.len() {
            Err(Failure::Core(Error::IndexOutOfBounds))
        } else if ms[i].released {
            Err(Failure::Core(Error::AlreadyReleased))
        } else if ms[i].refunded {
            Err(Failure::Core(Error::AlreadyRefunded))
        } else {
            match refund_scan(ms, idxs.drop_first()) {
                Ok(t) => Ok(ms[i].amount + t),
                Err(e) => Err(e),
            }
        }
    }
}

/// The status after a refund: once every milestone is settled the contract
/// is `Refunded` if all were refunded and `Completed` otherwise.
pub open spec fn status_after_refund(ms: Seq<Milestone>, status: ContractStatus) -> ContractStatus {
    if all_settled(ms) {
        if all_refunded(ms) {
            ContractStatus::Refunded
        } else {
            ContractStatus::Completed
        }
    } else {
        status
    }
}

impl Escrow {
    /// What `refund_unreleased_milestones` decides: the error, in check
    /// order, or the total amount to refund.
    pub open spec fn refund_precheck(&self, contract_id: u32, idxs: Seq<u32>) -> Result<int, Failure> {
        let c = self.contract_view(contract_id);
        if idxs.len() == 0 {
            Err(Failure::Core(Error::EmptyRefundRequest))
        } else if has_duplicates(idxs) {
            Err(Failure::Core(Error::DuplicateMilestoneInRefund))
        } else if !self.has_contract(contract_id) {
            Err(Failure::Core(Error::ContractNotFound))
        } else if self.finalized_view(contract_id) {
            Err(Failure::Escrow(EscrowError::AlreadyFinalized))
        } else {
            match refund_scan(self.milestones_view(contract_id), idxs) {
                Err(e) => Err(e),
                Ok(t) => if c.funded_amount - c.released_amount - c.refunded_amount < t {
                    Err(Failure::Core(Error::InsufficientFunds))
                } else {
                    Ok(t)
                },
            }
        }
    }

    /// Refunds the listed unreleased milestones to the client and returns the
    /// total refunded. Either every listed milestone is refunded or, on any
    /// error, nothing changes.
    ///
    /// Authorization: the contract's client.
    #[verifier::rlimit(40)]
    #[verifier::spinoff_prover]
    pub fn refund_unreleased_milestones(&mut self, contract_id: u32, milestone_indices: &[u32]) -> (r: Result<
        i128,
        Failure,
    >)
        requires
            old(self).wf(),
        ensures
            final(self).wf(),
            old(self).history_preserved(final(self)),
            old(self).refund_precheck(contract_id, milestone_indices@) matches Err(e) ==> r == Err::<
                i128,
                Failure,
            >(e) && *final(self) == *old(self),
            old(self).refund_precheck(contract_id, milestone_indices@) matches Ok(t) ==> {
                let c = old(self).contract_view(contract_id);
                let nm = refund_mark(old(self).milestones_view(contract_id), milestone_indices@);
                &&& r == Ok::<i128, Failure>(t as i128)
                &&& final(self).milestones_view(contract_id) == nm
                &&& final(self).contract_view(contract_id) == Contract {
                    refunded_amount: (c.refunded_amount + t) as i128,
                    status: status_after_refund(nm, c.status),
                    ..c
                }
                &&& final(self).approvals_view(contract_id) == old(self).approvals_view(contract_id)
                &&& final(self).reputation_issued_view(contract_id) == old(self).reputation_issued_view(contract_id)
                &&& final(self).finalization_view(contract_id) == old(self).finalization_view(contract_id)
                &&& old(self).others_unchanged(final(self), contract_id)
                &&& old(self).globals_unchanged(final(self))
            },
    {
        let n = milestone_indices.len();
        if n == 0 {
            return Err(Failure::Core(Error::EmptyRefundRequest));
        }
        if has_duplicate_indices(milestone_indices) {
            return Err(Failure::Core(Error::DuplicateMilestoneInRefund));
        }
        let i = match self.slot(contract_id) {
            Some(i) => i,
            None => {
                return Err(Failure::Core(Error::ContractNotFound));
            },
        };
        if self.finalizations[i].is_some() {
            return Err(Failure::Escrow(EscrowError::AlreadyFinalized));
        }
        let c = self.contracts[i];
        let ghost ms0 = self.milestones@[i as int]@;
        let ghost idxs = milestone_indices@;
        proof {
            assert(record_wf(c, ms0, self.approvals@[i as int]@));
            lemma_sum_bounds(ms0);
        }
        let (ms, total) = match mark_refunds(&self.milestones[i], milestone_indices) {
            Ok(p) => p,
            Err(e) => {
                return Err(e);
            },
        };
        let available = c.funded_amount - c.released_amount - c.refunded_amount;
        if available < total {
            return Err(Failure::Core(Error::InsufficientFunds));
        }
        let done = all_settled_exec(&ms);
        let new_status = if done {
            if all_refunded_exec(&ms) {
                ContractStatus::Refunded
            } else {
                ContractStatus::Completed
            }
        } else {
            c.status
        };
        let nc = Contract { refunded_amount: c.refunded_amount + total, status: new_status, ..c };
        proof {
            lemma_refund_record(c, ms0, idxs, self.approvals@[i as int]@, total as int);
            assert(nc == refunded_contract(c, ms@, total as int));
        }
        let ghost old_self = *self;
        self.contracts.set(i, nc);
        self.milestones.set(i, ms);
        proof {
            lemma_records_replaced(old_self, *self, i as int);
        }
        Ok(total)
    }
}


/// The contract after refunding `t` with resulting milestones `nm`.
pub open spec fn refunded_contract(c: Contract, nm: Seq<Milestone>, t: int) -> Contract {
    Contract { refunded_amount: (c.refunded_amount + t) as i128, status: status_after_refund(nm, c.status), ..c }
}

proof fn lemma_refund_record(c: Contract, ms0: Seq<Milestone>, idxs: Seq<u32>, aps: Seq<Option<crate::types::MilestoneApprovals>>, t: int)
    requires
        record_wf(c, ms0, aps),
        refund_scan(ms0, idxs) == Ok::<int, Failure>(t),
        idxs.len() > 0,
        t == refunded_total(refund_mark(ms0, idxs)) - refunded_total(ms0),
        released_total(refund_mark(ms0, idxs)) == released_total(ms0),
        c.funded_amount - c.released_amount - c.refunded_amount >= t,
    ensures
        record_wf(refunded_contract(c, refund_mark(ms0, idxs), t), refund_mark(ms0, idxs), aps),
{
    let nm = refund_mark(ms0, idxs);
    assert(same_amounts(nm, ms0));
    lemma_total_amount_same(nm, ms0);
    let j = idxs[0] as int;
    assert(marked(idxs, j));
    assert(!all_settled(ms0)) by {
        assert(!ms0[j].released && !ms0[j].refunded);
    }
    assert(nm[j].refunded && !nm[j].released);
    assert(crate::milestones::milestone_books(nm, c.funded_amount as int)) by {
        assert forall|k: int| 0 <= k < nm.len() implies (#[trigger] nm[k]).funded_amount
            == crate::milestones::covered(nm[k].amount as int, total_amount(nm.take(k)), c.funded_amount as int)
            && nm[k].refunded_amount == (if nm[k].refunded {
            nm[k].amount
        } else {
            0
        }) by {
            assert(ms0[k].refunded_amount == (if ms0[k].refunded {
                ms0[k].amount
            } else {
                0
            }));
        }
    }
    assert forall|k: int| 0 <= k < nm.len() implies !((#[trigger] nm[k]).released && nm[k].refunded) by {
        if marked(idxs, k) {
            let p = choose|p: int| 0 <= p < idxs.len() && idxs[p] as int == k;
            lemma_scan_member(ms0, idxs, p);
        }
    }
    let nc = refunded_contract(c, nm, t);
    crate::milestones::lemma_sum_bounds(nm);
    assert(nc.refunded_amount == refunded_total(nm));
    assert(nc.released_amount == released_total(nm));
    assert(released_total(nm) + refunded_total(nm) <= nc.funded_amount);
    assert(all_settled(nm) ==> (nc.status == ContractStatus::Completed || nc.status
        == ContractStatus::Refunded));
    assert(nc.status == ContractStatus::Completed ==> all_settled(nm)
        && !crate::milestones::all_refunded(nm));
    assert(nc.status == ContractStatus::Funded ==> nc.funded_amount == total_amount(nm));
}

/// Every index a successful scan passes names an unsettled milestone.
proof fn lemma_scan_member(ms: Seq<Milestone>, idxs: Seq<u32>, p: int)
    requires
        refund_scan(ms, idxs) is Ok,
        0 <= p < idxs.len(),
    ensures
        0 <= idxs[p] < ms.len(),
        !ms[idxs[p] as int].released,
        !ms[idxs[p] as int].refunded,
    decreases idxs.len(),
{
    if p > 0 {
        lemma_scan_member(ms, idxs.drop_first(), p - 1);
    }
}

/// Whether some index occurs twice.
fn has_duplicate_indices(idxs: &[u32]) -> (r: bool)
    ensures
        r == has_duplicates(idxs@),
{
    let n = idxs.len();
    let mut a: usize = 0;
    while a < n
        invariant
            n == idxs@.len(),
            0 <= a <= n,
            forall|p: int, q: int| 0 <= p < a && p < q < n ==> idxs@[p] != idxs@[q],
        decreases n - a,
    {
        let mut b: usize = a + 1;
        while b < n
            invariant
                n == idxs@.len(),
                0 <= a < n,
                a + 1 <= b <= n,
                forall|p: int, q: int| 0 <= p < a && p < q < n ==> idxs@[p] != idxs@[q],
                forall|q: int| a < q < b ==> idxs@[a as int] != idxs@[q],
            decreases n - b,
        {
            if idxs[a] == idxs[b] {
                proof {
                    assert(idxs@[a as int] == idxs@[b as int]);
                }
                return true;
            }
            b = b + 1;
        }
        a = a + 1;
    }
    false
}

/// Validates the requested indices in order against the milestones and
/// returns the milestones with those refunded, plus the refunded total.
fn mark_refunds(milestones: &Vec<Milestone>, milestone_indices: &[u32]) -> (r: Result<
    (Vec<Milestone>, i128),
    Failure,
>)
    requires
        !has_duplicates(milestone_indices@),
        forall|j: int| 0 <= j < milestones@.len() ==> (#[trigger] milestones@[j]).amount > 0,
        forall|j: int|
            0 <= j < milestones@.len() ==> !((#[trigger] milestones@[j]).released
                && milestones@[j].refunded),
        total_amount(milestones@) <= MAX_TOTAL_ESCROW_STROOPS,
    ensures
        match refund_scan(milestones@, milestone_indices@) {
            Err(e) => r == Err::<(Vec<Milestone>, i128), Failure>(e),
            Ok(t) => r matches Ok(p) && p.1 == t && p.0@ == refund_mark(
                milestones@,
                milestone_indices@,
            ) && t == refunded_total(p.0@) - refunded_total(milestones@) && released_total(p.0@)
                == released_total(milestones@) && 0 <= t,
        },
{
    let n = milestone_indices.len();
    let ghost ms0 = milestones@;
    let ghost idxs = milestone_indices@;
    proof {
        lemma_sum_bounds(ms0);
    }
    let mut ms = copy_milestones(milestones);
    let mut total: i128 = 0;
    let mut k: usize = 0;
    proof {
        assert(ms@ =~= refund_mark(ms0, idxs.take(0)));
        assert(idxs.skip(0) =~= idxs);
    }
    while k < n
        invariant
            n == idxs.len(),
            idxs == milestone_indices@,
            ms0 == milestones@,
            0 <= k <= n,
            !has_duplicates(idxs),
            ms@ == refund_mark(ms0, idxs.take(k as int)),
            same_amounts(ms@, ms0),
            forall|j: int| 0 <= j < ms0.len() ==> !((#[trigger] ms@[j]).released && ms@[j].refunded),
            forall|j: int| 0 <= j < ms0.len() ==> (#[trigger] ms@[j]).amount > 0,
            total == refunded_total(ms@) - refunded_total(ms0),
            released_total(ms@) == released_total(ms0),
            0 <= refunded_total(ms0),
            0 <= total,
            refunded_total(ms@) + released_total(ms@) <= total_amount(ms0),
            total_amount(ms@) == total_amount(ms0),
            total_amount(ms0) <= MAX_TOTAL_ESCROW_STROOPS,
            refund_scan(ms0, idxs) == (match refund_scan(ms0, idxs.skip(k as int)) {
                Ok(t) => Ok::<int, Failure>(total + t),
                Err(e) => Err::<int, Failure>(e),
            }),
        decreases n - k,
    {
        let idx = milestone_indices[k] as usize;
        proof {
            assert(idxs.skip(k as int)[0] == idxs[k as int]);
            assert(idxs.skip(k as int).drop_first() =~= idxs.skip(k as int + 1));
        }
        if idx >= ms.len() {
            proof {
                assert(refund_scan(ms0, idxs.skip(k as int)) == Err::<int, Failure>(
                    Failure::Core(Error::IndexOutOfBounds),
                ));
                assert(refund_scan(ms0, idxs) == Err::<int, Failure>(
                    Failure::Core(Error::IndexOutOfBounds),
                ));
            }
            return Err(Failure::Core(Error::IndexOutOfBounds));
        }
        let m = ms[idx];
        proof {
            assert(!marked(idxs.take(k as int), idx as int)) by {
                if marked(idxs.take(k as int), idx as int) {
                    let p = choose|p: int|
                        0 <= p < idxs.take(k as int).len() && idxs.take(k as int)[p] as int
                            == idx as int;
                    assert(idxs[p] == idxs[k as int]);
                }
            }
            assert(m == ms0[idx as int]);
        }
        if m.released {
            proof {
                assert(refund_scan(ms0, idxs.skip(k as int)) == Err::<int, Failure>(
                    Failure::Core(Error::AlreadyReleased),
                ));
            }
            return Err(Failure::Core(Error::AlreadyReleased));
        }
        if m.refunded {
            proof {
                assert(refund_scan(ms0, idxs.skip(k as int)) == Err::<int, Failure>(
                    Failure::Core(Error::AlreadyRefunded),
                ));
            }
            return Err(Failure::Core(Error::AlreadyRefunded));
        }
        let nmilestone = Milestone { refunded: true, refunded_amount: m.amount, ..m };
        proof {
            lemma_update_sums(ms@, idx as int, nmilestone);
            let u = ms@.update(idx as int, nmilestone);
            assert forall|j: int| 0 <= j < u.len() implies !((#[trigger] u[j]).released
                && u[j].refunded) by {}
            assert forall|j: int| 0 <= j < u.len() implies (#[trigger] u[j]).amount > 0 by {}
            lemma_sum_bounds(u);
            assert(total_amount(u) == total_amount(ms0));
            assert(refunded_total(u) == refunded_total(ms@) + m.amount);
            assert(total + m.amount <= MAX_TOTAL_ESCROW_STROOPS);
        }
        ms.set(idx, nmilestone);
        total = total + m.amount;
        k = k + 1;
        proof {
            assert forall|j: int| 0 <= j < ms0.len() implies #[trigger] ms@[j] == refund_mark(
                ms0,
                idxs.take(k as int),
            )[j] by {
                if j == idx as int {
                    assert(idxs.take(k as int)[k - 1] == idxs[k - 1]);
                    assert(marked(idxs.take(k as int), j));
                } else if marked(idxs.take(k as int), j) {
                    let p = choose|p: int|
                        0 <= p < idxs.take(k as int).len() && idxs.take(k as int)[p] as int == j;
                    assert(p < k - 1);
                    assert(idxs.take(k - 1)[p] == idxs[p]);
                    assert(marked(idxs.take(k - 1), j));
                } else {
                    assert forall|p: int| 0 <= p < k - 1 implies (#[trigger] idxs.take(k - 1)[p]) as int
                        != j by {
                        assert(idxs.take(k - 1)[p] == idxs.take(k as int)[p]);
                    }
                }
            }
            assert(ms@ =~= refund_mark(ms0, idxs.take(k as int)));
        }
    }
    proof {
        assert(idxs.skip(k as int).len() == 0);
        assert(idxs.take(k as int) =~= idxs);
    }
    Ok((ms, total))
}

/// Whether every milestone has been refunded.
pub(crate) fn all_refunded_exec(ms: &Vec<Milestone>) -> (r: bool)
    ensures
        r == all_refunded(ms@),
{
    let mut k: usize = 0;
    while k < ms.len()
        invariant
            0 <= k <= ms@.len(),
            forall|j: int| 0 <= j < k ==> (#[trigger] ms@[j]).refunded,
        decreases ms.len() - k,
    {
        if !ms[k].refunded {
            return false;
        }
        k = k + 1;
    }
    true
}

} // verus!
