use vstd::prelude::*;

use crate::lifecycle::milestone_total;
use crate::milestones::{lemma_sum_bounds, released_count, total_amount};
use crate::state::{lemma_records_kept, record_wf, Escrow};
use crate::types::{
    Address, Contract, ContractStatus, ContractSummary, EscrowError, Failure, FinalizationRecord,
    Milestone, MilestoneSummary,
};

verus! {

/// The summary line of milestone `i`.
pub open spec fn milestone_line(ms: Seq<Milestone>, i: int) -> MilestoneSummary {
    MilestoneSummary {
        index: i as u32,
        amount: ms[i].amount,
        released: ms[i].released,
        refunded: ms[i].refunded,
    }
}

/// `s` summarizes contract `c` with milestones `ms`.
pub open spec fn summarizes(s: ContractSummary, c: Contract, ms: Seq<Milestone>) -> bool {
    &&& s.schema_version == 1
    &&& s.client == c.client
    &&& s.freelancer == c.freelancer
    &&& s.arbiter == c.arbiter
    &&& s.status == c.status
    &&& !s.reputation_issued
    &&& s.total_amount == total_amount(ms)
    &&& s.funded_amount == c.funded_amount
    &&& s.released_amount == c.released_amount
    &&& s.refundable_balance == c.funded_amount - c.released_amount - c.refunded_amount
    &&& s.released_milestone_count == released_count(ms)
    &&& s.milestones@ == Seq::new(ms.len(), |i: int| milestone_line(ms, i))
}

/// Two finalization records hold the same data.
pub open spec fn same_record(a: FinalizationRecord, b: FinalizationRecord) -> bool {
    &&& a.finalizer == b.finalizer
    &&& a.timestamp == b.timestamp
    &&& a.summary.schema_version == b.summary.schema_version
    &&& a.summary.client == b.summary.client
    &&& a.summary.freelancer == b.summary.freelancer
    &&& a.summary.arbiter == b.summary.arbiter
    &&& a.summary.status == b.summary.status
    &&& a.summary.reputation_issued == b.summary.reputation_issued
    &&& a.summary.total_amount == b.summary.total_amount
    &&& a.summary.funded_amount == b.summary.funded_amount
    &&& a.summary.released_amount == b.summary.released_amount
    &&& a.summary.refundable_balance == b.summary.refundable_balance
    &&& a.summary.released_milestone_count == b.summary.released_milestone_count
    &&& a.summary.milestones@ == b.summary.milestones@
}

impl Escrow {
    /// The error `finalize_contract` rejects with, if any, in check order.
    pub open spec fn finalize_precheck(&self, contract_id: u32) -> Result<(), Failure> {
        let c = self.contract_view(contract_id);
        if self.paused_view() {
            Err(Failure::Escrow(EscrowError::ContractPaused))
        } else if !self.has_contract(contract_id) {
            Err(Failure::Escrow(EscrowError::ContractNotFound))
        } else if c.status != ContractStatus::Completed && c.status != ContractStatus::Disputed {
            Err(Failure::Escrow(EscrowError::InvalidStatusTransition))
        } else if self.finalized_view(contract_id) {
            Err(Failure::Escrow(EscrowError::AlreadyFinalized))
        } else {
            Ok(())
        }
    }

    /// Seals a completed (or disputed) contract with a summary of its final
    /// state, stamped with `finalizer` and `timestamp`. Later deposits,
    /// releases, refunds and reputation issuance on it are refused.
    ///
    /// Authorization: `finalizer`.
    pub fn finalize_contract(&mut self, contract_id: u32, finalizer: Address, timestamp: u64) -> (r: Result<
        bool,
        Failure,
    >)
        requires
            old(self).wf(),
        ensures
            final(self).wf(),
            old(self).history_preserved(final(self)),
            old(self).finalize_precheck(contract_id) matches Err(e) ==> r == Err::<bool, Failure>(e)
                && *final(self) == *old(self),
            old(self).finalize_precheck(contract_id) is Ok ==> {
                &&& r == Ok::<bool, Failure>(true)
                &&& final(self).finalization_view(contract_id) matches Some(rec) && rec.finalizer
                    == finalizer && rec.timestamp == timestamp && summarizes(
                    rec.summary,
                    old(self).contract_view(contract_id),
                    old(self).milestones_view(contract_id),
                )
                &&& final(self).contract_view(contract_id) == old(self).contract_view(contract_id)
                &&& final(self).milestones_view(contract_id) == old(self).milestones_view(contract_id)
                &&& final(self).approvals_view(contract_id) == old(self).approvals_view(contract_id)
                &&& final(self).reputation_issued_view(contract_id) == old(self).reputation_issued_view(contract_id)
                &&& old(self).others_unchanged(final(self), contract_id)
                &&& old(self).globals_unchanged(final(self))
            },
    {
        if self.paused {
            return Err(Failure::Escrow(EscrowError::ContractPaused));
        }
        let i = match self.slot(contract_id) {
            Some(i) => i,
            None => {
                return Err(Failure::Escrow(EscrowError::ContractNotFound));
            },
        };
        let c = self.contracts[i];
        match c.status {
            ContractStatus::Completed | ContractStatus::Disputed => {},
            _ => {
                return Err(Failure::Escrow(EscrowError::InvalidStatusTransition));
            },
        }
        if self.finalizations[i].is_some() {
            return Err(Failure::Escrow(EscrowError::AlreadyFinalized));
        }
        let summary = self.summarize_contract(i);
        let ghost old_self = *self;
        self.finalizations.set(i, Some(FinalizationRecord { finalizer, timestamp, summary }));
        proof {
            lemma_records_kept(old_self, *self);
        }
        Ok(true)
    }

    /// The finalization record of a contract, if it has been finalized.
    pub fn get_finalization_record(&self, contract_id: u32) -> (r: Option<FinalizationRecord>)
        requires
            self.wf(),
        ensures
            match r {
                Some(rec) => self.has_contract(contract_id) && (self.finalization_view(
                    contract_id,
                ) matches Some(stored) && same_record(rec, stored)),
                None => !self.has_contract(contract_id) || !self.finalized_view(contract_id),
            },
    {
        let i = match self.slot(contract_id) {
            Some(i) => i,
            None => {
                return None;
            },
        };
        match &self.finalizations[i] {
            None => None,
            Some(rec) => {
                let s = &rec.summary;
                let mut lines: Vec<MilestoneSummary> = Vec::new();
                let mut k: usize = 0;
                while k < s.milestones.len()
                    invariant
                        0 <= k <= s.milestones@.len(),
                        lines@ == s.milestones@.take(k as int),
                    decreases s.milestones.len() - k,
                {
                    lines.push(s.milestones[k]);
                    k = k + 1;
                    proof {
                        assert(lines@ =~= s.milestones@.take(k as int));
                    }
                }
                proof {
                    assert(s.milestones@.take(k as int) =~= s.milestones@);
                }
                Some(
                    FinalizationRecord {
                        finalizer: rec.finalizer,
                        timestamp: rec.timestamp,
                        summary: ContractSummary {
                            schema_version: s.schema_version,
                            client: s.client,
                            freelancer: s.freelancer,
                            arbiter: s.arbiter,
                            status: s.status,
                            reputation_issued: s.reputation_issued,
                            total_amount: s.total_amount,
                            funded_amount: s.funded_amount,
                            released_amount: s.released_amount,
                            refundable_balance: s.refundable_balance,
                            released_milestone_count: s.released_milestone_count,
                            milestones: lines,
                        },
                    },
                )
            },
        }
    }

    /// Builds the summary of the contract stored at position `i`.
    pub(crate) fn summarize_contract(&self, i: usize) -> (r: ContractSummary)
        requires
            self.wf(),
            i < self.contracts@.len(),
        ensures
            summarizes(r, self.contracts@[i as int], self.milestones@[i as int]@),
    {
        let c = self.contracts[i];
        let ms = &self.milestones[i];
        proof {
            assert(record_wf(c, ms@, self.approvals@[i as int]@));
            lemma_sum_bounds(ms@);
        }
        let total = milestone_total(ms);
        let mut lines: Vec<MilestoneSummary> = Vec::new();
        let mut released: u32 = 0;
        let mut k: usize = 0;
        while k < ms.len()
            invariant
                0 <= k <= ms@.len(),
                ms@.len() <= u32::MAX,
                lines@.len() == k,
                forall|j: int| 0 <= j < k ==> #[trigger] lines@[j] == milestone_line(ms@, j),
                released == released_count(ms@.take(k as int)),
                0 <= released <= k,
            decreases ms.len() - k,
        {
            let m = ms[k];
            lines.push(
                MilestoneSummary {
                    index: k as u32,
                    amount: m.amount,
                    released: m.released,
                    refunded: m.refunded,
                },
            );
            proof {
                assert(ms@.take(k as int + 1).drop_last() =~= ms@.take(k as int));
            }
            if m.released {
                released = released + 1;
            }
            k = k + 1;
        }
        proof {
            assert(ms@.take(k as int) =~= ms@);
            assert(lines@ =~= Seq::new(ms@.len(), |j: int| milestone_line(ms@, j)));
        }
        ContractSummary {
            schema_version: 1,
            client: c.client,
            freelancer: c.freelancer,
            arbiter: c.arbiter,
            status: c.status,
            reputation_issued: false,
            total_amount: total,
            funded_amount: c.funded_amount,
            released_amount: c.released_amount,
            refundable_balance: c.funded_amount - c.released_amount - c.refunded_amount,
            released_milestone_count: released,
            milestones: lines,
        }
    }
}

} // verus!
