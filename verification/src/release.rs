use vstd::prelude::*;

use crate::amounts::MAX_TOTAL_ESCROW_STROOPS;
use crate::fees::{calculate_protocol_fee, protocol_fee};
use crate::milestones::{
    all_refunded, all_settled, lemma_amount_le_total, lemma_sum_bounds, lemma_total_amount_same,
    lemma_update_sums, same_amounts, settled,
};
use crate::registry::{get_value, lookup, upsert};
use crate::state::{
    copy_approvals, copy_milestones, credits_nonneg, lemma_records_replaced, record_wf, Escrow,
};
use crate::types::{
    Address, Contract, ContractStatus, Error, EscrowError, Failure, Milestone, MilestoneApprovals,
    ReleaseAuthorization,
};

verus! {

/// Ledgers an approval stays live after it was last recorded (about 7 days).
pub const PENDING_APPROVAL_TTL_LEDGERS: u64 = 120_960;

/// The participant roles a caller can act in.
pub enum Role {
    Client,
    Freelancer,
    Arbiter,
}

/// An approval record is live at `ledger` when it exists and has not expired.
pub open spec fn approval_live(rec: Option<MilestoneApprovals>, ledger: u32) -> bool {
    rec matches Some(a) && ledger <= a.live_until_ledger
}

/// The record `get_milestone_approvals` reports: the stored one if live.
pub open spec fn live_record(rec: Option<MilestoneApprovals>, ledger: u32) -> Option<MilestoneApprovals> {
    if approval_live(rec, ledger) {
        rec
    } else {
        None
    }
}

/// The role in which `caller` may approve a milestone under the contract's
/// release mode, if any.
pub open spec fn approver_role(c: Contract, caller: Address) -> Option<Role> {
    match c.release_authorization {
        ReleaseAuthorization::ClientOnly => if caller == c.client {
            Some(Role::Client)
        } else {
            None
        },
        ReleaseAuthorization::ArbiterOnly => if c.arbiter == Some(caller) {
            Some(Role::Arbiter)
        } else {
            None
        },
        ReleaseAuthorization::ClientAndArbiter => if caller == c.client {
            Some(Role::Client)
        } else if c.arbiter == Some(caller) {
            Some(Role::Arbiter)
        } else {
            None
        },
        ReleaseAuthorization::MultiSig => if caller == c.client {
            Some(Role::Client)
        } else if caller == c.freelancer {
            Some(Role::Freelancer)
        } else {
            None
        },
    }
}

/// Whether `caller` may trigger a release under the contract's release mode.
pub open spec fn may_release(c: Contract, caller: Address) -> bool {
    match c.release_authorization {
        ReleaseAuthorization::ClientOnly => caller == c.client,
        ReleaseAuthorization::ArbiterOnly => c.arbiter == Some(caller),
        ReleaseAuthorization::ClientAndArbiter => caller == c.client || c.arbiter == Some(caller),
        ReleaseAuthorization::MultiSig => caller == c.client || caller == c.freelancer,
    }
}

/// Whether the approval flag of `role` is set.
pub open spec fn has_approved(a: MilestoneApprovals, role: Role) -> bool {
    match role {
        Role::Client => a.client_approved,
        Role::Freelancer => a.freelancer_approved,
        Role::Arbiter => a.arbiter_approved,
    }
}

/// The approvals a release needs under each mode.
pub open spec fn quorum(mode: ReleaseAuthorization, a: MilestoneApprovals) -> bool {
    match mode {
        ReleaseAuthorization::ClientOnly => a.client_approved,
        ReleaseAuthorization::ArbiterOnly => a.arbiter_approved,
        ReleaseAuthorization::ClientAndArbiter => a.client_approved || a.arbiter_approved,
        ReleaseAuthorization::MultiSig => a.client_approved && a.freelancer_approved,
    }
}

/// The record after `role` approves at `ledger`: a live record is extended,
/// an expired or missing one is replaced by a fresh record; either way the
/// lifetime restarts at `ledger`.
pub open spec fn approved_record(rec: Option<MilestoneApprovals>, role: Role, ledger: u32) -> MilestoneApprovals {
    let base = if approval_live(rec, ledger) {
        rec.unwrap()
    } else {
        MilestoneApprovals {
            client_approved: false,
            freelancer_approved: false,
            arbiter_approved: false,
            live_until_ledger: 0,
        }
    };
    let live_until = (ledger + PENDING_APPROVAL_TTL_LEDGERS) as u64;
    match role {
        Role::Client => MilestoneApprovals { client_approved: true, live_until_ledger: live_until, ..base },
        Role::Freelancer => MilestoneApprovals {
            freelancer_approved: true,
            live_until_ledger: live_until,
            ..base
        },
        Role::Arbiter => MilestoneApprovals { arbiter_approved: true, live_until_ledger: live_until, ..base },
    }
}

/// Milestones of a contract in this status can be approved and released:
/// it has received funding (in part or in full) and is still open.
pub open spec fn accepts_approvals(status: ContractStatus) -> bool {
    status == ContractStatus::Funded || status == ContractStatus::PartiallyFunded
}

/// The fee a release of `amount` accrues under the escrow's settings.
pub open spec fn release_fee(initialized: bool, fee_bps: u32, amount: i128) -> int {
    if initialized && fee_bps > 0 {
        protocol_fee(amount as int, fee_bps as int)
    } else {
        0
    }
}

/// The contract after one of its milestones, of `amount`, was released,
/// leaving the milestones `nm`.
pub open spec fn released_contract(c: Contract, nm: Seq<Milestone>, amount: i128) -> Contract {
    Contract {
        released_amount: (c.released_amount + amount) as i128,
        status: if all_settled(nm) {
            ContractStatus::Completed
        } else {
            c.status
        },
        ..c
    }
}

/// Releasing an unsettled milestone covered by the available balance keeps
/// the contract's record well-formed.
proof fn lemma_release_record(c: Contract, ms0: Seq<Milestone>, aps: Seq<Option<MilestoneApprovals>>, idx: int)
    requires
        record_wf(c, ms0, aps),
        0 <= idx < ms0.len(),
        !ms0[idx].released,
        !ms0[idx].refunded,
        c.funded_amount - c.released_amount - c.refunded_amount >= ms0[idx].amount,
    ensures
        ({
            let nm = ms0.update(idx, Milestone { released: true, ..ms0[idx] });
            record_wf(released_contract(c, nm, ms0[idx].amount), nm, aps.update(idx, None))
        }),
{
    let m = Milestone { released: true, ..ms0[idx] };
    let nm = ms0.update(idx, m);
    lemma_sum_bounds(ms0);
    lemma_update_sums(ms0, idx, m);
    assert(same_amounts(nm, ms0));
    lemma_total_amount_same(nm, ms0);
    assert(forall|j: int| 0 <= j < nm.len() && j != idx ==> nm[j] == ms0[j]);
    assert(!all_refunded(nm)) by {
        assert(!nm[idx].refunded);
    }
    assert(!all_settled(ms0)) by {
        assert(!settled(ms0[idx]));
    }
}

impl Escrow {
    /// The error `approve_milestone_release` rejects with, if any, in check order.
    pub open spec fn approve_precheck(&self, contract_id: u32, caller: Address, milestone_index: u32, ledger: u32) -> Result<
        (),
        Failure,
    > {
        let c = self.contract_view(contract_id);
        let ms = self.milestones_view(contract_id);
        let rec = self.approvals_view(contract_id)[milestone_index as int];
        if self.paused_view() {
            Err(Failure::Escrow(EscrowError::ContractPaused))
        } else if !self.has_contract(contract_id) {
            Err(Failure::Core(Error::ContractNotFound))
        } else if !accepts_approvals(c.status) {
            Err(Failure::Core(Error::InvalidState))
        } else if milestone_index >= ms.len() {
            Err(Failure::Core(Error::IndexOutOfBounds))
        } else if approver_role(c, caller) is None {
            Err(Failure::Core(Error::UnauthorizedRole))
        } else if approval_live(rec, ledger) && has_approved(
            rec.unwrap(),
            approver_role(c, caller).unwrap(),
        ) {
            Err(Failure::Core(Error::AlreadyApproved))
        } else {
            Ok(())
        }
    }

    /// The error `release_milestone` rejects with, if any, in check order.
    pub open spec fn release_precheck(&self, contract_id: u32, caller: Address, milestone_index: u32, ledger: u32) -> Result<
        (),
        Failure,
    > {
        let c = self.contract_view(contract_id);
        let ms = self.milestones_view(contract_id);
        let m = ms[milestone_index as int];
        let rec = self.approvals_view(contract_id)[milestone_index as int];
        let nm = ms.update(milestone_index as int, Milestone { released: true, ..m });
        if self.paused_view() {
            Err(Failure::Escrow(EscrowError::ContractPaused))
        } else if !self.has_contract(contract_id) {
            Err(Failure::Core(Error::ContractNotFound))
        } else if self.finalized_view(contract_id) {
            Err(Failure::Escrow(EscrowError::AlreadyFinalized))
        } else if !accepts_approvals(c.status) {
            Err(Failure::Core(Error::InvalidState))
        } else if !may_release(c, caller) {
            Err(Failure::Escrow(EscrowError::UnauthorizedRole))
        } else if milestone_index >= ms.len() {
            Err(Failure::Escrow(EscrowError::InvalidMilestone))
        } else if m.released {
            Err(Failure::Escrow(EscrowError::AlreadyReleased))
        } else if m.refunded {
            Err(Failure::Escrow(EscrowError::AlreadyRefunded))
        } else if !(approval_live(rec, ledger) && quorum(c.release_authorization, rec.unwrap())) {
            Err(Failure::Core(Error::InsufficientApprovals))
        } else if c.funded_amount - c.released_amount - c.refunded_amount < m.amount {
            Err(Failure::Escrow(EscrowError::InsufficientFunds))
        } else if self.fees_view() + release_fee(self.initialized_view(), self.fee_bps_view(), m.amount)
            > i128::MAX {
            Err(Failure::Escrow(EscrowError::PotentialOverflow))
        } else if all_settled(nm) && self.credits_view(c.freelancer) + 1 > i128::MAX {
            Err(Failure::Escrow(EscrowError::PotentialOverflow))
        } else {
            Ok(())
        }
    }

    /// Returns the live approval record of a milestone; `None` when none was
    /// recorded or it has expired at `ledger`.
    pub fn get_milestone_approvals(&self, contract_id: u32, milestone_index: u32, ledger: u32) -> (r: Option<
        MilestoneApprovals,
    >)
        requires
            self.wf(),
        ensures
            r == (if self.has_contract(contract_id) && milestone_index < self.approvals_view(
                contract_id,
            ).len() {
                live_record(self.approvals_view(contract_id)[milestone_index as int], ledger)
            } else {
                None::<MilestoneApprovals>
            }),
    {
        let i = match self.slot(contract_id) {
            Some(i) => i,
            None => {
                return None;
            },
        };
        if (milestone_index as usize) >= self.approvals[i].len() {
            return None;
        }
        let rec = self.approvals[i][milestone_index as usize];
        match rec {
            Some(a) => {
                if (ledger as u64) <= a.live_until_ledger {
                    Some(a)
                } else {
                    None
                }
            },
            None => None,
        }
    }

    /// Records `caller`'s approval of a milestone at ledger `ledger`. The
    /// approval stays live for `PENDING_APPROVAL_TTL_LEDGERS` ledgers; each new
    /// approval renews the lifetime of a live record, while an expired record
    /// is discarded rather than revived.
    ///
    /// Authorization: `caller`.
    pub fn approve_milestone_release(&mut self, contract_id: u32, caller: Address, milestone_index: u32, ledger: u32) -> (r: Result<
        bool,
        Failure,
    >)
        requires
            old(self).wf(),
        ensures
            final(self).wf(),
            old(self).history_preserved(final(self)),
            old(self).approve_precheck(contract_id, caller, milestone_index, ledger) matches Err(e) ==> r
                == Err::<bool, Failure>(e) && *final(self) == *old(self),
            old(self).approve_precheck(contract_id, caller, milestone_index, ledger) is Ok ==> {
                let c = old(self).contract_view(contract_id);
                let rec = old(self).approvals_view(contract_id)[milestone_index as int];
                &&& r == Ok::<bool, Failure>(true)
                &&& final(self).approvals_view(contract_id) == old(self).approvals_view(
                    contract_id,
                ).update(
                    milestone_index as int,
                    Some(approved_record(rec, approver_role(c, caller).unwrap(), ledger)),
                )
                &&& final(self).contract_view(contract_id) == c
                &&& final(self).milestones_view(contract_id) == old(self).milestones_view(contract_id)
                &&& final(self).reputation_issued_view(contract_id) == old(self).reputation_issued_view(contract_id)
                &&& final(self).finalization_view(contract_id) == old(self).finalization_view(contract_id)
                &&& old(self).others_unchanged(final(self), contract_id)
                &&& old(self).globals_unchanged(final(self))
            },
    {
        if self.paused {
            return Err(Failure::Escrow(EscrowError::ContractPaused));
        }
        let i = match self.slot(contract_id) {
            Some(i) => i,
            None => {
                return Err(Failure::Core(Error::ContractNotFound));
            },
        };
        let c = self.contracts[i];
        proof {
            assert(record_wf(self.contracts@[i as int], self.milestones@[i as int]@, self.approvals@[i as int]@));
        }
        match c.status {
            ContractStatus::Funded | ContractStatus::PartiallyFunded => {},
            _ => {
                return Err(Failure::Core(Error::InvalidState));
            },
        }
        let idx = milestone_index as usize;
        if idx >= self.milestones[i].len() {
            return Err(Failure::Core(Error::IndexOutOfBounds));
        }
        let role = match approver_role_of(&c, caller) {
            Some(role) => role,
            None => {
                return Err(Failure::Core(Error::UnauthorizedRole));
            },
        };
        let rec = self.approvals[i][idx];
        let live = match rec {
            Some(a) => (ledger as u64) <= a.live_until_ledger,
            None => false,
        };
        let base = if live {
            let a = rec.unwrap();
            let already = match role {
                Role::Client => a.client_approved,
                Role::Freelancer => a.freelancer_approved,
                Role::Arbiter => a.arbiter_approved,
            };
            if already {
                return Err(Failure::Core(Error::AlreadyApproved));
            }
            a
        } else {
            MilestoneApprovals {
                client_approved: false,
                freelancer_approved: false,
                arbiter_approved: false,
                live_until_ledger: 0,
            }
        };
        let live_until: u64 = (ledger as u64) + PENDING_APPROVAL_TTL_LEDGERS;
        let updated = match role {
            Role::Client => MilestoneApprovals { client_approved: true, live_until_ledger: live_until, ..base },
            Role::Freelancer => MilestoneApprovals {
                freelancer_approved: true,
                live_until_ledger: live_until,
                ..base
            },
            Role::Arbiter => MilestoneApprovals { arbiter_approved: true, live_until_ledger: live_until, ..base },
        };
        let mut aps = copy_approvals(&self.approvals[i]);
        aps.set(idx, Some(updated));
        let ghost old_self = *self;
        self.approvals.set(i, aps);
        proof {
            assert(record_wf(
                old_self.contracts@[i as int],
                old_self.milestones@[i as int]@,
                old_self.approvals@[i as int]@,
            ));
            lemma_records_replaced(old_self, *self, i as int);
        }
        Ok(true)
    }

    /// Releases a milestone to the freelancer at ledger `ledger`. The caller
    /// must be permitted by the contract's release mode and a live approval
    /// quorum must exist. The release accrues the protocol fee, consumes the
    /// approval, and completes the contract (crediting the freelancer one
    /// pending reputation credit) once every milestone is settled.
    ///
    /// Authorization: `caller`.
    #[verifier::rlimit(30)]
    pub fn release_milestone(&mut self, contract_id: u32, caller: Address, milestone_index: u32, ledger: u32) -> (r: Result<
        bool,
        Failure,
    >)
        requires
            old(self).wf(),
        ensures
            final(self).wf(),
            old(self).history_preserved(final(self)),
            old(self).release_precheck(contract_id, caller, milestone_index, ledger) matches Err(e) ==> r
                == Err::<bool, Failure>(e) && *final(self) == *old(self),
            old(self).release_precheck(contract_id, caller, milestone_index, ledger) is Ok ==> {
                let c = old(self).contract_view(contract_id);
                let ms = old(self).milestones_view(contract_id);
                let m = ms[milestone_index as int];
                let nm = ms.update(milestone_index as int, Milestone { released: true, ..m });
                let done = all_settled(nm);
                &&& r == Ok::<bool, Failure>(true)
                &&& final(self).contract_view(contract_id) == Contract {
                    released_amount: (c.released_amount + m.amount) as i128,
                    status: if done {
                        ContractStatus::Completed
                    } else {
                        c.status
                    },
                    ..c
                }
                &&& final(self).milestones_view(contract_id) == nm
                &&& final(self).approvals_view(contract_id) == old(self).approvals_view(
                    contract_id,
                ).update(milestone_index as int, None)
                &&& final(self).reputation_issued_view(contract_id) == old(self).reputation_issued_view(contract_id)
                &&& final(self).finalization_view(contract_id) == old(self).finalization_view(contract_id)
                &&& final(self).fees_view() == old(self).fees_view() + release_fee(
                    old(self).initialized_view(),
                    old(self).fee_bps_view(),
                    m.amount,
                )
                &&& final(self).credits_view(c.freelancer) == old(self).credits_view(c.freelancer) + (
                if done {
                    1int
                } else {
                    0
                })
                &&& forall|a: Address|
                    a != c.freelancer ==> #[trigger] final(self).credits_view(a) == old(
                        self,
                    ).credits_view(a)
                &&& forall|a: Address| #[trigger] final(self).reputation_view(a) == old(self).reputation_view(a)
                &&& old(self).others_unchanged(final(self), contract_id)
                &&& old(self).only_flags_changed_none(final(self))
            },
    {
        if self.paused {
            return Err(Failure::Escrow(EscrowError::ContractPaused));
        }
        let i = match self.slot(contract_id) {
            Some(i) => i,
            None => {
                return Err(Failure::Core(Error::ContractNotFound));
            },
        };
        if self.finalizations[i].is_some() {
            return Err(Failure::Escrow(EscrowError::AlreadyFinalized));
        }
        let c = self.contracts[i];
        let ghost ms0 = self.milestones@[i as int]@;
        proof {
            assert(record_wf(self.contracts@[i as int], ms0, self.approvals@[i as int]@));
            lemma_sum_bounds(ms0);
        }
        match c.status {
            ContractStatus::Funded | ContractStatus::PartiallyFunded => {},
            _ => {
                return Err(Failure::Core(Error::InvalidState));
            },
        }
        if !may_release_of(&c, caller) {
            return Err(Failure::Escrow(EscrowError::UnauthorizedRole));
        }
        let idx = milestone_index as usize;
        if idx >= self.milestones[i].len() {
            return Err(Failure::Escrow(EscrowError::InvalidMilestone));
        }
        let m = self.milestones[i][idx];
        if m.released {
            return Err(Failure::Escrow(EscrowError::AlreadyReleased));
        }
        if m.refunded {
            return Err(Failure::Escrow(EscrowError::AlreadyRefunded));
        }
        let rec = self.approvals[i][idx];
        let approved = match rec {
            Some(a) => (ledger as u64) <= a.live_until_ledger && quorum_of(c.release_authorization, &a),
            None => false,
        };
        if !approved {
            return Err(Failure::Core(Error::InsufficientApprovals));
        }
        let available = c.funded_amount - c.released_amount - c.refunded_amount;
        if available < m.amount {
            return Err(Failure::Escrow(EscrowError::InsufficientFunds));
        }
        proof {
            lemma_amount_le_total(ms0, idx as int);
            let (a, b) = (m.amount as int, self.protocol_fee_bps as int);
            assert(0 < a <= MAX_TOTAL_ESCROW_STROOPS && 0 <= b < 10_000);
            assert(a * b <= 100_000_000_000_000_000) by (nonlinear_arith)
                requires
                    0 < a <= 10_000_000_000_000,
                    0 <= b < 10_000,
            ;
        }
        let fee: i128 = if self.initialized && self.protocol_fee_bps > 0 {
            match calculate_protocol_fee(m.amount, self.protocol_fee_bps) {
                Ok(f) => f,
                Err(e) => {
                    return Err(Failure::Escrow(e));
                },
            }
        } else {
            0
        };
        let new_fees = match self.accumulated_fees.checked_add(fee) {
            Some(v) => v,
            None => {
                return Err(Failure::Escrow(EscrowError::PotentialOverflow));
            },
        };
        let mut ms = copy_milestones(&self.milestones[i]);
        let nmilestone = Milestone { released: true, ..m };
        ms.set(idx, nmilestone);
        let done = all_settled_exec(&ms);
        let mut new_credit: i128 = 0;
        if done {
            let current = match get_value(&self.pending_credits, c.freelancer) {
                Some(v) => v,
                None => 0,
            };
            new_credit = match current.checked_add(1) {
                Some(v) => v,
                None => {
                    return Err(Failure::Escrow(EscrowError::PotentialOverflow));
                },
            };
        }
        let nc = Contract {
            released_amount: c.released_amount + m.amount,
            status: if done {
                ContractStatus::Completed
            } else {
                c.status
            },
            ..c
        };
        proof {
            lemma_release_record(c, ms0, self.approvals@[i as int]@, idx as int);
            assert(nc == released_contract(c, ms@, m.amount));
        }
        let mut aps = copy_approvals(&self.approvals[i]);
        aps.set(idx, None);
        let ghost old_self = *self;
        self.contracts.set(i, nc);
        self.milestones.set(i, ms);
        self.approvals.set(i, aps);
        self.accumulated_fees = new_fees;
        if done {
            upsert(&mut self.pending_credits, c.freelancer, new_credit);
        }
        proof {
            assert(credits_nonneg(self.pending_credits@)) by {
                assert forall|a: Address| (#[trigger] lookup(self.pending_credits@, a)) is Some
                    implies lookup(self.pending_credits@, a).unwrap() >= 0 by {
                    if !done || a != c.freelancer {
                        assert(lookup(old_self.pending_credits@, a) == lookup(self.pending_credits@, a));
                    }
                }
            }
            lemma_records_replaced(old_self, *self, i as int);
        }
        Ok(true)
    }
}

impl Escrow {
    /// Administration and reputation values are unchanged (fees and credits
    /// are described separately).
    pub open spec fn only_flags_changed_none(&self, other: &Escrow) -> bool {
        &&& other.initialized_view() == self.initialized_view()
        &&& other.admin_view() == self.admin_view()
        &&& other.pending_admin_view() == self.pending_admin_view()
        &&& other.paused_view() == self.paused_view()
        &&& other.emergency_view() == self.emergency_view()
        &&& other.readiness_view() == self.readiness_view()
        &&& other.fee_bps_view() == self.fee_bps_view()
    }
}

fn approver_role_of(c: &Contract, caller: Address) -> (r: Option<Role>)
    ensures
        r == approver_role(*c, caller),
{
    match c.release_authorization {
        ReleaseAuthorization::ClientOnly => if caller == c.client {
            Some(Role::Client)
        } else {
            None
        },
        ReleaseAuthorization::ArbiterOnly => if c.arbiter == Some(caller) {
            Some(Role::Arbiter)
        } else {
            None
        },
        ReleaseAuthorization::ClientAndArbiter => if caller == c.client {
            Some(Role::Client)
        } else if c.arbiter == Some(caller) {
            Some(Role::Arbiter)
        } else {
            None
        },
        ReleaseAuthorization::MultiSig => if caller == c.client {
            Some(Role::Client)
        } else if caller == c.freelancer {
            Some(Role::Freelancer)
        } else {
            None
        },
    }
}

fn may_release_of(c: &Contract, caller: Address) -> (r: bool)
    ensures
        r == may_release(*c, caller),
{
    let is_client = caller == c.client;
    let is_freelancer = caller == c.freelancer;
    let is_arbiter = c.arbiter == Some(caller);
    match c.release_authorization {
        ReleaseAuthorization::ClientOnly => is_client,
        ReleaseAuthorization::ArbiterOnly => is_arbiter,
        ReleaseAuthorization::ClientAndArbiter => is_client || is_arbiter,
        ReleaseAuthorization::MultiSig => is_client || is_freelancer,
    }
}

fn quorum_of(mode: ReleaseAuthorization, a: &MilestoneApprovals) -> (r: bool)
    ensures
        r == quorum(mode, *a),
{
    match mode {
        ReleaseAuthorization::ClientOnly => a.client_approved,
        ReleaseAuthorization::ArbiterOnly => a.arbiter_approved,
        ReleaseAuthorization::ClientAndArbiter => a.client_approved || a.arbiter_approved,
        ReleaseAuthorization::MultiSig => a.client_approved && a.freelancer_approved,
    }
}

/// Whether every milestone is released or refunded.
pub(crate) fn all_settled_exec(ms: &Vec<Milestone>) -> (r: bool)
    ensures
        r == all_settled(ms@),
{
    let mut k: usize = 0;
    while k < ms.len()
        invariant
            0 <= k <= ms@.len(),
            forall|j: int| 0 <= j < k ==> settled(#[trigger] ms@[j]),
        decreases ms.len() - k,
    {
        if !(ms[k].released || ms[k].refunded) {
            proof {
                assert(!settled(ms@[k as int]));
            }
            return false;
        }
        k = k + 1;
    }
    true
}

} // verus!
