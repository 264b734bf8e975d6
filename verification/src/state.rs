use vstd::prelude::*;

use crate::amounts::MAX_TOTAL_ESCROW_STROOPS;
use crate::milestones::{
    all_refunded, all_settled, milestone_books, refunded_total, released_total, total_amount,
};
use crate::evidence::{evidence_at, evidence_keys_distinct};
use crate::registry::{distinct_keys, get_value, lookup};
use crate::types::{
    Address, Contract, ContractStatus, Error, Failure, FinalizationRecord, Milestone,
    MilestoneApprovals, ReadinessChecklist, ReleaseAuthorization, Reputation,
};

verus! {

/// The complete escrow ledger: protocol administration plus every escrow
/// contract, its milestones, pending approvals, reputation bookkeeping and
/// finalization records. Contract `id` (from 1) lives at position `id - 1`.
pub struct Escrow {
    pub(crate) initialized: bool,
    pub(crate) admin: Option<Address>,
    pub(crate) pending_admin: Option<Address>,
    pub(crate) paused: bool,
    pub(crate) emergency: bool,
    pub(crate) readiness: ReadinessChecklist,
    pub(crate) protocol_fee_bps: u32,
    pub(crate) accumulated_fees: i128,
    pub(crate) contracts: Vec<Contract>,
    pub(crate) milestones: Vec<Vec<Milestone>>,
    pub(crate) approvals: Vec<Vec<Option<MilestoneApprovals>>>,
    pub(crate) reputation_issued: Vec<bool>,
    pub(crate) finalizations: Vec<Option<FinalizationRecord>>,
    pub(crate) reputations: Vec<(Address, Reputation)>,
    pub(crate) pending_credits: Vec<(Address, i128)>,
    pub(crate) evidence: Vec<(u32, u32, Vec<u8>)>,
}

/// A stored contract is consistent with its milestones: creation-time
/// constraints still hold, the released and refunded totals are the sums over
/// the flagged milestones and never exceed the funding, funding never exceeds
/// the milestone total, and the status agrees with the milestones: once every
/// milestone is settled the contract is `Completed` or `Refunded`, it is
/// `Completed` only when every milestone is settled and some were released,
/// and `Funded` only when fully funded. (Cancellation also leaves a contract
/// `Refunded`, whatever its milestones.)
pub open spec fn record_wf(c: Contract, ms: Seq<Milestone>, aps: Seq<Option<MilestoneApprovals>>) -> bool {
    &&& 0 < ms.len() <= u32::MAX
    &&& aps.len() == ms.len()
    &&& forall|i: int| 0 <= i < ms.len() ==> (#[trigger] ms[i]).amount > 0
    &&& forall|i: int| 0 <= i < ms.len() ==> !((#[trigger] ms[i]).released && ms[i].refunded)
    &&& total_amount(ms) <= MAX_TOTAL_ESCROW_STROOPS
    &&& c.client != c.freelancer
    &&& match c.arbiter {
        Some(a) => a != c.client && a != c.freelancer,
        None => c.release_authorization == ReleaseAuthorization::ClientOnly
            || c.release_authorization == ReleaseAuthorization::MultiSig,
    }
    &&& 0 <= c.funded_amount <= total_amount(ms)
    &&& c.total_deposited == c.funded_amount
    &&& c.released_amount == released_total(ms)
    &&& c.refunded_amount == refunded_total(ms)
    &&& released_total(ms) + refunded_total(ms) <= c.funded_amount
    &&& milestone_books(ms, c.funded_amount as int)
    &&& all_settled(ms) ==> (c.status == ContractStatus::Completed || c.status
        == ContractStatus::Refunded)
    &&& c.status == ContractStatus::Completed ==> all_settled(ms) && !all_refunded(ms)
    &&& c.status == ContractStatus::Funded ==> c.funded_amount == total_amount(ms)
}

/// No address holds a negative number of pending reputation credits.
pub open spec fn credits_nonneg(s: Seq<(Address, i128)>) -> bool {
    forall|a: Address| (#[trigger] lookup(s, a)) matches Some(v) ==> v >= 0
}

/// Number of contracts whose freelancer has been rated.
pub open spec fn issued_count(s: Seq<bool>) -> nat
    decreases s.len(),
{
    if s.len() == 0 {
        0
    } else {
        issued_count(s.drop_last()) + if s.last() {
            1nat
        } else {
            0nat
        }
    }
}

/// Every stored reputation is consistent with the ratings it was built from:
/// at least one and at most `issued` contracts rated, each rating between 1
/// and 5.
pub open spec fn reputations_wf(reps: Seq<(Address, Reputation)>, issued: nat) -> bool {
    forall|a: Address| (#[trigger] lookup(reps, a)) is Some ==> reputation_ok(lookup(reps, a).unwrap(), issued)
}

/// One reputation built from between 1 and `issued` ratings of 1 to 5.
pub open spec fn reputation_ok(r: Reputation, issued: nat) -> bool {
    &&& 1 <= r.completed_contracts <= issued
    &&& r.completed_contracts <= r.total_rating <= 5 * r.completed_contracts
}

/// A contract added unrated leaves the count unchanged.
pub proof fn lemma_issued_count_push(s: Seq<bool>)
    ensures
        issued_count(s.push(false)) == issued_count(s),
{
    assert(s.push(false).drop_last() =~= s);
}

/// Marking one unrated contract as rated adds one to the count.
pub proof fn lemma_issued_count_set(s: Seq<bool>, i: int)
    requires
        0 <= i < s.len(),
        !s[i],
    ensures
        issued_count(s.update(i, true)) == issued_count(s) + 1,
    decreases s.len(),
{
    let t = s.update(i, true);
    if i == s.len() - 1 {
        assert(t.drop_last() =~= s.drop_last());
    } else {
        assert(t.drop_last() =~= s.drop_last().update(i, true));
        lemma_issued_count_set(s.drop_last(), i);
    }
}

/// No more contracts are rated than exist.
pub proof fn lemma_issued_count_le(s: Seq<bool>)
    ensures
        issued_count(s) <= s.len(),
    decreases s.len(),
{
    if s.len() > 0 {
        lemma_issued_count_le(s.drop_last());
    }
}

/// `a` and `b` have the same length and agree everywhere but at `i`.
pub open spec fn agree_except<T>(a: Seq<T>, b: Seq<T>, i: int) -> bool {
    &&& a.len() == b.len()
    &&& forall|k: int| 0 <= k < a.len() && k != i ==> #[trigger] b[k] == a[k]
}

/// Every stored record is well-formed.
pub(crate) open spec fn records_wf(e: Escrow) -> bool {
    forall|k: int|
        0 <= k < e.contracts@.len() ==> record_wf(
            #[trigger] e.contracts@[k],
            e.milestones@[k]@,
            e.approvals@[k]@,
        )
}

/// Replacing the records of one contract by well-formed ones keeps all
/// records well-formed.
pub(crate) proof fn lemma_records_replaced(old: Escrow, new: Escrow, i: int)
    requires
        records_wf(old),
        old.milestones@.len() == old.contracts@.len(),
        old.approvals@.len() == old.contracts@.len(),
        agree_except(old.contracts@, new.contracts@, i),
        agree_except(old.milestones@, new.milestones@, i),
        agree_except(old.approvals@, new.approvals@, i),
        0 <= i < new.contracts@.len(),
        record_wf(new.contracts@[i], new.milestones@[i]@, new.approvals@[i]@),
    ensures
        records_wf(new),
{
    assert forall|k: int| 0 <= k < new.contracts@.len() implies record_wf(
        #[trigger] new.contracts@[k],
        new.milestones@[k]@,
        new.approvals@[k]@,
    ) by {
        if k != i {
            assert(new.contracts@[k] == old.contracts@[k]);
            assert(new.milestones@[k] == old.milestones@[k]);
            assert(new.approvals@[k] == old.approvals@[k]);
            assert(record_wf(old.contracts@[k], old.milestones@[k]@, old.approvals@[k]@));
        }
    }
}

/// Records that did not change stay well-formed.
pub(crate) proof fn lemma_records_kept(old: Escrow, new: Escrow)
    requires
        records_wf(old),
        new.contracts@ == old.contracts@,
        new.milestones@ == old.milestones@,
        new.approvals@ == old.approvals@,
    ensures
        records_wf(new),
{
}

impl Escrow {
    /// The ledger is internally consistent.
    pub open(crate) spec fn wf(&self) -> bool {
        let n = self.contracts@.len();
        &&& self.milestones@.len() == n
        &&& self.approvals@.len() == n
        &&& self.reputation_issued@.len() == n
        &&& self.finalizations@.len() == n
        &&& n <= u32::MAX
        &&& records_wf(*self)
        &&& (self.emergency ==> self.paused)
        &&& (self.initialized <==> self.admin is Some)
        &&& (self.pending_admin is Some ==> self.initialized)
        &&& self.protocol_fee_bps < 10_000
        &&& self.accumulated_fees >= 0
        &&& distinct_keys(self.reputations@)
        &&& reputations_wf(self.reputations@, issued_count(self.reputation_issued@))
        &&& distinct_keys(self.pending_credits@)
        &&& credits_nonneg(self.pending_credits@)
        &&& evidence_keys_distinct(self.evidence@)
    }

    /// Whether `initialize` has run.
    pub open(crate) spec fn initialized_view(&self) -> bool {
        self.initialized
    }

    /// The operational (and governance) admin.
    pub open(crate) spec fn admin_view(&self) -> Option<Address> {
        self.admin
    }

    /// The proposed next admin awaiting acceptance.
    pub open(crate) spec fn pending_admin_view(&self) -> Option<Address> {
        self.pending_admin
    }

    pub open(crate) spec fn paused_view(&self) -> bool {
        self.paused
    }

    pub open(crate) spec fn emergency_view(&self) -> bool {
        self.emergency
    }

    pub open(crate) spec fn readiness_view(&self) -> ReadinessChecklist {
        self.readiness
    }

    /// Protocol fee rate in basis points.
    pub open(crate) spec fn fee_bps_view(&self) -> u32 {
        self.protocol_fee_bps
    }

    /// Protocol fees accrued by releases.
    pub open(crate) spec fn fees_view(&self) -> i128 {
        self.accumulated_fees
    }

    /// Number of contracts created so far (ids `1..=contract_count()`).
    pub open(crate) spec fn contract_count(&self) -> nat {
        self.contracts@.len()
    }

    pub open(crate) spec fn has_contract(&self, id: u32) -> bool {
        1 <= id <= self.contracts@.len()
    }

    pub open(crate) spec fn contract_view(&self, id: u32) -> Contract {
        self.contracts@[id - 1]
    }

    pub open(crate) spec fn milestones_view(&self, id: u32) -> Seq<Milestone> {
        self.milestones@[id - 1]@
    }

    /// Stored approval records of contract `id`, one slot per milestone.
    pub open(crate) spec fn approvals_view(&self, id: u32) -> Seq<Option<MilestoneApprovals>> {
        self.approvals@[id - 1]@
    }

    pub open(crate) spec fn reputation_issued_view(&self, id: u32) -> bool {
        self.reputation_issued@[id - 1]
    }

    pub open(crate) spec fn finalization_view(&self, id: u32) -> Option<FinalizationRecord> {
        self.finalizations@[id - 1]
    }

    /// Work evidence submitted for milestone `index` of contract `id`, if any.
    pub open(crate) spec fn evidence_view(&self, id: u32, index: u32) -> Option<Seq<u8>> {
        evidence_at(self.evidence@, id, index)
    }

    pub open(crate) spec fn finalized_view(&self, id: u32) -> bool {
        self.finalizations@[id - 1] is Some
    }

    /// Reputation of `a`, if any was ever issued to it.
    pub open(crate) spec fn reputation_view(&self, a: Address) -> Option<Reputation> {
        lookup(self.reputations@, a)
    }

    /// Pending reputation credits of `a` (zero when none were recorded).
    pub open(crate) spec fn credits_view(&self, a: Address) -> i128 {
        match lookup(self.pending_credits@, a) {
            Some(v) => v,
            None => 0,
        }
    }

    /// Everything about contracts other than `id` is unchanged, and so is
    /// the number of contracts.
    pub open spec fn others_unchanged(&self, other: &Escrow, id: u32) -> bool {
        &&& other.contract_count() == self.contract_count()
        &&& forall|k: u32|
            #![trigger other.contract_view(k)]
            #![trigger other.milestones_view(k)]
            #![trigger other.approvals_view(k)]
            #![trigger other.reputation_issued_view(k)]
            #![trigger other.finalization_view(k)]
            other.has_contract(k) && k != id ==> {
                &&& other.contract_view(k) == self.contract_view(k)
                &&& other.milestones_view(k) == self.milestones_view(k)
                &&& other.approvals_view(k) == self.approvals_view(k)
                &&& other.reputation_issued_view(k) == self.reputation_issued_view(k)
                &&& other.finalization_view(k) == self.finalization_view(k)
            }
    }

    /// Administration, fees and reputation bookkeeping are unchanged.
    pub open spec fn globals_unchanged(&self, other: &Escrow) -> bool {
        &&& other.initialized_view() == self.initialized_view()
        &&& other.admin_view() == self.admin_view()
        &&& other.pending_admin_view() == self.pending_admin_view()
        &&& other.paused_view() == self.paused_view()
        &&& other.emergency_view() == self.emergency_view()
        &&& other.readiness_view() == self.readiness_view()
        &&& other.fee_bps_view() == self.fee_bps_view()
        &&& other.fees_view() == self.fees_view()
        &&& forall|a: Address| #[trigger] other.reputation_view(a) == self.reputation_view(a)
        &&& forall|a: Address| #[trigger] other.credits_view(a) == self.credits_view(a)
    }

    /// Only the administration fields may differ: every contract and all
    /// fee and reputation bookkeeping are unchanged.
    pub open spec fn contracts_unchanged(&self, other: &Escrow) -> bool {
        &&& self.others_unchanged(other, 0)
        &&& other.fees_view() == self.fees_view()
        &&& forall|a: Address| #[trigger] other.reputation_view(a) == self.reputation_view(a)
        &&& forall|a: Address| #[trigger] other.credits_view(a) == self.credits_view(a)
    }

    /// What no operation ever undoes, for every contract that already exists:
    /// its parties, arbiter, release mode and milestone amounts stay fixed;
    /// released and refunded milestones stay so; the funded, released and
    /// refunded totals never decrease; a finalization record, once written,
    /// never changes; and issued reputation stays issued.
    pub open spec fn history_preserved(&self, other: &Escrow) -> bool {
        &&& other.contract_count() >= self.contract_count()
        &&& forall|k: u32|
            #![trigger other.contract_view(k)]
            self.has_contract(k) ==> {
                let c = self.contract_view(k);
                let c2 = other.contract_view(k);
                let ms = self.milestones_view(k);
                let ms2 = other.milestones_view(k);
                &&& c2.client == c.client
                &&& c2.freelancer == c.freelancer
                &&& c2.arbiter == c.arbiter
                &&& c2.release_authorization == c.release_authorization
                &&& c2.funded_amount >= c.funded_amount
                &&& c2.released_amount >= c.released_amount
                &&& c2.refunded_amount >= c.refunded_amount
                &&& ms2.len() == ms.len()
                &&& forall|j: int|
                    0 <= j < ms.len() ==> {
                        &&& (#[trigger] ms2[j]).amount == ms[j].amount
                        &&& (ms[j].released ==> ms2[j].released)
                        &&& (ms[j].refunded ==> ms2[j].refunded)
                    }
                &&& (self.finalized_view(k) ==> other.finalization_view(k) == self.finalization_view(k))
                &&& (self.reputation_issued_view(k) ==> other.reputation_issued_view(k))
            }
    }

    /// A freshly deployed escrow: no admin, nothing paused, no contracts.
    pub fn new() -> (r: Escrow)
        ensures
            r.wf(),
            !r.initialized_view(),
            r.admin_view() is None,
            r.pending_admin_view() is None,
            !r.paused_view(),
            !r.emergency_view(),
            r.readiness_view() == (ReadinessChecklist {
                initialized: false,
                admin_set: false,
                emergency_controls_enabled: false,
            }),
            r.fee_bps_view() == 0,
            r.fees_view() == 0,
            r.contract_count() == 0,
            forall|a: Address| #[trigger] r.reputation_view(a) is None,
            forall|a: Address| #[trigger] r.credits_view(a) == 0,
            forall|id: u32, index: u32| #[trigger] r.evidence_view(id, index) is None,
    {
        Escrow {
            initialized: false,
            admin: None,
            pending_admin: None,
            paused: false,
            emergency: false,
            readiness: ReadinessChecklist {
                initialized: false,
                admin_set: false,
                emergency_controls_enabled: false,
            },
            protocol_fee_bps: 0,
            accumulated_fees: 0,
            contracts: Vec::new(),
            milestones: Vec::new(),
            approvals: Vec::new(),
            reputation_issued: Vec::new(),
            finalizations: Vec::new(),
            reputations: Vec::new(),
            pending_credits: Vec::new(),
            evidence: Vec::new(),
        }
    }

    /// Position of contract `id` in the per-contract vectors.
    pub(crate) fn slot(&self, id: u32) -> (r: Option<usize>)
        requires
            self.wf(),
        ensures
            match r {
                Some(i) => self.has_contract(id) && i == id - 1,
                None => !self.has_contract(id),
            },
    {
        if id >= 1 && (id as usize) <= self.contracts.len() {
            Some((id - 1) as usize)
        } else {
            None
        }
    }

    /// Hello-world style function for smoke tests: returns its argument.
    pub fn hello<T>(to: T) -> (r: T)
        ensures
            r == to,
    {
        to
    }

    /// Returns the stored admin address, if one has been initialized.
    pub fn get_admin(&self) -> (r: Option<Address>)
        ensures
            r == self.admin_view(),
    {
        self.admin
    }

    /// Returns the current mainnet readiness checklist.
    pub fn get_mainnet_readiness_info(&self) -> (r: ReadinessChecklist)
        ensures
            r == self.readiness_view(),
    {
        self.readiness
    }

    pub fn is_paused(&self) -> (r: bool)
        ensures
            r == self.paused_view(),
    {
        self.paused
    }

    pub fn is_emergency(&self) -> (r: bool)
        ensures
            r == self.emergency_view(),
    {
        self.emergency
    }

    /// Whether the escrow has been initialized.
    pub fn is_initialized(&self) -> (r: bool)
        ensures
            r == self.initialized_view(),
    {
        self.initialized
    }

    /// The protocol fee rate in basis points (zero until set).
    pub fn get_protocol_fee_bps(&self) -> (r: u32)
        ensures
            r == self.fee_bps_view(),
    {
        self.protocol_fee_bps
    }

    /// Protocol fees accrued by milestone releases.
    pub fn get_accumulated_protocol_fees(&self) -> (r: i128)
        ensures
            r == self.fees_view(),
    {
        self.accumulated_fees
    }

    /// Retrieves a contract's data.
    pub fn get_contract(&self, contract_id: u32) -> (r: Result<Contract, Failure>)
        requires
            self.wf(),
        ensures
            r == (if self.has_contract(contract_id) {
                Ok::<Contract, Failure>(self.contract_view(contract_id))
            } else {
                Err::<Contract, Failure>(Failure::Core(Error::ContractNotFound))
            }),
    {
        match self.slot(contract_id) {
            Some(i) => Ok(self.contracts[i]),
            None => Err(Failure::Core(Error::ContractNotFound)),
        }
    }

    /// Retrieves all milestones of a contract.
    pub fn get_milestones(&self, contract_id: u32) -> (r: Result<Vec<Milestone>, Failure>)
        requires
            self.wf(),
        ensures
            match r {
                Ok(v) => self.has_contract(contract_id) && v@ == self.milestones_view(contract_id),
                Err(e) => !self.has_contract(contract_id) && e == Failure::Core(
                    Error::ContractNotFound,
                ),
            },
    {
        match self.slot(contract_id) {
            Some(i) => Ok(copy_milestones(&self.milestones[i])),
            None => Err(Failure::Core(Error::ContractNotFound)),
        }
    }

    /// The refundable balance: funded but neither released nor refunded.
    pub fn get_refundable_balance(&self, contract_id: u32) -> (r: Result<i128, Failure>)
        requires
            self.wf(),
        ensures
            r == (if self.has_contract(contract_id) {
                Ok::<i128, Failure>(
                    (self.contract_view(contract_id).funded_amount - self.contract_view(
                        contract_id,
                    ).released_amount - self.contract_view(contract_id).refunded_amount) as i128,
                )
            } else {
                Err::<i128, Failure>(Failure::Core(Error::ContractNotFound))
            }),
            r matches Ok(b) ==> b >= 0,
    {
        match self.slot(contract_id) {
            Some(i) => {
                let c = self.contracts[i];
                proof {
                    assert(record_wf(self.contracts@[i as int], self.milestones@[i as int]@, self.approvals@[i as int]@));
                    crate::milestones::lemma_sum_bounds(self.milestones@[i as int]@);
                }
                Ok(c.funded_amount - c.released_amount - c.refunded_amount)
            },
            None => Err(Failure::Core(Error::ContractNotFound)),
        }
    }

    /// Reputation aggregated for `address`, if any was issued.
    pub fn get_reputation(&self, address: Address) -> (r: Option<Reputation>)
        requires
            self.wf(),
        ensures
            r == self.reputation_view(address),
    {
        get_value(&self.reputations, address)
    }

    /// Completed-contract credits of `address` not yet turned into reputation.
    pub fn get_pending_reputation_credits(&self, address: Address) -> (r: i128)
        requires
            self.wf(),
        ensures
            r == self.credits_view(address),
    {
        match get_value(&self.pending_credits, address) {
            Some(v) => v,
            None => 0,
        }
    }
}

/// An element-by-element copy of a milestone list.
pub(crate) fn copy_milestones(v: &Vec<Milestone>) -> (r: Vec<Milestone>)
    ensures
        r@ == v@,
{
    let mut r: Vec<Milestone> = Vec::new();
    let mut i: usize = 0;
    while i < v.len()
        invariant
            0 <= i <= v@.len(),
            r@ == v@.take(i as int),
        decreases v.len() - i,
    {
        r.push(v[i]);
        i = i + 1;
        proof {
            assert(r@ =~= v@.take(i as int));
        }
    }
    proof {
        assert(v@.take(i as int) =~= v@);
    }
    r
}


/// An element-by-element copy of a list of approval slots.
pub(crate) fn copy_approvals(v: &Vec<Option<MilestoneApprovals>>) -> (r: Vec<Option<MilestoneApprovals>>)
    ensures
        r@ == v@,
{
    let mut r: Vec<Option<MilestoneApprovals>> = Vec::new();
    let mut i: usize = 0;
    while i < v.len()
        invariant
            0 <= i <= v@.len(),
            r@ == v@.take(i as int),
        decreases v.len() - i,
    {
        r.push(v[i]);
        i = i + 1;
        proof {
            assert(r@ =~= v@.take(i as int));
        }
    }
    proof {
        assert(v@.take(i as int) =~= v@);
    }
    r
}

} // verus!
