use vstd::prelude::*;

use vstd::arithmetic::div_mod::lemma_div_is_ordered;

use crate::amounts::{
    lemma_scan_ok, lemma_seq_sum_first, milestone_scan, seq_sum, MAX_TOTAL_ESCROW_STROOPS,
};
use crate::fees::protocol_fee;
use crate::milestones::{
    all_refunded, all_settled, covered, lemma_sum_bounds, lemma_take_step, milestone_books,
    refunded_total, released_total, total_amount,
};
use crate::release::{
    approval_live, approved_record, may_release, quorum, Role,
    PENDING_APPROVAL_TTL_LEDGERS,
};
use crate::registry::lookup;
use crate::reputation::average_rating;
use crate::state::{issued_count, lemma_issued_count_le, record_wf, reputation_ok, Escrow};
use crate::lifecycle::{create_precheck, funding_status};
use crate::refund::{has_duplicates, refund_scan, status_after_refund};
use crate::types::{
    Address, Contract, ContractStatus, Error, EscrowError, Failure, Milestone, MilestoneApprovals,
    ReleaseAuthorization,
};

verus! {

/// Sum of the per-milestone `funded_amount` fields.
pub open spec fn funded_parts(ms: Seq<Milestone>) -> int
    decreases ms.len(),
{
    if ms.len() == 0 {
        0
    } else {
        funded_parts(ms.drop_last()) + ms.last().funded_amount
    }
}

/// Sum of the per-milestone `refunded_amount` fields.
pub open spec fn refunded_parts(ms: Seq<Milestone>) -> int
    decreases ms.len(),
{
    if ms.len() == 0 {
        0
    } else {
        refunded_parts(ms.drop_last()) + ms.last().refunded_amount
    }
}

/// Funds accounting of every stored contract: nothing released or refunded
/// exceeds what was funded, funding never exceeds the milestone total (itself
/// within the escrow maximum), the totals are the sums over the flagged
/// milestones, and `total_deposited` equals released plus refunded plus the
/// non-negative available balance.
pub proof fn lemma_funds_accounting(e: &Escrow, id: u32)
    requires
        e.wf(),
        e.has_contract(id),
    ensures
        ({
            let c = e.contract_view(id);
            let ms = e.milestones_view(id);
            let available = c.funded_amount - c.released_amount - c.refunded_amount;
            &&& 0 <= c.released_amount
            &&& 0 <= c.refunded_amount
            &&& 0 <= available
            &&& c.total_deposited == c.released_amount + c.refunded_amount + available
            &&& c.funded_amount <= total_amount(ms) <= MAX_TOTAL_ESCROW_STROOPS
            &&& c.released_amount == released_total(ms)
            &&& c.refunded_amount == refunded_total(ms)
        }),
{
    let k = id - 1;
    assert(record_wf(e.contracts@[k as int], e.milestones@[k as int]@, e.approvals@[k as int]@));
    lemma_sum_bounds(e.milestones_view(id));
}

/// The status of every stored contract agrees with its milestones: once every
/// milestone is settled it is `Completed` or `Refunded`, it is `Completed`
/// only when every milestone is settled and at least one was released, and
/// `Funded` only when fully funded.
pub proof fn lemma_status_agrees(e: &Escrow, id: u32)
    requires
        e.wf(),
        e.has_contract(id),
    ensures
        ({
            let c = e.contract_view(id);
            let ms = e.milestones_view(id);
            &&& all_settled(ms) ==> (c.status == ContractStatus::Completed || c.status
                == ContractStatus::Refunded)
            &&& c.status == ContractStatus::Completed ==> all_settled(ms) && !all_refunded(ms)
            &&& c.status == ContractStatus::Funded ==> c.funded_amount == total_amount(ms)
        }),
{
    let k = id - 1;
    assert(record_wf(e.contracts@[k as int], e.milestones@[k as int]@, e.approvals@[k as int]@));
}

proof fn lemma_funded_prefix(ms: Seq<Milestone>, f: int, n: int)
    requires
        milestone_books(ms, f),
        forall|i: int| 0 <= i < ms.len() ==> (#[trigger] ms[i]).amount > 0,
        0 <= f,
        0 <= n <= ms.len(),
    ensures
        funded_parts(ms.take(n)) == (if f < total_amount(ms.take(n)) {
            f
        } else {
            total_amount(ms.take(n))
        }),
        refunded_parts(ms.take(n)) == refunded_total(ms.take(n)),
    decreases n,
{
    if n > 0 {
        lemma_funded_prefix(ms, f, n - 1);
        lemma_take_step(ms, n - 1);
        let t = ms.take(n);
        assert(t.drop_last() =~= ms.take(n - 1));
        assert(t.last() == ms[n - 1]);
        crate::milestones::lemma_amount_le_total(ms, n - 1);
    } else {
        assert(ms.take(0).len() == 0);
    }
}

/// The per-milestone bookkeeping adds up: the milestones' `funded_amount`
/// fields sum to the contract's funded amount, and their `refunded_amount`
/// fields to its refunded amount.
pub proof fn lemma_milestone_books_sum(e: &Escrow, id: u32)
    requires
        e.wf(),
        e.has_contract(id),
    ensures
        funded_parts(e.milestones_view(id)) == e.contract_view(id).funded_amount,
        refunded_parts(e.milestones_view(id)) == e.contract_view(id).refunded_amount,
{
    let k = id - 1;
    let ms = e.milestones_view(id);
    let c = e.contract_view(id);
    assert(record_wf(e.contracts@[k as int], e.milestones@[k as int]@, e.approvals@[k as int]@));
    lemma_funded_prefix(ms, c.funded_amount as int, ms.len() as int);
    assert(ms.take(ms.len() as int) =~= ms);
}

/// While the escrow is paused, every guarded entry point is refused with
/// `ContractPaused`: contract creation, deposits, approvals, releases,
/// cancellation, reputation issuance and finalization.
pub proof fn lemma_paused_blocks(
    e: &Escrow,
    id: u32,
    caller: Address,
    other: Address,
    arbiter: Option<Address>,
    amounts: Seq<i128>,
    mode: ReleaseAuthorization,
    amount: i128,
    index: u32,
    ledger: u32,
    rating: i128,
)
    requires
        e.paused_view(),
    ensures
        create_precheck(e.paused_view(), e.contract_count(), caller, other, arbiter, amounts, mode)
            == Err::<(), Failure>(Failure::Escrow(EscrowError::ContractPaused)),
        e.deposit_precheck(id, caller, amount) == Err::<(), Failure>(
            Failure::Escrow(EscrowError::ContractPaused),
        ),
        e.approve_precheck(id, caller, index, ledger) == Err::<(), Failure>(
            Failure::Escrow(EscrowError::ContractPaused),
        ),
        e.release_precheck(id, caller, index, ledger) == Err::<(), Failure>(
            Failure::Escrow(EscrowError::ContractPaused),
        ),
        e.cancel_precheck(id, caller) == Err::<(), Failure>(
            Failure::Escrow(EscrowError::ContractPaused),
        ),
        e.reputation_precheck(id, caller, other, rating) == Err::<(), Failure>(
            Failure::Escrow(EscrowError::ContractPaused),
        ),
        e.finalize_precheck(id) == Err::<(), Failure>(Failure::Escrow(EscrowError::ContractPaused)),
{
}

/// Emergency mode always implies the paused state.
pub proof fn lemma_emergency_implies_paused(e: &Escrow)
    requires
        e.wf(),
    ensures
        e.emergency_view() ==> e.paused_view(),
{
}

/// A finalized contract refuses every later deposit, release, refund and
/// reputation issuance with `AlreadyFinalized` (unless an earlier check, such
/// as the pause, refuses first).
pub proof fn lemma_finalized_rejects(
    e: &Escrow,
    id: u32,
    caller: Address,
    freelancer: Address,
    amount: i128,
    index: u32,
    ledger: u32,
    idxs: Seq<u32>,
    rating: i128,
)
    requires
        e.wf(),
        e.has_contract(id),
        e.finalized_view(id),
    ensures
        e.deposit_precheck(id, caller, amount) is Err,
        e.release_precheck(id, caller, index, ledger) is Err,
        e.refund_precheck(id, idxs) is Err,
        e.reputation_precheck(id, caller, freelancer, rating) is Err,
        !e.paused_view() ==> e.deposit_precheck(id, caller, amount) == Err::<(), Failure>(
            Failure::Escrow(EscrowError::AlreadyFinalized),
        ),
        !e.paused_view() ==> e.release_precheck(id, caller, index, ledger) == Err::<(), Failure>(
            Failure::Escrow(EscrowError::AlreadyFinalized),
        ),
        !e.paused_view() ==> e.reputation_precheck(id, caller, freelancer, rating) == Err::<
            (),
            Failure,
        >(Failure::Escrow(EscrowError::AlreadyFinalized)),
{
}

/// A release goes through only with a live approval quorum, from a caller
/// the release mode permits, on a (partly or fully) funded contract, for an
/// unsettled milestone covered by the available balance. In particular an expired approval never
/// authorizes a release.
pub proof fn lemma_release_needs_live_quorum(
    e: &Escrow,
    id: u32,
    caller: Address,
    index: u32,
    ledger: u32,
)
    requires
        e.wf(),
        e.release_precheck(id, caller, index, ledger) is Ok,
    ensures
        ({
            let c = e.contract_view(id);
            let ms = e.milestones_view(id);
            let rec = e.approvals_view(id)[index as int];
            &&& e.has_contract(id)
            &&& !e.finalized_view(id)
            &&& (c.status == ContractStatus::Funded || c.status == ContractStatus::PartiallyFunded)
            &&& may_release(c, caller)
            &&& index < ms.len()
            &&& !ms[index as int].released
            &&& !ms[index as int].refunded
            &&& approval_live(rec, ledger)
            &&& quorum(c.release_authorization, rec.unwrap())
            &&& c.funded_amount - c.released_amount - c.refunded_amount >= ms[index as int].amount
        }),
{
}

/// An expired or missing approval record is never revived: a new approval
/// starts a fresh record carrying only the new approver's flag.
pub proof fn lemma_no_resurrection(rec: Option<MilestoneApprovals>, role: Role, ledger: u32)
    requires
        !approval_live(rec, ledger),
    ensures
        ({
            let a = approved_record(rec, role, ledger);
            &&& a.client_approved == (role == Role::Client)
            &&& a.freelancer_approved == (role == Role::Freelancer)
            &&& a.arbiter_approved == (role == Role::Arbiter)
        }),
{
}

/// An approval recorded at ledger `s` is live through ledger
/// `s + PENDING_APPROVAL_TTL_LEDGERS` inclusive and expired afterwards.
pub proof fn lemma_approval_lifetime(rec: Option<MilestoneApprovals>, role: Role, s: u32, l: u32)
    ensures
        approval_live(Some(approved_record(rec, role, s)), l) <==> l <= s
            + PENDING_APPROVAL_TTL_LEDGERS,
{
}

/// Reputation is issued at most once per contract.
pub proof fn lemma_reputation_once(
    e: &Escrow,
    id: u32,
    caller: Address,
    freelancer: Address,
    rating: i128,
)
    requires
        e.wf(),
        e.has_contract(id),
        e.reputation_issued_view(id),
    ensures
        e.reputation_precheck(id, caller, freelancer, rating) is Err,
{
}

/// No address ever holds a negative number of pending reputation credits.
pub proof fn lemma_credits_nonneg(e: &Escrow, a: Address)
    requires
        e.wf(),
    ensures
        e.credits_view(a) >= 0,
{
    assert(lookup(e.pending_credits@, a) is Some ==> lookup(e.pending_credits@, a).unwrap() >= 0);
}

/// Reputation is issued only against a pending completed-contract credit of
/// the freelancer.
pub proof fn lemma_reputation_needs_credit(
    e: &Escrow,
    id: u32,
    caller: Address,
    freelancer: Address,
    rating: i128,
)
    requires
        e.wf(),
        e.reputation_precheck(id, caller, freelancer, rating) is Ok,
    ensures
        e.credits_view(e.contract_view(id).freelancer) > 0,
        e.contract_view(id).status == ContractStatus::Completed,
{
}

/// Every rated freelancer's average rating, scaled by 100, lies between 100
/// and 500, the range of a single rating.
pub proof fn lemma_average_in_range(e: &Escrow, a: Address)
    requires
        e.wf(),
        e.reputation_view(a) is Some,
    ensures
        average_rating(e.reputation_view(a)) matches Some(v) && 100 <= v <= 500,
{
    let r = e.reputation_view(a).unwrap();
    assert(reputation_ok(r, issued_count(e.reputation_issued@)));
    let (c, t) = (r.completed_contracts as int, r.total_rating as int);
    assert(100 <= t * 100 / c <= 500) by (nonlinear_arith)
        requires
            1 <= c <= t <= 5 * c,
    {
        assert(100 * c <= t * 100 <= 500 * c);
    }
}

/// The protocol fee on a positive amount at a rate below 100% is
/// non-negative and strictly below the amount.
pub proof fn lemma_fee_below_amount(amount: int, fee_bps: int)
    requires
        amount > 0,
        0 <= fee_bps < 10_000,
    ensures
        0 <= protocol_fee(amount, fee_bps) < amount,
{
    assert(amount * fee_bps >= 0) by (nonlinear_arith)
        requires
            amount > 0,
            0 <= fee_bps,
    ;
}

/// The protocol fee never decreases when the released amount or the fee rate
/// grows.
pub proof fn lemma_fee_monotonic(a1: int, a2: int, b1: int, b2: int)
    requires
        0 < a1 <= a2,
        0 <= b1 <= b2 < 10_000,
    ensures
        protocol_fee(a1, b1) <= protocol_fee(a2, b1),
        protocol_fee(a1, b1) <= protocol_fee(a1, b2),
        protocol_fee(a1, b1) <= protocol_fee(a2, b2),
{
    assert(a1 * b1 <= a2 * b1 && a1 * b1 <= a1 * b2 && a1 * b2 <= a2 * b2) by (nonlinear_arith)
        requires
            0 < a1 <= a2,
            0 <= b1 <= b2,
    ;
    lemma_div_is_ordered(a1 * b1 + 5000, a2 * b1 + 5000, 10000);
    lemma_div_is_ordered(a1 * b1 + 5000, a1 * b2 + 5000, 10000);
    lemma_div_is_ordered(a1 * b2 + 5000, a2 * b2 + 5000, 10000);
}

/// What no operation undoes is not undone by any sequence of them either.
pub proof fn lemma_history_transitive(a: &Escrow, b: &Escrow, c: &Escrow)
    requires
        a.history_preserved(b),
        b.history_preserved(c),
    ensures
        a.history_preserved(c),
{
    assert forall|k: u32| #![trigger c.contract_view(k)] a.has_contract(k) implies {
        let x = a.contract_view(k);
        let z = c.contract_view(k);
        let ms = a.milestones_view(k);
        let ms3 = c.milestones_view(k);
        &&& z.client == x.client
        &&& z.freelancer == x.freelancer
        &&& z.arbiter == x.arbiter
        &&& z.release_authorization == x.release_authorization
        &&& z.funded_amount >= x.funded_amount
        &&& z.released_amount >= x.released_amount
        &&& z.refunded_amount >= x.refunded_amount
        &&& ms3.len() == ms.len()
        &&& forall|j: int|
            0 <= j < ms.len() ==> {
                &&& (#[trigger] ms3[j]).amount == ms[j].amount
                &&& (ms[j].released ==> ms3[j].released)
                &&& (ms[j].refunded ==> ms3[j].refunded)
            }
        &&& (a.finalized_view(k) ==> c.finalization_view(k) == a.finalization_view(k))
        &&& (a.reputation_issued_view(k) ==> c.reputation_issued_view(k))
    } by {
        assert(b.has_contract(k));
        let _ = b.contract_view(k);
        let ms = a.milestones_view(k);
        let ms2 = b.milestones_view(k);
        let ms3 = c.milestones_view(k);
        assert forall|j: int| 0 <= j < ms.len() implies {
            &&& (#[trigger] ms3[j]).amount == ms[j].amount
            &&& (ms[j].released ==> ms3[j].released)
            &&& (ms[j].refunded ==> ms3[j].refunded)
        } by {
            assert(ms2[j].amount == ms[j].amount);
            assert(ms3[j].amount == ms2[j].amount);
        }
    }
}

/// The amounts of the listed milestones, added up.
pub open spec fn listed_sum(ms: Seq<Milestone>, idxs: Seq<u32>) -> int
    decreases idxs.len(),
{
    if idxs.len() == 0 {
        0
    } else {
        ms[idxs[0] as int].amount + listed_sum(ms, idxs.drop_first())
    }
}

/// Every listed index names a milestone that is neither released nor refunded.
pub open spec fn all_listed_open(ms: Seq<Milestone>, idxs: Seq<u32>) -> bool {
    forall|p: int|
        0 <= p < idxs.len() ==> {
            &&& (#[trigger] idxs[p]) < ms.len()
            &&& !ms[idxs[p] as int].released
            &&& !ms[idxs[p] as int].refunded
        }
}

proof fn lemma_scan_sums(ms: Seq<Milestone>, idxs: Seq<u32>)
    requires
        all_listed_open(ms, idxs),
    ensures
        refund_scan(ms, idxs) == Ok::<int, Failure>(listed_sum(ms, idxs)),
    decreases idxs.len(),
{
    if idxs.len() > 0 {
        assert(idxs[0] == idxs[0]);
        assert(all_listed_open(ms, idxs.drop_first())) by {
            assert forall|p: int| 0 <= p < idxs.drop_first().len() implies {
                &&& (#[trigger] idxs.drop_first()[p]) < ms.len()
                &&& !ms[idxs.drop_first()[p] as int].released
                &&& !ms[idxs.drop_first()[p] as int].refunded
            } by {
                assert(idxs.drop_first()[p] == idxs[p + 1]);
            }
        }
        lemma_scan_sums(ms, idxs.drop_first());
    }
}

proof fn lemma_scan_fails(ms: Seq<Milestone>, idxs: Seq<u32>)
    requires
        !all_listed_open(ms, idxs),
    ensures
        refund_scan(ms, idxs) is Err,
    decreases idxs.len(),
{
    let p = choose|p: int|
        0 <= p < idxs.len() && !({
            &&& (#[trigger] idxs[p]) < ms.len()
            &&& !ms[idxs[p] as int].released
            &&& !ms[idxs[p] as int].refunded
        });
    if p > 0 {
        let i = idxs[0] as int;
        if i < ms.len() && !ms[i].released && !ms[i].refunded {
            assert(idxs.drop_first()[p - 1] == idxs[p]);
            lemma_scan_fails(ms, idxs.drop_first());
        }
    }
}

/// A refund succeeds exactly when the request is non-empty, names no
/// milestone twice, concerns an existing contract that is not finalized,
/// lists only milestones that are neither released nor refunded, and their
/// amounts are covered by the available balance; it then refunds the sum of
/// their amounts. The contract's status plays no part: in particular a
/// cancelled contract refunds its unreleased milestones.
pub proof fn lemma_refund_succeeds_exactly_when_requested_milestones_are_open(
    e: &Escrow,
    id: u32,
    idxs: Seq<u32>,
)
    requires
        e.wf(),
    ensures
        ({
            let c = e.contract_view(id);
            let ms = e.milestones_view(id);
            let ok = idxs.len() > 0 && (forall|p: int, q: int| 0 <= p < q < idxs.len() ==> idxs[p] != idxs[q])
                && e.has_contract(id) && !e.finalized_view(id) && all_listed_open(ms, idxs)
                && listed_sum(ms, idxs) <= c.funded_amount - c.released_amount - c.refunded_amount;
            &&& ok ==> e.refund_precheck(id, idxs) == Ok::<int, Failure>(listed_sum(ms, idxs))
            &&& !ok ==> e.refund_precheck(id, idxs) is Err
        }),
{
    let ms = e.milestones_view(id);
    if all_listed_open(ms, idxs) {
        lemma_scan_sums(ms, idxs);
    } else {
        lemma_scan_fails(ms, idxs);
    }
    if has_duplicates(idxs) {
        let (p, q) = choose|p: int, q: int| 0 <= p < q < idxs.len() && idxs[p] == idxs[q];
        assert(!(forall|p: int, q: int| 0 <= p < q < idxs.len() ==> idxs[p] != idxs[q]));
    }
}

/// Milestones of a contract that is neither funded nor partly funded (one
/// just created, cancelled, refunded or completed) can be neither approved
/// nor released, nor can work evidence be submitted for them: once the
/// earlier checks pass, each of these fails with `InvalidState`.
pub proof fn lemma_only_funded_contracts_take_milestone_actions(
    e: &Escrow,
    id: u32,
    caller: Address,
    index: u32,
    ledger: u32,
    len: nat,
)
    requires
        e.wf(),
        !e.paused_view(),
        e.has_contract(id),
        !e.finalized_view(id),
        e.contract_view(id).status != ContractStatus::Funded,
        e.contract_view(id).status != ContractStatus::PartiallyFunded,
    ensures
        e.approve_precheck(id, caller, index, ledger) == Err::<(), Failure>(Failure::Core(Error::InvalidState)),
        e.release_precheck(id, caller, index, ledger) == Err::<(), Failure>(Failure::Core(Error::InvalidState)),
        caller == e.contract_view(id).freelancer ==> e.evidence_precheck(id, caller, index, len) == Err::<
            (),
            Failure,
        >(Failure::Core(Error::InvalidState)),
{
}

/// A deposit succeeds exactly when the escrow is not paused, the contract
/// exists, is not finalized, the caller is its client, it is `Created` or
/// `PartiallyFunded`, and the positive amount keeps the funding within the
/// milestone total. Any other status (funded, completed, cancelled or
/// refunded) refuses a deposit with `InvalidState` once the earlier checks
/// pass, so a cancelled contract is never funded again.
pub proof fn lemma_deposit_succeeds_exactly_when_open_for_funding(
    e: &Escrow,
    id: u32,
    caller: Address,
    amount: i128,
)
    requires
        e.wf(),
    ensures
        ({
            let c = e.contract_view(id);
            let total = total_amount(e.milestones_view(id));
            let open = c.status == ContractStatus::Created || c.status == ContractStatus::PartiallyFunded;
            &&& e.deposit_precheck(id, caller, amount) is Ok <==> (!e.paused_view() && e.has_contract(id)
                && !e.finalized_view(id) && caller == c.client && open && amount > 0 && c.funded_amount
                + amount <= total)
            &&& (!e.paused_view() && e.has_contract(id) && !e.finalized_view(id) && caller == c.client
                && !open) ==> e.deposit_precheck(id, caller, amount) == Err::<(), Failure>(
                Failure::Core(Error::InvalidState),
            )
        }),
{
    if e.has_contract(id) {
        let k = id - 1;
        assert(record_wf(e.contracts@[k as int], e.milestones@[k as int]@, e.approvals@[k as int]@));
    }
}

/// A cancellation succeeds exactly when the escrow is not paused, the
/// contract exists, the caller is its client or freelancer, and it is
/// `Created`, `PartiallyFunded` or `Funded`; any other status refuses it
/// with `InvalidState` once the earlier checks pass.
pub proof fn lemma_cancel_succeeds_exactly_when_cancellable(e: &Escrow, id: u32, caller: Address)
    requires
        e.wf(),
    ensures
        ({
            let c = e.contract_view(id);
            let cancellable = c.status == ContractStatus::Created || c.status
                == ContractStatus::PartiallyFunded || c.status == ContractStatus::Funded;
            let party = caller == c.client || caller == c.freelancer;
            &&& e.cancel_precheck(id, caller) is Ok <==> (!e.paused_view() && e.has_contract(id) && party
                && cancellable)
            &&& (!e.paused_view() && e.has_contract(id) && party && !cancellable) ==> e.cancel_precheck(
                id,
                caller,
            ) == Err::<(), Failure>(Failure::Core(Error::InvalidState))
        }),
{
}

/// A contract is finalized exactly when the escrow is not paused, it exists,
/// it is `Completed` or `Disputed`, and it was not finalized before; any
/// other status (refunded or cancelled included) is refused with
/// `InvalidStatusTransition`.
pub proof fn lemma_finalize_succeeds_exactly_when_settled(e: &Escrow, id: u32)
    requires
        e.wf(),
    ensures
        ({
            let s = e.contract_view(id).status;
            let closed = s == ContractStatus::Completed || s == ContractStatus::Disputed;
            &&& e.finalize_precheck(id) is Ok <==> (!e.paused_view() && e.has_contract(id) && closed
                && !e.finalized_view(id))
            &&& (!e.paused_view() && e.has_contract(id) && !closed) ==> e.finalize_precheck(id) == Err::<
                (),
                Failure,
            >(Failure::Escrow(EscrowError::InvalidStatusTransition))
        }),
{
}

/// Whether `caller` holds a role that the contract's release mode lets
/// approve, and release, its milestones.
pub open spec fn release_party(c: Contract, caller: Address) -> bool {
    ||| c.release_authorization == ReleaseAuthorization::ClientOnly && caller == c.client
    ||| c.release_authorization == ReleaseAuthorization::ArbiterOnly && c.arbiter == Some(caller)
    ||| c.release_authorization == ReleaseAuthorization::ClientAndArbiter && (caller == c.client
        || c.arbiter == Some(caller))
    ||| c.release_authorization == ReleaseAuthorization::MultiSig && (caller == c.client || caller
        == c.freelancer)
}

/// An approval succeeds only on an existing, funded (fully or in part)
/// contract of an unpaused escrow, for an existing milestone, from a party
/// the release mode names; and when no live approval is recorded for the
/// milestone those conditions suffice.
pub proof fn lemma_approve_succeeds_for_authorized_parties(
    e: &Escrow,
    id: u32,
    caller: Address,
    index: u32,
    ledger: u32,
)
    requires
        e.wf(),
    ensures
        ({
            let c = e.contract_view(id);
            let cond = !e.paused_view() && e.has_contract(id) && (c.status == ContractStatus::Funded
                || c.status == ContractStatus::PartiallyFunded) && index < e.milestones_view(id).len()
                && release_party(c, caller);
            let rec = e.approvals_view(id)[index as int];
            &&& e.approve_precheck(id, caller, index, ledger) is Ok ==> cond
            &&& cond && (rec is None || ledger > rec.unwrap().live_until_ledger) ==> e.approve_precheck(
                id,
                caller,
                index,
                ledger,
            ) is Ok
        }),
{
    if e.has_contract(id) {
        let k = id - 1;
        assert(record_wf(e.contracts@[k as int], e.milestones@[k as int]@, e.approvals@[k as int]@));
    }
}

/// A release goes through whenever the escrow is unpaused, the contract
/// exists, is not finalized and is funded (fully or in part), the caller is
/// a party the release mode names, the milestone exists and is neither
/// released nor refunded, a live approval record carries the quorum the
/// mode asks for, the available balance covers the milestone, and the fee
/// and credit counters have room for the release.
pub proof fn lemma_release_succeeds_when_approved_and_covered(
    e: &Escrow,
    id: u32,
    caller: Address,
    index: u32,
    ledger: u32,
)
    requires
        e.wf(),
        !e.paused_view(),
        e.has_contract(id),
        !e.finalized_view(id),
        e.contract_view(id).status == ContractStatus::Funded || e.contract_view(id).status
            == ContractStatus::PartiallyFunded,
        release_party(e.contract_view(id), caller),
        index < e.milestones_view(id).len(),
        !e.milestones_view(id)[index as int].released,
        !e.milestones_view(id)[index as int].refunded,
        e.approvals_view(id)[index as int] is Some,
        ledger <= e.approvals_view(id)[index as int].unwrap().live_until_ledger,
        ({
            let a = e.approvals_view(id)[index as int].unwrap();
            match e.contract_view(id).release_authorization {
                ReleaseAuthorization::ClientOnly => a.client_approved,
                ReleaseAuthorization::ArbiterOnly => a.arbiter_approved,
                ReleaseAuthorization::ClientAndArbiter => a.client_approved || a.arbiter_approved,
                ReleaseAuthorization::MultiSig => a.client_approved && a.freelancer_approved,
            }
        }),
        e.contract_view(id).funded_amount - e.contract_view(id).released_amount
            - e.contract_view(id).refunded_amount >= e.milestones_view(id)[index as int].amount,
        e.fees_view() + e.milestones_view(id)[index as int].amount <= i128::MAX,
        e.credits_view(e.contract_view(id).freelancer) + 1 <= i128::MAX,
    ensures
        e.release_precheck(id, caller, index, ledger) is Ok,
{
    let k = id - 1;
    assert(record_wf(e.contracts@[k as int], e.milestones@[k as int]@, e.approvals@[k as int]@));
    let amount = e.milestones_view(id)[index as int].amount as int;
    lemma_fee_below_amount(amount, e.fee_bps_view() as int);
}

/// Work evidence is accepted exactly when the escrow is unpaused, the
/// contract exists, is not finalized and is funded (fully or in part), the
/// caller is its freelancer, the milestone exists and is neither released
/// nor refunded, and the evidence is at most 256 bytes long.
pub proof fn lemma_evidence_accepted_exactly_for_open_milestones(
    e: &Escrow,
    id: u32,
    caller: Address,
    index: u32,
    len: nat,
)
    requires
        e.wf(),
    ensures
        ({
            let c = e.contract_view(id);
            let ms = e.milestones_view(id);
            e.evidence_precheck(id, caller, index, len) is Ok <==> (!e.paused_view() && e.has_contract(id)
                && !e.finalized_view(id) && caller == c.freelancer && (c.status == ContractStatus::Funded
                || c.status == ContractStatus::PartiallyFunded) && index < ms.len()
                && !ms[index as int].released && !ms[index as int].refunded && len <= 256)
        }),
{
}

/// Reputation is issued exactly when the escrow is unpaused, the contract
/// exists, is not finalized and is `Completed`, the caller is its client
/// rating its own freelancer from 1 to 5, the contract was not rated before,
/// and the freelancer holds a pending completed-contract credit.
pub proof fn lemma_reputation_issued_exactly_when_earned(
    e: &Escrow,
    id: u32,
    caller: Address,
    freelancer: Address,
    rating: i128,
)
    requires
        e.wf(),
    ensures
        ({
            let c = e.contract_view(id);
            e.reputation_precheck(id, caller, freelancer, rating) is Ok <==> (!e.paused_view()
                && e.has_contract(id) && !e.finalized_view(id) && caller == c.client && freelancer
                == c.freelancer && 1 <= rating <= 5 && c.status == ContractStatus::Completed
                && !e.reputation_issued_view(id) && e.credits_view(c.freelancer) > 0)
        }),
{
    if e.has_contract(id) {
        let k = id - 1;
        assert(record_wf(e.contracts@[k as int], e.milestones@[k as int]@, e.approvals@[k as int]@));
        let c = e.contract_view(id);
        lemma_issued_count_le(e.reputation_issued@);
        if lookup(e.reputations@, c.freelancer) is Some {
            assert(reputation_ok(lookup(e.reputations@, c.freelancer).unwrap(), issued_count(e.reputation_issued@)));
        }
    }
}

proof fn lemma_sum_of_positives(s: Seq<i128>)
    requires
        forall|i: int| 0 <= i < s.len() ==> s[i] > 0,
    ensures
        seq_sum(s) >= 0,
    decreases s.len(),
{
    if s.len() > 0 {
        lemma_sum_of_positives(s.drop_last());
    }
}

proof fn lemma_scan_accepts(s: Seq<i128>, acc: int, max_total: int)
    requires
        forall|i: int| 0 <= i < s.len() ==> s[i] > 0,
        acc + seq_sum(s) <= max_total,
    ensures
        milestone_scan(s, acc, max_total) is Ok,
    decreases s.len(),
{
    if s.len() > 0 {
        lemma_seq_sum_first(s);
        let rest = s.drop_first();
        assert forall|i: int| 0 <= i < rest.len() implies rest[i] > 0 by {
            assert(rest[i] == s[i + 1]);
        }
        lemma_sum_of_positives(rest);
        lemma_scan_accepts(rest, acc + s[0], max_total);
    }
}

/// A contract is created exactly when the escrow is unpaused, client and
/// freelancer differ, an arbiter (if any) is neither of them, a mode that
/// relies on an arbiter has one, there are between 1 and 16 milestones, each
/// amount is positive, they add up to at most the escrow maximum, and ids
/// are not exhausted.
pub proof fn lemma_create_succeeds_exactly_for_valid_agreements(
    paused: bool,
    count: nat,
    client: Address,
    freelancer: Address,
    arbiter: Option<Address>,
    amounts: Seq<i128>,
    mode: ReleaseAuthorization,
)
    ensures
        create_precheck(paused, count, client, freelancer, arbiter, amounts, mode) is Ok <==> (!paused
            && client != freelancer && (arbiter is Some ==> arbiter.unwrap() != client
            && arbiter.unwrap() != freelancer) && (arbiter is None ==> mode
            == ReleaseAuthorization::ClientOnly || mode == ReleaseAuthorization::MultiSig) && 1
            <= amounts.len() <= 16 && (forall|i: int| 0 <= i < amounts.len() ==> amounts[i] > 0)
            && seq_sum(amounts) <= MAX_TOTAL_ESCROW_STROOPS && count < u32::MAX),
{
    let max = MAX_TOTAL_ESCROW_STROOPS as int;
    if milestone_scan(amounts, 0, max) is Ok {
        lemma_scan_ok(amounts, 0, max);
    }
    if (forall|i: int| 0 <= i < amounts.len() ==> amounts[i] > 0) && seq_sum(amounts) <= max {
        lemma_scan_accepts(amounts, 0, max);
    }
}

/// After a deposit the contract is `Funded` exactly when the funding
/// reaches the milestone total, and `PartiallyFunded` before that.
pub proof fn lemma_deposit_status(funded: int, total: int)
    requires
        0 < funded <= total,
    ensures
        funding_status(funded, total) == ContractStatus::Funded <==> funded == total,
        funded < total ==> funding_status(funded, total) == ContractStatus::PartiallyFunded,
{
}

/// After a refund the contract is `Refunded` once every milestone has been
/// refunded, `Completed` once every milestone is settled and some were
/// released, and otherwise keeps its status.
pub proof fn lemma_refund_status(ms: Seq<Milestone>, status: ContractStatus)
    ensures
        (forall|i: int| 0 <= i < ms.len() ==> (#[trigger] ms[i]).refunded) ==> status_after_refund(ms, status)
            == ContractStatus::Refunded,
        (forall|i: int| 0 <= i < ms.len() ==> (#[trigger] ms[i]).released || ms[i].refunded)
            && (exists|i: int| 0 <= i < ms.len() && !(#[trigger] ms[i]).refunded)
            ==> status_after_refund(ms, status) == ContractStatus::Completed,
        (exists|i: int| 0 <= i < ms.len() && !(#[trigger] ms[i]).released && !ms[i].refunded)
            ==> status_after_refund(ms, status) == status,
{
}

} // verus!
