//! Rules of the escrow on concrete values: funding, approvals and their
//! lifetime, refunds, cancellation, reputation and finalization.

use escrow::{
    Address, ContractStatus, Error, Escrow, EscrowError, Failure, ReleaseAuthorization, Reputation,
    MAX_MILESTONES,
};

const LEDGER: u32 = 5_000;
const TTL: u32 = 120_960;

fn party(n: u128) -> Address {
    Address { key_hi: 11, key_lo: n, is_contract: false }
}

fn contract_with(escrow: &mut Escrow, amounts: &[i128], mode: ReleaseAuthorization, arbiter: Option<Address>) -> u32 {
    escrow.create_contract(party(1), party(2), arbiter, amounts, mode).unwrap()
}

#[test]
fn creation_errors_in_check_order() {
    let mut escrow = Escrow::new();
    let (c, f, a) = (party(1), party(2), party(3));
    assert_eq!(
        escrow.create_contract(c, c, None, &[10], ReleaseAuthorization::ClientOnly),
        Err(Failure::Escrow(EscrowError::InvalidParticipant))
    );
    assert_eq!(
        escrow.create_contract(c, f, Some(c), &[10], ReleaseAuthorization::ClientOnly),
        Err(Failure::Core(Error::InvalidArbiter))
    );
    assert_eq!(
        escrow.create_contract(c, f, Some(f), &[10], ReleaseAuthorization::ClientOnly),
        Err(Failure::Core(Error::InvalidArbiter))
    );
    assert_eq!(
        escrow.create_contract(c, f, None, &[10], ReleaseAuthorization::ArbiterOnly),
        Err(Failure::Core(Error::MissingArbiter))
    );
    assert_eq!(
        escrow.create_contract(c, f, None, &[], ReleaseAuthorization::ClientOnly),
        Err(Failure::Escrow(EscrowError::EmptyMilestones))
    );
    assert_eq!(
        escrow.create_contract(c, f, Some(a), &[10, -1], ReleaseAuthorization::ClientAndArbiter),
        Err(Failure::Escrow(EscrowError::AmountMustBePositive))
    );
    assert_eq!(escrow.create_contract(c, f, Some(a), &[10], ReleaseAuthorization::ClientAndArbiter), Ok(1));
}

#[test]
fn deposits_cover_milestones_in_order() {
    let mut escrow = Escrow::new();
    let id = contract_with(&mut escrow, &[100, 200, 300], ReleaseAuthorization::ClientOnly, None);
    let c = party(1);
    assert_eq!(escrow.deposit_funds(id, party(2), 50), Err(Failure::Core(Error::UnauthorizedRole)));
    assert!(escrow.deposit_funds(id, c, 150).unwrap());
    let contract = escrow.get_contract(id).unwrap();
    assert_eq!(contract.status, ContractStatus::PartiallyFunded);
    assert_eq!(contract.funded_amount, 150);
    assert_eq!(contract.total_deposited, 150);
    let ms = escrow.get_milestones(id).unwrap();
    assert_eq!((ms[0].funded_amount, ms[1].funded_amount, ms[2].funded_amount), (100, 50, 0));
    assert_eq!(escrow.deposit_funds(id, c, 451), Err(Failure::Escrow(EscrowError::InvalidDepositAmount)));
    assert!(escrow.deposit_funds(id, c, 450).unwrap());
    let contract = escrow.get_contract(id).unwrap();
    assert_eq!(contract.status, ContractStatus::Funded);
    let ms = escrow.get_milestones(id).unwrap();
    assert_eq!((ms[0].funded_amount, ms[1].funded_amount, ms[2].funded_amount), (100, 200, 300));
    assert_eq!(escrow.deposit_funds(id, c, 1), Err(Failure::Core(Error::InvalidState)));
    assert_eq!(escrow.deposit_funds(99, c, 1), Err(Failure::Core(Error::ContractNotFound)));
}

#[test]
fn approvals_are_checked_before_release() {
    let mut escrow = Escrow::new();
    let id = contract_with(&mut escrow, &[100, 200], ReleaseAuthorization::ClientOnly, None);
    let c = party(1);
    assert_eq!(escrow.approve_milestone_release(id, c, 0, LEDGER), Err(Failure::Core(Error::InvalidState)));
    escrow.deposit_funds(id, c, 300).unwrap();
    assert_eq!(escrow.approve_milestone_release(id, c, 2, LEDGER), Err(Failure::Core(Error::IndexOutOfBounds)));
    assert_eq!(
        escrow.approve_milestone_release(id, party(2), 0, LEDGER),
        Err(Failure::Core(Error::UnauthorizedRole))
    );
    assert_eq!(escrow.release_milestone(id, c, 0, LEDGER), Err(Failure::Core(Error::InsufficientApprovals)));
    assert!(escrow.approve_milestone_release(id, c, 0, LEDGER).unwrap());
    assert_eq!(escrow.approve_milestone_release(id, c, 0, LEDGER), Err(Failure::Core(Error::AlreadyApproved)));
    assert_eq!(
        escrow.release_milestone(id, party(2), 0, LEDGER),
        Err(Failure::Escrow(EscrowError::UnauthorizedRole))
    );
    assert!(escrow.release_milestone(id, c, 0, LEDGER).unwrap());
    assert_eq!(escrow.get_milestone_approvals(id, 0, LEDGER), None);
    assert!(escrow.approve_milestone_release(id, c, 0, LEDGER).unwrap());
    assert_eq!(
        escrow.release_milestone(id, c, 0, LEDGER),
        Err(Failure::Escrow(EscrowError::AlreadyReleased))
    );
    assert_eq!(escrow.release_milestone(id, c, 7, LEDGER), Err(Failure::Escrow(EscrowError::InvalidMilestone)));
}

#[test]
fn partly_funded_contracts_release_what_is_covered() {
    let mut escrow = Escrow::new();
    let id = contract_with(&mut escrow, &[100, 200], ReleaseAuthorization::ClientOnly, None);
    let c = party(1);
    escrow.deposit_funds(id, c, 150).unwrap();
    assert!(escrow.approve_milestone_release(id, c, 0, LEDGER).unwrap());
    assert!(escrow.approve_milestone_release(id, c, 1, LEDGER).unwrap());
    assert!(escrow.release_milestone(id, c, 0, LEDGER).unwrap());
    assert_eq!(
        escrow.release_milestone(id, c, 1, LEDGER),
        Err(Failure::Escrow(EscrowError::InsufficientFunds))
    );
    let contract = escrow.get_contract(id).unwrap();
    assert_eq!(contract.status, ContractStatus::PartiallyFunded);
    assert_eq!(contract.released_amount, 100);
    escrow.deposit_funds(id, c, 150).unwrap();
    assert!(escrow.release_milestone(id, c, 1, LEDGER).unwrap());
    assert_eq!(escrow.get_contract(id).unwrap().status, ContractStatus::Completed);
}

#[test]
fn approval_expires_after_its_lifetime() {
    let mut escrow = Escrow::new();
    let id = contract_with(&mut escrow, &[100, 200], ReleaseAuthorization::ClientOnly, None);
    let c = party(1);
    escrow.deposit_funds(id, c, 300).unwrap();
    escrow.approve_milestone_release(id, c, 0, LEDGER).unwrap();
    let rec = escrow.get_milestone_approvals(id, 0, LEDGER + TTL).unwrap();
    assert!(rec.client_approved);
    assert_eq!(rec.live_until_ledger, (LEDGER + TTL) as u64);
    assert_eq!(escrow.get_milestone_approvals(id, 0, LEDGER + TTL + 1), None);
    assert_eq!(
        escrow.release_milestone(id, c, 0, LEDGER + TTL + 1),
        Err(Failure::Core(Error::InsufficientApprovals))
    );
    assert!(escrow.approve_milestone_release(id, c, 0, LEDGER + TTL + 1).unwrap());
    assert!(escrow.release_milestone(id, c, 0, LEDGER + TTL + 1).unwrap());
}

#[test]
fn approval_is_usable_at_the_boundary_ledger() {
    let mut escrow = Escrow::new();
    let id = contract_with(&mut escrow, &[100], ReleaseAuthorization::ClientOnly, None);
    let c = party(1);
    escrow.deposit_funds(id, c, 100).unwrap();
    escrow.approve_milestone_release(id, c, 0, LEDGER).unwrap();
    assert!(escrow.release_milestone(id, c, 0, LEDGER + TTL).unwrap());
}

#[test]
fn multisig_needs_both_parties_and_expired_halves_are_not_revived() {
    let mut escrow = Escrow::new();
    let id = contract_with(&mut escrow, &[100], ReleaseAuthorization::MultiSig, None);
    let (c, f) = (party(1), party(2));
    escrow.deposit_funds(id, c, 100).unwrap();
    escrow.approve_milestone_release(id, c, 0, LEDGER).unwrap();
    assert_eq!(escrow.release_milestone(id, f, 0, LEDGER), Err(Failure::Core(Error::InsufficientApprovals)));
    let later = LEDGER + TTL + 10;
    escrow.approve_milestone_release(id, f, 0, later).unwrap();
    let rec = escrow.get_milestone_approvals(id, 0, later).unwrap();
    assert!(rec.freelancer_approved && !rec.client_approved);
    assert_eq!(escrow.release_milestone(id, f, 0, later), Err(Failure::Core(Error::InsufficientApprovals)));
    escrow.approve_milestone_release(id, c, 0, later).unwrap();
    assert!(escrow.release_milestone(id, f, 0, later).unwrap());
    assert_eq!(escrow.get_contract(id).unwrap().status, ContractStatus::Completed);
}

#[test]
fn client_and_arbiter_mode_accepts_either() {
    let mut escrow = Escrow::new();
    let a = party(3);
    let id = contract_with(&mut escrow, &[100, 100], ReleaseAuthorization::ClientAndArbiter, Some(a));
    let (c, f) = (party(1), party(2));
    escrow.deposit_funds(id, c, 200).unwrap();
    escrow.approve_milestone_release(id, a, 0, LEDGER).unwrap();
    assert!(escrow.release_milestone(id, c, 0, LEDGER).unwrap());
    assert_eq!(escrow.approve_milestone_release(id, f, 1, LEDGER), Err(Failure::Core(Error::UnauthorizedRole)));
    escrow.approve_milestone_release(id, c, 1, LEDGER).unwrap();
    assert!(escrow.release_milestone(id, a, 1, LEDGER).unwrap());
}

#[test]
fn refunds_validate_every_index_before_changing_anything() {
    let mut escrow = Escrow::new();
    let id = contract_with(&mut escrow, &[100, 200, 300], ReleaseAuthorization::ClientOnly, None);
    let c = party(1);
    assert_eq!(escrow.refund_unreleased_milestones(id, &[]), Err(Failure::Core(Error::EmptyRefundRequest)));
    assert_eq!(
        escrow.refund_unreleased_milestones(id, &[1, 2, 1]),
        Err(Failure::Core(Error::DuplicateMilestoneInRefund))
    );
    assert_eq!(escrow.refund_unreleased_milestones(42, &[0]), Err(Failure::Core(Error::ContractNotFound)));
    assert_eq!(escrow.refund_unreleased_milestones(id, &[0]), Err(Failure::Core(Error::InsufficientFunds)));
    escrow.deposit_funds(id, c, 600).unwrap();
    escrow.approve_milestone_release(id, c, 0, LEDGER).unwrap();
    escrow.release_milestone(id, c, 0, LEDGER).unwrap();
    assert_eq!(escrow.refund_unreleased_milestones(id, &[1, 3]), Err(Failure::Core(Error::IndexOutOfBounds)));
    assert_eq!(escrow.refund_unreleased_milestones(id, &[1, 0]), Err(Failure::Core(Error::AlreadyReleased)));
    assert_eq!(escrow.get_refundable_balance(id), Ok(500));
    assert_eq!(escrow.refund_unreleased_milestones(id, &[2]), Ok(300));
    assert_eq!(escrow.refund_unreleased_milestones(id, &[2]), Err(Failure::Core(Error::AlreadyRefunded)));
    assert_eq!(escrow.get_contract(id).unwrap().status, ContractStatus::Funded);
    assert_eq!(escrow.refund_unreleased_milestones(id, &[1]), Ok(200));
    let contract = escrow.get_contract(id).unwrap();
    assert_eq!(contract.status, ContractStatus::Completed);
    assert_eq!(contract.refunded_amount, 500);
    assert_eq!(contract.released_amount, 100);
    assert_eq!(escrow.get_refundable_balance(id), Ok(0));
    let ms = escrow.get_milestones(id).unwrap();
    assert_eq!((ms[1].refunded_amount, ms[2].refunded_amount, ms[0].refunded_amount), (200, 300, 0));
}

#[test]
fn refunding_everything_marks_the_contract_refunded() {
    let mut escrow = Escrow::new();
    let id = contract_with(&mut escrow, &[100, 200], ReleaseAuthorization::ClientOnly, None);
    escrow.deposit_funds(id, party(1), 300).unwrap();
    assert_eq!(escrow.refund_unreleased_milestones(id, &[1, 0]), Ok(300));
    assert_eq!(escrow.get_contract(id).unwrap().status, ContractStatus::Refunded);
}

#[test]
fn cancellation_rules() {
    let mut escrow = Escrow::new();
    let id = contract_with(&mut escrow, &[100], ReleaseAuthorization::ClientOnly, None);
    assert_eq!(escrow.cancel_contract(id, party(9)), Err(Failure::Core(Error::UnauthorizedRole)));
    assert!(escrow.cancel_contract(id, party(2)).unwrap());
    assert_eq!(escrow.get_contract(id).unwrap().status, ContractStatus::Refunded);
    assert_eq!(escrow.cancel_contract(id, party(1)), Err(Failure::Core(Error::InvalidState)));
    assert_eq!(escrow.cancel_contract(5, party(1)), Err(Failure::Core(Error::ContractNotFound)));
}

#[test]
fn reputation_accumulates_once_per_contract() {
    let mut escrow = Escrow::new();
    let (c, f) = (party(1), party(2));
    assert_eq!(escrow.get_reputation(f), None);
    let mut ids = Vec::new();
    for rating in [5_i128, 4_i128] {
        let id = escrow.create_contract(c, f, None, &[100], ReleaseAuthorization::ClientOnly).unwrap();
        assert_eq!(escrow.issue_reputation(id, c, f, rating), Err(Failure::Escrow(EscrowError::NotCompleted)));
        escrow.deposit_funds(id, c, 100).unwrap();
        escrow.approve_milestone_release(id, c, 0, LEDGER).unwrap();
        escrow.release_milestone(id, c, 0, LEDGER).unwrap();
        ids.push(id);
    }
    assert_eq!(escrow.get_pending_reputation_credits(f), 2);
    assert_eq!(escrow.issue_reputation(ids[0], f, f, 5), Err(Failure::Core(Error::UnauthorizedRole)));
    assert_eq!(escrow.issue_reputation(ids[0], c, party(7), 5), Err(Failure::Core(Error::FreelancerMismatch)));
    assert_eq!(escrow.issue_reputation(ids[0], c, f, 6), Err(Failure::Escrow(EscrowError::InvalidRating)));
    assert_eq!(escrow.issue_reputation(ids[0], c, f, 0), Err(Failure::Escrow(EscrowError::InvalidRating)));
    assert!(escrow.issue_reputation(ids[0], c, f, 5).unwrap());
    assert_eq!(
        escrow.issue_reputation(ids[0], c, f, 5),
        Err(Failure::Escrow(EscrowError::ReputationAlreadyIssued))
    );
    assert!(escrow.issue_reputation(ids[1], c, f, 4).unwrap());
    assert_eq!(
        escrow.get_reputation(f),
        Some(Reputation { completed_contracts: 2, total_rating: 9, last_rating: 4 })
    );
    assert_eq!(escrow.get_pending_reputation_credits(f), 0);
}

#[test]
fn completion_through_refunds_earns_no_reputation_credit() {
    let mut escrow = Escrow::new();
    let (c, f) = (party(1), party(2));
    let id = escrow.create_contract(c, f, None, &[100, 200], ReleaseAuthorization::ClientOnly).unwrap();
    escrow.deposit_funds(id, c, 300).unwrap();
    escrow.approve_milestone_release(id, c, 0, LEDGER).unwrap();
    escrow.release_milestone(id, c, 0, LEDGER).unwrap();
    assert_eq!(escrow.refund_unreleased_milestones(id, &[1]), Ok(200));
    assert_eq!(escrow.get_contract(id).unwrap().status, ContractStatus::Completed);
    assert_eq!(escrow.get_pending_reputation_credits(f), 0);
    assert_eq!(escrow.issue_reputation(id, c, f, 5), Err(Failure::Escrow(EscrowError::NotCompleted)));
    assert_eq!(escrow.get_reputation(f), None);
    assert_eq!(escrow.get_pending_reputation_credits(f), 0);
}

#[test]
fn finalization_records_a_summary() {
    let mut escrow = Escrow::new();
    let (c, f) = (party(1), party(2));
    let id = escrow.create_contract(c, f, None, &[100, 200], ReleaseAuthorization::ClientOnly).unwrap();
    assert_eq!(
        escrow.finalize_contract(id, c, 77),
        Err(Failure::Escrow(EscrowError::InvalidStatusTransition))
    );
    assert_eq!(escrow.finalize_contract(9, c, 77), Err(Failure::Escrow(EscrowError::ContractNotFound)));
    escrow.deposit_funds(id, c, 300).unwrap();
    escrow.approve_milestone_release(id, c, 0, LEDGER).unwrap();
    escrow.release_milestone(id, c, 0, LEDGER).unwrap();
    escrow.refund_unreleased_milestones(id, &[1]).unwrap();
    assert!(escrow.get_finalization_record(id).is_none());
    assert!(escrow.finalize_contract(id, f, 77).unwrap());
    assert_eq!(escrow.finalize_contract(id, f, 78), Err(Failure::Escrow(EscrowError::AlreadyFinalized)));
    let rec = escrow.get_finalization_record(id).unwrap();
    assert_eq!(rec.finalizer, f);
    assert_eq!(rec.timestamp, 77);
    let s = rec.summary;
    assert_eq!(s.schema_version, 1);
    assert_eq!(s.status, ContractStatus::Completed);
    assert_eq!(s.total_amount, 300);
    assert_eq!(s.funded_amount, 300);
    assert_eq!(s.released_amount, 100);
    assert_eq!(s.refundable_balance, 0);
    assert_eq!(s.released_milestone_count, 1);
    assert!(!s.reputation_issued);
    assert_eq!(s.milestones.len(), 2);
    assert_eq!((s.milestones[1].index, s.milestones[1].amount, s.milestones[1].refunded), (1, 200, true));
    assert_eq!(
        escrow.refund_unreleased_milestones(id, &[0]),
        Err(Failure::Escrow(EscrowError::AlreadyFinalized))
    );
}

/// Creates, funds and fully releases a three-milestone contract, then rates it.
fn complete_and_rate(escrow: &mut Escrow, c: Address, f: Address, rating: i128) -> u32 {
    let id = escrow.create_contract(c, f, None, &[100, 200, 300], ReleaseAuthorization::ClientOnly).unwrap();
    assert!(escrow.deposit_funds(id, c, 600).unwrap());
    for i in 0..3u32 {
        assert!(escrow.approve_milestone_release(id, c, i, LEDGER).unwrap());
        assert!(escrow.release_milestone(id, c, i, LEDGER).unwrap());
    }
    assert!(escrow.issue_reputation(id, c, f, rating).unwrap());
    id
}

#[test]
fn average_rating_returns_none_when_no_completed_contracts() {
    let escrow = Escrow::new();
    assert_eq!(escrow.get_average_rating(party(2)), None);
}

#[test]
fn average_rating_returns_scaled_value_for_completed_contracts() {
    let mut escrow = Escrow::new();
    let (c, f) = (party(1), party(2));
    complete_and_rate(&mut escrow, c, f, 5);
    assert_eq!(escrow.get_average_rating(f), Some(500));
}

#[test]
fn average_rating_aggregates_across_multiple_completed_contracts() {
    let mut escrow = Escrow::new();
    let (c, f) = (party(1), party(2));
    complete_and_rate(&mut escrow, c, f, 5);
    complete_and_rate(&mut escrow, c, f, 4);
    let reputation = escrow.get_reputation(f).unwrap();
    assert_eq!(reputation.completed_contracts, 2);
    assert_eq!(reputation.total_rating, 9);
    assert_eq!(escrow.get_average_rating(f), Some(450));
}

#[test]
fn average_rating_rounds_down_and_stays_in_range() {
    let mut escrow = Escrow::new();
    let (c, f) = (party(1), party(2));
    for rating in [1_i128, 1, 2] {
        complete_and_rate(&mut escrow, c, f, rating);
    }
    assert_eq!(escrow.get_average_rating(f), Some(133));
    assert_eq!(escrow.get_average_rating(c), None);
}

#[test]
fn milestone_count_is_limited() {
    let mut escrow = Escrow::new();
    let (c, f) = (party(1), party(2));
    let sixteen = vec![10_i128; MAX_MILESTONES];
    assert_eq!(escrow.create_contract(c, f, None, &sixteen, ReleaseAuthorization::ClientOnly), Ok(1));
    let seventeen = vec![10_i128; MAX_MILESTONES + 1];
    assert_eq!(
        escrow.create_contract(c, f, None, &seventeen, ReleaseAuthorization::ClientOnly),
        Err(Failure::Escrow(EscrowError::InvalidMilestone))
    );
    assert_eq!(escrow.create_contract(c, f, None, &[10], ReleaseAuthorization::ClientOnly), Ok(2));
}
