//! Contract lifecycle: creation, funding, approval, release, cancellation,
//! finalization and persistence of the recorded state.

use escrow::{
    Address, ContractStatus, Error, Escrow, EscrowError, Failure, ReleaseAuthorization,
};

const MILESTONE_ONE: i128 = 200_0000000_i128;
const MILESTONE_TWO: i128 = 400_0000000_i128;
const MILESTONE_THREE: i128 = 600_0000000_i128;
const LEDGER: u32 = 1_000;

fn party(n: u128) -> Address {
    Address { key_hi: 7, key_lo: n, is_contract: false }
}

fn default_milestones() -> Vec<i128> {
    vec![MILESTONE_ONE, MILESTONE_TWO, MILESTONE_THREE]
}

fn total_milestone_amount() -> i128 {
    MILESTONE_ONE + MILESTONE_TWO + MILESTONE_THREE
}

fn initialized() -> Escrow {
    let mut escrow = Escrow::new();
    assert!(escrow.initialize(party(100)).unwrap());
    escrow
}

fn create_default_contract(escrow: &mut Escrow, client: Address, freelancer: Address, arbiter: Option<Address>) -> u32 {
    escrow
        .create_contract(client, freelancer, arbiter, &[100_i128, 200_i128, 300_i128], ReleaseAuthorization::ClientOnly)
        .unwrap()
}

/// A contract whose three default milestones have all been released.
fn complete_contract(escrow: &mut Escrow) -> (Address, Address, u32) {
    let (c, f) = (party(1), party(2));
    let id = escrow
        .create_contract(c, f, None, &default_milestones(), ReleaseAuthorization::ClientOnly)
        .unwrap();
    escrow.deposit_funds(id, c, total_milestone_amount()).unwrap();
    for i in 0..3u32 {
        escrow.approve_milestone_release(id, c, i, LEDGER).unwrap();
        escrow.release_milestone(id, c, i, LEDGER).unwrap();
    }
    (c, f, id)
}

#[test]
fn test_hello() {
    assert_eq!(Escrow::hello("World"), "World");
}

#[test]
fn test_create_contract_success() {
    let mut escrow = Escrow::new();
    let id = escrow
        .create_contract(
            party(1),
            party(2),
            None,
            &[200_0000000_i128, 400_0000000_i128, 600_0000000_i128],
            ReleaseAuthorization::ClientOnly,
        )
        .unwrap();
    assert_eq!(id, 1);
}

#[test]
fn test_create_contract_with_arbiter() {
    let mut escrow = Escrow::new();
    let id = escrow
        .create_contract(
            party(1),
            party(2),
            Some(party(3)),
            &[1000_0000000_i128],
            ReleaseAuthorization::ClientAndArbiter,
        )
        .unwrap();
    assert_eq!(id, 1);
}

#[test]
fn test_approve_milestone_release_client_only() {
    let mut escrow = Escrow::new();
    let (c, f) = (party(1), party(2));
    let id = escrow.create_contract(c, f, None, &[1000_0000000_i128], ReleaseAuthorization::ClientOnly).unwrap();
    escrow.deposit_funds(id, c, 1000_0000000).unwrap();
    let result = escrow.approve_milestone_release(id, c, 0, LEDGER).unwrap();
    assert!(result);
}

#[test]
fn test_release_milestone_client_only() {
    let mut escrow = Escrow::new();
    let (c, f) = (party(1), party(2));
    let id = escrow.create_contract(c, f, None, &[1000_0000000_i128], ReleaseAuthorization::ClientOnly).unwrap();
    escrow.deposit_funds(id, c, 1000_0000000).unwrap();
    escrow.approve_milestone_release(id, c, 0, LEDGER).unwrap();
    let result = escrow.release_milestone(id, c, 0, LEDGER).unwrap();
    assert!(result);
}

#[test]
fn test_release_milestone_arbiter_only() {
    let mut escrow = Escrow::new();
    let (c, f, a) = (party(1), party(2), party(3));
    let id = escrow
        .create_contract(c, f, Some(a), &[1000_0000000_i128], ReleaseAuthorization::ArbiterOnly)
        .unwrap();
    escrow.deposit_funds(id, c, 1000_0000000).unwrap();
    escrow.approve_milestone_release(id, a, 0, LEDGER).unwrap();
    let result = escrow.release_milestone(id, a, 0, LEDGER).unwrap();
    assert!(result);
}

#[test]
fn test_contract_completion_all_milestones_released() {
    let mut escrow = Escrow::new();
    let (c, f) = (party(1), party(2));
    let id = escrow
        .create_contract(c, f, None, &[1000_0000000_i128, 2000_0000000_i128], ReleaseAuthorization::ClientOnly)
        .unwrap();
    escrow.deposit_funds(id, c, 3000_0000000).unwrap();
    escrow.approve_milestone_release(id, c, 0, LEDGER).unwrap();
    escrow.release_milestone(id, c, 0, LEDGER).unwrap();
    escrow.approve_milestone_release(id, c, 1, LEDGER).unwrap();
    escrow.release_milestone(id, c, 1, LEDGER).unwrap();
    let record = escrow.get_contract(id).unwrap();
    assert_eq!(record.status, ContractStatus::Completed);
}

#[test]
fn arbiter_cancels_funded_contract() {
    let mut escrow = initialized();
    let (c, f, a) = (party(1), party(2), party(3));
    let id = create_default_contract(&mut escrow, c, f, Some(a));
    escrow.deposit_funds(id, c, 600_i128).unwrap();
    assert!(escrow.cancel_contract(id, c).unwrap());
}

#[test]
#[should_panic]
fn unauthorized_user_cannot_cancel() {
    let mut escrow = initialized();
    let (c, f) = (party(1), party(2));
    let id = create_default_contract(&mut escrow, c, f, None);
    escrow.cancel_contract(id, party(9)).unwrap();
}

#[test]
fn cancellation_emits_events() {
    let mut escrow = initialized();
    let (c, f) = (party(1), party(2));
    let id = create_default_contract(&mut escrow, c, f, None);
    assert!(escrow.cancel_contract(id, c).unwrap());
}

#[test]
fn finalize_completed_contract_smoke() {
    let mut escrow = initialized();
    let (c, f) = (party(1), party(2));
    let id = escrow.create_contract(c, f, None, &[100_i128], ReleaseAuthorization::ClientOnly).unwrap();
    assert!(escrow.deposit_funds(id, c, 100_i128).unwrap());
    assert!(escrow.approve_milestone_release(id, c, 0, LEDGER).unwrap());
    assert!(escrow.release_milestone(id, c, 0, LEDGER).unwrap());
    assert!(escrow.finalize_contract(id, c, 1_700_000_000).unwrap());
}

#[test]
fn finalized_contract_rejects_subsequent_mutations() {
    let mut escrow = initialized();
    let (c, f) = (party(1), party(2));
    let id = escrow.create_contract(c, f, None, &[100_i128], ReleaseAuthorization::ClientOnly).unwrap();
    assert!(escrow.deposit_funds(id, c, 100_i128).unwrap());
    assert!(escrow.approve_milestone_release(id, c, 0, LEDGER).unwrap());
    assert!(escrow.release_milestone(id, c, 0, LEDGER).unwrap());
    assert!(escrow.finalize_contract(id, c, 1_700_000_000).unwrap());

    assert_eq!(escrow.deposit_funds(id, c, 1_i128), Err(Failure::Escrow(EscrowError::AlreadyFinalized)));
    assert_eq!(
        escrow.release_milestone(id, c, 0, LEDGER),
        Err(Failure::Escrow(EscrowError::AlreadyFinalized))
    );
    assert_eq!(
        escrow.issue_reputation(id, c, f, 5_i128),
        Err(Failure::Escrow(EscrowError::AlreadyFinalized))
    );
}

#[test]
fn contract_state_round_trips_across_lifecycle_mutations() {
    let mut escrow = initialized();
    let (c, f) = (party(1), party(2));
    let id = escrow.create_contract(c, f, None, &default_milestones(), ReleaseAuthorization::ClientOnly).unwrap();

    let created = escrow.get_contract(id).unwrap();
    assert_eq!(created.client, c);
    assert_eq!(created.freelancer, f);
    assert_eq!(created.status, ContractStatus::Created);

    assert!(escrow.deposit_funds(id, c, total_milestone_amount()).unwrap());
    let funded = escrow.get_contract(id).unwrap();
    assert_eq!(funded.status, ContractStatus::Funded);

    assert!(escrow.approve_milestone_release(id, c, 0, LEDGER).unwrap());
    assert!(escrow.release_milestone(id, c, 0, LEDGER).unwrap());

    let after_release = escrow.get_contract(id).unwrap();
    assert_eq!(after_release.released_amount, MILESTONE_ONE);
}

#[test]
fn participant_metadata_and_pending_credits_persist() {
    let mut escrow = initialized();
    let (c, f, id) = complete_contract(&mut escrow);
    let completed = escrow.get_contract(id).unwrap();
    assert_eq!(completed.client, c);
    assert_eq!(completed.freelancer, f);
    assert!(escrow.issue_reputation(id, c, f, 5).unwrap());
}

#[test]
fn try_get_contract_reports_missing_state() {
    let escrow = initialized();
    assert_eq!(escrow.get_contract(777), Err(Failure::Core(Error::ContractNotFound)));
}

#[test]
fn performance_smoke_test() {
    let mut escrow = initialized();
    let (c, f) = (party(1), party(2));
    let id = escrow.create_contract(c, f, None, &default_milestones(), ReleaseAuthorization::ClientOnly).unwrap();
    escrow.deposit_funds(id, c, total_milestone_amount()).unwrap();
    assert!(escrow.approve_milestone_release(id, c, 0, LEDGER).unwrap());
    escrow.release_milestone(id, c, 0, LEDGER).unwrap();
}

#[test]
fn releases_funded_milestones_and_completes_when_all_released() {
    let mut escrow = Escrow::new();
    let (c, f) = (party(1), party(2));
    let id = escrow.create_contract(c, f, None, &default_milestones(), ReleaseAuthorization::ClientOnly).unwrap();

    assert!(escrow.deposit_funds(id, c, total_milestone_amount()).unwrap());

    assert!(escrow.approve_milestone_release(id, c, 0, LEDGER).unwrap());
    assert!(escrow.release_milestone(id, c, 0, LEDGER).unwrap());

    let contract = escrow.get_contract(id).unwrap();
    assert_eq!(contract.status, ContractStatus::Funded);
    assert_eq!(contract.released_amount, MILESTONE_ONE);

    assert!(escrow.approve_milestone_release(id, c, 1, LEDGER).unwrap());
    assert!(escrow.release_milestone(id, c, 1, LEDGER).unwrap());
    assert!(escrow.approve_milestone_release(id, c, 2, LEDGER).unwrap());
    assert!(escrow.release_milestone(id, c, 2, LEDGER).unwrap());

    let contract = escrow.get_contract(id).unwrap();
    assert_eq!(contract.status, ContractStatus::Completed);
    assert_eq!(contract.released_amount, total_milestone_amount());
    assert_eq!(escrow.get_refundable_balance(id).unwrap(), 0);
}

#[test]
fn rejects_releasing_refunded_milestone() {
    let mut escrow = Escrow::new();
    let (c, f) = (party(1), party(2));
    let id = escrow.create_contract(c, f, None, &default_milestones(), ReleaseAuthorization::ClientOnly).unwrap();
    assert!(escrow.deposit_funds(id, c, total_milestone_amount()).unwrap());
    escrow.refund_unreleased_milestones(id, &[1_u32]).unwrap();

    assert!(escrow.approve_milestone_release(id, c, 1, LEDGER).unwrap());
    let result = escrow.release_milestone(id, c, 1, LEDGER);
    assert_eq!(result, Err(Failure::Escrow(EscrowError::AlreadyRefunded)));
}

fn funded_contract(escrow: &mut Escrow) -> (Address, Address, u32) {
    let (c, f) = (party(1), party(2));
    let id = escrow
        .create_contract(c, f, None, &[500_i128, 300_i128], ReleaseAuthorization::ClientOnly)
        .unwrap();
    escrow.deposit_funds(id, c, 800_i128).unwrap();
    (c, f, id)
}

#[test]
fn client_can_release_funded_milestone() {
    let mut escrow = initialized();
    let (c, _f, id) = funded_contract(&mut escrow);
    assert!(escrow.approve_milestone_release(id, c, 0, LEDGER).unwrap());
    assert!(escrow.release_milestone(id, c, 0, LEDGER).unwrap());
    let contract = escrow.get_contract(id).unwrap();
    assert_eq!(contract.released_amount, 500_i128);
}

#[test]
fn attacker_cannot_release_milestone() {
    let mut escrow = initialized();
    let (_c, _f, id) = funded_contract(&mut escrow);
    let attacker = party(66);
    let result = escrow.release_milestone(id, attacker, 0, LEDGER);
    assert_eq!(result, Err(Failure::Escrow(EscrowError::UnauthorizedRole)));
}

#[test]
fn freelancer_cannot_release_milestone() {
    let mut escrow = initialized();
    let (_c, f, id) = funded_contract(&mut escrow);
    let result = escrow.release_milestone(id, f, 0, LEDGER);
    assert_eq!(result, Err(Failure::Escrow(EscrowError::UnauthorizedRole)));
}

#[test]
fn release_emits_events() {
    let mut escrow = initialized();
    let (c, f) = (party(1), party(2));
    let id = create_default_contract(&mut escrow, c, f, None);
    escrow.deposit_funds(id, c, 600_i128).unwrap();
    assert!(escrow.approve_milestone_release(id, c, 0, LEDGER).unwrap());
    escrow.release_milestone(id, c, 0, LEDGER).unwrap();
}

#[test]
fn contract_written_on_create_and_readable() {
    let mut escrow = Escrow::new();
    let (c, f) = (party(1), party(2));
    let id = escrow.create_contract(c, f, None, &default_milestones(), ReleaseAuthorization::ClientOnly).unwrap();
    let record = escrow.get_contract(id).unwrap();
    assert_eq!(record.client, c);
    assert_eq!(record.freelancer, f);
    assert_eq!(record.status, ContractStatus::Created);
    assert_eq!(record.total_deposited, 0);
}

#[test]
fn next_contract_id_increments_per_contract() {
    let mut escrow = Escrow::new();
    let (c, f) = (party(1), party(2));
    let id1 = escrow.create_contract(c, f, None, &default_milestones(), ReleaseAuthorization::ClientOnly).unwrap();
    let id2 = escrow.create_contract(c, f, None, &default_milestones(), ReleaseAuthorization::ClientOnly).unwrap();
    assert_eq!(id2, id1 + 1);
}

#[test]
fn milestone_status_updated_on_release() {
    let mut escrow = Escrow::new();
    let (c, f) = (party(1), party(2));
    let id = escrow.create_contract(c, f, None, &default_milestones(), ReleaseAuthorization::ClientOnly).unwrap();
    escrow.deposit_funds(id, c, total_milestone_amount()).unwrap();
    escrow.approve_milestone_release(id, c, 0, LEDGER).unwrap();
    escrow.release_milestone(id, c, 0, LEDGER).unwrap();
    let milestones = escrow.get_milestones(id).unwrap();
    assert!(milestones[0].released);
    assert!(!milestones[1].released);
}

#[test]
fn issue_reputation_works() {
    let mut escrow = Escrow::new();
    let (c, f, id) = complete_contract(&mut escrow);
    assert!(escrow.issue_reputation(id, c, f, 5).unwrap());
}

#[test]
fn released_amount_tracks_milestone_amounts() {
    let mut escrow = Escrow::new();
    let (c, f) = (party(1), party(2));
    let id = escrow.create_contract(c, f, None, &default_milestones(), ReleaseAuthorization::ClientOnly).unwrap();
    escrow.deposit_funds(id, c, total_milestone_amount()).unwrap();

    escrow.approve_milestone_release(id, c, 0, LEDGER).unwrap();
    escrow.release_milestone(id, c, 0, LEDGER).unwrap();
    let r = escrow.get_contract(id).unwrap();
    assert_eq!(r.released_amount, MILESTONE_ONE);

    escrow.approve_milestone_release(id, c, 1, LEDGER).unwrap();
    escrow.release_milestone(id, c, 1, LEDGER).unwrap();
    let r = escrow.get_contract(id).unwrap();
    assert_eq!(r.released_amount, MILESTONE_ONE + MILESTONE_TWO);
}

#[test]
fn client_cancels_before_funding() {
    let mut escrow = initialized();
    let (c, f) = (party(1), party(2));
    let id = create_default_contract(&mut escrow, c, f, None);

    let contract = escrow.get_contract(id).unwrap();
    assert_eq!(contract.status, ContractStatus::Created);

    assert!(escrow.cancel_contract(id, c).unwrap());

    let contract = escrow.get_contract(id).unwrap();
    assert_eq!(contract.status, ContractStatus::Refunded);
}

#[test]
fn freelancer_cancels_before_funding() {
    let mut escrow = initialized();
    let (c, f) = (party(1), party(2));
    let id = create_default_contract(&mut escrow, c, f, None);

    assert!(escrow.cancel_contract(id, f).unwrap());

    let contract = escrow.get_contract(id).unwrap();
    assert_eq!(contract.status, ContractStatus::Refunded);
}

#[test]
fn client_cancels_after_funding_no_releases() {
    let mut escrow = initialized();
    let (c, f) = (party(1), party(2));
    let id = create_default_contract(&mut escrow, c, f, None);
    escrow.deposit_funds(id, c, 600_i128).unwrap();

    let contract = escrow.get_contract(id).unwrap();
    assert_eq!(contract.status, ContractStatus::Funded);

    assert!(escrow.cancel_contract(id, c).unwrap());

    let contract = escrow.get_contract(id).unwrap();
    assert_eq!(contract.status, ContractStatus::Refunded);
}

#[test]
fn rejects_release_without_sufficient_balance() {
    let mut escrow = Escrow::new();
    let (c, f) = (party(1), party(2));
    let id = escrow.create_contract(c, f, None, &default_milestones(), ReleaseAuthorization::ClientOnly).unwrap();

    assert!(escrow.deposit_funds(id, c, 100_i128).unwrap());
    assert!(escrow.approve_milestone_release(id, c, 0, LEDGER).unwrap());
    let result = escrow.release_milestone(id, c, 0, LEDGER);
    assert_eq!(result, Err(Failure::Escrow(EscrowError::InsufficientFunds)));
}

#[test]
fn rejects_release_of_invalid_milestone_index() {
    let mut escrow = Escrow::new();
    let (c, f) = (party(1), party(2));
    let id = escrow.create_contract(c, f, None, &default_milestones(), ReleaseAuthorization::ClientOnly).unwrap();

    assert!(escrow.deposit_funds(id, c, total_milestone_amount()).unwrap());
    let result = escrow.release_milestone(id, c, 99, LEDGER);
    assert_eq!(result, Err(Failure::Escrow(EscrowError::InvalidMilestone)));
}

#[test]
fn rejects_releasing_same_milestone_twice() {
    let mut escrow = Escrow::new();
    let (c, f) = (party(1), party(2));
    let id = escrow.create_contract(c, f, None, &default_milestones(), ReleaseAuthorization::ClientOnly).unwrap();

    assert!(escrow.deposit_funds(id, c, total_milestone_amount()).unwrap());
    assert!(escrow.approve_milestone_release(id, c, 0, LEDGER).unwrap());
    assert!(escrow.release_milestone(id, c, 0, LEDGER).unwrap());

    assert!(escrow.approve_milestone_release(id, c, 0, LEDGER).unwrap());
    let result = escrow.release_milestone(id, c, 0, LEDGER);
    assert_eq!(result, Err(Failure::Escrow(EscrowError::AlreadyReleased)));
}

#[test]
fn double_release_is_rejected_and_amount_not_duplicated() {
    let mut escrow = initialized();
    let (c, _f, id) = funded_contract(&mut escrow);

    assert!(escrow.approve_milestone_release(id, c, 0, LEDGER).unwrap());
    assert!(escrow.release_milestone(id, c, 0, LEDGER).unwrap());

    let result = escrow.release_milestone(id, c, 0, LEDGER);
    assert_eq!(result, Err(Failure::Escrow(EscrowError::AlreadyReleased)));

    let contract = escrow.get_contract(id).unwrap();
    assert_eq!(contract.released_amount, 500_i128);
}

#[test]
fn rejects_double_release_and_completes_contract() {
    let mut escrow = initialized();
    let (c, f) = (party(1), party(2));
    let id = create_default_contract(&mut escrow, c, f, None);
    escrow.deposit_funds(id, c, 600_i128).unwrap();

    assert!(escrow.approve_milestone_release(id, c, 0, LEDGER).unwrap());
    assert!(escrow.release_milestone(id, c, 0, LEDGER).unwrap());

    let result = escrow.release_milestone(id, c, 0, LEDGER);
    assert_eq!(result, Err(Failure::Escrow(EscrowError::AlreadyReleased)));

    assert!(escrow.approve_milestone_release(id, c, 1, LEDGER).unwrap());
    assert!(escrow.release_milestone(id, c, 1, LEDGER).unwrap());
    assert!(escrow.approve_milestone_release(id, c, 2, LEDGER).unwrap());
    assert!(escrow.release_milestone(id, c, 2, LEDGER).unwrap());

    let contract = escrow.get_contract(id).unwrap();
    assert_eq!(contract.status, ContractStatus::Completed);
}
