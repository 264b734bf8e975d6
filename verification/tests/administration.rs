//! Initialization, pause and emergency controls, governance and the
//! readiness checklist.

use escrow::{
    Address, ContractStatus, Error, Escrow, EscrowError, Failure, ReleaseAuthorization,
};

const LEDGER: u32 = 1_000;

fn party(n: u128) -> Address {
    Address { key_hi: 3, key_lo: n, is_contract: false }
}

fn setup_initialized() -> (Escrow, Address) {
    let mut escrow = Escrow::new();
    let admin = party(100);
    assert!(escrow.initialize(admin).unwrap());
    (escrow, admin)
}

fn setup_funded_contract(escrow: &mut Escrow) -> (Address, Address, u32) {
    let (c, f) = (party(1), party(2));
    let id = escrow
        .create_contract(c, f, None, &[100_i128, 200_i128], ReleaseAuthorization::ClientOnly)
        .unwrap();
    escrow.deposit_funds(id, c, 300_i128).unwrap();
    (c, f, id)
}

fn setup_completed_contract(escrow: &mut Escrow) -> (Address, Address, u32) {
    let (c, f, id) = setup_funded_contract(escrow);
    escrow.approve_milestone_release(id, c, 0, LEDGER).unwrap();
    escrow.release_milestone(id, c, 0, LEDGER).unwrap();
    escrow.approve_milestone_release(id, c, 1, LEDGER).unwrap();
    escrow.release_milestone(id, c, 1, LEDGER).unwrap();
    (c, f, id)
}

#[test]
fn initialization_smoke_test() {
    let mut escrow = Escrow::new();
    assert!(escrow.initialize(party(100)).unwrap());
}

#[test]
fn governance_double_initialize_fails() {
    let mut escrow = Escrow::new();
    let admin = party(100);
    escrow.initialize(admin).unwrap();
    assert_eq!(escrow.initialize(admin), Err(Failure::Escrow(EscrowError::AlreadyInitialized)));
}

#[test]
fn pause_unpause_governance() {
    let (mut escrow, _admin) = setup_initialized();
    assert!(escrow.pause().unwrap());
    assert!(escrow.is_paused());
    assert!(escrow.unpause().unwrap());
    assert!(!escrow.is_paused());
}

#[test]
fn emergency_pause_governance() {
    let (mut escrow, _admin) = setup_initialized();
    assert!(escrow.activate_emergency_pause().unwrap());
    assert!(escrow.is_paused());
    assert!(escrow.is_emergency());
    assert!(escrow.resolve_emergency().unwrap());
    assert!(!escrow.is_emergency());
}

#[test]
fn protocol_fee_bps_change_emits_event_smoke() {
    let (mut escrow, _admin) = setup_initialized();
    assert!(escrow.set_protocol_fee_bps(100u32).unwrap());
}

#[test]
fn admin_propose_and_accept_emit_events_smoke() {
    let (mut escrow, _admin) = setup_initialized();
    let next_admin = party(101);
    assert!(escrow.propose_governance_admin(next_admin).unwrap());
    assert!(escrow.accept_governance_admin().unwrap());
}

#[test]
fn initialize_only_once_fails() {
    let (mut escrow, admin) = setup_initialized();
    assert_eq!(escrow.initialize(admin), Err(Failure::Escrow(EscrowError::AlreadyInitialized)));
}

#[test]
fn pause_then_unpause_toggles_state() {
    let (mut escrow, _admin) = setup_initialized();
    assert!(!escrow.is_paused());
    assert!(escrow.pause().unwrap());
    assert!(escrow.is_paused());
    assert!(escrow.unpause().unwrap());
    assert!(!escrow.is_paused());
}

#[test]
fn pause_requires_initialization() {
    let mut escrow = Escrow::new();
    assert_eq!(escrow.pause(), Err(Failure::Escrow(EscrowError::NotInitialized)));
}

#[test]
fn pause_blocks_create_contract() {
    let (mut escrow, _admin) = setup_initialized();
    escrow.pause().unwrap();
    assert_eq!(
        escrow.create_contract(party(1), party(2), None, &[50_i128], ReleaseAuthorization::ClientOnly),
        Err(Failure::Escrow(EscrowError::ContractPaused))
    );
}

#[test]
fn pause_blocks_deposit_funds() {
    let (mut escrow, _admin) = setup_initialized();
    let (c, _, id) = setup_funded_contract(&mut escrow);
    escrow.pause().unwrap();
    assert_eq!(escrow.deposit_funds(id, party(9), 50_i128), Err(Failure::Escrow(EscrowError::ContractPaused)));
    assert_eq!(escrow.deposit_funds(id, c, 50_i128), Err(Failure::Escrow(EscrowError::ContractPaused)));
}

#[test]
fn pause_blocks_release_milestone() {
    let (mut escrow, _admin) = setup_initialized();
    let (c, _, id) = setup_funded_contract(&mut escrow);
    escrow.pause().unwrap();
    assert_eq!(
        escrow.release_milestone(id, party(9), 0, LEDGER),
        Err(Failure::Escrow(EscrowError::ContractPaused))
    );
    assert_eq!(
        escrow.release_milestone(id, c, 0, LEDGER),
        Err(Failure::Escrow(EscrowError::ContractPaused))
    );
}

#[test]
fn pause_blocks_issue_reputation() {
    let (mut escrow, _admin) = setup_initialized();
    let (c, f, id) = setup_completed_contract(&mut escrow);
    escrow.pause().unwrap();
    assert_eq!(
        escrow.issue_reputation(id, c, f, 5_i128),
        Err(Failure::Escrow(EscrowError::ContractPaused))
    );
}

#[test]
fn pause_blocks_cancel_contract() {
    let (mut escrow, _admin) = setup_initialized();
    let (c, _, id) = setup_funded_contract(&mut escrow);
    escrow.pause().unwrap();
    assert_eq!(escrow.cancel_contract(id, c), Err(Failure::Escrow(EscrowError::ContractPaused)));
}

#[test]
fn unpause_restores_create_contract() {
    let (mut escrow, _admin) = setup_initialized();
    escrow.pause().unwrap();
    escrow.unpause().unwrap();
    let id = escrow
        .create_contract(party(1), party(2), None, &[50_i128], ReleaseAuthorization::ClientOnly)
        .unwrap();
    assert_eq!(id, 1);
}

#[test]
fn cancel_contract_no_event_on_invalid_state() {
    let (mut escrow, _admin) = setup_initialized();
    let (c, f) = (party(1), party(2));
    let id = escrow
        .create_contract(c, f, None, &[100_i128, 200_i128, 300_i128], ReleaseAuthorization::ClientOnly)
        .unwrap();
    assert!(escrow.cancel_contract(id, c).unwrap());
    let result = escrow.cancel_contract(id, c);
    assert!(result.is_err(), "Second cancellation should fail");
}

#[test]
fn initialized_written_on_initialize() {
    let mut escrow = Escrow::new();
    assert!(escrow.initialize(party(100)).unwrap());
    assert!(escrow.is_initialized());
}

#[test]
fn admin_written_on_initialize() {
    let mut escrow = Escrow::new();
    let admin = party(100);
    escrow.initialize(admin).unwrap();
    assert_eq!(escrow.get_admin(), Some(admin));
}

#[test]
fn storage_double_initialize_fails() {
    let mut escrow = Escrow::new();
    let admin = party(100);
    escrow.initialize(admin).unwrap();
    assert_eq!(escrow.initialize(admin), Err(Failure::Escrow(EscrowError::AlreadyInitialized)));
}

#[test]
fn paused_written_by_pause_and_cleared_by_unpause() {
    let (mut escrow, _admin) = setup_initialized();
    escrow.pause().unwrap();
    assert!(escrow.is_paused());
    escrow.unpause().unwrap();
    assert!(!escrow.is_paused());
}

#[test]
fn paused_blocks_create_contract() {
    let (mut escrow, _admin) = setup_initialized();
    escrow.pause().unwrap();
    assert_eq!(
        escrow.create_contract(
            party(1),
            party(2),
            None,
            &[200_0000000_i128, 400_0000000_i128, 600_0000000_i128],
            ReleaseAuthorization::ClientOnly
        ),
        Err(Failure::Escrow(EscrowError::ContractPaused))
    );
}

#[test]
fn paused_blocks_deposit_funds() {
    let (mut escrow, _admin) = setup_initialized();
    let (c, f) = (party(1), party(2));
    let id = escrow
        .create_contract(c, f, None, &[200_0000000_i128, 400_0000000_i128, 600_0000000_i128], ReleaseAuthorization::ClientOnly)
        .unwrap();
    escrow.pause().unwrap();
    assert_eq!(
        escrow.deposit_funds(id, c, 1200_0000000_i128),
        Err(Failure::Escrow(EscrowError::ContractPaused))
    );
}

#[test]
fn paused_blocks_release_milestone() {
    let (mut escrow, _admin) = setup_initialized();
    let (c, f) = (party(1), party(2));
    let id = escrow
        .create_contract(c, f, None, &[200_0000000_i128, 400_0000000_i128, 600_0000000_i128], ReleaseAuthorization::ClientOnly)
        .unwrap();
    escrow.deposit_funds(id, c, 1200_0000000_i128).unwrap();
    escrow.pause().unwrap();
    assert_eq!(
        escrow.release_milestone(id, c, 0, LEDGER),
        Err(Failure::Escrow(EscrowError::ContractPaused))
    );
}

#[test]
fn paused_blocks_cancel_contract() {
    let (mut escrow, _admin) = setup_initialized();
    let (c, f) = (party(1), party(2));
    let id = escrow
        .create_contract(c, f, None, &[200_0000000_i128, 400_0000000_i128, 600_0000000_i128], ReleaseAuthorization::ClientOnly)
        .unwrap();
    escrow.pause().unwrap();
    assert_eq!(escrow.cancel_contract(id, c), Err(Failure::Escrow(EscrowError::ContractPaused)));
}

#[test]
fn read_only_queries_not_blocked_by_pause() {
    let (mut escrow, _admin) = setup_initialized();
    let (c, f) = (party(1), party(2));
    let id = escrow
        .create_contract(c, f, None, &[200_0000000_i128, 400_0000000_i128, 600_0000000_i128], ReleaseAuthorization::ClientOnly)
        .unwrap();
    escrow.pause().unwrap();
    let record = escrow.get_contract(id).unwrap();
    assert_eq!(record.status, ContractStatus::Created);
    assert!(escrow.is_paused());
}

#[test]
fn emergency_written_by_activate_and_cleared_by_resolve() {
    let (mut escrow, _admin) = setup_initialized();
    escrow.activate_emergency_pause().unwrap();
    assert!(escrow.is_emergency());
    escrow.resolve_emergency().unwrap();
    assert!(!escrow.is_emergency());
}

#[test]
fn initialize_sets_admin() {
    let mut escrow = Escrow::new();
    escrow.initialize(party(100)).unwrap();
    let info = escrow.get_mainnet_readiness_info();
    assert!(info.admin_set);
}

#[test]
fn governance_errors_follow_the_transfer_protocol() {
    let mut fresh = Escrow::new();
    assert_eq!(fresh.set_protocol_fee_bps(1), Err(Failure::Core(Error::NotInitialized)));
    assert_eq!(fresh.accept_governance_admin(), Err(Failure::Core(Error::NotInitialized)));
    let (mut escrow, admin) = setup_initialized();
    assert_eq!(escrow.propose_governance_admin(admin), Err(Failure::Core(Error::CannotProposeSelf)));
    assert_eq!(escrow.accept_governance_admin(), Err(Failure::Core(Error::InvalidState)));
    assert_eq!(
        escrow.cancel_governance_admin_proposal(),
        Err(Failure::Core(Error::NoPendingAdminProposal))
    );
    let next = party(101);
    escrow.propose_governance_admin(next).unwrap();
    assert_eq!(escrow.get_pending_governance_admin(), Some(next));
    assert_eq!(escrow.get_governance_admin(), Some(admin));
    assert!(escrow.cancel_governance_admin_proposal().unwrap());
    assert_eq!(escrow.get_pending_governance_admin(), None);
    escrow.propose_governance_admin(next).unwrap();
    escrow.accept_governance_admin().unwrap();
    assert_eq!(escrow.get_governance_admin(), Some(next));
    assert_eq!(escrow.get_pending_governance_admin(), None);
}

#[test]
fn unpause_is_refused_during_emergency() {
    let (mut escrow, _admin) = setup_initialized();
    escrow.activate_emergency_pause().unwrap();
    assert_eq!(escrow.unpause(), Err(Failure::Escrow(EscrowError::EmergencyActive)));
    assert!(escrow.is_paused());
    assert!(escrow.get_mainnet_readiness_info().emergency_controls_enabled);
    escrow.resolve_emergency().unwrap();
    assert!(!escrow.is_paused());
}

#[test]
fn governance_is_not_blocked_by_pause() {
    let (mut escrow, _admin) = setup_initialized();
    escrow.pause().unwrap();
    assert!(escrow.set_protocol_fee_bps(250).unwrap());
    assert_eq!(escrow.get_protocol_fee_bps(), 250);
    assert!(escrow.propose_governance_admin(party(5)).unwrap());
}

#[test]
fn get_mainnet_readiness_info_no_auth_no_events() {
    let escrow = Escrow::new();
    let before = escrow.get_mainnet_readiness_info();

    let _info = escrow.get_mainnet_readiness_info();

    assert_eq!(escrow.get_mainnet_readiness_info(), before);
}
