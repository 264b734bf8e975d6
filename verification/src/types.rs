use vstd::prelude::*;

verus! {

/// An account or contract identity on the ledger.
///
/// Only identity matters to the escrow rules: two addresses are the same
/// participant exactly when all three fields agree. The 256-bit payload is
/// the public key (for accounts) or contract hash (for contracts).
#[derive(Clone, Copy, Debug, PartialEq, Eq, Structural)]
pub struct Address {
    pub key_hi: u128,
    pub key_lo: u128,
    pub is_contract: bool,
}

/// Contract lifecycle states.
#[derive(Clone, Copy, Debug, PartialEq, Eq, Structural)]
pub enum ContractStatus {
    Created,
    Accepted,
    Funded,
    Completed,
    Disputed,
    Cancelled,
    Refunded,
    PartiallyFunded,
}

/// Which participants may approve and release milestones.
#[derive(Clone, Copy, Debug, PartialEq, Eq, Structural)]
pub enum ReleaseAuthorization {
    /// Only the client approves and releases.
    ClientOnly,
    /// Only the arbiter approves and releases.
    ArbiterOnly,
    /// Either the client or the arbiter approves and releases.
    ClientAndArbiter,
    /// Client and freelancer must both approve; either may release.
    MultiSig,
}

/// Contract-level error codes (the escrow's core error set).
#[derive(Clone, Copy, Debug, PartialEq, Eq, Structural)]
pub enum Error {
    IndexOutOfBounds,
    AlreadyReleased,
    EmptyRefundRequest,
    DuplicateMilestoneInRefund,
    AlreadyRefunded,
    InsufficientFunds,
    ContractNotFound,
    UnauthorizedRole,
    MissingArbiter,
    InvalidArbiter,
    InvalidParticipants,
    AmountMustBePositive,
    InvalidState,
    MilestoneAlreadyReleased,
    AlreadyApproved,
    InsufficientApprovals,
    FreelancerMismatch,
    InvalidRating,
    ReputationAlreadyIssued,
    EmptyMilestones,
    InvalidMilestoneAmount,
    ContractIdCollision,
    ContractIdOverflow,
    EmptyComment,
    CommentTooLong,
    NotInitialized,
    CannotProposeSelf,
    NoPendingAdminProposal,
}

/// Administrative, validation and accounting error codes.
#[derive(Clone, Copy, Debug, PartialEq, Eq, Structural)]
pub enum EscrowError {
    InvalidParticipant,
    EmptyMilestones,
    InvalidMilestoneAmount,
    InvalidDepositAmount,
    InvalidMilestone,
    ContractNotFound,
    EmptyRefundRequest,
    DuplicateMilestoneInRefund,
    AlreadyReleased,
    AlreadyRefunded,
    InsufficientFunds,
    AlreadyInitialized,
    InsufficientAccumulatedFees,
    NotInitialized,
    UnauthorizedRole,
    ContractPaused,
    EmergencyActive,
    InvalidState,
    InvalidRating,
    SelfRating,
    ReputationAlreadyIssued,
    NotCompleted,
    FreelancerMismatch,
    InvalidStatusTransition,
    ProtocolFeeOverflow,
    ProtocolFeeBpsExceedsMaximum,
    AmountMustBePositive,
    AlreadyFinalized,
    PotentialOverflow,
    EvidenceTooLong,
}

/// The error an entry point rejects with: one code from either error set.
#[derive(Clone, Copy, Debug, PartialEq, Eq, Structural)]
pub enum Failure {
    Core(Error),
    Escrow(EscrowError),
}

/// Participants and milestone amounts of an escrow agreement.
#[derive(Clone, Debug)]
pub struct ContractData {
    pub client: Address,
    pub freelancer: Address,
    pub milestones: Vec<i128>,
}

/// Main escrow contract state (amounts in stroops).
///
/// - `funded_amount`: total amount deposited so far.
/// - `released_amount`: total released to the freelancer.
/// - `refunded_amount`: total refunded to the client.
/// - `total_deposited`: accumulated sum of all deposits.
#[derive(Clone, Copy, Debug, PartialEq, Eq, Structural)]
pub struct Contract {
    pub client: Address,
    pub freelancer: Address,
    pub arbiter: Option<Address>,
    pub status: ContractStatus,
    pub total_deposited: i128,
    pub funded_amount: i128,
    pub released_amount: i128,
    pub refunded_amount: i128,
    pub release_authorization: ReleaseAuthorization,
    pub reputation_issued: bool,
}

/// A single milestone of an escrow contract.
///
/// - `amount`: the agreed payout.
/// - `funded_amount`: how much of `amount` the deposits cover, deposits being
///   distributed over the milestones in order.
/// - `released`: paid out to the freelancer.
/// - `refunded`: returned to the client.
/// - `refunded_amount`: `amount` once refunded, zero before.
#[derive(Clone, Copy, Debug, PartialEq, Eq, Structural)]
pub struct Milestone {
    pub amount: i128,
    pub funded_amount: i128,
    pub released: bool,
    pub refunded: bool,
    pub refunded_amount: i128,
}

/// Approvals recorded for one milestone, live through ledger `live_until_ledger`.
#[derive(Clone, Copy, Debug, PartialEq, Eq, Structural)]
pub struct MilestoneApprovals {
    pub client_approved: bool,
    pub freelancer_approved: bool,
    pub arbiter_approved: bool,
    pub live_until_ledger: u64,
}

/// Aggregated reputation of a freelancer.
#[derive(Clone, Copy, Debug, PartialEq, Eq, Structural)]
pub struct Reputation {
    pub completed_contracts: i128,
    pub total_rating: i128,
    pub last_rating: i128,
}

/// Mainnet readiness flags.
#[derive(Clone, Copy, Debug, PartialEq, Eq, Structural)]
pub struct ReadinessChecklist {
    pub initialized: bool,
    pub admin_set: bool,
    pub emergency_controls_enabled: bool,
}

/// One milestone as reported in a contract summary.
#[derive(Clone, Copy, Debug, PartialEq, Eq, Structural)]
pub struct MilestoneSummary {
    pub index: u32,
    pub amount: i128,
    pub released: bool,
    pub refunded: bool,
}

/// Indexer-facing summary of a contract, captured at finalization.
#[derive(Clone, Debug)]
pub struct ContractSummary {
    pub schema_version: u32,
    pub client: Address,
    pub freelancer: Address,
    pub arbiter: Option<Address>,
    pub status: ContractStatus,
    pub reputation_issued: bool,
    pub total_amount: i128,
    pub funded_amount: i128,
    pub released_amount: i128,
    pub refundable_balance: i128,
    pub released_milestone_count: u32,
    pub milestones: Vec<MilestoneSummary>,
}

/// Record written when a contract is finalized.
#[derive(Clone, Debug)]
pub struct FinalizationRecord {
    pub finalizer: Address,
    pub timestamp: u64,
    pub summary: ContractSummary,
}

} // verus!
