pub mod admin;
pub mod amounts;
pub mod evidence;
pub mod fees;
pub mod finalize;
pub mod governance;
pub mod laws;
pub mod lifecycle;
pub mod milestones;
pub mod refund;
pub mod registry;
pub mod release;
pub mod reputation;
pub mod state;
pub mod types;

pub use amounts::{
    safe_add_amounts, safe_subtract_amounts, validate_deposit_amount, validate_milestone_amounts,
    validate_single_amount, MAX_TOTAL_ESCROW_STROOPS,
};
pub use fees::{calculate_protocol_fee, MAX_PROTOCOL_FEE_BPS};
pub use types::{
    Address, Contract, ContractData, ContractStatus, ContractSummary, Error, EscrowError, Failure,
    FinalizationRecord, Milestone, MilestoneApprovals, MilestoneSummary, ReadinessChecklist,
    ReleaseAuthorization, Reputation,
};
pub use lifecycle::MAX_MILESTONES;
pub use state::Escrow;
