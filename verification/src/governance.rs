use vstd::prelude::*;

use crate::fees::MAX_PROTOCOL_FEE_BPS;
use crate::state::Escrow;
use crate::types::{Address, Error, EscrowError, Failure};

verus! {

impl Escrow {
    /// Contracts, fees, reputation and all pause/emergency/readiness flags
    /// are unchanged, as is `initialized`: only the admin, the pending admin
    /// and the fee rate may differ.
    pub open spec fn only_governance_changed(&self, other: &Escrow) -> bool {
        &&& self.contracts_unchanged(other)
        &&& other.initialized_view() == self.initialized_view()
        &&& other.paused_view() == self.paused_view()
        &&& other.emergency_view() == self.emergency_view()
        &&& other.readiness_view() == self.readiness_view()
    }

    /// Returns the admin proposed in a pending transfer, if any.
    pub fn get_pending_governance_admin(&self) -> (r: Option<Address>)
        ensures
            r == self.pending_admin_view(),
    {
        self.pending_admin
    }

    /// Returns the current admin.
    pub fn get_governance_admin(&self) -> (r: Option<Address>)
        ensures
            r == self.admin_view(),
    {
        self.admin
    }

    /// Sets the protocol fee rate in basis points; rates of 10,000 (100%) or
    /// more are refused.
    ///
    /// Authorization: the stored admin.
    pub fn set_protocol_fee_bps(&mut self, new_bps: u32) -> (r: Result<bool, Failure>)
        requires
            old(self).wf(),
        ensures
            final(self).wf(),
            !old(self).initialized_view() ==> r == Err::<bool, Failure>(
                Failure::Core(Error::NotInitialized),
            ) && *final(self) == *old(self),
            old(self).initialized_view() && new_bps >= 10_000 ==> r == Err::<bool, Failure>(
                Failure::Escrow(EscrowError::ProtocolFeeBpsExceedsMaximum),
            ) && *final(self) == *old(self),
            old(self).initialized_view() && new_bps < 10_000 ==> {
                &&& r == Ok::<bool, Failure>(true)
                &&& final(self).fee_bps_view() == new_bps
                &&& final(self).admin_view() == old(self).admin_view()
                &&& final(self).pending_admin_view() == old(self).pending_admin_view()
                &&& old(self).only_governance_changed(final(self))
            },
    {
        if !self.initialized {
            return Err(Failure::Core(Error::NotInitialized));
        }
        if new_bps >= MAX_PROTOCOL_FEE_BPS {
            return Err(Failure::Escrow(EscrowError::ProtocolFeeBpsExceedsMaximum));
        }
        self.protocol_fee_bps = new_bps;
        Ok(true)
    }

    /// Proposes a new admin; a pending proposal is overwritten.
    ///
    /// Authorization: the stored admin.
    pub fn propose_governance_admin(&mut self, proposed: Address) -> (r: Result<bool, Failure>)
        requires
            old(self).wf(),
        ensures
            final(self).wf(),
            !old(self).initialized_view() ==> r == Err::<bool, Failure>(
                Failure::Core(Error::NotInitialized),
            ) && *final(self) == *old(self),
            old(self).initialized_view() && old(self).admin_view() == Some(proposed) ==> r == Err::<
                bool,
                Failure,
            >(Failure::Core(Error::CannotProposeSelf)) && *final(self) == *old(self),
            old(self).initialized_view() && old(self).admin_view() != Some(proposed) ==> {
                &&& r == Ok::<bool, Failure>(true)
                &&& final(self).pending_admin_view() == Some(proposed)
                &&& final(self).admin_view() == old(self).admin_view()
                &&& final(self).fee_bps_view() == old(self).fee_bps_view()
                &&& old(self).only_governance_changed(final(self))
            },
    {
        if !self.initialized {
            return Err(Failure::Core(Error::NotInitialized));
        }
        match self.admin {
            None => {
                return Err(Failure::Core(Error::NotInitialized));
            },
            Some(admin) => {
                if proposed == admin {
                    return Err(Failure::Core(Error::CannotProposeSelf));
                }
            },
        }
        self.pending_admin = Some(proposed);
        Ok(true)
    }

    /// Completes a pending admin transfer: the proposed admin becomes the
    /// admin and the proposal is cleared.
    ///
    /// Authorization: the pending admin.
    pub fn accept_governance_admin(&mut self) -> (r: Result<bool, Failure>)
        requires
            old(self).wf(),
        ensures
            final(self).wf(),
            !old(self).initialized_view() ==> r == Err::<bool, Failure>(
                Failure::Core(Error::NotInitialized),
            ) && *final(self) == *old(self),
            old(self).initialized_view() && old(self).pending_admin_view() is None ==> r == Err::<
                bool,
                Failure,
            >(Failure::Core(Error::InvalidState)) && *final(self) == *old(self),
            old(self).initialized_view() && old(self).pending_admin_view() is Some ==> {
                &&& r == Ok::<bool, Failure>(true)
                &&& final(self).admin_view() == old(self).pending_admin_view()
                &&& final(self).pending_admin_view() is None
                &&& final(self).fee_bps_view() == old(self).fee_bps_view()
                &&& old(self).only_governance_changed(final(self))
            },
    {
        if !self.initialized {
            return Err(Failure::Core(Error::NotInitialized));
        }
        match self.pending_admin {
            None => Err(Failure::Core(Error::InvalidState)),
            Some(pending) => {
                self.admin = Some(pending);
                self.pending_admin = None;
                Ok(true)
            },
        }
    }

    /// Withdraws a pending admin proposal.
    ///
    /// Authorization: the stored admin.
    pub fn cancel_governance_admin_proposal(&mut self) -> (r: Result<bool, Failure>)
        requires
            old(self).wf(),
        ensures
            final(self).wf(),
            !old(self).initialized_view() ==> r == Err::<bool, Failure>(
                Failure::Core(Error::NotInitialized),
            ) && *final(self) == *old(self),
            old(self).initialized_view() && old(self).pending_admin_view() is None ==> r == Err::<
                bool,
                Failure,
            >(Failure::Core(Error::NoPendingAdminProposal)) && *final(self) == *old(self),
            old(self).initialized_view() && old(self).pending_admin_view() is Some ==> {
                &&& r == Ok::<bool, Failure>(true)
                &&& final(self).pending_admin_view() is None
                &&& final(self).admin_view() == old(self).admin_view()
                &&& final(self).fee_bps_view() == old(self).fee_bps_view()
                &&& old(self).only_governance_changed(final(self))
            },
    {
        if !self.initialized {
            return Err(Failure::Core(Error::NotInitialized));
        }
        if self.pending_admin.is_none() {
            return Err(Failure::Core(Error::NoPendingAdminProposal));
        }
        self.pending_admin = None;
        Ok(true)
    }
}

} // verus!
