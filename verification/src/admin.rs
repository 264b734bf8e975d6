use vstd::prelude::*;

use crate::state::Escrow;
use crate::types::{Address, EscrowError, Failure, ReadinessChecklist};

verus! {

impl Escrow {
    /// Contracts, fees, reputation, the admin, the pending admin and the fee
    /// rate are unchanged: only the pause, emergency and readiness flags may
    /// differ.
    pub open spec fn only_flags_changed(&self, other: &Escrow) -> bool {
        &&& self.contracts_unchanged(other)
        &&& other.initialized_view() == self.initialized_view()
        &&& other.admin_view() == self.admin_view()
        &&& other.pending_admin_view() == self.pending_admin_view()
        &&& other.fee_bps_view() == self.fee_bps_view()
    }

    /// Fails with `NotInitialized` before `initialize`.
    pub(crate) fn require_initialized(&self) -> (r: Result<(), Failure>)
        ensures
            r == (if self.initialized_view() {
                Ok::<(), Failure>(())
            } else {
                Err::<(), Failure>(Failure::Escrow(EscrowError::NotInitialized))
            }),
    {
        if !self.initialized {
            Err(Failure::Escrow(EscrowError::NotInitialized))
        } else {
            Ok(())
        }
    }

    /// Initializes the escrow with its operational admin. Single use.
    ///
    /// Authorization: `admin` must have authorized the call.
    pub fn initialize(&mut self, admin: Address) -> (r: Result<bool, Failure>)
        requires
            old(self).wf(),
        ensures
            final(self).wf(),
            old(self).initialized_view() ==> r == Err::<bool, Failure>(
                Failure::Escrow(EscrowError::AlreadyInitialized),
            ) && *final(self) == *old(self),
            !old(self).initialized_view() ==> {
                &&& r == Ok::<bool, Failure>(true)
                &&& final(self).initialized_view()
                &&& final(self).admin_view() == Some(admin)
                &&& final(self).readiness_view() == (ReadinessChecklist {
                    initialized: true,
                    admin_set: true,
                    ..old(self).readiness_view()
                })
                &&& final(self).paused_view() == old(self).paused_view()
                &&& final(self).emergency_view() == old(self).emergency_view()
                &&& final(self).pending_admin_view() == old(self).pending_admin_view()
                &&& final(self).fee_bps_view() == old(self).fee_bps_view()
                &&& old(self).contracts_unchanged(final(self))
            },
    {
        if self.initialized {
            return Err(Failure::Escrow(EscrowError::AlreadyInitialized));
        }
        self.initialized = true;
        self.admin = Some(admin);
        self.readiness.initialized = true;
        self.readiness.admin_set = true;
        Ok(true)
    }

    /// Pauses the state-changing entry points.
    ///
    /// Authorization: the stored admin.
    pub fn pause(&mut self) -> (r: Result<bool, Failure>)
        requires
            old(self).wf(),
        ensures
            final(self).wf(),
            !old(self).initialized_view() ==> r == Err::<bool, Failure>(
                Failure::Escrow(EscrowError::NotInitialized),
            ) && *final(self) == *old(self),
            old(self).initialized_view() ==> {
                &&& r == Ok::<bool, Failure>(true)
                &&& final(self).paused_view()
                &&& final(self).emergency_view() == old(self).emergency_view()
                &&& final(self).readiness_view() == old(self).readiness_view()
                &&& old(self).only_flags_changed(final(self))
            },
    {
        self.require_initialized()?;
        self.paused = true;
        Ok(true)
    }

    /// Lifts a normal pause; refused while emergency mode is active.
    ///
    /// Authorization: the stored admin.
    pub fn unpause(&mut self) -> (r: Result<bool, Failure>)
        requires
            old(self).wf(),
        ensures
            final(self).wf(),
            !old(self).initialized_view() ==> r == Err::<bool, Failure>(
                Failure::Escrow(EscrowError::NotInitialized),
            ) && *final(self) == *old(self),
            old(self).initialized_view() && old(self).emergency_view() ==> r == Err::<
                bool,
                Failure,
            >(Failure::Escrow(EscrowError::EmergencyActive)) && *final(self) == *old(self),
            old(self).initialized_view() && !old(self).emergency_view() ==> {
                &&& r == Ok::<bool, Failure>(true)
                &&& !final(self).paused_view()
                &&& !final(self).emergency_view()
                &&& final(self).readiness_view() == old(self).readiness_view()
                &&& old(self).only_flags_changed(final(self))
            },
    {
        self.require_initialized()?;
        if self.emergency {
            return Err(Failure::Escrow(EscrowError::EmergencyActive));
        }
        self.paused = false;
        Ok(true)
    }

    /// Enters emergency mode, which also pauses the escrow.
    ///
    /// Authorization: the stored admin.
    pub fn activate_emergency_pause(&mut self) -> (r: Result<bool, Failure>)
        requires
            old(self).wf(),
        ensures
            final(self).wf(),
            !old(self).initialized_view() ==> r == Err::<bool, Failure>(
                Failure::Escrow(EscrowError::NotInitialized),
            ) && *final(self) == *old(self),
            old(self).initialized_view() ==> {
                &&& r == Ok::<bool, Failure>(true)
                &&& final(self).paused_view()
                &&& final(self).emergency_view()
                &&& final(self).readiness_view() == (ReadinessChecklist {
                    emergency_controls_enabled: true,
                    ..old(self).readiness_view()
                })
                &&& old(self).only_flags_changed(final(self))
            },
    {
        self.require_initialized()?;
        self.emergency = true;
        self.paused = true;
        self.readiness.emergency_controls_enabled = true;
        Ok(true)
    }

    /// Leaves emergency mode and unpauses the escrow.
    ///
    /// Authorization: the stored admin.
    pub fn resolve_emergency(&mut self) -> (r: Result<bool, Failure>)
        requires
            old(self).wf(),
        ensures
            final(self).wf(),
            !old(self).initialized_view() ==> r == Err::<bool, Failure>(
                Failure::Escrow(EscrowError::NotInitialized),
            ) && *final(self) == *old(self),
            old(self).initialized_view() ==> {
                &&& r == Ok::<bool, Failure>(true)
                &&& !final(self).paused_view()
                &&& !final(self).emergency_view()
                &&& final(self).readiness_view() == old(self).readiness_view()
                &&& old(self).only_flags_changed(final(self))
            },
    {
        self.require_initialized()?;
        self.emergency = false;
        self.paused = false;
        Ok(true)
    }
}

} // verus!
