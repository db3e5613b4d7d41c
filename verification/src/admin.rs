//! Admin identity, the two-step rotation with an activation delay, and the
//! authorization check that every admin-only operation goes through.
use crate::error::ContractError;
use crate::types::AccountId;
use vstd::prelude::*;

verus! {

/// What the contract stores about its admin.
#[derive(Clone, Debug, PartialEq, Eq, Structural)]
pub struct AdminState {
    /// The current admin, once one has been written.
    pub admin: Option<AccountId>,
    /// The admin proposed by `propose_admin`, waiting for `accept_admin`.
    pub pending_admin: Option<AccountId>,
    /// First ledger at which an accepted admin may act.
    pub admin_active_after: Option<u32>,
    /// Second signer required for clawbacks, when configured.
    pub clawback_cosigner: Option<AccountId>,
    /// Number of ledgers an accepted admin has to wait before acting.
    pub activation_delay: u32,
}

impl AdminState {
    /// `admin` may act as the admin at ledger `ledger`.
    pub open spec fn is_active_admin(self, admin: AccountId, ledger: u32) -> bool {
        &&& self.admin == Some(admin)
        &&& match self.admin_active_after {
            Some(after) => ledger >= after,
            None => true,
        }
    }

    /// The refusal that `check_admin` gives, if any: the activation delay is
    /// looked at first, then whether an admin is stored, then the identity.
    pub open spec fn check_admin_error(self, admin: AccountId, ledger: u32) -> Option<ContractError> {
        if self.admin_active_after is Some && ledger < self.admin_active_after->0 {
            Some(ContractError::AdminNotActive)
        } else if self.admin is None {
            Some(ContractError::AdminNotSet)
        } else if self.admin != Some(admin) {
            Some(ContractError::NotAdmin)
        } else {
            None
        }
    }

    /// The state once `id` has been written as the admin.
    pub open spec fn with_admin(self, id: AccountId) -> AdminState {
        AdminState { admin: Some(id), ..self }
    }

    /// The state once `new_admin` has been proposed.
    pub open spec fn proposed(self, new_admin: AccountId) -> AdminState {
        AdminState { pending_admin: Some(new_admin), ..self }
    }

    /// The state once the proposed admin has accepted at ledger `ledger`.
    pub open spec fn accepted(self, ledger: u32) -> AdminState {
        AdminState {
            admin: self.pending_admin,
            pending_admin: None,
            admin_active_after: Some((ledger + self.activation_delay) as u32),
            ..self
        }
    }

    /// A contract with no admin yet, whose accepted admins wait
    /// `activation_delay` ledgers before acting.
    pub fn new(activation_delay: u32) -> (s: Self)
        ensures
            s.admin is None,
            s.pending_admin is None,
            s.admin_active_after is None,
            s.clawback_cosigner is None,
            s.activation_delay == activation_delay,
    {
        AdminState {
            admin: None,
            pending_admin: None,
            admin_active_after: None,
            clawback_cosigner: None,
            activation_delay,
        }
    }
}

/// The stored admin; refused when none has been written.
pub fn read_admin(state: &AdminState) -> (r: Result<AccountId, ContractError>)
    ensures
        match state.admin {
            Some(a) => r == Ok::<AccountId, ContractError>(a),
            None => r == Err::<AccountId, ContractError>(ContractError::AdminNotSet),
        },
{
    match state.admin {
        Some(a) => Ok(a),
        None => Err(ContractError::AdminNotSet),
    }
}

/// Stores `id` as the admin.
pub fn write_admin(state: &mut AdminState, id: AccountId)
    ensures
        *final(state) == old(state).with_admin(id),
{
    state.admin = Some(id);
}

/// Whether an admin has been stored.
pub fn has_admin(state: &AdminState) -> (r: bool)
    ensures
        r == state.admin is Some,
{
    state.admin.is_some()
}

/// Checks that `admin`, who has authorized the call, is the current admin
/// and is past its activation ledger.
pub fn check_admin(state: &AdminState, admin: AccountId, ledger: u32) -> (r: Result<(), ContractError>)
    ensures
        r is Ok <==> state.is_active_admin(admin, ledger),
        match state.check_admin_error(admin, ledger) {
            Some(e) => r == Err::<(), ContractError>(e),
            None => r == Ok::<(), ContractError>(()),
        },
{
    if let Some(after) = state.admin_active_after {
        if ledger < after {
            return Err(ContractError::AdminNotActive);
        }
    }
    let stored: AccountId = read_admin(state)?;
    if admin != stored {
        return Err(ContractError::NotAdmin);
    }
    Ok(())
}

/// The configured clawback co-signer, if any.
pub fn read_clawback_cosigner(state: &AdminState) -> (r: Option<AccountId>)
    ensures
        r == state.clawback_cosigner,
{
    state.clawback_cosigner
}

/// Stores `cosigner` as the clawback co-signer.
pub fn write_clawback_cosigner(state: &mut AdminState, cosigner: AccountId)
    ensures
        *final(state) == (AdminState { clawback_cosigner: Some(cosigner), ..*old(state) }),
{
    state.clawback_cosigner = Some(cosigner);
}

/// The proposed admin, if any.
pub fn read_pending_admin(state: &AdminState) -> (r: Option<AccountId>)
    ensures
        r == state.pending_admin,
{
    state.pending_admin
}

/// The activation ledger of the last accepted admin, if any.
pub fn read_admin_active_after(state: &AdminState) -> (r: Option<u32>)
    ensures
        r == state.admin_active_after,
{
    state.admin_active_after
}

/// Records `new_admin` as the proposed admin; the current admin cannot be
/// proposed. On success the result is the current admin, whose
/// authorization the call needs.
pub fn propose_admin(state: &mut AdminState, new_admin: AccountId) -> (r: Result<AccountId, ContractError>)
    ensures
        match old(state).admin {
            Some(a) => if a == new_admin {
                &&& r == Err::<AccountId, ContractError>(ContractError::ProposedCurrentAdmin)
                &&& *final(state) == *old(state)
            } else {
                &&& r == Ok::<AccountId, ContractError>(a)
                &&& *final(state) == old(state).proposed(new_admin)
            },
            None => {
                &&& r == Err::<AccountId, ContractError>(ContractError::AdminNotSet)
                &&& *final(state) == *old(state)
            },
        },
{
    let current: AccountId = read_admin(state)?;
    if current == new_admin {
        return Err(ContractError::ProposedCurrentAdmin);
    }
    state.pending_admin = Some(new_admin);
    Ok(current)
}

/// The proposed admin takes over at ledger `ledger`; it may act from
/// `ledger + activation_delay` on. On success the result is the pair
/// (previous admin, new admin); the new admin's authorization is needed.
pub fn accept_admin(state: &mut AdminState, ledger: u32) -> (r: Result<(AccountId, AccountId), ContractError>)
    ensures
        r is Ok <==> {
            &&& old(state).pending_admin is Some
            &&& old(state).admin is Some
            &&& ledger + old(state).activation_delay <= u32::MAX
        },
        match r {
            Ok((previous, accepted)) => {
                &&& Some(previous) == old(state).admin
                &&& Some(accepted) == old(state).pending_admin
                &&& *final(state) == old(state).accepted(ledger)
            },
            Err(e) => {
                &&& *final(state) == *old(state)
                &&& e == if old(state).pending_admin is None {
                    ContractError::NoPendingAdmin
                } else if old(state).admin is None {
                    ContractError::AdminNotSet
                } else {
                    ContractError::Overflow
                }
            },
        },
{
    let pending: AccountId = match state.pending_admin {
        Some(p) => p,
        None => return Err(ContractError::NoPendingAdmin),
    };
    let previous: AccountId = read_admin(state)?;
    let active_after: u32 = match ledger.checked_add(state.activation_delay) {
        Some(v) => v,
        None => return Err(ContractError::Overflow),
    };
    state.admin = Some(pending);
    state.admin_active_after = Some(active_after);
    state.pending_admin = None;
    Ok((previous, pending))
}

/// Rotates the stored admin to `new_admin` at once. On success the result
/// is the previous admin, whose authorization the call needs.
pub fn transfer_admin(state: &mut AdminState, new_admin: AccountId) -> (r: Result<AccountId, ContractError>)
    ensures
        match old(state).admin {
            Some(a) => {
                &&& r == Ok::<AccountId, ContractError>(a)
                &&& *final(state) == old(state).with_admin(new_admin)
            },
            None => {
                &&& r == Err::<AccountId, ContractError>(ContractError::AdminNotSet)
                &&& *final(state) == *old(state)
            },
        },
{
    let current: AccountId = read_admin(state)?;
    write_admin(state, new_admin);
    Ok(current)
}

/// Two-step rotation: once the current admin has proposed `new_admin` and
/// `new_admin` has accepted at ledger `ledger`, `new_admin` is the admin, no
/// proposal is pending, and `new_admin` passes the admin check exactly from
/// ledger `ledger + activation_delay` on.
pub proof fn lemma_rotation_activates_after_delay(s: AdminState, new_admin: AccountId, ledger: u32, later: u32)
    requires
        s.admin is Some,
        ledger + s.activation_delay <= u32::MAX,
    ensures
        s.proposed(new_admin).accepted(ledger).admin == Some(new_admin),
        s.proposed(new_admin).accepted(ledger).pending_admin is None,
        s.proposed(new_admin).accepted(ledger).is_active_admin(new_admin, later)
            <==> later >= ledger + s.activation_delay,
{
}

/// After a rotation, any account other than the new admin fails the admin
/// check, the previous admin included.
pub proof fn lemma_rotation_revokes_others(s: AdminState, new_admin: AccountId, other: AccountId, ledger: u32, later: u32)
    requires
        other != new_admin,
    ensures
        !s.proposed(new_admin).accepted(ledger).is_active_admin(other, later),
        !s.with_admin(new_admin).is_active_admin(other, later),
{
}

/// A direct transfer hands the admin role over at once, subject only to an
/// activation ledger still pending from an earlier acceptance.
pub proof fn lemma_transfer_hands_over(s: AdminState, new_admin: AccountId, ledger: u32)
    ensures
        s.with_admin(new_admin).is_active_admin(new_admin, ledger) <==> match s.admin_active_after {
            Some(after) => ledger >= after,
            None => true,
        },
{
}

/// The admin check passes exactly for the stored admin once the activation
/// ledger (if any) has been reached; otherwise it gives the reason, the
/// activation first.
pub proof fn lemma_admin_check_meaning(s: AdminState, caller: AccountId, ledger: u32)
    ensures
        s.check_admin_error(caller, ledger) is None
            <==> (s.admin == Some(caller) && (s.admin_active_after is None || ledger >= s.admin_active_after->0)),
        (s.admin_active_after is Some && ledger < s.admin_active_after->0)
            ==> s.check_admin_error(caller, ledger) == Some(ContractError::AdminNotActive),
        (s.admin_active_after is None || ledger >= s.admin_active_after->0) && s.admin is None
            ==> s.check_admin_error(caller, ledger) == Some(ContractError::AdminNotSet),
        (s.admin_active_after is None || ledger >= s.admin_active_after->0) && s.admin is Some && s.admin != Some(caller)
            ==> s.check_admin_error(caller, ledger) == Some(ContractError::NotAdmin),
        s.is_active_admin(caller, ledger) <==> s.check_admin_error(caller, ledger) is None,
{
}

/// Accepting a proposal at ledger `ledger` makes the proposed admin the
/// admin, clears the proposal, and sets the activation ledger to `ledger`
/// plus the delay; the delay and the co-signer are kept.
pub proof fn lemma_accept_fields(s: AdminState, new_admin: AccountId, ledger: u32)
    requires
        ledger + s.activation_delay <= u32::MAX,
    ensures
        s.proposed(new_admin).accepted(ledger).admin == Some(new_admin),
        s.proposed(new_admin).accepted(ledger).pending_admin is None,
        s.proposed(new_admin).accepted(ledger).admin_active_after == Some((ledger + s.activation_delay) as u32),
        s.proposed(new_admin).accepted(ledger).activation_delay == s.activation_delay,
        s.proposed(new_admin).accepted(ledger).clawback_cosigner == s.clawback_cosigner,
        s.proposed(new_admin).pending_admin == Some(new_admin),
        s.proposed(new_admin).admin == s.admin,
        s.with_admin(new_admin).admin == Some(new_admin),
        s.with_admin(new_admin).pending_admin == s.pending_admin,
        s.with_admin(new_admin).admin_active_after == s.admin_active_after,
{
}

} // verus!
