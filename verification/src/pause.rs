//! The contract-wide pause switch and how long it has been on.
use crate::admin::{check_admin, AdminState};
use crate::error::ContractError;
use crate::types::AccountId;
use vstd::prelude::*;

verus! {

/// What the contract stores about pausing.
#[derive(Clone, Copy, Debug, PartialEq, Eq, Structural)]
pub struct PauseState {
    /// Whether the contract is paused.
    pub paused: bool,
    /// Ledger at which the current pause began.
    pub paused_at_ledger: Option<u32>,
}

impl PauseState {
    /// Ledgers elapsed from `from` to `to`, or zero when `to` is earlier.
    pub open spec fn ledgers_since(from: u32, to: u32) -> u32 {
        if to >= from { (to - from) as u32 } else { 0 }
    }

    /// What `contract_paused_for` answers at ledger `ledger`.
    pub open spec fn paused_for(self, ledger: u32) -> Result<Option<u32>, ContractError> {
        if !self.paused {
            Ok(None)
        } else {
            match self.paused_at_ledger {
                Some(at) => Ok(Some(Self::ledgers_since(at, ledger))),
                None => Err(ContractError::PausedAtLedgerMissing),
            }
        }
    }

    /// The state after the admin switches the pause to `paused` at `ledger`.
    /// Pausing a paused contract keeps the recorded start of the pause;
    /// otherwise pausing records `ledger` and unpausing clears the start.
    pub open spec fn switched(self, paused: bool, ledger: u32) -> PauseState {
        PauseState {
            paused,
            paused_at_ledger: if !paused {
                None
            } else if self.paused && self.paused_at_ledger is Some {
                self.paused_at_ledger
            } else {
                Some(ledger)
            },
        }
    }

    /// The pause start is recorded exactly while the contract is paused.
    pub open spec fn wf(self) -> bool {
        self.paused == self.paused_at_ledger is Some
    }

    /// A contract that has never been paused.
    pub fn new() -> (s: Self)
        ensures
            !s.paused,
            s.paused_at_ledger is None,
            s.wf(),
    {
        PauseState { paused: false, paused_at_ledger: None }
    }
}

/// Whether the contract is paused.
pub fn is_paused(state: &PauseState) -> (r: bool)
    ensures
        r == state.paused,
{
    state.paused
}

/// Refuses every call while the contract is paused.
pub fn require_not_paused(state: &PauseState) -> (r: Result<(), ContractError>)
    ensures
        r is Ok <==> !state.paused,
        r is Err ==> r == Err::<(), ContractError>(ContractError::ContractPaused),
{
    if state.paused {
        Err(ContractError::ContractPaused)
    } else {
        Ok(())
    }
}

/// The admin `caller` switches the pause on or off at ledger `ledger`;
/// switching it on records `ledger` as the start of the pause, unless the
/// contract is already paused, in which case the pause goes on from its
/// recorded start.
pub fn set_paused(state: &mut PauseState, admins: &AdminState, caller: AccountId, paused: bool, ledger: u32) -> (r: Result<(), ContractError>)
    ensures
        r is Ok <==> admins.is_active_admin(caller, ledger),
        match admins.check_admin_error(caller, ledger) {
            Some(e) => r == Err::<(), ContractError>(e) && *final(state) == *old(state),
            None => r is Ok && *final(state) == old(state).switched(paused, ledger),
        },
{
    check_admin(admins, caller, ledger)?;
    if !paused {
        state.paused_at_ledger = None;
    } else if !(state.paused && state.paused_at_ledger.is_some()) {
        state.paused_at_ledger = Some(ledger);
    }
    state.paused = paused;
    Ok(())
}

/// How many ledgers the contract has been continuously paused at ledger
/// `ledger`: `None` when it is not paused.
pub fn contract_paused_for(state: &PauseState, ledger: u32) -> (r: Result<Option<u32>, ContractError>)
    ensures
        r == state.paused_for(ledger),
{
    if !state.paused {
        return Ok(None);
    }
    match state.paused_at_ledger {
        Some(at) => Ok(Some(ledger.saturating_sub(at))),
        None => Err(ContractError::PausedAtLedgerMissing),
    }
}

/// Once the admin has paused a running contract, every call that checks the
/// pause is refused, and the pause has lasted zero ledgers at the ledger it
/// began.
pub proof fn lemma_pause_blocks(s: PauseState, ledger: u32)
    requires
        !s.paused,
    ensures
        s.switched(true, ledger).paused,
        s.switched(true, ledger).paused_for(ledger) == Ok::<Option<u32>, ContractError>(Some(0)),
{
}

/// After the admin lifts the pause, calls go through again and the contract
/// reports no pause duration.
pub proof fn lemma_unpause_allows(s: PauseState, ledger: u32, later: u32)
    ensures
        !s.switched(false, ledger).paused,
        s.switched(false, ledger).paused_for(later) == Ok::<Option<u32>, ContractError>(None),
{
}

/// Pausing again while paused does not restart the count: the reported
/// duration is still measured from the first pause.
pub proof fn lemma_repause_keeps_start(s: PauseState, l1: u32, l2: u32, l3: u32)
    requires
        !s.paused,
        l1 <= l2 <= l3,
    ensures
        s.switched(true, l1).switched(true, l2).paused_for(l3) == Ok::<Option<u32>, ContractError>(Some((l3 - l1) as u32)),
{
}

/// While paused, the reported duration grows by exactly the number of
/// ledgers that pass.
pub proof fn lemma_paused_for_grows(s: PauseState, at: u32, l1: u32, l2: u32)
    requires
        s.paused,
        s.paused_at_ledger == Some(at),
        at <= l1 <= l2,
    ensures
        s.paused_for(l1) is Ok,
        s.paused_for(l2) == Ok::<Option<u32>, ContractError>(Some((s.paused_for(l1)->Ok_0->Some_0 + (l2 - l1)) as u32)),
{
}

/// Every state that the admin's switch produces is well formed, and a well
/// formed state always reports its pause duration.
pub proof fn lemma_switch_well_formed(s: PauseState, paused: bool, ledger: u32, later: u32)
    ensures
        s.switched(paused, ledger).wf(),
        s.wf() ==> s.paused_for(later) is Ok,
{
}

/// A paused contract with a recorded start reports the ledgers elapsed since
/// that start (zero before it); a running contract reports no duration.
pub proof fn lemma_paused_for_meaning(s: PauseState, ledger: u32)
    ensures
        !s.paused ==> s.paused_for(ledger) == Ok::<Option<u32>, ContractError>(None),
        s.paused && s.paused_at_ledger is None ==> s.paused_for(ledger) == Err::<Option<u32>, ContractError>(ContractError::PausedAtLedgerMissing),
        s.paused && s.paused_at_ledger is Some && ledger >= s.paused_at_ledger->0
            ==> s.paused_for(ledger) == Ok::<Option<u32>, ContractError>(Some((ledger - s.paused_at_ledger->0) as u32)),
        s.paused && s.paused_at_ledger is Some && ledger < s.paused_at_ledger->0
            ==> s.paused_for(ledger) == Ok::<Option<u32>, ContractError>(Some(0)),
{
}

/// Switching the pause sets the flag to the requested value; pausing a
/// running contract records the current ledger, unpausing clears the start.
pub proof fn lemma_switch_meaning(s: PauseState, paused: bool, ledger: u32)
    ensures
        s.switched(paused, ledger).paused == paused,
        !paused ==> s.switched(paused, ledger).paused_at_ledger is None,
        paused && !s.paused ==> s.switched(paused, ledger).paused_at_ledger == Some(ledger),
        paused && s.paused && s.paused_at_ledger is Some ==> s.switched(paused, ledger).paused_at_ledger == s.paused_at_ledger,
{
}

} // verus!
