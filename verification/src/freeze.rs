//! Account freezes: a permanent freeze that the admin sets and lifts, and a
//! timed freeze that clears itself once the ledger reaches its end.
use crate::admin::{check_admin, read_admin, AdminState};
use crate::error::ContractError;
use crate::types::AccountId;
use std::collections::{HashMap, HashSet};
use vstd::prelude::*;

verus! {

broadcast use vstd::std_specs::hash::group_hash_axioms;

/// What the contract stores about frozen accounts.
#[derive(Debug)]
pub struct FreezeState {
    /// Accounts under a permanent freeze.
    pub frozen: HashSet<AccountId>,
    /// Accounts under a timed freeze, with the ledger at which it ends.
    pub frozen_until: HashMap<AccountId, u32>,
}

impl FreezeState {
    /// Whether `account` counts as frozen at ledger `ledger`: it is under a
    /// permanent freeze, or under a timed freeze whose end ledger is still
    /// ahead.
    pub open spec fn frozen_at(&self, account: AccountId, ledger: u32) -> bool {
        ||| self.frozen@.contains(account)
        ||| self.frozen_until@.contains_key(account) && ledger < self.frozen_until@[account]
    }

    /// The timed-freeze table after a query at ledger `ledger` for `account`:
    /// an ended timed freeze of `account` is dropped.
    pub open spec fn until_after_query(&self, account: AccountId, ledger: u32) -> Map<AccountId, u32> {
        if self.frozen_until@.contains_key(account) && ledger >= self.frozen_until@[account] {
            self.frozen_until@.remove(account)
        } else {
            self.frozen_until@
        }
    }

    /// The refusal that `freeze_account` gives, if any.
    pub open spec fn freeze_error(&self, admins: AdminState, caller: AccountId, account: AccountId, ledger: u32) -> Option<ContractError> {
        match admins.check_admin_error(caller, ledger) {
            Some(e) => Some(e),
            None => if admins.admin == Some(account) {
                Some(ContractError::InvalidFreeze)
            } else if self.frozen@.contains(account) {
                Some(ContractError::AlreadyFrozen)
            } else {
                None
            },
        }
    }

    /// The refusal that `freeze_until` gives, if any.
    pub open spec fn freeze_until_error(admins: AdminState, caller: AccountId, until_ledger: u32, ledger: u32) -> Option<ContractError> {
        match admins.check_admin_error(caller, ledger) {
            Some(e) => Some(e),
            None => if until_ledger <= ledger {
                Some(ContractError::InvalidFreezeUntil)
            } else {
                None
            },
        }
    }

    /// The refusal that `unfreeze_account` gives, if any.
    pub open spec fn unfreeze_error(&self, admins: AdminState, caller: AccountId, account: AccountId, ledger: u32) -> Option<ContractError> {
        match admins.check_admin_error(caller, ledger) {
            Some(e) => Some(e),
            None => if !self.frozen@.contains(account) && !self.frozen_until@.contains_key(account) {
                Some(ContractError::NotFrozen)
            } else {
                None
            },
        }
    }

    /// No account is frozen.
    pub fn new() -> (s: Self)
        ensures
            s.frozen@ == Set::<AccountId>::empty(),
            s.frozen_until@ == Map::<AccountId, u32>::empty(),
    {
        FreezeState { frozen: HashSet::new(), frozen_until: HashMap::new() }
    }
}

/// The admin `caller` freezes `account` permanently. The admin address
/// cannot be frozen, nor an account frozen twice.
pub fn freeze_account(state: &mut FreezeState, admins: &AdminState, caller: AccountId, account: AccountId, ledger: u32) -> (r: Result<(), ContractError>)
    ensures
        match old(state).freeze_error(*admins, caller, account, ledger) {
            Some(e) => r == Err::<(), ContractError>(e) && final(state).frozen@ == old(state).frozen@,
            None => r is Ok && final(state).frozen@ == old(state).frozen@.insert(account),
        },
        final(state).frozen_until@ == old(state).frozen_until@,
{
    check_admin(admins, caller, ledger)?;
    let stored_admin: AccountId = read_admin(admins)?;
    if account == stored_admin {
        return Err(ContractError::InvalidFreeze);
    }
    if state.frozen.contains(&account) {
        return Err(ContractError::AlreadyFrozen);
    }
    state.frozen.insert(account);
    Ok(())
}

/// The admin `caller` freezes `account` until ledger `until_ledger`, which
/// must lie after the current ledger `ledger`; a timed freeze already
/// recorded for the account is replaced.
pub fn freeze_until(state: &mut FreezeState, admins: &AdminState, caller: AccountId, account: AccountId, until_ledger: u32, ledger: u32) -> (r: Result<(), ContractError>)
    ensures
        match FreezeState::freeze_until_error(*admins, caller, until_ledger, ledger) {
            Some(e) => r == Err::<(), ContractError>(e) && final(state).frozen_until@ == old(state).frozen_until@,
            None => r is Ok && final(state).frozen_until@ == old(state).frozen_until@.insert(account, until_ledger),
        },
        final(state).frozen@ == old(state).frozen@,
{
    check_admin(admins, caller, ledger)?;
    if until_ledger <= ledger {
        return Err(ContractError::InvalidFreezeUntil);
    }
    state.frozen_until.insert(account, until_ledger);
    Ok(())
}

/// The admin `caller` lifts every freeze of `account`, permanent and timed;
/// an account without a freeze is refused.
pub fn unfreeze_account(state: &mut FreezeState, admins: &AdminState, caller: AccountId, account: AccountId, ledger: u32) -> (r: Result<(), ContractError>)
    ensures
        match old(state).unfreeze_error(*admins, caller, account, ledger) {
            Some(e) => {
                &&& r == Err::<(), ContractError>(e)
                &&& final(state).frozen@ == old(state).frozen@
                &&& final(state).frozen_until@ == old(state).frozen_until@
            },
            None => {
                &&& r is Ok
                &&& final(state).frozen@ == old(state).frozen@.remove(account)
                &&& final(state).frozen_until@ == old(state).frozen_until@.remove(account)
            },
        },
{
    check_admin(admins, caller, ledger)?;
    let is_frozen = state.frozen.contains(&account);
    let has_timed_freeze = state.frozen_until.contains_key(&account);
    if !is_frozen && !has_timed_freeze {
        return Err(ContractError::NotFrozen);
    }
    state.frozen.remove(&account);
    state.frozen_until.remove(&account);
    Ok(())
}

/// Whether `account` is frozen at ledger `ledger`. A timed freeze that has
/// reached its end ledger is cleared by the query.
pub fn is_frozen(state: &mut FreezeState, account: AccountId, ledger: u32) -> (r: bool)
    ensures
        r == old(state).frozen_at(account, ledger),
        final(state).frozen@ == old(state).frozen@,
        final(state).frozen_until@ == old(state).until_after_query(account, ledger),
{
    let until: Option<u32> = match state.frozen_until.get(&account) {
        Some(u) => Some(*u),
        None => None,
    };
    let mut timed_active = false;
    if let Some(u) = until {
        if ledger >= u {
            state.frozen_until.remove(&account);
        } else {
            timed_active = true;
        }
    }
    state.frozen.contains(&account) || timed_active
}

/// Once `freeze_account` has frozen `account`, the account is frozen at
/// every ledger, whatever timed freeze it also carries.
pub proof fn lemma_freeze_holds(before: FreezeState, after: FreezeState, account: AccountId, ledger: u32)
    requires
        after.frozen@ == before.frozen@.insert(account),
        after.frozen_until@ == before.frozen_until@,
    ensures
        after.frozen_at(account, ledger),
{
}

/// Once `unfreeze_account` has lifted the freezes of `account`, the account
/// is frozen at no ledger, and every other account is as frozen as before.
/// Only the active admin can do so: for any other caller the call is refused
/// and every freeze stays in place.
pub proof fn lemma_unfreeze_clears(before: FreezeState, after: FreezeState, account: AccountId, other: AccountId, ledger: u32)
    requires
        after.frozen@ == before.frozen@.remove(account),
        after.frozen_until@ == before.frozen_until@.remove(account),
        other != account,
    ensures
        !after.frozen_at(account, ledger),
        after.frozen_at(other, ledger) == before.frozen_at(other, ledger),
{
}

/// A caller that fails the admin check cannot lift a freeze.
pub proof fn lemma_unfreeze_needs_admin(s: FreezeState, admins: AdminState, caller: AccountId, account: AccountId, ledger: u32)
    requires
        !admins.is_active_admin(caller, ledger),
    ensures
        s.unfreeze_error(admins, caller, account, ledger) is Some,
        s.unfreeze_error(admins, caller, account, ledger) == admins.check_admin_error(caller, ledger),
{
}

/// Once `freeze_until` has frozen `account` until `until_ledger`, an
/// account without a permanent freeze is frozen exactly at the ledgers
/// before `until_ledger`.
pub proof fn lemma_timed_freeze_window(before: FreezeState, after: FreezeState, account: AccountId, until_ledger: u32, ledger: u32)
    requires
        after.frozen_until@ == before.frozen_until@.insert(account, until_ledger),
        after.frozen@ == before.frozen@,
        !before.frozen@.contains(account),
    ensures
        after.frozen_at(account, ledger) <==> ledger < until_ledger,
{
}

/// Querying at ledger `ledger` changes no answer at that ledger or any
/// later one: repeated queries agree, and clearing an ended timed freeze
/// leaves a permanent freeze in force.
pub proof fn lemma_query_keeps_answers(before: FreezeState, after: FreezeState, account: AccountId, ledger: u32, later: u32)
    requires
        after.frozen@ == before.frozen@,
        after.frozen_until@ == before.until_after_query(account, ledger),
        ledger <= later,
    ensures
        after.frozen_at(account, later) == before.frozen_at(account, later),
{
}

/// The active admin can put any account other than itself that is not
/// already permanently frozen under a permanent freeze, whatever timed
/// freeze the account carries; it is refused as already frozen exactly when
/// a permanent freeze is in place.
pub proof fn lemma_freeze_ignores_timed_freeze(s: FreezeState, admins: AdminState, caller: AccountId, account: AccountId, ledger: u32)
    requires
        admins.admin == Some(caller),
        admins.admin_active_after is None || ledger >= admins.admin_active_after->0,
        caller != account,
    ensures
        s.freeze_error(admins, caller, account, ledger) is None <==> !s.frozen@.contains(account),
        s.frozen@.contains(account) ==> s.freeze_error(admins, caller, account, ledger) == Some(ContractError::AlreadyFrozen),
{
}

/// A query clears a timed freeze exactly when its end ledger has been
/// reached, and touches no other account's timed freeze.
pub proof fn lemma_query_clears_ended_timed_freeze(s: FreezeState, account: AccountId, other: AccountId, ledger: u32)
    requires
        other != account,
    ensures
        s.frozen_until@.contains_key(account) && ledger >= s.frozen_until@[account]
            ==> !s.until_after_query(account, ledger).contains_key(account),
        s.frozen_until@.contains_key(account) && ledger < s.frozen_until@[account]
            ==> s.until_after_query(account, ledger).contains_key(account)
                && s.until_after_query(account, ledger)[account] == s.frozen_until@[account],
        s.until_after_query(account, ledger).contains_key(other) == s.frozen_until@.contains_key(other),
        s.frozen_until@.contains_key(other) ==> s.until_after_query(account, ledger)[other] == s.frozen_until@[other],
        s.frozen_at(account, ledger) <==> (s.frozen@.contains(account)
            || (s.frozen_until@.contains_key(account) && ledger < s.frozen_until@[account])),
{
}

/// For the active admin, a timed freeze is accepted exactly when it ends
/// after the current ledger, and lifting freezes is accepted exactly when the
/// account carries one.
pub proof fn lemma_admin_freeze_rules(s: FreezeState, admins: AdminState, caller: AccountId, account: AccountId, until_ledger: u32, ledger: u32)
    requires
        admins.admin == Some(caller),
        admins.admin_active_after is None || ledger >= admins.admin_active_after->0,
    ensures
        FreezeState::freeze_until_error(admins, caller, until_ledger, ledger) is None <==> until_ledger > ledger,
        until_ledger <= ledger ==> FreezeState::freeze_until_error(admins, caller, until_ledger, ledger) == Some(ContractError::InvalidFreezeUntil),
        s.unfreeze_error(admins, caller, account, ledger) is None
            <==> (s.frozen@.contains(account) || s.frozen_until@.contains_key(account)),
        !(s.frozen@.contains(account) || s.frozen_until@.contains_key(account))
            ==> s.unfreeze_error(admins, caller, account, ledger) == Some(ContractError::NotFrozen),
        s.freeze_error(admins, caller, caller, ledger) == Some(ContractError::InvalidFreeze),
{
}

} // verus!
