//! Input checks shared by the contract's entry points.
use crate::error::ContractError;
use crate::freeze::{is_frozen, FreezeState};
use crate::types::AccountId;
use vstd::prelude::*;

verus! {

/// Accepts exactly the amounts above zero.
pub fn require_positive_amount(amount: i128) -> (r: Result<(), ContractError>)
    ensures
        r is Ok <==> amount > 0,
        r is Err ==> r == Err::<(), ContractError>(ContractError::AmountNotPositive),
{
    if amount <= 0 {
        Err(ContractError::AmountNotPositive)
    } else {
        Ok(())
    }
}

/// Accepts a decimal count of at most `max`.
pub fn require_decimal_within_max(decimal: u32, max: u32) -> (r: Result<(), ContractError>)
    ensures
        r is Ok <==> decimal <= max,
        r is Err ==> r == Err::<(), ContractError>(ContractError::DecimalExceedsMax),
{
    if decimal > max {
        Err(ContractError::DecimalExceedsMax)
    } else {
        Ok(())
    }
}

/// Accepts an expiration ledger that is the current ledger or a later one.
pub fn require_current_or_future_ledger(current_ledger: u32, expiration_ledger: u32) -> (r: Result<(), ContractError>)
    ensures
        r is Ok <==> expiration_ledger >= current_ledger,
        r is Err ==> r == Err::<(), ContractError>(ContractError::ExpirationInPast),
{
    if expiration_ledger < current_ledger {
        Err(ContractError::ExpirationInPast)
    } else {
        Ok(())
    }
}

/// Accepts a non-empty string; `what` names the value in the caller's words
/// and is not consulted.
pub fn require_nonempty_string(s: &str, what: &str) -> (r: Result<(), ContractError>)
    ensures
        r is Ok <==> s@.len() > 0,
        r is Err ==> r == Err::<(), ContractError>(ContractError::EmptyString),
{
    if s.unicode_len() == 0 {
        Err(ContractError::EmptyString)
    } else {
        Ok(())
    }
}

/// Refuses an account that is frozen at ledger `ledger`; the query clears a
/// timed freeze that has reached its end, as `is_frozen` does.
pub fn require_not_frozen_account(freezes: &mut FreezeState, account: AccountId, ledger: u32) -> (r: Result<(), ContractError>)
    ensures
        r is Ok <==> !old(freezes).frozen_at(account, ledger),
        r is Err ==> r == Err::<(), ContractError>(ContractError::AccountFrozen),
        final(freezes).frozen@ == old(freezes).frozen@,
        final(freezes).frozen_until@ == old(freezes).until_after_query(account, ledger),
{
    if is_frozen(freezes, account, ledger) {
        Err(ContractError::AccountFrozen)
    } else {
        Ok(())
    }
}

} // verus!
