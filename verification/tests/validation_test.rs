use veritixpay::error::ContractError;
use veritixpay::validation::{
    require_current_or_future_ledger, require_decimal_within_max, require_nonempty_string,
    require_positive_amount,
};

#[test]
fn test_require_positive_amount_accepts_positive() {
    assert_eq!(require_positive_amount(1), Ok(()));
    assert_eq!(require_positive_amount(i128::MAX), Ok(()));
}

#[test]
fn test_require_positive_amount_rejects_zero() {
    assert_eq!(require_positive_amount(0), Err(ContractError::AmountNotPositive));
}

#[test]
fn test_require_positive_amount_rejects_negative() {
    assert_eq!(require_positive_amount(-1), Err(ContractError::AmountNotPositive));
}

#[test]
fn test_require_nonempty_string_accepts_nonempty() {
    assert_eq!(require_nonempty_string("hello", "must not be empty"), Ok(()));
}

#[test]
fn test_require_nonempty_string_rejects_empty() {
    assert_eq!(
        require_nonempty_string("", "must not be empty"),
        Err(ContractError::EmptyString)
    );
}

#[test]
fn test_require_decimal_within_max_accepts_eighteen() {
    assert_eq!(require_decimal_within_max(18, 18), Ok(()));
}

#[test]
fn test_require_decimal_within_max_rejects_nineteen() {
    assert_eq!(require_decimal_within_max(19, 18), Err(ContractError::DecimalExceedsMax));
}

#[test]
fn test_require_current_or_future_ledger_accepts_current() {
    // expiry == current ledger is valid
    assert_eq!(require_current_or_future_ledger(100, 100), Ok(()));
}

#[test]
fn test_require_current_or_future_ledger_rejects_past() {
    assert_eq!(
        require_current_or_future_ledger(100, 99),
        Err(ContractError::ExpirationInPast)
    );
}

#[test]
fn test_require_not_frozen_account_accepts_unfrozen() {
    let mut f = veritixpay::freeze::FreezeState::new();
    let addr = 5;
    // Account is not frozen by default.
    assert_eq!(veritixpay::validation::require_not_frozen_account(&mut f, addr, 0), Ok(()));
}

#[test]
fn test_require_not_frozen_account_rejects_frozen() {
    let mut admins = veritixpay::admin::AdminState::new(0);
    veritixpay::admin::write_admin(&mut admins, 1);
    let mut f = veritixpay::freeze::FreezeState::new();
    let addr = 5;
    veritixpay::freeze::freeze_account(&mut f, &admins, 1, addr, 0).unwrap();
    assert_eq!(
        veritixpay::validation::require_not_frozen_account(&mut f, addr, 0),
        Err(ContractError::AccountFrozen)
    );
}
