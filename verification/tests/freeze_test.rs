use veritixpay::admin::{write_admin, AdminState};
use veritixpay::error::ContractError;
use veritixpay::freeze::{freeze_account, freeze_until, is_frozen, unfreeze_account, FreezeState};

const ADMIN: u64 = 1;
const LEDGER: u32 = 10;

fn setup() -> (AdminState, FreezeState) {
    let mut admins = AdminState::new(0);
    write_admin(&mut admins, ADMIN);
    (admins, FreezeState::new())
}

#[test]
fn test_freeze_account_stores_true() {
    let (admins, mut f) = setup();
    let user = 2;
    freeze_account(&mut f, &admins, ADMIN, user, LEDGER).unwrap();
    assert!(is_frozen(&mut f, user, LEDGER));
}

#[test]
fn test_unfreeze_removes_key() {
    let (admins, mut f) = setup();
    let user = 2;
    freeze_account(&mut f, &admins, ADMIN, user, LEDGER).unwrap();
    assert!(is_frozen(&mut f, user, LEDGER));
    unfreeze_account(&mut f, &admins, ADMIN, user, LEDGER).unwrap();
    assert!(!is_frozen(&mut f, user, LEDGER));
}

#[test]
fn test_freeze_already_frozen_panics() {
    let (admins, mut f) = setup();
    let user = 2;
    freeze_account(&mut f, &admins, ADMIN, user, LEDGER).unwrap();
    assert_eq!(
        freeze_account(&mut f, &admins, ADMIN, user, LEDGER),
        Err(ContractError::AlreadyFrozen)
    );
}

#[test]
fn test_unfreeze_not_frozen_panics() {
    let (admins, mut f) = setup();
    let user = 2;
    assert_eq!(unfreeze_account(&mut f, &admins, ADMIN, user, LEDGER), Err(ContractError::NotFrozen));
}

#[test]
fn test_freeze_admin_address_panics() {
    let (admins, mut f) = setup();
    assert_eq!(
        freeze_account(&mut f, &admins, ADMIN, ADMIN, LEDGER),
        Err(ContractError::InvalidFreeze)
    );
}

#[test]
fn test_freeze_until_auto_clears_at_expiry_ledger() {
    let (admins, mut f) = setup();
    let user = 2;
    let until = LEDGER + 100;
    freeze_until(&mut f, &admins, ADMIN, user, until, LEDGER).unwrap();
    assert!(is_frozen(&mut f, user, LEDGER));
    // At the expiry ledger the freeze auto-clears.
    assert!(!is_frozen(&mut f, user, until));
    assert!(f.frozen_until.is_empty());
}

#[test]
fn test_freeze_until_past_ledger_panics() {
    let (admins, mut f) = setup();
    let user = 2;
    assert_eq!(
        freeze_until(&mut f, &admins, ADMIN, user, LEDGER, LEDGER),
        Err(ContractError::InvalidFreezeUntil)
    );
}

#[test]
fn test_freeze_until_manual_unfreeze_before_expiry_succeeds() {
    let (admins, mut f) = setup();
    let user = 2;
    let until = LEDGER + 100;
    freeze_until(&mut f, &admins, ADMIN, user, until, LEDGER).unwrap();
    assert!(is_frozen(&mut f, user, LEDGER));
    // Manual unfreeze before the expiry ledger works.
    unfreeze_account(&mut f, &admins, ADMIN, user, LEDGER).unwrap();
    assert!(!is_frozen(&mut f, user, LEDGER));
}

// ── further cases ────────────────────────────────────────────────────────

#[test]
fn timed_freeze_holds_until_the_ledger_before_its_end() {
    let (admins, mut f) = setup();
    let user = 3;
    freeze_until(&mut f, &admins, ADMIN, user, 50, LEDGER).unwrap();
    assert!(is_frozen(&mut f, user, 49));
    assert!(!f.frozen_until.is_empty());
    assert!(!is_frozen(&mut f, user, 50));
}

#[test]
fn permanent_freeze_outlasts_an_ended_timed_one() {
    let (admins, mut f) = setup();
    let user = 3;
    freeze_account(&mut f, &admins, ADMIN, user, LEDGER).unwrap();
    freeze_until(&mut f, &admins, ADMIN, user, 20, LEDGER).unwrap();
    // The ended timed freeze is cleared; the permanent one still holds, and
    // repeated queries agree.
    assert!(is_frozen(&mut f, user, 30));
    assert!(f.frozen_until.is_empty());
    assert!(is_frozen(&mut f, user, 30));
}

#[test]
fn freezing_requires_an_active_admin() {
    let (admins, mut f) = setup();
    assert_eq!(freeze_account(&mut f, &admins, 9, 2, LEDGER), Err(ContractError::NotAdmin));
    assert_eq!(freeze_until(&mut f, &admins, 9, 2, 99, LEDGER), Err(ContractError::NotAdmin));
    let empty = AdminState::new(0);
    assert_eq!(freeze_account(&mut f, &empty, 9, 2, LEDGER), Err(ContractError::AdminNotSet));
}

#[test]
fn only_the_admin_lifts_a_freeze() {
    let (admins, mut f) = setup();
    let user = 2;
    freeze_account(&mut f, &admins, ADMIN, user, LEDGER).unwrap();
    assert_eq!(unfreeze_account(&mut f, &admins, 9, user, LEDGER), Err(ContractError::NotAdmin));
    assert!(is_frozen(&mut f, user, LEDGER));
}
