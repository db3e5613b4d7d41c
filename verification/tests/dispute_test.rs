use veritixpay::dispute::{
    appeal_dispute, expire_dispute, get_disputes_by_claimant, get_resolver_stats,
    is_dispute_open, open_dispute, raise_dispute, resolve_appeal, resolve_dispute, set_arbiter,
    DisputeState, EscrowRecord, DISPUTE_APPEAL_WINDOW, DISPUTE_EXPIRE_AFTER,
};
use veritixpay::dispute_limit;
use veritixpay::dispute_limit::{raise_dispute_within_limit, DisputeCounts};
use veritixpay::error::ContractError;
use veritixpay::types::MIN_ESCROW_AMOUNT;

const CONTRACT: u64 = 1;
const DEPOSITOR: u64 = 10;
const BENEFICIARY: u64 = 11;
const ARBITER: u64 = 12;
const TOKEN: u64 = 13;
const START_LEDGER: u32 = 0;

fn escrow(id: u32, depositor: u64, beneficiary: u64, amount: i128) -> Option<EscrowRecord> {
    Some(EscrowRecord {
        id,
        depositor,
        beneficiary,
        token: TOKEN,
        amount,
        released_amount: 0,
        released: false,
        refunded: false,
    })
}

fn setup() -> DisputeState {
    let mut s = DisputeState::new();
    set_arbiter(&mut s, ARBITER, ARBITER).unwrap();
    s
}

#[test]
fn test_dispute_on_one_escrow_does_not_affect_another() {
    let mut s = setup();
    let escrow1 = escrow(0, DEPOSITOR, BENEFICIARY, MIN_ESCROW_AMOUNT);
    let escrow2 = escrow(1, 20, 21, MIN_ESCROW_AMOUNT);

    raise_dispute(&mut s, DEPOSITOR, 0, &escrow1, START_LEDGER).unwrap();
    let res = resolve_dispute(&mut s, ARBITER, 0, BENEFICIARY, &escrow1, CONTRACT).unwrap();

    assert_eq!(res.recipient, BENEFICIARY);
    assert_eq!(res.payout, MIN_ESCROW_AMOUNT);

    // Escrow 2 is not under dispute, its parties hold no claims, and it can
    // still be settled on its own, paying its beneficiary in full.
    assert!(!is_dispute_open(&s, 1));
    assert!(get_disputes_by_claimant(&s, 20).is_empty());
    raise_dispute(&mut s, 20, 1, &escrow2, START_LEDGER).unwrap();
    let res2 = resolve_dispute(&mut s, ARBITER, 1, 21, &escrow2, CONTRACT).unwrap();
    assert_eq!(res2.recipient, 21);
    assert_eq!(res2.payout, MIN_ESCROW_AMOUNT);
}

#[test]
fn test_resolver_stats_zero_for_unknown_address() {
    let s = setup();
    let stats = get_resolver_stats(&s, 99);
    assert_eq!(stats.total_resolved, 0);
    assert_eq!(stats.for_beneficiary, 0);
    assert_eq!(stats.for_depositor, 0);
}

#[test]
fn test_resolver_stats_track_resolution_for_beneficiary() {
    let mut s = setup();
    let rec = escrow(0, 20, 21, MIN_ESCROW_AMOUNT);
    raise_dispute(&mut s, 20, 0, &rec, START_LEDGER).unwrap();
    resolve_dispute(&mut s, ARBITER, 0, 21, &rec, CONTRACT).unwrap();

    let stats = get_resolver_stats(&s, ARBITER);
    assert_eq!(stats.total_resolved, 1);
    assert_eq!(stats.for_beneficiary, 1);
    assert_eq!(stats.for_depositor, 0);
}

#[test]
fn test_resolver_stats_track_resolution_for_depositor() {
    let mut s = setup();
    let rec = escrow(0, 20, 21, MIN_ESCROW_AMOUNT);
    raise_dispute(&mut s, 20, 0, &rec, START_LEDGER).unwrap();
    resolve_dispute(&mut s, ARBITER, 0, 20, &rec, CONTRACT).unwrap();

    let stats = get_resolver_stats(&s, ARBITER);
    assert_eq!(stats.total_resolved, 1);
    assert_eq!(stats.for_beneficiary, 0);
    assert_eq!(stats.for_depositor, 1);
}

#[test]
fn test_resolver_stats_accumulate_across_resolutions() {
    let mut s = setup();
    // First dispute resolved for beneficiary
    let rec1 = escrow(0, 20, 21, MIN_ESCROW_AMOUNT);
    raise_dispute(&mut s, 20, 0, &rec1, START_LEDGER).unwrap();
    resolve_dispute(&mut s, ARBITER, 0, 21, &rec1, CONTRACT).unwrap();
    // Second dispute resolved for depositor
    let rec2 = escrow(1, 20, 21, MIN_ESCROW_AMOUNT);
    raise_dispute(&mut s, 20, 1, &rec2, START_LEDGER).unwrap();
    resolve_dispute(&mut s, ARBITER, 1, 20, &rec2, CONTRACT).unwrap();

    let stats = get_resolver_stats(&s, ARBITER);
    assert_eq!(stats.total_resolved, 2);
    assert_eq!(stats.for_beneficiary, 1);
    assert_eq!(stats.for_depositor, 1);
}

#[test]
fn test_open_dispute_unauthorized_party_panics() {
    let mut s = setup();
    let rec = escrow(0, DEPOSITOR, BENEFICIARY, 10_000_000);
    let stranger = 77;
    assert_eq!(open_dispute(&mut s, stranger, 0, 1, &rec), Err(ContractError::NotParty));
    assert!(get_disputes_by_claimant(&s, stranger).is_empty());
}

#[test]
fn test_raise_dispute_by_non_party_panics() {
    let mut s = setup();
    let rec = escrow(0, DEPOSITOR, BENEFICIARY, MIN_ESCROW_AMOUNT);
    let stranger = 77;
    assert_eq!(raise_dispute(&mut s, stranger, 0, &rec, START_LEDGER), Err(ContractError::NotParty));
    assert!(!is_dispute_open(&s, 0));
}

#[test]
fn test_raise_dispute_by_depositor_succeeds() {
    let mut s = setup();
    let rec = escrow(0, DEPOSITOR, BENEFICIARY, MIN_ESCROW_AMOUNT);
    raise_dispute(&mut s, DEPOSITOR, 0, &rec, START_LEDGER).unwrap();
    // The dispute was raised successfully; resolving it confirms the dispute existed.
    let res = resolve_dispute(&mut s, ARBITER, 0, DEPOSITOR, &rec, CONTRACT).unwrap();
    assert!(res.record.refunded);
}

#[test]
fn test_raise_dispute_by_beneficiary_succeeds() {
    let mut s = setup();
    let rec = escrow(0, DEPOSITOR, BENEFICIARY, MIN_ESCROW_AMOUNT);
    raise_dispute(&mut s, BENEFICIARY, 0, &rec, START_LEDGER).unwrap();
    let res = resolve_dispute(&mut s, ARBITER, 0, BENEFICIARY, &rec, CONTRACT).unwrap();
    assert!(res.record.released);
}

#[test]
fn test_is_dispute_open_returns_true_when_dispute_is_open() {
    let mut s = setup();
    let rec = escrow(0, DEPOSITOR, BENEFICIARY, MIN_ESCROW_AMOUNT);
    raise_dispute(&mut s, BENEFICIARY, 0, &rec, START_LEDGER).unwrap();
    assert!(is_dispute_open(&s, 0));
}

#[test]
fn test_appeal_dispute_within_window_succeeds() {
    let mut s = setup();
    let rec = escrow(0, DEPOSITOR, BENEFICIARY, MIN_ESCROW_AMOUNT);
    raise_dispute(&mut s, DEPOSITOR, 0, &rec, START_LEDGER).unwrap();
    assert_eq!(appeal_dispute(&mut s, DEPOSITOR, 0, &rec, START_LEDGER), Ok(()));
}

#[test]
fn test_appeal_then_resolve_appeal_settles() {
    let mut s = setup();
    let rec = escrow(0, DEPOSITOR, BENEFICIARY, MIN_ESCROW_AMOUNT);
    raise_dispute(&mut s, DEPOSITOR, 0, &rec, START_LEDGER).unwrap();
    appeal_dispute(&mut s, DEPOSITOR, 0, &rec, START_LEDGER).unwrap();

    let res = resolve_appeal(&mut s, ARBITER, 0, DEPOSITOR, &rec, CONTRACT).unwrap();
    assert!(res.record.refunded);
    assert_eq!(get_resolver_stats(&s, ARBITER).total_resolved, 1);
}

#[test]
fn test_appeal_after_window_panics() {
    let mut s = setup();
    let rec = escrow(0, DEPOSITOR, BENEFICIARY, MIN_ESCROW_AMOUNT);
    let opened_at = START_LEDGER;
    raise_dispute(&mut s, DEPOSITOR, 0, &rec, opened_at).unwrap();
    assert_eq!(
        appeal_dispute(&mut s, DEPOSITOR, 0, &rec, opened_at + DISPUTE_APPEAL_WINDOW + 1),
        Err(ContractError::AppealWindowExpired)
    );
}

#[test]
fn test_resolve_appeal_without_appeal_panics() {
    let mut s = setup();
    let rec = escrow(0, DEPOSITOR, BENEFICIARY, MIN_ESCROW_AMOUNT);
    raise_dispute(&mut s, DEPOSITOR, 0, &rec, START_LEDGER).unwrap();
    assert_eq!(
        resolve_appeal(&mut s, ARBITER, 0, DEPOSITOR, &rec, CONTRACT),
        Err(ContractError::NoPendingAppeal)
    );
}

#[test]
fn test_expire_dispute_before_window_panics() {
    let mut s = setup();
    let rec = escrow(0, DEPOSITOR, BENEFICIARY, MIN_ESCROW_AMOUNT);
    raise_dispute(&mut s, DEPOSITOR, 0, &rec, START_LEDGER).unwrap();
    assert_eq!(
        expire_dispute(&mut s, DEPOSITOR, 0, &rec, START_LEDGER),
        Err(ContractError::DisputeTooRecent)
    );
}

#[test]
fn test_expire_dispute_after_window_releases_escrow() {
    let mut s = setup();
    let rec = escrow(0, DEPOSITOR, BENEFICIARY, MIN_ESCROW_AMOUNT);
    let opened_at = START_LEDGER;
    raise_dispute(&mut s, DEPOSITOR, 0, &rec, opened_at).unwrap();
    assert_eq!(
        expire_dispute(&mut s, DEPOSITOR, 0, &rec, opened_at + DISPUTE_EXPIRE_AFTER + 1),
        Ok(())
    );
    // After expiry the escrow is no longer held by the dispute.
    assert!(!is_dispute_open(&s, 0));
}

#[test]
fn test_expire_dispute_not_disputed_panics() {
    let mut s = setup();
    let rec = escrow(0, DEPOSITOR, BENEFICIARY, 10_000_000);
    // Expiring a dispute that was never opened must be refused.
    assert_eq!(
        expire_dispute(&mut s, DEPOSITOR, 0, &rec, START_LEDGER),
        Err(ContractError::NotDisputed)
    );
}

#[test]
fn test_is_dispute_open_returns_false_after_resolution() {
    let mut s = setup();
    let rec = escrow(0, DEPOSITOR, BENEFICIARY, MIN_ESCROW_AMOUNT);
    raise_dispute(&mut s, DEPOSITOR, 0, &rec, START_LEDGER).unwrap();
    assert!(is_dispute_open(&s, 0));
    resolve_dispute(&mut s, ARBITER, 0, BENEFICIARY, &rec, CONTRACT).unwrap();
    assert!(!is_dispute_open(&s, 0));
}

#[test]
fn test_raise_dispute_populates_claimant_index() {
    let mut s = setup();
    let rec = escrow(0, DEPOSITOR, BENEFICIARY, MIN_ESCROW_AMOUNT);
    raise_dispute(&mut s, DEPOSITOR, 0, &rec, START_LEDGER).unwrap();
    let disputes = get_disputes_by_claimant(&s, DEPOSITOR);
    assert!(!disputes.is_empty());
}

#[test]
fn test_resolver_stats_increment_on_resolution() {
    let mut s = setup();
    let rec = escrow(0, DEPOSITOR, BENEFICIARY, MIN_ESCROW_AMOUNT);
    raise_dispute(&mut s, DEPOSITOR, 0, &rec, START_LEDGER).unwrap();
    resolve_dispute(&mut s, ARBITER, 0, BENEFICIARY, &rec, CONTRACT).unwrap();
    let stats = get_resolver_stats(&s, ARBITER);
    assert_eq!(stats.total_resolved, 1);
    assert_eq!(stats.for_beneficiary, 1);
}

#[test]
fn test_dispute_index_isolation_between_claimants() {
    let mut s = setup();
    let rec = escrow(0, DEPOSITOR, BENEFICIARY, MIN_ESCROW_AMOUNT);
    raise_dispute(&mut s, DEPOSITOR, 0, &rec, START_LEDGER).unwrap();
    let other = 55;
    assert_eq!(get_disputes_by_claimant(&s, other).len(), 0);
}

#[test]
fn test_is_dispute_open_returns_false_without_dispute() {
    let s = setup();
    // Escrow that was never disputed reports false.
    assert!(!is_dispute_open(&s, u32::MAX));
}

#[test]
fn test_dispute_count_cap_per_escrow_panics() {
    let mut s = DisputeState::new();
    let escrow_id = 99;
    let caller = 42;
    // Reach the maximum of three disputes for this escrow.
    for _ in 0..3 {
        dispute_limit::open_dispute(&mut s, escrow_id, caller).unwrap();
    }
    // The fourth attempt is refused.
    assert_eq!(
        dispute_limit::open_dispute(&mut s, escrow_id, caller),
        Err(ContractError::DisputeLimitReached)
    );
    assert_eq!(dispute_limit::get_dispute_history_for_escrow(&s, escrow_id), vec![0, 1, 2]);
}

// ── further cases ────────────────────────────────────────────────────────

#[test]
fn mediation_fee_is_taken_from_the_settled_amount() {
    let mut s = setup();
    s.mediation_fee_bps = 250;
    let rec = escrow(0, DEPOSITOR, BENEFICIARY, MIN_ESCROW_AMOUNT);
    raise_dispute(&mut s, DEPOSITOR, 0, &rec, START_LEDGER).unwrap();
    let res = resolve_dispute(&mut s, ARBITER, 0, BENEFICIARY, &rec, CONTRACT).unwrap();
    assert_eq!(res.mediation_fee, 250_000);
    assert_eq!(res.payout, 9_750_000);
    assert_eq!(res.mediation_fee + res.payout, MIN_ESCROW_AMOUNT);
}

#[test]
fn depositor_win_refunds_only_the_unreleased_part() {
    let mut s = setup();
    s.mediation_fee_bps = 100;
    let mut rec = escrow(0, DEPOSITOR, BENEFICIARY, 1_000).unwrap();
    rec.released_amount = 400;
    let rec = Some(rec);
    raise_dispute(&mut s, BENEFICIARY, 0, &rec, START_LEDGER).unwrap();
    let res = resolve_dispute(&mut s, ARBITER, 0, DEPOSITOR, &rec, CONTRACT).unwrap();
    assert_eq!(res.recipient, DEPOSITOR);
    assert_eq!(res.mediation_fee, 6);
    assert_eq!(res.payout, 594);
    assert!(res.record.refunded);
    assert_eq!(res.record.released_amount, 400);
}

#[test]
fn contract_as_resolver_takes_no_fee() {
    let mut s = DisputeState::new();
    set_arbiter(&mut s, CONTRACT, CONTRACT).unwrap();
    s.mediation_fee_bps = 500;
    let rec = escrow(0, DEPOSITOR, BENEFICIARY, 1_000);
    raise_dispute(&mut s, DEPOSITOR, 0, &rec, START_LEDGER).unwrap();
    let res = resolve_dispute(&mut s, CONTRACT, 0, BENEFICIARY, &rec, CONTRACT).unwrap();
    assert_eq!(res.mediation_fee, 0);
    assert_eq!(res.payout, 1_000);
}

#[test]
fn resolve_errors_follow_their_order() {
    let mut s = DisputeState::new();
    let rec = escrow(0, DEPOSITOR, BENEFICIARY, 1_000);
    assert_eq!(resolve_dispute(&mut s, ARBITER, 0, BENEFICIARY, &rec, CONTRACT), Err(ContractError::ArbiterNotSet));
    set_arbiter(&mut s, ARBITER, ARBITER).unwrap();
    assert_eq!(resolve_dispute(&mut s, 5, 0, BENEFICIARY, &rec, CONTRACT), Err(ContractError::NotArbiter));
    assert_eq!(resolve_dispute(&mut s, ARBITER, 0, BENEFICIARY, &rec, CONTRACT), Err(ContractError::NotDisputed));
    raise_dispute(&mut s, DEPOSITOR, 0, &rec, START_LEDGER).unwrap();
    assert_eq!(resolve_dispute(&mut s, ARBITER, 0, BENEFICIARY, &None, CONTRACT), Err(ContractError::EscrowNotFound));
    assert_eq!(resolve_dispute(&mut s, ARBITER, 0, 5, &rec, CONTRACT), Err(ContractError::WinnerNotParty));
    let mut settled = rec.unwrap();
    settled.released = true;
    assert_eq!(resolve_dispute(&mut s, ARBITER, 0, BENEFICIARY, &Some(settled), CONTRACT), Err(ContractError::EscrowSettled));
    assert!(is_dispute_open(&s, 0));
}

#[test]
fn oversized_fee_product_is_refused() {
    let mut s = setup();
    s.mediation_fee_bps = 2;
    let rec = escrow(0, DEPOSITOR, BENEFICIARY, i128::MAX);
    raise_dispute(&mut s, DEPOSITOR, 0, &rec, START_LEDGER).unwrap();
    assert_eq!(resolve_dispute(&mut s, ARBITER, 0, BENEFICIARY, &rec, CONTRACT), Err(ContractError::Overflow));
    assert!(is_dispute_open(&s, 0));
}

#[test]
fn settled_escrow_cannot_be_disputed_again() {
    let mut s = setup();
    let rec = escrow(0, DEPOSITOR, BENEFICIARY, 1_000);
    raise_dispute(&mut s, DEPOSITOR, 0, &rec, START_LEDGER).unwrap();
    let res = resolve_dispute(&mut s, ARBITER, 0, BENEFICIARY, &rec, CONTRACT).unwrap();
    assert_eq!(raise_dispute(&mut s, DEPOSITOR, 0, &Some(res.record), 5), Err(ContractError::EscrowSettled));
    assert_eq!(resolve_dispute(&mut s, ARBITER, 0, BENEFICIARY, &rec, CONTRACT), Err(ContractError::NotDisputed));
}

#[test]
fn second_appeal_is_refused_and_appeal_needs_open_dispute() {
    let mut s = setup();
    let rec = escrow(0, DEPOSITOR, BENEFICIARY, 1_000);
    assert_eq!(appeal_dispute(&mut s, DEPOSITOR, 0, &rec, 0), Err(ContractError::NotDisputed));
    raise_dispute(&mut s, DEPOSITOR, 0, &rec, 100).unwrap();
    assert_eq!(appeal_dispute(&mut s, BENEFICIARY, 0, &rec, 100 + DISPUTE_APPEAL_WINDOW), Ok(()));
    assert_eq!(appeal_dispute(&mut s, DEPOSITOR, 0, &rec, 101), Err(ContractError::AppealPending));
}

#[test]
fn expiry_clears_appeal_and_is_exact_at_the_boundary() {
    let mut s = setup();
    let rec = escrow(0, DEPOSITOR, BENEFICIARY, 1_000);
    raise_dispute(&mut s, DEPOSITOR, 0, &rec, 100).unwrap();
    appeal_dispute(&mut s, DEPOSITOR, 0, &rec, 100).unwrap();
    assert_eq!(expire_dispute(&mut s, BENEFICIARY, 0, &rec, 100 + DISPUTE_EXPIRE_AFTER - 1), Err(ContractError::DisputeTooRecent));
    assert_eq!(expire_dispute(&mut s, BENEFICIARY, 0, &rec, 100 + DISPUTE_EXPIRE_AFTER), Ok(()));
    assert_eq!(resolve_appeal(&mut s, ARBITER, 0, DEPOSITOR, &rec, CONTRACT), Err(ContractError::NoPendingAppeal));
}

#[test]
fn open_dispute_records_the_dispute_id_in_order() {
    let mut s = setup();
    let rec = escrow(0, DEPOSITOR, BENEFICIARY, 1_000);
    open_dispute(&mut s, BENEFICIARY, 0, 7, &rec).unwrap();
    open_dispute(&mut s, BENEFICIARY, 0, 9, &rec).unwrap();
    assert_eq!(get_disputes_by_claimant(&s, BENEFICIARY), vec![7, 9]);
    assert_eq!(open_dispute(&mut s, BENEFICIARY, 0, 1, &None), Err(ContractError::EscrowNotFound));
}

#[test]
fn beneficiary_win_after_partial_release_pays_only_the_rest() {
    let mut s = setup();
    let mut rec = escrow(0, DEPOSITOR, BENEFICIARY, 10_000_000).unwrap();
    rec.released_amount = 4_000_000;
    let rec = Some(rec);
    raise_dispute(&mut s, DEPOSITOR, 0, &rec, START_LEDGER).unwrap();
    let res = resolve_dispute(&mut s, ARBITER, 0, BENEFICIARY, &rec, CONTRACT).unwrap();
    assert_eq!(res.payout, 6_000_000);
    assert_eq!(res.mediation_fee, 0);
    assert!(res.record.released);
    assert_eq!(res.record.released_amount, 10_000_000);
    assert!(!is_dispute_open(&s, 0));
}

#[test]
fn only_the_current_arbiter_names_another() {
    let mut s = setup();
    assert_eq!(set_arbiter(&mut s, 66, 66), Err(ContractError::NotArbiter));
    assert_eq!(veritixpay::dispute::get_arbiter(&s), Ok(ARBITER));
    set_arbiter(&mut s, ARBITER, 67).unwrap();
    assert_eq!(veritixpay::dispute::get_arbiter(&s), Ok(67));
}

#[test]
fn raised_disputes_count_against_the_escrow_limit() {
    let mut s = setup();
    let mut counts = DisputeCounts::new();
    let rec = escrow(0, DEPOSITOR, BENEFICIARY, 1_000);
    for _ in 0..3 {
        raise_dispute_within_limit(&mut counts, &mut s, DEPOSITOR, 0, &rec, START_LEDGER).unwrap();
    }
    assert_eq!(
        raise_dispute_within_limit(&mut counts, &mut s, DEPOSITOR, 0, &rec, START_LEDGER),
        Err(ContractError::DisputeCountExceeded)
    );
    assert_eq!(get_disputes_by_claimant(&s, DEPOSITOR), vec![0, 0, 0]);
    // A refused raise does not count.
    let mut other = escrow(1, DEPOSITOR, BENEFICIARY, 1_000).unwrap();
    other.refunded = true;
    assert_eq!(
        raise_dispute_within_limit(&mut counts, &mut s, DEPOSITOR, 1, &Some(other), START_LEDGER),
        Err(ContractError::EscrowSettled)
    );
    assert!(counts.counts.get(&1).is_none());
}
