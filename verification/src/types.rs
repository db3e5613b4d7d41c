use vstd::prelude::*;

verus! {

/// An account (or contract) address, identified by a number that the host
/// side assigns one-to-one to each address.
pub type AccountId = u64;

/// Minimum escrow amount to prevent spam (1 XLM equivalent in token stroops).
pub const MIN_ESCROW_AMOUNT: i128 = 10_000_000;

/// Balances live for about one year of ledgers.
pub const BALANCE_LIFETIME_THRESHOLD: u32 = 6_310_000;
/// Escrow records live for about one year of ledgers.
pub const ESCROW_LIFETIME_THRESHOLD: u32 = 7_884_000;
/// Dispute records live for about six months from opening.
pub const DISPUTE_LIFETIME_THRESHOLD: u32 = 3_942_000;
/// Recurring records live for about one year from the last execution.
pub const RECURRING_LIFETIME_THRESHOLD: u32 = 6_310_000;
/// Split records live for about ninety days from creation.
pub const SPLIT_LIFETIME_THRESHOLD: u32 = 1_555_200;
/// Longest memo, in bytes.
pub const MAX_MEMO_BYTES: u32 = 64;
/// Per-depositor limit on the number of escrows.
pub const MAX_ESCROWS_PER_DEPOSITOR: u32 = 100;
/// Most disputes that may be opened against one escrow.
pub const MAX_DISPUTES_PER_ESCROW: u32 = 3;

/// One executed charge of a recurring payment.
#[derive(Clone, Debug, PartialEq, Eq, Structural)]
pub struct RecurringPayment {
    pub recurring_id: u32,
    pub execution_ledger: u32,
    pub amount: i128,
}

/// One entry of the execution log of a recurring payment.
#[derive(Clone, Debug, PartialEq, Eq, Structural)]
pub struct RecurringExecution {
    pub recurring_id: u32,
    pub execution_ledger: u32,
    pub amount: i128,
}

/// A locked token schedule of a holder.
#[derive(Clone, Debug, PartialEq, Eq, Structural)]
pub struct VestingRecord {
    pub id: u32,
    pub holder: AccountId,
    pub token: AccountId,
    pub amount: i128,
    pub vesting_ledger: u32,
    pub claimed: bool,
}

/// How many disputes a resolver has settled, and for which side.
#[derive(Clone, Copy, Debug, PartialEq, Eq, Structural)]
pub struct ResolverStats {
    pub resolver: AccountId,
    pub total_resolved: u32,
    pub for_beneficiary: u32,
    pub for_depositor: u32,
}

/// Identity view of the contract.
#[derive(Clone, Debug, PartialEq)]
pub struct ContractInfo {
    pub version: String,
    pub admin: AccountId,
    pub is_paused: bool,
    pub initialized_at_ledger: u32,
}

} // verus!
