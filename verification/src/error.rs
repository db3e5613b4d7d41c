use vstd::prelude::*;

verus! {

/// Every way in which an operation of the contract can be refused.
#[derive(PartialEq, Eq, Structural, Debug, Clone, Copy)]
pub enum ContractError {
    /// No admin has been stored yet.
    AdminNotSet,
    /// The caller is not the stored admin.
    NotAdmin,
    /// A newly accepted admin may not act before its activation ledger.
    AdminNotActive,
    /// `accept_admin` was called without a proposed admin.
    NoPendingAdmin,
    /// An addition on a counter or ledger number would leave its integer type.
    Overflow,
    /// The contract is paused.
    ContractPaused,
    /// The pause flag is set but the ledger at which it was set is missing.
    PausedAtLedgerMissing,
    /// An amount that must be positive is zero or negative.
    AmountNotPositive,
    /// A decimal count is above the allowed maximum.
    DecimalExceedsMax,
    /// An expiration ledger lies before the current ledger.
    ExpirationInPast,
    /// A string that must not be empty is empty.
    EmptyString,
    /// The admin address itself cannot be frozen.
    InvalidFreeze,
    /// The account already carries a freeze.
    AlreadyFrozen,
    /// A timed freeze must end at a ledger after the current one.
    InvalidFreezeUntil,
    /// The account carries no freeze to lift.
    NotFrozen,
    /// The account is frozen.
    AccountFrozen,
    /// A batch holds more accounts than one call may whitelist.
    TooManyAccounts,
    /// The sender is not whitelisted while whitelisting is on.
    SenderNotWhitelisted,
    /// The recipient is not whitelisted while whitelisting is on.
    RecipientNotWhitelisted,
    /// A signed whitelist call named no address.
    EmptyAddresses,
    /// A signed whitelist call named more addresses than one call may carry.
    TooManyAddresses,
    /// A signed call carried another nonce than the admin's current one.
    InvalidNonce,
    /// No arbiter has been set.
    ArbiterNotSet,
    /// Only the arbiter may resolve disputes.
    NotArbiter,
    /// The escrow record does not exist.
    EscrowNotFound,
    /// The escrow has already been released or refunded.
    EscrowSettled,
    /// Only the depositor or the beneficiary of the escrow may do this.
    NotParty,
    /// The escrow is not under dispute.
    NotDisputed,
    /// The winner must be the depositor or the beneficiary.
    WinnerNotParty,
    /// The dispute already has a pending appeal.
    AppealPending,
    /// The appeal window of the dispute has passed.
    AppealWindowExpired,
    /// There is no pending appeal to resolve.
    NoPendingAppeal,
    /// The dispute has not been open long enough to expire.
    DisputeTooRecent,
    /// The escrow already carries the most disputes allowed.
    DisputeLimitReached,
    /// The escrow has reached its limit of raised disputes.
    DisputeCountExceeded,
    /// The proposed admin is already the admin.
    ProposedCurrentAdmin,
    /// The public key of a signed message is not the admin's key.
    SignerKeyMismatch,
}

} // verus!
