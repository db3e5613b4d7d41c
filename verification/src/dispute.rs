//! Escrow disputes: the parties raise them, the arbiter resolves them (less a
//! mediation fee), a party may appeal within a window and the arbiter then
//! settles the appeal, and a dispute left open too long may be expired.
//! Resolutions are counted per resolver, and each claimant's disputes are
//! indexed.
use crate::error::ContractError;
use crate::types::{AccountId, ResolverStats};
use std::collections::{HashMap, HashSet};
use vstd::prelude::*;

verus! {

broadcast use vstd::std_specs::hash::group_hash_axioms;

/// Ledgers after its opening during which a dispute may be appealed.
pub const DISPUTE_APPEAL_WINDOW: u32 = 17280;
/// Ledgers after its opening from which a dispute may be expired.
pub const DISPUTE_EXPIRE_AFTER: u32 = 34560;
/// Basis points in a whole.
pub const BPS_DENOMINATOR: i128 = 10000;

/// The part of an escrow record that disputes read and settle.
#[derive(Clone, Copy, Debug, PartialEq, Eq, Structural)]
pub struct EscrowRecord {
    pub id: u32,
    pub depositor: AccountId,
    pub beneficiary: AccountId,
    pub token: AccountId,
    pub amount: i128,
    pub released_amount: i128,
    pub released: bool,
    pub refunded: bool,
}

impl EscrowRecord {
    /// `account` is the depositor or the beneficiary.
    pub open spec fn is_party(self, account: AccountId) -> bool {
        account == self.depositor || account == self.beneficiary
    }

    /// The escrow has been released or refunded.
    pub open spec fn is_settled(self) -> bool {
        self.released || self.refunded
    }
}

/// How a dispute or an appeal was settled: the record as saved and the two
/// token transfers out of the contract that follow (an amount of zero means
/// that no transfer is made).
#[derive(Clone, Copy, Debug, PartialEq, Eq, Structural)]
pub struct Resolution {
    /// The escrow record after settlement.
    pub record: EscrowRecord,
    /// Whether the beneficiary won.
    pub for_beneficiary: bool,
    /// Who receives the settled funds: the beneficiary or the depositor.
    pub recipient: AccountId,
    /// Amount sent to the resolver as mediation fee.
    pub mediation_fee: i128,
    /// Amount sent to the recipient.
    pub payout: i128,
}

/// The amount that a settlement moves: what the escrow still holds, its
/// amount less what has already been released, whichever party wins.
pub open spec fn settlement_base(record: EscrowRecord) -> int {
    record.amount - record.released_amount
}

/// The record once settled for the beneficiary (released in full) or for
/// the depositor (refunded).
pub open spec fn settled_record(record: EscrowRecord, for_beneficiary: bool) -> EscrowRecord {
    if for_beneficiary {
        EscrowRecord { released: true, released_amount: record.amount, ..record }
    } else {
        EscrowRecord { refunded: true, ..record }
    }
}

/// A mediation fee is charged: there is something to settle, a fee rate is
/// set, and the resolver is not the contract itself.
pub open spec fn fee_charged(base: int, fee_bps: u32, resolver: AccountId, contract: AccountId) -> bool {
    base > 0 && fee_bps > 0 && resolver != contract
}

/// The mediation fee on `base` at `fee_bps` basis points, rounded down.
pub open spec fn fee_on(base: int, fee_bps: u32) -> int {
    base * fee_bps / 10000
}

/// The settlement of `record` in favour of `winner`: the resolver gets the
/// fee (zero when none is charged) and the winner what remains of the
/// escrow's funds after it, nothing when that is not positive. The fee is
/// charged at `fee_bps` basis points unless `resolver` is `contract`.
pub open spec fn settlement(record: EscrowRecord, winner: AccountId, fee_bps: u32, resolver: AccountId, contract: AccountId) -> Resolution {
    let fb = winner == record.beneficiary;
    let base = settlement_base(record);
    let fee = if fee_charged(base, fee_bps, resolver, contract) { fee_on(base, fee_bps) } else { 0 };
    Resolution {
        record: settled_record(record, fb),
        for_beneficiary: fb,
        recipient: if fb { record.beneficiary } else { record.depositor },
        mediation_fee: fee as i128,
        payout: if base - fee > 0 { (base - fee) as i128 } else { 0 },
    }
}

/// The settlement of `record` for `winner` cannot be computed in `i128`.
pub open spec fn settlement_overflows(record: EscrowRecord, winner: AccountId, fee_bps: u32, resolver: AccountId, contract: AccountId) -> bool {
    let base = settlement_base(record);
    ||| base > i128::MAX || base < i128::MIN
    ||| fee_charged(base, fee_bps, resolver, contract) && base * fee_bps > i128::MAX
}

/// A resolver's statistics once one more resolution has been counted.
pub open spec fn counted(stats: ResolverStats, for_beneficiary: bool) -> ResolverStats {
    ResolverStats {
        total_resolved: (stats.total_resolved + 1) as u32,
        for_beneficiary: if for_beneficiary { (stats.for_beneficiary + 1) as u32 } else { stats.for_beneficiary },
        for_depositor: if for_beneficiary { stats.for_depositor } else { (stats.for_depositor + 1) as u32 },
        ..stats
    }
}

/// One more resolution can be counted without leaving `u32`.
pub open spec fn countable(stats: ResolverStats, for_beneficiary: bool) -> bool {
    &&& stats.total_resolved < u32::MAX
    &&& if for_beneficiary { stats.for_beneficiary < u32::MAX } else { stats.for_depositor < u32::MAX }
}

/// Statistics of a resolver that has resolved nothing.
pub open spec fn zero_stats(resolver: AccountId) -> ResolverStats {
    ResolverStats { resolver, total_resolved: 0, for_beneficiary: 0, for_depositor: 0 }
}

/// What the contract stores about disputes.
#[derive(Debug)]
pub struct DisputeState {
    /// The account allowed to resolve disputes.
    pub arbiter: Option<AccountId>,
    /// Mediation fee, in basis points of the settled amount.
    pub mediation_fee_bps: u32,
    /// Escrows under dispute.
    pub disputed: HashSet<u32>,
    /// Ledger at which the dispute of each escrow was opened.
    pub opened_at: HashMap<u32, u32>,
    /// Escrows whose dispute has a pending appeal.
    pub appeals: HashSet<u32>,
    /// For each claimant, the disputes it opened, oldest first.
    pub claimant_disputes: HashMap<AccountId, Vec<u32>>,
    /// Resolution statistics of each resolver.
    pub resolver_stats: HashMap<AccountId, ResolverStats>,
    /// For each escrow, the disputes opened against it under the per-escrow
    /// limit.
    pub dispute_history: HashMap<u32, Vec<u32>>,
}

impl DisputeState {
    /// The escrow is under dispute.
    pub open spec fn is_open(&self, escrow_id: u32) -> bool {
        self.disputed@.contains(escrow_id)
    }

    /// The disputes of `claimant`, oldest first.
    pub open spec fn claims_of(&self, claimant: AccountId) -> Seq<u32> {
        if self.claimant_disputes@.contains_key(claimant) { self.claimant_disputes@[claimant]@ } else { Seq::empty() }
    }

    /// The statistics of `resolver`.
    pub open spec fn stats_of(&self, resolver: AccountId) -> ResolverStats {
        if self.resolver_stats@.contains_key(resolver) { self.resolver_stats@[resolver] } else { zero_stats(resolver) }
    }

    /// The dispute history of an escrow.
    pub open spec fn history_of(&self, escrow_id: u32) -> Seq<u32> {
        if self.dispute_history@.contains_key(escrow_id) { self.dispute_history@[escrow_id]@ } else { Seq::empty() }
    }

    /// The recorded opening ledger of a dispute, zero when none is recorded.
    pub open spec fn opened_at_of(&self, escrow_id: u32) -> u32 {
        if self.opened_at@.contains_key(escrow_id) { self.opened_at@[escrow_id] } else { 0 }
    }

    /// Every resolver's total equals its resolutions for beneficiaries plus
    /// those for depositors, and each entry names its own resolver.
    pub open spec fn stats_consistent(&self) -> bool {
        forall|r: AccountId| #[trigger] self.resolver_stats@.contains_key(r) ==> {
            &&& self.resolver_stats@[r].total_resolved == self.resolver_stats@[r].for_beneficiary + self.resolver_stats@[r].for_depositor
            &&& self.resolver_stats@[r].resolver == r
        }
    }

    /// The two states hold the same disputes, appeals, opening ledgers,
    /// statistics and histories (claims may differ).
    pub open spec fn same_records(&self, other: &DisputeState) -> bool {
        &&& self.arbiter == other.arbiter
        &&& self.mediation_fee_bps == other.mediation_fee_bps
        &&& self.disputed@ == other.disputed@
        &&& self.opened_at@ == other.opened_at@
        &&& self.appeals@ == other.appeals@
        &&& self.resolver_stats@ == other.resolver_stats@
        &&& self.dispute_history@ == other.dispute_history@
    }

    /// The two states are the same in every part.
    pub open spec fn unchanged(&self, other: &DisputeState) -> bool {
        &&& self.same_records(other)
        &&& self.claimant_disputes@ == other.claimant_disputes@
    }

    /// No arbiter, no fee, no dispute.
    pub fn new() -> (s: Self)
        ensures
            s.arbiter is None,
            s.mediation_fee_bps == 0,
            s.disputed@ == Set::<u32>::empty(),
            s.opened_at@ == Map::<u32, u32>::empty(),
            s.appeals@ == Set::<u32>::empty(),
            s.claimant_disputes@ == Map::<AccountId, Vec<u32>>::empty(),
            s.resolver_stats@ == Map::<AccountId, ResolverStats>::empty(),
            s.dispute_history@ == Map::<u32, Vec<u32>>::empty(),
            s.stats_consistent(),
    {
        DisputeState {
            arbiter: None,
            mediation_fee_bps: 0,
            disputed: HashSet::new(),
            opened_at: HashMap::new(),
            appeals: HashSet::new(),
            claimant_disputes: HashMap::new(),
            resolver_stats: HashMap::new(),
            dispute_history: HashMap::new(),
        }
    }
}

/// The refusal that `set_arbiter` gives, if any: once an arbiter is set,
/// only that arbiter may name another.
pub open spec fn set_arbiter_error(state: &DisputeState, caller: AccountId) -> Option<ContractError> {
    match state.arbiter {
        Some(a) => if a != caller { Some(ContractError::NotArbiter) } else { None },
        None => None,
    }
}

/// `caller`, who authorizes the call, makes `arbiter` the account that
/// resolves disputes. While no arbiter is set anyone may name one; after
/// that, only the current arbiter may.
pub fn set_arbiter(state: &mut DisputeState, caller: AccountId, arbiter: AccountId) -> (r: Result<(), ContractError>)
    ensures
        match set_arbiter_error(old(state), caller) {
            Some(e) => r == Err::<(), ContractError>(e) && final(state).arbiter == old(state).arbiter,
            None => r is Ok && final(state).arbiter == Some(arbiter),
        },
        final(state).mediation_fee_bps == old(state).mediation_fee_bps,
        final(state).disputed@ == old(state).disputed@,
        final(state).opened_at@ == old(state).opened_at@,
        final(state).appeals@ == old(state).appeals@,
        final(state).resolver_stats@ == old(state).resolver_stats@,
        final(state).dispute_history@ == old(state).dispute_history@,
        final(state).claimant_disputes@ == old(state).claimant_disputes@,
{
    if let Some(current) = state.arbiter {
        if current != caller {
            return Err(ContractError::NotArbiter);
        }
    }
    state.arbiter = Some(arbiter);
    Ok(())
}

/// The arbiter; refused when none has been set.
pub fn get_arbiter(state: &DisputeState) -> (r: Result<AccountId, ContractError>)
    ensures
        match state.arbiter {
            Some(a) => r == Ok::<AccountId, ContractError>(a),
            None => r == Err::<AccountId, ContractError>(ContractError::ArbiterNotSet),
        },
{
    match state.arbiter {
        Some(a) => Ok(a),
        None => Err(ContractError::ArbiterNotSet),
    }
}

fn load_record(record: &Option<EscrowRecord>) -> (r: Result<EscrowRecord, ContractError>)
    ensures
        match *record {
            Some(rec) => r == Ok::<EscrowRecord, ContractError>(rec),
            None => r == Err::<EscrowRecord, ContractError>(ContractError::EscrowNotFound),
        },
{
    match record {
        Some(rec) => Ok(*rec),
        None => Err(ContractError::EscrowNotFound),
    }
}

/// Appends `id` to the claims of `claimant`.
fn push_claim(state: &mut DisputeState, claimant: AccountId, id: u32)
    ensures
        final(state).same_records(old(state)),
        final(state).claims_of(claimant) == old(state).claims_of(claimant).push(id),
        forall|a: AccountId| a != claimant ==> #[trigger] final(state).claims_of(a) == old(state).claims_of(a),
{
    let mut list = match state.claimant_disputes.remove(&claimant) {
        Some(v) => v,
        None => Vec::new(),
    };
    list.push(id);
    state.claimant_disputes.insert(claimant, list);
}

/// A party of escrow `escrow_id` records the dispute `dispute_id` in its
/// claims. `record` is the escrow's record, `None` when there is none.
pub fn open_dispute(state: &mut DisputeState, claimant: AccountId, escrow_id: u32, dispute_id: u32, record: &Option<EscrowRecord>) -> (r: Result<(), ContractError>)
    ensures
        match *record {
            None => r == Err::<(), ContractError>(ContractError::EscrowNotFound) && final(state).unchanged(old(state)),
            Some(rec) => if !rec.is_party(claimant) {
                r == Err::<(), ContractError>(ContractError::NotParty) && final(state).unchanged(old(state))
            } else {
                &&& r is Ok
                &&& final(state).same_records(old(state))
                &&& final(state).claims_of(claimant) == old(state).claims_of(claimant).push(dispute_id)
                &&& forall|a: AccountId| a != claimant ==> #[trigger] final(state).claims_of(a) == old(state).claims_of(a)
            },
        },
{
    let rec = load_record(record)?;
    if claimant != rec.depositor && claimant != rec.beneficiary {
        return Err(ContractError::NotParty);
    }
    push_claim(state, claimant, dispute_id);
    Ok(())
}

/// The refusal that `raise_dispute` gives, if any.
pub open spec fn raise_error(caller: AccountId, record: Option<EscrowRecord>) -> Option<ContractError> {
    match record {
        None => Some(ContractError::EscrowNotFound),
        Some(rec) => if rec.is_settled() {
            Some(ContractError::EscrowSettled)
        } else if !rec.is_party(caller) {
            Some(ContractError::NotParty)
        } else {
            None
        },
    }
}

/// `after` is `before` once `caller` has put escrow `escrow_id` under dispute
/// at ledger `ledger`: the escrow is disputed, opened at `ledger`, and
/// appended to the caller's claims; nothing else changes.
pub open spec fn raised(before: &DisputeState, after: &DisputeState, caller: AccountId, escrow_id: u32, ledger: u32) -> bool {
    &&& after.disputed@ == before.disputed@.insert(escrow_id)
    &&& after.opened_at@ == before.opened_at@.insert(escrow_id, ledger)
    &&& after.appeals@ == before.appeals@
    &&& after.arbiter == before.arbiter
    &&& after.mediation_fee_bps == before.mediation_fee_bps
    &&& after.resolver_stats@ == before.resolver_stats@
    &&& after.dispute_history@ == before.dispute_history@
    &&& after.claims_of(caller) == before.claims_of(caller).push(escrow_id)
    &&& forall|a: AccountId| a != caller ==> #[trigger] after.claims_of(a) == before.claims_of(a)
}

/// A party puts the unsettled escrow `escrow_id` under dispute at ledger
/// `ledger`; the escrow joins the caller's claims.
pub fn raise_dispute(state: &mut DisputeState, caller: AccountId, escrow_id: u32, record: &Option<EscrowRecord>, ledger: u32) -> (r: Result<(), ContractError>)
    ensures
        match raise_error(caller, *record) {
            Some(e) => r == Err::<(), ContractError>(e) && final(state).unchanged(old(state)),
            None => r is Ok && raised(old(state), final(state), caller, escrow_id, ledger),
        },
{
    let rec = load_record(record)?;
    if rec.released || rec.refunded {
        return Err(ContractError::EscrowSettled);
    }
    if caller != rec.depositor && caller != rec.beneficiary {
        return Err(ContractError::NotParty);
    }
    state.disputed.insert(escrow_id);
    state.opened_at.insert(escrow_id, ledger);
    push_claim(state, caller, escrow_id);
    Ok(())
}

/// Whether escrow `escrow_id` is under dispute.
pub fn is_dispute_open(state: &DisputeState, escrow_id: u32) -> (r: bool)
    ensures
        r == state.is_open(escrow_id),
{
    state.disputed.contains(&escrow_id)
}

/// Computes the settlement of `rec` for `winner`, who must be one of its
/// parties, refusing it when an amount leaves `i128`.
fn compute_settlement(rec: EscrowRecord, winner: AccountId, fee_bps: u32, resolver: AccountId, contract: AccountId) -> (r: Result<Resolution, ContractError>)
    ensures
        settlement_overflows(rec, winner, fee_bps, resolver, contract) ==> r == Err::<Resolution, ContractError>(ContractError::Overflow),
        !settlement_overflows(rec, winner, fee_bps, resolver, contract) ==> r == Ok::<Resolution, ContractError>(settlement(rec, winner, fee_bps, resolver, contract)),
{
    let for_beneficiary = winner == rec.beneficiary;
    let mut settled = rec;
    let base: i128 = match rec.amount.checked_sub(rec.released_amount) {
        Some(v) => v,
        None => return Err(ContractError::Overflow),
    };
    if for_beneficiary {
        settled.released = true;
        settled.released_amount = rec.amount;
    } else {
        settled.refunded = true;
    }
    let recipient: AccountId = if for_beneficiary { rec.beneficiary } else { rec.depositor };
    let mut mediation_fee: i128 = 0;
    let mut payout: i128 = 0;
    if base > 0 {
        let mut transfer_amount: i128 = base;
        if fee_bps > 0 && resolver != contract {
            let product: i128 = match base.checked_mul(fee_bps as i128) {
                Some(v) => v,
                None => return Err(ContractError::Overflow),
            };
            let fee: i128 = product / BPS_DENOMINATOR;
            if fee > 0 {
                mediation_fee = fee;
                transfer_amount = base - fee;
            }
        }
        if transfer_amount > 0 {
            payout = transfer_amount;
        }
    }
    Ok(Resolution { record: settled, for_beneficiary, recipient, mediation_fee, payout })
}

/// Counts one more resolution for `resolver`, refusing when a counter would
/// leave `u32`.
fn update_resolver_stats(state: &mut DisputeState, resolver: AccountId, for_beneficiary: bool) -> (r: Result<(), ContractError>)
    ensures
        countable(old(state).stats_of(resolver), for_beneficiary) ==> {
            &&& r is Ok
            &&& final(state).resolver_stats@ == old(state).resolver_stats@.insert(resolver, counted(old(state).stats_of(resolver), for_beneficiary))
        },
        !countable(old(state).stats_of(resolver), for_beneficiary) ==> {
            &&& r == Err::<(), ContractError>(ContractError::Overflow)
            &&& final(state).resolver_stats@ == old(state).resolver_stats@
        },
        final(state).arbiter == old(state).arbiter,
        final(state).mediation_fee_bps == old(state).mediation_fee_bps,
        final(state).disputed@ == old(state).disputed@,
        final(state).opened_at@ == old(state).opened_at@,
        final(state).appeals@ == old(state).appeals@,
        final(state).dispute_history@ == old(state).dispute_history@,
        final(state).claimant_disputes@ == old(state).claimant_disputes@,
{
    let mut stats = get_resolver_stats(state, resolver);
    if stats.total_resolved == u32::MAX {
        return Err(ContractError::Overflow);
    }
    if for_beneficiary {
        if stats.for_beneficiary == u32::MAX {
            return Err(ContractError::Overflow);
        }
        stats.for_beneficiary = stats.for_beneficiary + 1;
    } else {
        if stats.for_depositor == u32::MAX {
            return Err(ContractError::Overflow);
        }
        stats.for_depositor = stats.for_depositor + 1;
    }
    stats.total_resolved = stats.total_resolved + 1;
    state.resolver_stats.insert(resolver, stats);
    Ok(())
}

/// The resolution statistics of `resolver`, zero when it has resolved
/// nothing.
pub fn get_resolver_stats(state: &DisputeState, resolver: AccountId) -> (r: ResolverStats)
    ensures
        r == state.stats_of(resolver),
{
    match state.resolver_stats.get(&resolver) {
        Some(s) => *s,
        None => ResolverStats { resolver, total_resolved: 0, for_beneficiary: 0, for_depositor: 0 },
    }
}

/// A copy of a list of identifiers.
pub(crate) fn copy_ids(v: &Vec<u32>) -> (out: Vec<u32>)
    ensures
        out@ == v@,
{
    let mut out: Vec<u32> = Vec::new();
    let mut i: usize = 0;
    while i < v.len()
        invariant
            i <= v@.len(),
            out@ == v@.subrange(0, i as int),
        decreases v@.len() - i,
    {
        out.push(v[i]);
        i = i + 1;
    }
    proof {
        assert(v@.subrange(0, v@.len() as int) =~= v@);
    }
    out
}

/// The disputes opened by `claimant`, oldest first.
pub fn get_disputes_by_claimant(state: &DisputeState, claimant: AccountId) -> (r: Vec<u32>)
    ensures
        r@ == state.claims_of(claimant),
{
    match state.claimant_disputes.get(&claimant) {
        Some(v) => copy_ids(v),
        None => Vec::new(),
    }
}

/// The refusal that `resolve_dispute` gives, if any.
pub open spec fn resolve_error(state: &DisputeState, resolver: AccountId, escrow_id: u32, winner: AccountId, record: Option<EscrowRecord>, contract: AccountId) -> Option<ContractError> {
    if state.arbiter is None {
        Some(ContractError::ArbiterNotSet)
    } else if state.arbiter != Some(resolver) {
        Some(ContractError::NotArbiter)
    } else if !state.is_open(escrow_id) {
        Some(ContractError::NotDisputed)
    } else {
        settle_error(state, resolver, winner, record, state.mediation_fee_bps, contract)
    }
}

/// The refusal that settling `record` for `winner` gives, if any, once the
/// arbiter and the dispute have been checked.
pub open spec fn settle_error(state: &DisputeState, resolver: AccountId, winner: AccountId, record: Option<EscrowRecord>, fee_bps: u32, contract: AccountId) -> Option<ContractError> {
    match record {
        None => Some(ContractError::EscrowNotFound),
        Some(rec) => if rec.is_settled() {
            Some(ContractError::EscrowSettled)
        } else if !rec.is_party(winner) {
            Some(ContractError::WinnerNotParty)
        } else if settlement_overflows(rec, winner, fee_bps, resolver, contract) {
            Some(ContractError::Overflow)
        } else if !countable(state.stats_of(resolver), winner == rec.beneficiary) {
            Some(ContractError::Overflow)
        } else {
            None
        },
    }
}

/// The arbiter `resolver` settles the disputed escrow `escrow_id` for
/// `winner`, its beneficiary or its depositor (the beneficiary when it is
/// both). The winner gets what the escrow still holds (its amount less what
/// has already been released); the record is marked released in full when the
/// beneficiary wins and refunded when the depositor wins. Unless the resolver is the contract itself
/// (`contract`), it takes the mediation fee out of that amount. The dispute
/// is closed and counted in the resolver's statistics; the caller saves the
/// returned record and makes the returned transfers.
pub fn resolve_dispute(state: &mut DisputeState, resolver: AccountId, escrow_id: u32, winner: AccountId, record: &Option<EscrowRecord>, contract: AccountId) -> (r: Result<Resolution, ContractError>)
    ensures
        match resolve_error(old(state), resolver, escrow_id, winner, *record, contract) {
            Some(e) => r == Err::<Resolution, ContractError>(e) && final(state).unchanged(old(state)),
            None => {
                let res = settlement(record->Some_0, winner, old(state).mediation_fee_bps, resolver, contract);
                &&& r == Ok::<Resolution, ContractError>(res)
                &&& final(state).disputed@ == old(state).disputed@.remove(escrow_id)
                &&& final(state).resolver_stats@ == old(state).resolver_stats@.insert(resolver, counted(old(state).stats_of(resolver), res.for_beneficiary))
                &&& final(state).opened_at@ == old(state).opened_at@
                &&& final(state).appeals@ == old(state).appeals@
                &&& final(state).arbiter == old(state).arbiter
                &&& final(state).mediation_fee_bps == old(state).mediation_fee_bps
                &&& final(state).dispute_history@ == old(state).dispute_history@
                &&& final(state).claimant_disputes@ == old(state).claimant_disputes@
            },
        },
        old(state).stats_consistent() ==> final(state).stats_consistent(),
{
    let arbiter: AccountId = get_arbiter(state)?;
    if resolver != arbiter {
        return Err(ContractError::NotArbiter);
    }
    if !state.disputed.contains(&escrow_id) {
        return Err(ContractError::NotDisputed);
    }
    let rec = load_record(record)?;
    if rec.released || rec.refunded {
        return Err(ContractError::EscrowSettled);
    }
    if winner != rec.beneficiary && winner != rec.depositor {
        return Err(ContractError::WinnerNotParty);
    }
    let resolution = compute_settlement(rec, winner, state.mediation_fee_bps, resolver, contract)?;
    let ghost before = *state;
    update_resolver_stats(state, resolver, resolution.for_beneficiary)?;
    proof {
        if before.stats_consistent() {
            lemma_resolution_keeps_stats_consistent(&before, state, resolver, resolution.for_beneficiary);
        }
    }
    state.disputed.remove(&escrow_id);
    Ok(resolution)
}

/// The refusal that `appeal_dispute` and `expire_dispute` give for the
/// checks they share, if any.
pub open spec fn party_dispute_error(state: &DisputeState, caller: AccountId, escrow_id: u32, record: Option<EscrowRecord>) -> Option<ContractError> {
    match raise_error(caller, record) {
        Some(e) => Some(e),
        None => if !state.is_open(escrow_id) { Some(ContractError::NotDisputed) } else { None },
    }
}

/// The refusal that `appeal_dispute` gives, if any.
pub open spec fn appeal_error(state: &DisputeState, caller: AccountId, escrow_id: u32, record: Option<EscrowRecord>, ledger: u32) -> Option<ContractError> {
    match party_dispute_error(state, caller, escrow_id, record) {
        Some(e) => Some(e),
        None => if state.appeals@.contains(escrow_id) {
            Some(ContractError::AppealPending)
        } else if state.opened_at_of(escrow_id) + DISPUTE_APPEAL_WINDOW > u32::MAX {
            Some(ContractError::Overflow)
        } else if ledger > state.opened_at_of(escrow_id) + DISPUTE_APPEAL_WINDOW {
            Some(ContractError::AppealWindowExpired)
        } else {
            None
        },
    }
}

/// A party appeals the open dispute of escrow `escrow_id` at ledger `ledger`,
/// no later than `DISPUTE_APPEAL_WINDOW` ledgers after it was opened; a
/// dispute takes one pending appeal at a time.
pub fn appeal_dispute(state: &mut DisputeState, caller: AccountId, escrow_id: u32, record: &Option<EscrowRecord>, ledger: u32) -> (r: Result<(), ContractError>)
    ensures
        match appeal_error(old(state), caller, escrow_id, *record, ledger) {
            Some(e) => r == Err::<(), ContractError>(e) && final(state).unchanged(old(state)),
            None => {
                &&& r is Ok
                &&& final(state).appeals@ == old(state).appeals@.insert(escrow_id)
                &&& final(state).disputed@ == old(state).disputed@
                &&& final(state).opened_at@ == old(state).opened_at@
                &&& final(state).arbiter == old(state).arbiter
                &&& final(state).mediation_fee_bps == old(state).mediation_fee_bps
                &&& final(state).resolver_stats@ == old(state).resolver_stats@
                &&& final(state).dispute_history@ == old(state).dispute_history@
                &&& final(state).claimant_disputes@ == old(state).claimant_disputes@
            },
        },
{
    let rec = load_record(record)?;
    if rec.released || rec.refunded {
        return Err(ContractError::EscrowSettled);
    }
    if caller != rec.depositor && caller != rec.beneficiary {
        return Err(ContractError::NotParty);
    }
    if !state.disputed.contains(&escrow_id) {
        return Err(ContractError::NotDisputed);
    }
    let opened_at: u32 = match state.opened_at.get(&escrow_id) {
        Some(v) => *v,
        None => 0,
    };
    if state.appeals.contains(&escrow_id) {
        return Err(ContractError::AppealPending);
    }
    let deadline: u32 = match opened_at.checked_add(DISPUTE_APPEAL_WINDOW) {
        Some(v) => v,
        None => return Err(ContractError::Overflow),
    };
    if ledger > deadline {
        return Err(ContractError::AppealWindowExpired);
    }
    state.appeals.insert(escrow_id);
    Ok(())
}

/// The refusal that `resolve_appeal` gives, if any.
pub open spec fn resolve_appeal_error(state: &DisputeState, resolver: AccountId, escrow_id: u32, winner: AccountId, record: Option<EscrowRecord>, contract: AccountId) -> Option<ContractError> {
    if state.arbiter is None {
        Some(ContractError::ArbiterNotSet)
    } else if state.arbiter != Some(resolver) {
        Some(ContractError::NotArbiter)
    } else if !state.appeals@.contains(escrow_id) {
        Some(ContractError::NoPendingAppeal)
    } else if !state.is_open(escrow_id) {
        Some(ContractError::NotDisputed)
    } else {
        settle_error(state, resolver, winner, record, 0, contract)
    }
}

/// The arbiter `resolver` settles the appealed dispute of escrow `escrow_id`
/// for `winner` as `resolve_dispute` does, but without mediation fee; the
/// dispute, its appeal and its opening ledger are cleared.
pub fn resolve_appeal(state: &mut DisputeState, resolver: AccountId, escrow_id: u32, winner: AccountId, record: &Option<EscrowRecord>, contract: AccountId) -> (r: Result<Resolution, ContractError>)
    ensures
        match resolve_appeal_error(old(state), resolver, escrow_id, winner, *record, contract) {
            Some(e) => r == Err::<Resolution, ContractError>(e) && final(state).unchanged(old(state)),
            None => {
                let res = settlement(record->Some_0, winner, 0, resolver, contract);
                &&& r == Ok::<Resolution, ContractError>(res)
                &&& final(state).disputed@ == old(state).disputed@.remove(escrow_id)
                &&& final(state).appeals@ == old(state).appeals@.remove(escrow_id)
                &&& final(state).opened_at@ == old(state).opened_at@.remove(escrow_id)
                &&& final(state).resolver_stats@ == old(state).resolver_stats@.insert(resolver, counted(old(state).stats_of(resolver), res.for_beneficiary))
                &&& final(state).arbiter == old(state).arbiter
                &&& final(state).mediation_fee_bps == old(state).mediation_fee_bps
                &&& final(state).dispute_history@ == old(state).dispute_history@
                &&& final(state).claimant_disputes@ == old(state).claimant_disputes@
            },
        },
        old(state).stats_consistent() ==> final(state).stats_consistent(),
{
    let arbiter: AccountId = get_arbiter(state)?;
    if resolver != arbiter {
        return Err(ContractError::NotArbiter);
    }
    if !state.appeals.contains(&escrow_id) {
        return Err(ContractError::NoPendingAppeal);
    }
    if !state.disputed.contains(&escrow_id) {
        return Err(ContractError::NotDisputed);
    }
    let rec = load_record(record)?;
    if rec.released || rec.refunded {
        return Err(ContractError::EscrowSettled);
    }
    if winner != rec.beneficiary && winner != rec.depositor {
        return Err(ContractError::WinnerNotParty);
    }
    let resolution = compute_settlement(rec, winner, 0, resolver, contract)?;
    let ghost before = *state;
    update_resolver_stats(state, resolver, resolution.for_beneficiary)?;
    proof {
        if before.stats_consistent() {
            lemma_resolution_keeps_stats_consistent(&before, state, resolver, resolution.for_beneficiary);
        }
    }
    state.disputed.remove(&escrow_id);
    state.appeals.remove(&escrow_id);
    state.opened_at.remove(&escrow_id);
    Ok(resolution)
}

/// The refusal that `expire_dispute` gives, if any.
pub open spec fn expire_error(state: &DisputeState, caller: AccountId, escrow_id: u32, record: Option<EscrowRecord>, ledger: u32) -> Option<ContractError> {
    match party_dispute_error(state, caller, escrow_id, record) {
        Some(e) => Some(e),
        None => if state.opened_at_of(escrow_id) + DISPUTE_EXPIRE_AFTER > u32::MAX {
            Some(ContractError::Overflow)
        } else if ledger < state.opened_at_of(escrow_id) + DISPUTE_EXPIRE_AFTER {
            Some(ContractError::DisputeTooRecent)
        } else {
            None
        },
    }
}

/// A party expires the open dispute of escrow `escrow_id` at ledger `ledger`,
/// at least `DISPUTE_EXPIRE_AFTER` ledgers after it was opened: the dispute,
/// its appeal and its opening ledger are cleared, and the escrow can again be
/// released or refunded as usual.
pub fn expire_dispute(state: &mut DisputeState, caller: AccountId, escrow_id: u32, record: &Option<EscrowRecord>, ledger: u32) -> (r: Result<(), ContractError>)
    ensures
        match expire_error(old(state), caller, escrow_id, *record, ledger) {
            Some(e) => r == Err::<(), ContractError>(e) && final(state).unchanged(old(state)),
            None => {
                &&& r is Ok
                &&& final(state).disputed@ == old(state).disputed@.remove(escrow_id)
                &&& final(state).appeals@ == old(state).appeals@.remove(escrow_id)
                &&& final(state).opened_at@ == old(state).opened_at@.remove(escrow_id)
                &&& final(state).arbiter == old(state).arbiter
                &&& final(state).mediation_fee_bps == old(state).mediation_fee_bps
                &&& final(state).resolver_stats@ == old(state).resolver_stats@
                &&& final(state).dispute_history@ == old(state).dispute_history@
                &&& final(state).claimant_disputes@ == old(state).claimant_disputes@
            },
        },
{
    let rec = load_record(record)?;
    if rec.released || rec.refunded {
        return Err(ContractError::EscrowSettled);
    }
    if caller != rec.depositor && caller != rec.beneficiary {
        return Err(ContractError::NotParty);
    }
    if !state.disputed.contains(&escrow_id) {
        return Err(ContractError::NotDisputed);
    }
    let opened_at: u32 = match state.opened_at.get(&escrow_id) {
        Some(v) => *v,
        None => 0,
    };
    let earliest: u32 = match opened_at.checked_add(DISPUTE_EXPIRE_AFTER) {
        Some(v) => v,
        None => return Err(ContractError::Overflow),
    };
    if ledger < earliest {
        return Err(ContractError::DisputeTooRecent);
    }
    state.disputed.remove(&escrow_id);
    state.appeals.remove(&escrow_id);
    state.opened_at.remove(&escrow_id);
    Ok(())
}

/// A settlement hands out exactly the settled amount: when there is
/// something to settle and the fee rate is at most the whole, the mediation
/// fee and the payout are non-negative and add up to it; otherwise nothing
/// is transferred.
pub proof fn lemma_settlement_conserves(record: EscrowRecord, winner: AccountId, fee_bps: u32, resolver: AccountId, contract: AccountId)
    requires
        !settlement_overflows(record, winner, fee_bps, resolver, contract),
        fee_bps <= 10000,
    ensures
        ({
            let res = settlement(record, winner, fee_bps, resolver, contract);
            let base = settlement_base(record);
            &&& base > 0 ==> res.mediation_fee + res.payout == base
            &&& base <= 0 ==> res.mediation_fee == 0 && res.payout == 0
            &&& 0 <= res.mediation_fee <= res.mediation_fee + res.payout
        }),
{
    let base = settlement_base(record);
    if fee_charged(base, fee_bps, resolver, contract) {
        assert(0 <= base * fee_bps / 10000 <= base) by (nonlinear_arith)
            requires
                base > 0,
                0 < fee_bps <= 10000,
        ;
    }
}

/// A settled escrow stays settled: once a dispute or an appeal has been
/// resolved, no party can raise, appeal or expire a dispute on its record,
/// and it cannot be resolved again.
pub proof fn lemma_settlement_is_final(state: &DisputeState, record: EscrowRecord, winner: AccountId, fee_bps: u32, resolver: AccountId, contract: AccountId, caller: AccountId, escrow_id: u32, ledger: u32)
    ensures
        ({
            let saved = settlement(record, winner, fee_bps, resolver, contract).record;
            &&& saved.is_settled()
            &&& raise_error(caller, Some(saved)) == Some(ContractError::EscrowSettled)
            &&& state.is_open(escrow_id) ==> appeal_error(state, caller, escrow_id, Some(saved), ledger) == Some(ContractError::EscrowSettled)
            &&& state.is_open(escrow_id) ==> expire_error(state, caller, escrow_id, Some(saved), ledger) == Some(ContractError::EscrowSettled)
            &&& settle_error(state, resolver, caller, Some(saved), fee_bps, contract) == Some(ContractError::EscrowSettled)
        }),
{
}

/// Resolving the dispute of one escrow closes that dispute only: a second
/// resolution of it is refused, and every other escrow keeps its dispute
/// status.
pub proof fn lemma_resolution_closes_only_its_dispute(before: &DisputeState, after: &DisputeState, escrow_id: u32, other: u32, resolver: AccountId, winner: AccountId, record: Option<EscrowRecord>, contract: AccountId)
    requires
        after.disputed@ == before.disputed@.remove(escrow_id),
        after.arbiter == before.arbiter,
        after.arbiter == Some(resolver),
        other != escrow_id,
    ensures
        !after.is_open(escrow_id),
        resolve_error(after, resolver, escrow_id, winner, record, contract) == Some(ContractError::NotDisputed),
        after.is_open(other) == before.is_open(other),
{
}

/// Counting a resolution keeps a resolver's total equal to the sum of its
/// resolutions for beneficiaries and for depositors, and raises exactly one
/// of them.
pub proof fn lemma_stats_consistent(stats: ResolverStats, for_beneficiary: bool)
    requires
        stats.total_resolved == stats.for_beneficiary + stats.for_depositor,
        countable(stats, for_beneficiary),
    ensures
        counted(stats, for_beneficiary).total_resolved == counted(stats, for_beneficiary).for_beneficiary + counted(stats, for_beneficiary).for_depositor,
        counted(stats, for_beneficiary).total_resolved == stats.total_resolved + 1,
        counted(stats, for_beneficiary).resolver == stats.resolver,
{
}

/// At no ledger can the same dispute be both appealed and expired: appeals
/// close `DISPUTE_APPEAL_WINDOW` ledgers after the opening, expiry begins
/// `DISPUTE_EXPIRE_AFTER` ledgers after it.
pub proof fn lemma_appeal_and_expiry_disjoint(state: &DisputeState, caller: AccountId, escrow_id: u32, record: Option<EscrowRecord>, ledger: u32)
    ensures
        !(appeal_error(state, caller, escrow_id, record, ledger) is None && expire_error(state, caller, escrow_id, record, ledger) is None),
        appeal_error(state, caller, escrow_id, record, ledger) is None ==> ledger <= state.opened_at_of(escrow_id) + DISPUTE_APPEAL_WINDOW,
        expire_error(state, caller, escrow_id, record, ledger) is None ==> ledger >= state.opened_at_of(escrow_id) + DISPUTE_EXPIRE_AFTER,
{
}

/// Raising a dispute records it in the caller's claims only: the claims of
/// every other account are untouched, and the caller's earlier claims keep
/// their order.
pub proof fn lemma_claims_isolated(before: &DisputeState, after: &DisputeState, caller: AccountId, escrow_id: u32, other: AccountId)
    requires
        after.claims_of(caller) == before.claims_of(caller).push(escrow_id),
        forall|a: AccountId| a != caller ==> #[trigger] after.claims_of(a) == before.claims_of(a),
        other != caller,
    ensures
        after.claims_of(other) == before.claims_of(other),
        after.claims_of(caller).len() == before.claims_of(caller).len() + 1,
        after.claims_of(caller).last() == escrow_id,
        after.claims_of(caller).subrange(0, before.claims_of(caller).len() as int) == before.claims_of(caller),
{
    assert(after.claims_of(caller).subrange(0, before.claims_of(caller).len() as int) =~= before.claims_of(caller));
}

/// Counting a resolution, as `resolve_dispute` and `resolve_appeal` do,
/// keeps every resolver's statistics consistent.
pub proof fn lemma_resolution_keeps_stats_consistent(before: &DisputeState, after: &DisputeState, resolver: AccountId, for_beneficiary: bool)
    requires
        before.stats_consistent(),
        countable(before.stats_of(resolver), for_beneficiary),
        after.resolver_stats@ == before.resolver_stats@.insert(resolver, counted(before.stats_of(resolver), for_beneficiary)),
    ensures
        after.stats_consistent(),
{
    assert forall|r: AccountId| #[trigger] after.resolver_stats@.contains_key(r) implies {
        &&& after.resolver_stats@[r].total_resolved == after.resolver_stats@[r].for_beneficiary + after.resolver_stats@[r].for_depositor
        &&& after.resolver_stats@[r].resolver == r
    } by {
        if r == resolver {
            lemma_stats_consistent(before.stats_of(resolver), for_beneficiary);
        }
    }
}

/// Raising a dispute puts exactly that escrow under dispute; expiring or
/// resolving it takes exactly that escrow out again. Every other escrow keeps
/// its status.
pub proof fn lemma_dispute_status_changes_locally(before: &DisputeState, raised: &DisputeState, closed: &DisputeState, escrow_id: u32, other: u32)
    requires
        raised.disputed@ == before.disputed@.insert(escrow_id),
        closed.disputed@ == raised.disputed@.remove(escrow_id),
        other != escrow_id,
    ensures
        raised.is_open(escrow_id),
        !closed.is_open(escrow_id),
        raised.is_open(other) == before.is_open(other),
        closed.is_open(other) == before.is_open(other),
{
}

/// Once an arbiter is set, nobody else can replace it: a call by any other
/// account is refused and the arbiter stays.
pub proof fn lemma_arbiter_only_replaced_by_itself(state: &DisputeState, caller: AccountId)
    requires
        state.arbiter is Some,
        state.arbiter != Some(caller),
    ensures
        set_arbiter_error(state, caller) == Some(ContractError::NotArbiter),
{
}

/// The arbiter settles any disputed, unsettled escrow for either party as
/// long as the amounts fit in `i128`: the resolver's fee is what the escrow
/// still holds times the fee rate over 10000, rounded down, whenever a fee is
/// charged; the winner gets the rest; and the only overflow refusal is an
/// amount or fee product that leaves `i128`.
pub proof fn lemma_resolution_pays_remaining_less_fee(state: &DisputeState, resolver: AccountId, escrow_id: u32, winner: AccountId, rec: EscrowRecord, contract: AccountId)
    requires
        state.arbiter == Some(resolver),
        state.disputed@.contains(escrow_id),
        !rec.released && !rec.refunded,
        winner == rec.depositor || winner == rec.beneficiary,
        i128::MIN <= rec.amount - rec.released_amount <= i128::MAX,
        (rec.amount - rec.released_amount) * state.mediation_fee_bps <= i128::MAX,
        state.stats_of(resolver).total_resolved < u32::MAX,
        state.stats_of(resolver).for_beneficiary < u32::MAX,
        state.stats_of(resolver).for_depositor < u32::MAX,
    ensures
        resolve_error(state, resolver, escrow_id, winner, Some(rec), contract) is None,
        ({
            let res = settlement(rec, winner, state.mediation_fee_bps, resolver, contract);
            let remaining = rec.amount - rec.released_amount;
            &&& remaining > 0 && state.mediation_fee_bps > 0 && resolver != contract
                ==> res.mediation_fee == remaining * state.mediation_fee_bps / 10000
            &&& (remaining <= 0 || state.mediation_fee_bps == 0 || resolver == contract)
                ==> res.mediation_fee == 0
            &&& res.payout == (if remaining - res.mediation_fee > 0 { remaining - res.mediation_fee } else { 0 })
            &&& res.recipient == winner
            &&& res.record.released_amount == (if winner == rec.beneficiary { rec.amount } else { rec.released_amount })
            &&& (winner == rec.beneficiary ==> res.record.released && !res.record.refunded)
            &&& (winner != rec.beneficiary ==> res.record.refunded && !res.record.released)
        }),
{
}

/// Raising a dispute on an unsettled escrow succeeds for either of its
/// parties, and then the escrow is under dispute from the given ledger and
/// its identifier is the last entry of the caller's claims, after all the
/// earlier ones; no other account's claims change.
pub proof fn lemma_raise_records_escrow(before: &DisputeState, after: &DisputeState, caller: AccountId, escrow_id: u32, rec: EscrowRecord, ledger: u32)
    requires
        !rec.released && !rec.refunded,
        caller == rec.depositor || caller == rec.beneficiary,
        raised(before, after, caller, escrow_id, ledger),
    ensures
        raise_error(caller, Some(rec)) is None,
        after.disputed@.contains(escrow_id),
        after.opened_at@.contains_key(escrow_id) && after.opened_at@[escrow_id] == ledger,
        after.claims_of(caller).len() == before.claims_of(caller).len() + 1,
        after.claims_of(caller)[before.claims_of(caller).len() as int] == escrow_id,
        forall|i: int| 0 <= i < before.claims_of(caller).len() ==> after.claims_of(caller)[i] == before.claims_of(caller)[i],
        forall|a: AccountId| a != caller ==> #[trigger] after.claims_of(a) =~= before.claims_of(a),
{
}

/// Whether an escrow's dispute can be appealed depends on that escrow's own
/// records alone: pending appeals, disputes and opening ledgers of other
/// escrows change nothing. An appeal is refused as pending exactly when the
/// escrow itself has a pending appeal, and it is accepted within the window
/// when the other checks pass.
pub proof fn lemma_appeal_depends_on_own_escrow(s: &DisputeState, t: &DisputeState, caller: AccountId, escrow_id: u32, record: Option<EscrowRecord>, ledger: u32)
    requires
        s.disputed@.contains(escrow_id) == t.disputed@.contains(escrow_id),
        s.appeals@.contains(escrow_id) == t.appeals@.contains(escrow_id),
        s.opened_at@.contains_key(escrow_id) == t.opened_at@.contains_key(escrow_id),
        s.opened_at@.contains_key(escrow_id) ==> s.opened_at@[escrow_id] == t.opened_at@[escrow_id],
    ensures
        appeal_error(s, caller, escrow_id, record, ledger) == appeal_error(t, caller, escrow_id, record, ledger),
        party_dispute_error(s, caller, escrow_id, record) is None ==> (
            appeal_error(s, caller, escrow_id, record, ledger) == Some(ContractError::AppealPending)
                <==> s.appeals@.contains(escrow_id)),
        party_dispute_error(s, caller, escrow_id, record) is None && !s.appeals@.contains(escrow_id)
            && s.opened_at_of(escrow_id) + DISPUTE_APPEAL_WINDOW <= u32::MAX
            && ledger <= s.opened_at_of(escrow_id) + DISPUTE_APPEAL_WINDOW
            ==> appeal_error(s, caller, escrow_id, record, ledger) is None,
{
}

/// A party's appeal of an open dispute on an unsettled escrow is checked only
/// against that escrow: with no pending appeal of its own and within
/// `DISPUTE_APPEAL_WINDOW` ledgers of its opening it is accepted.
pub proof fn lemma_appeal_accepted_in_window(s: &DisputeState, caller: AccountId, escrow_id: u32, rec: EscrowRecord, ledger: u32)
    requires
        !rec.released && !rec.refunded,
        caller == rec.depositor || caller == rec.beneficiary,
        s.disputed@.contains(escrow_id),
        !s.appeals@.contains(escrow_id),
        s.opened_at@.contains_key(escrow_id),
        s.opened_at@[escrow_id] + 17280 <= u32::MAX,
        ledger <= s.opened_at@[escrow_id] + 17280,
    ensures
        appeal_error(s, caller, escrow_id, Some(rec), ledger) is None,
{
}

/// A party expires an open dispute on an unsettled escrow exactly from
/// `DISPUTE_EXPIRE_AFTER` ledgers after its opening on.
pub proof fn lemma_expiry_from_its_ledger(s: &DisputeState, caller: AccountId, escrow_id: u32, rec: EscrowRecord, ledger: u32)
    requires
        !rec.released && !rec.refunded,
        caller == rec.depositor || caller == rec.beneficiary,
        s.disputed@.contains(escrow_id),
        s.opened_at@.contains_key(escrow_id),
        s.opened_at@[escrow_id] + 34560 <= u32::MAX,
    ensures
        expire_error(s, caller, escrow_id, Some(rec), ledger) is None <==> ledger >= s.opened_at@[escrow_id] + 34560,
{
}

/// Counting a resolution raises the total and the winner's side by one each
/// and leaves the other side as it was; a resolver with no record has zero
/// everywhere.
pub proof fn lemma_counting_meaning(state: &DisputeState, stats: ResolverStats, resolver: AccountId)
    ensures
        counted(stats, true).total_resolved == stats.total_resolved + 1 || stats.total_resolved == u32::MAX,
        countable(stats, true) ==> counted(stats, true).for_beneficiary == stats.for_beneficiary + 1
            && counted(stats, true).for_depositor == stats.for_depositor
            && counted(stats, true).total_resolved == stats.total_resolved + 1,
        countable(stats, false) ==> counted(stats, false).for_depositor == stats.for_depositor + 1
            && counted(stats, false).for_beneficiary == stats.for_beneficiary
            && counted(stats, false).total_resolved == stats.total_resolved + 1,
        counted(stats, true).resolver == stats.resolver && counted(stats, false).resolver == stats.resolver,
        countable(stats, true) <==> (stats.total_resolved < u32::MAX && stats.for_beneficiary < u32::MAX),
        countable(stats, false) <==> (stats.total_resolved < u32::MAX && stats.for_depositor < u32::MAX),
        !state.resolver_stats@.contains_key(resolver) ==> state.stats_of(resolver) == (ResolverStats {
            resolver, total_resolved: 0, for_beneficiary: 0, for_depositor: 0 }),
{
}

/// A resolution is refused, in this order, when no arbiter is set, when the
/// resolver is not the arbiter, when the escrow is not under dispute, when it
/// has no record, when it is already settled, and when the winner is neither
/// of its parties.
pub proof fn lemma_resolution_refusals(state: &DisputeState, resolver: AccountId, escrow_id: u32, winner: AccountId, record: Option<EscrowRecord>, contract: AccountId)
    ensures
        state.arbiter is None ==> resolve_error(state, resolver, escrow_id, winner, record, contract) == Some(ContractError::ArbiterNotSet),
        state.arbiter is Some && state.arbiter != Some(resolver)
            ==> resolve_error(state, resolver, escrow_id, winner, record, contract) == Some(ContractError::NotArbiter),
        state.arbiter == Some(resolver) && !state.disputed@.contains(escrow_id)
            ==> resolve_error(state, resolver, escrow_id, winner, record, contract) == Some(ContractError::NotDisputed),
        state.arbiter == Some(resolver) && state.disputed@.contains(escrow_id) && record is None
            ==> resolve_error(state, resolver, escrow_id, winner, record, contract) == Some(ContractError::EscrowNotFound),
        state.arbiter == Some(resolver) && state.disputed@.contains(escrow_id) && record is Some
            && (record->0.released || record->0.refunded)
            ==> resolve_error(state, resolver, escrow_id, winner, record, contract) == Some(ContractError::EscrowSettled),
        state.arbiter == Some(resolver) && state.disputed@.contains(escrow_id) && record is Some
            && !record->0.released && !record->0.refunded
            && winner != record->0.depositor && winner != record->0.beneficiary
            ==> resolve_error(state, resolver, escrow_id, winner, record, contract) == Some(ContractError::WinnerNotParty),
{
}

/// An appeal is settled without fee: the winner of an appealed, disputed,
/// unsettled escrow gets all that the escrow still holds.
pub proof fn lemma_appeal_pays_remaining(state: &DisputeState, resolver: AccountId, escrow_id: u32, winner: AccountId, rec: EscrowRecord, contract: AccountId)
    requires
        state.arbiter == Some(resolver),
        state.appeals@.contains(escrow_id),
        state.disputed@.contains(escrow_id),
        !rec.released && !rec.refunded,
        winner == rec.depositor || winner == rec.beneficiary,
        i128::MIN <= rec.amount - rec.released_amount <= i128::MAX,
        state.stats_of(resolver).total_resolved < u32::MAX,
        state.stats_of(resolver).for_beneficiary < u32::MAX,
        state.stats_of(resolver).for_depositor < u32::MAX,
    ensures
        resolve_appeal_error(state, resolver, escrow_id, winner, Some(rec), contract) is None,
        settlement(rec, winner, 0, resolver, contract).mediation_fee == 0,
        settlement(rec, winner, 0, resolver, contract).payout
            == (if rec.amount - rec.released_amount > 0 { rec.amount - rec.released_amount } else { 0 }),
        settlement(rec, winner, 0, resolver, contract).recipient == winner,
        !state.appeals@.contains(escrow_id) ==> resolve_appeal_error(state, resolver, escrow_id, winner, Some(rec), contract) == Some(ContractError::NoPendingAppeal),
{
}

/// Raising is refused for a missing record, a settled escrow, and a caller
/// that is not a party, in that order.
pub proof fn lemma_raise_refusals(caller: AccountId, record: Option<EscrowRecord>)
    ensures
        record is None ==> raise_error(caller, record) == Some(ContractError::EscrowNotFound),
        record is Some && (record->0.released || record->0.refunded) ==> raise_error(caller, record) == Some(ContractError::EscrowSettled),
        record is Some && !record->0.released && !record->0.refunded
            && caller != record->0.depositor && caller != record->0.beneficiary
            ==> raise_error(caller, record) == Some(ContractError::NotParty),
{
}

} // verus!
