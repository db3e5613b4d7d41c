//! The per-escrow limit on the number of disputes.
use crate::dispute::{copy_ids, raise_dispute, raise_error, raised, DisputeState, EscrowRecord};
use crate::error::ContractError;
use crate::types::{AccountId, MAX_DISPUTES_PER_ESCROW};
use std::collections::HashMap;
use vstd::prelude::*;

verus! {

broadcast use vstd::std_specs::hash::group_hash_axioms;

/// Opens one more dispute against escrow `escrow_id`, recording it in the
/// escrow's history under its ordinal (0 for the first); an escrow takes at
/// most `MAX_DISPUTES_PER_ESCROW` disputes. `caller` authorizes the call and
/// is not otherwise consulted.
pub fn open_dispute(state: &mut DisputeState, escrow_id: u32, caller: AccountId) -> (r: Result<(), ContractError>)
    ensures
        old(state).history_of(escrow_id).len() >= MAX_DISPUTES_PER_ESCROW ==> {
            &&& r == Err::<(), ContractError>(ContractError::DisputeLimitReached)
            &&& final(state).unchanged(old(state))
        },
        old(state).history_of(escrow_id).len() < MAX_DISPUTES_PER_ESCROW ==> {
            &&& r is Ok
            &&& final(state).history_of(escrow_id) == old(state).history_of(escrow_id).push(old(state).history_of(escrow_id).len() as u32)
            &&& forall|id: u32| id != escrow_id ==> #[trigger] final(state).history_of(id) == old(state).history_of(id)
            &&& final(state).arbiter == old(state).arbiter
            &&& final(state).mediation_fee_bps == old(state).mediation_fee_bps
            &&& final(state).disputed@ == old(state).disputed@
            &&& final(state).opened_at@ == old(state).opened_at@
            &&& final(state).appeals@ == old(state).appeals@
            &&& final(state).resolver_stats@ == old(state).resolver_stats@
            &&& final(state).claimant_disputes@ == old(state).claimant_disputes@
        },
{
    let count: usize = match state.dispute_history.get(&escrow_id) {
        Some(h) => h.len(),
        None => 0,
    };
    if count >= MAX_DISPUTES_PER_ESCROW as usize {
        return Err(ContractError::DisputeLimitReached);
    }
    let mut history = match state.dispute_history.remove(&escrow_id) {
        Some(h) => h,
        None => Vec::new(),
    };
    history.push(count as u32);
    state.dispute_history.insert(escrow_id, history);
    Ok(())
}

/// The disputes recorded against escrow `escrow_id`, oldest first.
pub fn get_dispute_history_for_escrow(state: &DisputeState, escrow_id: u32) -> (r: Vec<u32>)
    ensures
        r@ == state.history_of(escrow_id),
{
    match state.dispute_history.get(&escrow_id) {
        Some(h) => copy_ids(h),
        None => Vec::new(),
    }
}

/// No escrow ever carries more than `MAX_DISPUTES_PER_ESCROW` disputes: a
/// history within the limit stays within it through `open_dispute`, and a
/// full history refuses the next dispute.
pub proof fn lemma_history_stays_bounded(before: &DisputeState, after: &DisputeState, escrow_id: u32)
    requires
        before.history_of(escrow_id).len() <= MAX_DISPUTES_PER_ESCROW,
        before.history_of(escrow_id).len() >= MAX_DISPUTES_PER_ESCROW ==> after.history_of(escrow_id) == before.history_of(escrow_id),
        before.history_of(escrow_id).len() < MAX_DISPUTES_PER_ESCROW ==> after.history_of(escrow_id) == before.history_of(escrow_id).push(before.history_of(escrow_id).len() as u32),
    ensures
        after.history_of(escrow_id).len() <= MAX_DISPUTES_PER_ESCROW,
{
}

/// How many disputes have been raised against each escrow, and the limit.
#[derive(Debug)]
pub struct DisputeCounts {
    /// The per-escrow limit on raised disputes; `MAX_DISPUTES_PER_ESCROW`
    /// when none is configured.
    pub max_disputes: Option<u32>,
    /// Disputes raised so far against each escrow.
    pub counts: HashMap<u32, u32>,
}

impl DisputeCounts {
    /// The per-escrow limit in force.
    pub open spec fn limit(&self) -> u32 {
        match self.max_disputes {
            Some(m) => m,
            None => MAX_DISPUTES_PER_ESCROW,
        }
    }

    /// Disputes raised so far against escrow `escrow_id`.
    pub open spec fn count_of(&self, escrow_id: u32) -> u32 {
        if self.counts@.contains_key(escrow_id) { self.counts@[escrow_id] } else { 0 }
    }

    /// The default limit, and no dispute raised.
    pub fn new() -> (s: Self)
        ensures
            s.max_disputes is None,
            s.counts@ == Map::<u32, u32>::empty(),
    {
        DisputeCounts { max_disputes: None, counts: HashMap::new() }
    }
}

/// A party raises a dispute on escrow `escrow_id` as `raise_dispute` does,
/// provided the escrow has not reached its limit of raised disputes; each
/// dispute raised counts against the limit.
pub fn raise_dispute_within_limit(counts: &mut DisputeCounts, state: &mut DisputeState, caller: AccountId, escrow_id: u32, record: &Option<EscrowRecord>, ledger: u32) -> (r: Result<(), ContractError>)
    ensures
        old(counts).count_of(escrow_id) >= old(counts).limit() ==> {
            &&& r == Err::<(), ContractError>(ContractError::DisputeCountExceeded)
            &&& final(state).unchanged(old(state))
            &&& final(counts).counts@ == old(counts).counts@
        },
        old(counts).count_of(escrow_id) < old(counts).limit() ==> match raise_error(caller, *record) {
            Some(e) => {
                &&& r == Err::<(), ContractError>(e)
                &&& final(state).unchanged(old(state))
                &&& final(counts).counts@ == old(counts).counts@
            },
            None => {
                &&& r is Ok
                &&& raised(old(state), final(state), caller, escrow_id, ledger)
                &&& final(counts).counts@ == old(counts).counts@.insert(escrow_id, (old(counts).count_of(escrow_id) + 1) as u32)
            },
        },
        final(counts).max_disputes == old(counts).max_disputes,
{
    let limit: u32 = match counts.max_disputes {
        Some(m) => m,
        None => MAX_DISPUTES_PER_ESCROW,
    };
    let current: u32 = match counts.counts.get(&escrow_id) {
        Some(c) => *c,
        None => 0,
    };
    if current >= limit {
        return Err(ContractError::DisputeCountExceeded);
    }
    raise_dispute(state, caller, escrow_id, record, ledger)?;
    counts.counts.insert(escrow_id, current + 1);
    Ok(())
}

/// No escrow is raised more often than the limit allows: a count within the
/// limit stays within it.
pub proof fn lemma_raise_count_bounded(before: &DisputeCounts, after: &DisputeCounts, escrow_id: u32)
    requires
        before.count_of(escrow_id) <= before.limit(),
        after.max_disputes == before.max_disputes,
        after.counts@ == before.counts@ || (before.count_of(escrow_id) < before.limit()
            && after.counts@ == before.counts@.insert(escrow_id, (before.count_of(escrow_id) + 1) as u32)),
    ensures
        after.count_of(escrow_id) <= after.limit(),
{
}

/// Without a configured limit an escrow takes three raised disputes; with
/// one, the configured number.
pub proof fn lemma_default_limit_is_three(counts: &DisputeCounts)
    ensures
        counts.max_disputes is None ==> counts.limit() == 3,
        counts.max_disputes is Some ==> counts.limit() == counts.max_disputes->0,
{
}

} // verus!
