//! Whitelist mode: when it is on, only whitelisted accounts may send or
//! receive. Accounts are added one by one, in batches, or in bulk through a
//! message signed by the admin and protected against replay by a nonce.
use crate::admin::{check_admin, AdminState};
use crate::error::ContractError;
use crate::signed::{account_address_xdr, signer_key_matches};
use crate::types::AccountId;
use std::collections::{HashMap, HashSet};
use vstd::prelude::*;

verus! {

broadcast use vstd::std_specs::hash::group_hash_axioms;

/// Most accounts that one `add_to_whitelist_batch` call may add.
pub const MAX_WHITELIST_BATCH: usize = 50;

/// Most addresses that one `add_to_whitelist_signed` call may add.
pub const MAX_SIGNED_WHITELIST: usize = 200;

/// What the contract stores about the whitelist.
#[derive(Debug)]
pub struct WhitelistState {
    /// Whether whitelist mode is on.
    pub enabled: bool,
    /// The whitelisted accounts.
    pub whitelisted: HashSet<AccountId>,
    /// For each admin, the nonce its next signed whitelist message must carry.
    pub admin_nonces: HashMap<AccountId, u64>,
}

impl WhitelistState {
    /// Whether `account` may take part in a transfer.
    pub open spec fn allowed(&self, account: AccountId) -> bool {
        !self.enabled || self.whitelisted@.contains(account)
    }

    /// The nonce that the next signed message of `admin` must carry.
    pub open spec fn nonce_of(&self, admin: AccountId) -> u64 {
        if self.admin_nonces@.contains_key(admin) { self.admin_nonces@[admin] } else { 0 }
    }

    /// The refusal that `add_to_whitelist_batch` gives, if any.
    pub open spec fn batch_error(admins: AdminState, caller: AccountId, count: nat, ledger: u32) -> Option<ContractError> {
        match admins.check_admin_error(caller, ledger) {
            Some(e) => Some(e),
            None => if count > MAX_WHITELIST_BATCH { Some(ContractError::TooManyAccounts) } else { None },
        }
    }

    /// The refusal that `add_to_whitelist_signed` gives, if any.
    pub open spec fn signed_error(&self, admins: AdminState, admin: AccountId, count: nat, nonce: u64, ledger: u32) -> Option<ContractError> {
        match admins.check_admin_error(admin, ledger) {
            Some(e) => Some(e),
            None => if count == 0 {
                Some(ContractError::EmptyAddresses)
            } else if count > MAX_SIGNED_WHITELIST {
                Some(ContractError::TooManyAddresses)
            } else if nonce != self.nonce_of(admin) {
                Some(ContractError::InvalidNonce)
            } else if nonce == u64::MAX {
                Some(ContractError::Overflow)
            } else {
                None
            },
        }
    }

    /// The refusal that `check` gives, if any.
    pub open spec fn check_error(&self, from: AccountId, to: AccountId) -> Option<ContractError> {
        if !self.allowed(from) {
            Some(ContractError::SenderNotWhitelisted)
        } else if !self.allowed(to) {
            Some(ContractError::RecipientNotWhitelisted)
        } else {
            None
        }
    }

    /// Whitelist mode off, nobody whitelisted, every nonce at zero.
    pub fn new() -> (s: Self)
        ensures
            !s.enabled,
            s.whitelisted@ == Set::<AccountId>::empty(),
            s.admin_nonces@ == Map::<AccountId, u64>::empty(),
    {
        WhitelistState { enabled: false, whitelisted: HashSet::new(), admin_nonces: HashMap::new() }
    }
}

/// The admin `caller` turns whitelist mode on.
pub fn enable(state: &mut WhitelistState, admins: &AdminState, caller: AccountId, ledger: u32) -> (r: Result<(), ContractError>)
    ensures
        match admins.check_admin_error(caller, ledger) {
            Some(e) => r == Err::<(), ContractError>(e) && final(state).enabled == old(state).enabled,
            None => r is Ok && final(state).enabled,
        },
        final(state).whitelisted@ == old(state).whitelisted@,
        final(state).admin_nonces@ == old(state).admin_nonces@,
{
    check_admin(admins, caller, ledger)?;
    state.enabled = true;
    Ok(())
}

/// The admin `caller` turns whitelist mode off.
pub fn disable(state: &mut WhitelistState, admins: &AdminState, caller: AccountId, ledger: u32) -> (r: Result<(), ContractError>)
    ensures
        match admins.check_admin_error(caller, ledger) {
            Some(e) => r == Err::<(), ContractError>(e) && final(state).enabled == old(state).enabled,
            None => r is Ok && !final(state).enabled,
        },
        final(state).whitelisted@ == old(state).whitelisted@,
        final(state).admin_nonces@ == old(state).admin_nonces@,
{
    check_admin(admins, caller, ledger)?;
    state.enabled = false;
    Ok(())
}

/// Whether whitelist mode is on.
pub fn is_enabled(state: &WhitelistState) -> (r: bool)
    ensures
        r == state.enabled,
{
    state.enabled
}

/// The admin `caller` whitelists `account`.
pub fn add(state: &mut WhitelistState, admins: &AdminState, caller: AccountId, account: AccountId, ledger: u32) -> (r: Result<(), ContractError>)
    ensures
        match admins.check_admin_error(caller, ledger) {
            Some(e) => r == Err::<(), ContractError>(e) && final(state).whitelisted@ == old(state).whitelisted@,
            None => r is Ok && final(state).whitelisted@ == old(state).whitelisted@.insert(account),
        },
        final(state).enabled == old(state).enabled,
        final(state).admin_nonces@ == old(state).admin_nonces@,
{
    check_admin(admins, caller, ledger)?;
    state.whitelisted.insert(account);
    Ok(())
}

/// The admin `caller` takes `account` off the whitelist.
pub fn remove(state: &mut WhitelistState, admins: &AdminState, caller: AccountId, account: AccountId, ledger: u32) -> (r: Result<(), ContractError>)
    ensures
        match admins.check_admin_error(caller, ledger) {
            Some(e) => r == Err::<(), ContractError>(e) && final(state).whitelisted@ == old(state).whitelisted@,
            None => r is Ok && final(state).whitelisted@ == old(state).whitelisted@.remove(account),
        },
        final(state).enabled == old(state).enabled,
        final(state).admin_nonces@ == old(state).admin_nonces@,
{
    check_admin(admins, caller, ledger)?;
    state.whitelisted.remove(&account);
    Ok(())
}

/// Whether `account` may take part in a transfer: every account may while
/// whitelist mode is off.
pub fn is_whitelisted(state: &WhitelistState, account: AccountId) -> (r: bool)
    ensures
        r == state.allowed(account),
{
    if !state.enabled {
        return true;
    }
    state.whitelisted.contains(&account)
}

fn insert_all(state: &mut WhitelistState, accounts: &Vec<AccountId>)
    ensures
        final(state).whitelisted@ == old(state).whitelisted@.union(accounts@.to_set()),
        final(state).enabled == old(state).enabled,
        final(state).admin_nonces@ == old(state).admin_nonces@,
{
    let n: usize = accounts.len();
    let mut i: usize = 0;
    while i < n
        invariant
            n == accounts@.len(),
            i <= n,
            forall|a: AccountId| #[trigger] state.whitelisted@.contains(a) <==>
                (old(state).whitelisted@.contains(a) || exists|j: int| 0 <= j < i && accounts@[j] == a),
            state.enabled == old(state).enabled,
            state.admin_nonces@ == old(state).admin_nonces@,
        decreases n - i,
    {
        let a: AccountId = accounts[i];
        state.whitelisted.insert(a);
        proof {
            assert forall|b: AccountId| #[trigger] state.whitelisted@.contains(b) <==>
                (old(state).whitelisted@.contains(b) || exists|j: int| 0 <= j < i + 1 && accounts@[j] == b) by {
                if b == a {
                    assert(accounts@[i as int] == b);
                }
            }
        }
        i = i + 1;
    }
    proof {
        assert forall|a: AccountId| accounts@.to_set().contains(a) <==> exists|j: int| 0 <= j < n && accounts@[j] == a by {
            if accounts@.to_set().contains(a) {
                assert(accounts@.contains(a));
            }
            if exists|j: int| 0 <= j < n && accounts@[j] == a {
                let j = choose|j: int| 0 <= j < n && accounts@[j] == a;
                assert(accounts@.contains(a));
            }
        }
        assert(state.whitelisted@ =~= old(state).whitelisted@.union(accounts@.to_set()));
    }
}

/// The admin `caller` whitelists every account of `accounts`, at most
/// `MAX_WHITELIST_BATCH` of them in one call.
pub fn add_to_whitelist_batch(state: &mut WhitelistState, admins: &AdminState, caller: AccountId, accounts: &Vec<AccountId>, ledger: u32) -> (r: Result<(), ContractError>)
    ensures
        match WhitelistState::batch_error(*admins, caller, accounts@.len(), ledger) {
            Some(e) => r == Err::<(), ContractError>(e) && final(state).whitelisted@ == old(state).whitelisted@,
            None => r is Ok && final(state).whitelisted@ == old(state).whitelisted@.union(accounts@.to_set()),
        },
        final(state).enabled == old(state).enabled,
        final(state).admin_nonces@ == old(state).admin_nonces@,
{
    check_admin(admins, caller, ledger)?;
    if accounts.len() > MAX_WHITELIST_BATCH {
        return Err(ContractError::TooManyAccounts);
    }
    insert_all(state, accounts);
    Ok(())
}

/// While whitelist mode is on, refuses a transfer whose sender or
/// recipient is not whitelisted; the sender is looked at first.
pub fn check(state: &WhitelistState, from: AccountId, to: AccountId) -> (r: Result<(), ContractError>)
    ensures
        r is Ok <==> (state.allowed(from) && state.allowed(to)),
        match state.check_error(from, to) {
            Some(e) => r == Err::<(), ContractError>(e),
            None => r is Ok,
        },
{
    if is_enabled(state) {
        if !is_whitelisted(state, from) {
            return Err(ContractError::SenderNotWhitelisted);
        }
        if !is_whitelisted(state, to) {
            return Err(ContractError::RecipientNotWhitelisted);
        }
    }
    Ok(())
}

/// The nonce that the next signed whitelist message of `admin` must carry.
pub fn admin_nonce(state: &WhitelistState, admin: AccountId) -> (r: u64)
    ensures
        r == state.nonce_of(admin),
{
    match state.admin_nonces.get(&admin) {
        Some(n) => *n,
        None => 0,
    }
}

/// Applies the rules on the signer, the number of addresses and the nonce of
/// a signed whitelist call, without changing anything.
fn signed_check(state: &WhitelistState, admins: &AdminState, admin: AccountId, count: usize, nonce: u64, ledger: u32) -> (r: Result<(), ContractError>)
    ensures
        match state.signed_error(*admins, admin, count as nat, nonce, ledger) {
            Some(e) => r == Err::<(), ContractError>(e),
            None => r is Ok,
        },
{
    check_admin(admins, admin, ledger)?;
    if count == 0 {
        return Err(ContractError::EmptyAddresses);
    }
    if count > MAX_SIGNED_WHITELIST {
        return Err(ContractError::TooManyAddresses);
    }
    let current_nonce: u64 = admin_nonce(state, admin);
    if nonce != current_nonce {
        return Err(ContractError::InvalidNonce);
    }
    if nonce == u64::MAX {
        return Err(ContractError::Overflow);
    }
    Ok(())
}

/// Whitelists every address of `addresses` on the strength of a message
/// signed by `admin`, who must be the active admin at ledger `ledger`, and
/// that carries `nonce`, which must be the admin's current nonce; the
/// admin's nonce then moves on by one, so that the same message cannot be
/// used twice. The signature itself is checked by the host over
/// `signed_whitelist_digest`, with a key that `signer_key_matches` ties to
/// the admin's address; this call holds the rules on the signer, the
/// addresses and the nonce.
pub fn add_to_whitelist_signed(state: &mut WhitelistState, admins: &AdminState, admin: AccountId, addresses: &Vec<AccountId>, nonce: u64, ledger: u32) -> (r: Result<(), ContractError>)
    ensures
        match old(state).signed_error(*admins, admin, addresses@.len(), nonce, ledger) {
            Some(e) => {
                &&& r == Err::<(), ContractError>(e)
                &&& final(state).whitelisted@ == old(state).whitelisted@
                &&& final(state).admin_nonces@ == old(state).admin_nonces@
            },
            None => {
                &&& r is Ok
                &&& final(state).whitelisted@ == old(state).whitelisted@.union(addresses@.to_set())
                &&& final(state).admin_nonces@ == old(state).admin_nonces@.insert(admin, (nonce + 1) as u64)
            },
        },
        final(state).enabled == old(state).enabled,
{
    signed_check(state, admins, admin, addresses.len(), nonce, ledger)?;
    state.admin_nonces.insert(admin, nonce + 1);
    insert_all(state, addresses);
    Ok(())
}

/// With whitelist mode off, every account may send and receive.
pub proof fn lemma_disabled_allows_all(s: WhitelistState, from: AccountId, to: AccountId)
    requires
        !s.enabled,
    ensures
        s.allowed(from),
        s.allowed(to),
        s.check_error(from, to) is None,
{
}

/// After accounts have been whitelisted (one by one, in a batch or through a
/// signed message), each of them may send and receive, whether or not
/// whitelist mode is on.
pub proof fn lemma_added_accounts_allowed(before: WhitelistState, after: WhitelistState, accounts: Seq<AccountId>, account: AccountId)
    requires
        after.whitelisted@ == before.whitelisted@.union(accounts.to_set()),
        accounts.contains(account),
    ensures
        after.allowed(account),
{
    assert(accounts.to_set().contains(account));
}

/// While whitelist mode is on, an account taken off the whitelist is refused
/// as sender and as recipient.
pub proof fn lemma_removed_account_refused(before: WhitelistState, after: WhitelistState, account: AccountId, other: AccountId)
    requires
        after.whitelisted@ == before.whitelisted@.remove(account),
        after.enabled,
    ensures
        after.check_error(account, other) == Some(ContractError::SenderNotWhitelisted),
        !after.allowed(account),
{
}

/// A signed whitelist message cannot be replayed: once a call with `nonce`
/// has gone through, the same call is refused for its nonce.
pub proof fn lemma_signed_no_replay(before: WhitelistState, after: WhitelistState, admins: AdminState, admin: AccountId, count: nat, nonce: u64, ledger: u32)
    requires
        before.signed_error(admins, admin, count, nonce, ledger) is None,
        after.admin_nonces@ == before.admin_nonces@.insert(admin, (nonce + 1) as u64),
    ensures
        after.nonce_of(admin) == nonce + 1,
        after.signed_error(admins, admin, count, nonce, ledger) == Some(ContractError::InvalidNonce),
{
}

/// Only the active admin can whitelist through a signed message: any other
/// signer is refused, whatever message it signed.
pub proof fn lemma_signed_needs_admin(s: WhitelistState, admins: AdminState, signer: AccountId, count: nat, nonce: u64, ledger: u32)
    requires
        !admins.is_active_admin(signer, ledger),
    ensures
        s.signed_error(admins, signer, count, nonce, ledger) is Some,
        s.signed_error(admins, signer, count, nonce, ledger) == admins.check_admin_error(signer, ledger),
{
}

/// Whitelists every address of `addresses` as `add_to_whitelist_signed`
/// does, and further refuses the call unless `public_key`, the key the host
/// checks the signature with, is the key of the admin's own account, whose
/// address is XDR-encoded in `admin_xdr`.
pub fn add_to_whitelist_signed_with_key(state: &mut WhitelistState, admins: &AdminState, admin: AccountId, admin_xdr: &Vec<u8>, public_key: &[u8; 32], addresses: &Vec<AccountId>, nonce: u64, ledger: u32) -> (r: Result<(), ContractError>)
    ensures
        match old(state).signed_error(*admins, admin, addresses@.len(), nonce, ledger) {
            Some(e) => {
                &&& r == Err::<(), ContractError>(e)
                &&& final(state).whitelisted@ == old(state).whitelisted@
                &&& final(state).admin_nonces@ == old(state).admin_nonces@
            },
            None => if admin_xdr@ != account_address_xdr(public_key@) {
                &&& r == Err::<(), ContractError>(ContractError::SignerKeyMismatch)
                &&& final(state).whitelisted@ == old(state).whitelisted@
                &&& final(state).admin_nonces@ == old(state).admin_nonces@
            } else {
                &&& r is Ok
                &&& final(state).whitelisted@ == old(state).whitelisted@.union(addresses@.to_set())
                &&& final(state).admin_nonces@ == old(state).admin_nonces@.insert(admin, (nonce + 1) as u64)
            },
        },
        final(state).enabled == old(state).enabled,
{
    signed_check(state, admins, admin, addresses.len(), nonce, ledger)?;
    if !signer_key_matches(admin_xdr, public_key) {
        return Err(ContractError::SignerKeyMismatch);
    }
    state.admin_nonces.insert(admin, nonce + 1);
    insert_all(state, addresses);
    Ok(())
}

/// For the active admin carrying its current nonce (below `u64::MAX`), a
/// signed whitelist call is accepted for every number of addresses from 1 to
/// 200 and refused as too many exactly above 200.
pub proof fn lemma_signed_accepts_up_to_two_hundred(s: WhitelistState, admins: AdminState, admin: AccountId, count: nat, nonce: u64, ledger: u32)
    requires
        admins.admin == Some(admin),
        admins.admin_active_after is None || ledger >= admins.admin_active_after->0,
        s.admin_nonces@.contains_key(admin) ==> s.admin_nonces@[admin] == nonce,
        !s.admin_nonces@.contains_key(admin) ==> nonce == 0,
        nonce < u64::MAX,
        count >= 1,
    ensures
        count <= 200 ==> s.signed_error(admins, admin, count, nonce, ledger) is None,
        count > 200 ==> s.signed_error(admins, admin, count, nonce, ledger) == Some(ContractError::TooManyAddresses),
{
}

/// The admin's batch call is accepted for up to 50 accounts and refused as
/// too many exactly above 50.
pub proof fn lemma_batch_accepts_up_to_fifty(admins: AdminState, admin: AccountId, count: nat, ledger: u32)
    requires
        admins.admin == Some(admin),
        admins.admin_active_after is None || ledger >= admins.admin_active_after->0,
    ensures
        count <= 50 ==> WhitelistState::batch_error(admins, admin, count, ledger) is None,
        count > 50 ==> WhitelistState::batch_error(admins, admin, count, ledger) == Some(ContractError::TooManyAccounts),
{
}

/// An account may transfer exactly when whitelist mode is off or the account
/// is whitelisted; a transfer is refused for the sender first, then for the
/// recipient. An admin with no signed message yet expects nonce zero.
pub proof fn lemma_allowed_meaning(s: WhitelistState, from: AccountId, to: AccountId, admin: AccountId)
    ensures
        s.allowed(from) <==> (!s.enabled || s.whitelisted@.contains(from)),
        s.enabled && !s.whitelisted@.contains(from) ==> s.check_error(from, to) == Some(ContractError::SenderNotWhitelisted),
        s.enabled && s.whitelisted@.contains(from) && !s.whitelisted@.contains(to)
            ==> s.check_error(from, to) == Some(ContractError::RecipientNotWhitelisted),
        !s.admin_nonces@.contains_key(admin) ==> s.nonce_of(admin) == 0,
        s.admin_nonces@.contains_key(admin) ==> s.nonce_of(admin) == s.admin_nonces@[admin],
{
}

} // verus!
