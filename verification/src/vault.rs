//! The vault record and its state machine: deposits arm a lock over the whole
//! custodied balance, withdrawals are refused until the lock period has
//! elapsed since the most recent deposit.

use vstd::prelude::*;
use crate::account_id::{AccountId, account_id_eq};

verus! {

/// The reasons an operation on a vault is refused. Every failure aborts the
/// whole invocation; the ledger runtime discards all of its effects.
#[derive(Clone, Copy, Debug, PartialEq, Eq, Structural)]
pub enum VaultError {
    /// Defined in the error taxonomy; no operation of this library returns
    /// it. A deposit onto an already-locked vault is accepted and re-arms
    /// the lock over the combined balance.
    VaultAlreadyLocked,
    /// A withdrawal was attempted on a vault with no active lock.
    VaultNotLocked,
    /// A withdrawal was attempted before the lock period had elapsed.
    TokensStillLocked,
    /// A withdrawal asked for more than the custodied balance.
    InsufficientFunds,
}

impl VaultError {
    /// The human-readable description of this error.
    pub fn message(&self) -> (m: &'static str)
        ensures
            m@ == self.spec_message(),
    {
        match self {
            VaultError::VaultAlreadyLocked => "Vault is already locked",
            VaultError::VaultNotLocked => "Vault is not locked",
            VaultError::TokensStillLocked => "Tokens are still locked",
            VaultError::InsufficientFunds => "Insufficient funds in vault",
        }
    }

    pub open spec fn spec_message(self) -> Seq<char> {
        match self {
            VaultError::VaultAlreadyLocked => "Vault is already locked"@,
            VaultError::VaultNotLocked => "Vault is not locked"@,
            VaultError::TokensStillLocked => "Tokens are still locked"@,
            VaultError::InsufficientFunds => "Insufficient funds in vault"@,
        }
    }
}

/// The persisted vault record: one per (owner, asset) pair, mutated only by
/// the three operations of this library.
#[derive(Clone, Copy, Debug)]
pub struct VaultState {
    /// The controlling principal. Immutable after creation.
    pub owner: AccountId,
    /// The fungible-asset type this vault holds. Immutable after creation.
    pub mint: AccountId,
    /// The account holding the actual asset balance, controlled by the
    /// derived authority. Immutable after creation.
    pub vault_token_account: AccountId,
    /// The custodied balance.
    pub amount_locked: u64,
    /// The lock period in seconds, configured at creation.
    pub lock_duration: i64,
    /// Unix timestamp of the most recent deposit; 0 before the first.
    pub locked_at: i64,
    /// Whether a lock is active.
    pub is_locked: bool,
    /// The disambiguation byte of the derived authority, recorded at
    /// creation so that every withdrawal can reproduce the signing proof.
    pub vault_bump: u8,
}

/// The mathematical model of a vault record: identities as byte sequences,
/// counters and timestamps as unbounded integers.
#[verifier::ext_equal]
pub ghost struct VaultModel {
    pub owner: Seq<u8>,
    pub mint: Seq<u8>,
    pub vault_token_account: Seq<u8>,
    pub amount_locked: int,
    pub lock_duration: int,
    pub locked_at: int,
    pub is_locked: bool,
    pub vault_bump: u8,
}

impl View for VaultState {
    type V = VaultModel;

    open spec fn view(&self) -> VaultModel {
        VaultModel {
            owner: self.owner@,
            mint: self.mint@,
            vault_token_account: self.vault_token_account@,
            amount_locked: self.amount_locked as int,
            lock_duration: self.lock_duration as int,
            locked_at: self.locked_at as int,
            is_locked: self.is_locked,
            vault_bump: self.vault_bump,
        }
    }
}

/// The state a freshly initialized vault is in: the supplied identities,
/// the configured lock period, and an empty, unlocked balance.
pub open spec fn spec_initialize(
    owner: Seq<u8>,
    mint: Seq<u8>,
    vault_token_account: Seq<u8>,
    lock_duration: int,
    vault_bump: u8,
) -> VaultModel {
    VaultModel {
        owner,
        mint,
        vault_token_account,
        amount_locked: 0,
        lock_duration,
        locked_at: 0,
        is_locked: false,
        vault_bump,
    }
}

/// What a deposit of `amount` at time `now` does to a vault: the balance
/// grows and the lock is re-armed from `now` over the whole balance.
pub open spec fn spec_deposit(m: VaultModel, amount: int, now: int) -> VaultModel {
    VaultModel {
        amount_locked: m.amount_locked + amount,
        locked_at: now,
        is_locked: true,
        ..m
    }
}

/// What a withdrawal of `amount` at time `now` does to a vault, or why it is
/// refused. The checks run in this order: an inactive lock, then the balance,
/// then the clock. A successful withdrawal keeps `locked_at` and clears the
/// lock exactly when it drains the balance to zero.
pub open spec fn spec_withdraw(m: VaultModel, amount: int, now: int) -> Result<VaultModel, VaultError> {
    if !m.is_locked {
        Err(VaultError::VaultNotLocked)
    } else if amount > m.amount_locked {
        Err(VaultError::InsufficientFunds)
    } else if now < m.locked_at + m.lock_duration {
        Err(VaultError::TokensStillLocked)
    } else {
        Ok(VaultModel {
            amount_locked: m.amount_locked - amount,
            is_locked: m.amount_locked - amount != 0,
            ..m
        })
    }
}

/// Creates a fresh vault record for an (owner, asset) pair.
///
/// The caller supplies the custody account it created under the derived
/// authority and the bump byte that authority was derived with; the record
/// starts with a zero balance and no active lock. No range is imposed on
/// `lock_duration`: a non-positive period simply makes every lock window
/// already elapsed.
pub fn initialize_vault(
    owner: AccountId,
    mint: AccountId,
    vault_token_account: AccountId,
    lock_duration: i64,
    vault_bump: u8,
) -> (v: VaultState)
    ensures
        v@ == spec_initialize(owner@, mint@, vault_token_account@, lock_duration as int, vault_bump),
{
    VaultState {
        owner,
        mint,
        vault_token_account,
        amount_locked: 0,
        lock_duration,
        locked_at: 0,
        is_locked: false,
        vault_bump,
    }
}

/// Credits a deposit of `amount` made at time `now`.
///
/// The caller performs the actual asset transfer into the custody account in
/// the same atomic invocation; this function records its effect. A deposit is
/// accepted whether or not the vault is already locked: every deposit re-arms
/// the full lock window from `now` over the entire accumulated balance, and a
/// zero amount is a permitted no-op transfer that still re-arms the lock.
pub fn deposit_tokens(vault_state: &mut VaultState, amount: u64, now: i64)
    requires
        old(vault_state).amount_locked + amount <= u64::MAX,
    ensures
        final(vault_state)@ == spec_deposit(old(vault_state)@, amount as int, now as int),
{
    vault_state.amount_locked = vault_state.amount_locked + amount;
    vault_state.locked_at = now;
    vault_state.is_locked = true;
}

/// Debits a withdrawal of `amount` requested at time `now`, or reports why it
/// is refused, leaving the record unchanged.
///
/// On success the caller moves the assets out of the custody account, signing
/// as the derived authority, in the same atomic invocation. A withdrawal is
/// permitted only while a lock is active and only once the lock period has
/// elapsed since the most recent deposit; a zero amount is a permitted no-op
/// that still passes every check. The lock is cleared exactly when the
/// balance reaches zero.
pub fn withdraw_tokens(vault_state: &mut VaultState, amount: u64, now: i64) -> (r: Result<(), VaultError>)
    requires
        old(vault_state).is_locked && amount <= old(vault_state).amount_locked
            ==> i64::MIN <= old(vault_state).locked_at + old(vault_state).lock_duration
                && old(vault_state).locked_at + old(vault_state).lock_duration <= i64::MAX,
    ensures
        (match spec_withdraw(old(vault_state)@, amount as int, now as int) {
            Ok(m) => r is Ok && final(vault_state)@ == m,
            Err(e) => r == Err::<(), VaultError>(e) && *final(vault_state) == *old(vault_state),
        }),
{
    if !vault_state.is_locked {
        return Err(VaultError::VaultNotLocked);
    }
    if amount > vault_state.amount_locked {
        return Err(VaultError::InsufficientFunds);
    }
    let unlock_time: i64 = vault_state.locked_at + vault_state.lock_duration;
    if now < unlock_time {
        return Err(VaultError::TokensStillLocked);
    }
    vault_state.amount_locked = vault_state.amount_locked - amount;
    if vault_state.amount_locked == 0 {
        vault_state.is_locked = false;
    }
    Ok(())
}

/// Checks the account relationships a deposit invocation must satisfy: the
/// supplied custody account is the one the record names, the source account
/// holds the vault's asset, and the signing caller is the vault's owner.
pub fn deposit_accounts_valid(
    vault_state: &VaultState,
    vault_token_account: &AccountId,
    user_token_account_mint: &AccountId,
    user_authority: &AccountId,
) -> (r: bool)
    ensures
        r == (vault_token_account@ == vault_state@.vault_token_account
            && user_token_account_mint@ == vault_state@.mint
            && user_authority@ == vault_state@.owner),
{
    account_id_eq(vault_token_account, &vault_state.vault_token_account)
        && account_id_eq(user_token_account_mint, &vault_state.mint)
        && account_id_eq(user_authority, &vault_state.owner)
}

/// Checks the account relationships a withdrawal invocation must satisfy:
/// the supplied custody account is the one the record names, the destination
/// account holds the vault's asset, and the signing caller is the vault's
/// owner.
pub fn withdraw_accounts_valid(
    vault_state: &VaultState,
    vault_token_account: &AccountId,
    user_token_account_mint: &AccountId,
    user_authority: &AccountId,
) -> (r: bool)
    ensures
        r == (vault_token_account@ == vault_state@.vault_token_account
            && user_token_account_mint@ == vault_state@.mint
            && user_authority@ == vault_state@.owner),
{
    account_id_eq(vault_token_account, &vault_state.vault_token_account)
        && account_id_eq(user_token_account_mint, &vault_state.mint)
        && account_id_eq(user_authority, &vault_state.owner)
}

} // verus!
