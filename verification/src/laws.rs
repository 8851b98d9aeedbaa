//! The properties the vault's state machine guarantees, stated and proved
//! over the model transitions of `crate::vault`.

use vstd::prelude::*;
use crate::vault::{VaultError, VaultModel, spec_deposit, spec_initialize, spec_withdraw};

verus! {

/// One operation of a history: a deposit or an attempted withdrawal, each
/// carrying its amount and the clock reading at which it ran.
pub enum VaultOp {
    Deposit { amount: u64, now: i64 },
    Withdraw { amount: u64, now: i64 },
}

/// The vault after one operation: a deposit always applies; a refused
/// withdrawal leaves the record unchanged, as the runtime discards the
/// failed invocation.
pub open spec fn apply_op(m: VaultModel, op: VaultOp) -> VaultModel {
    match op {
        VaultOp::Deposit { amount, now } => spec_deposit(m, amount as int, now as int),
        VaultOp::Withdraw { amount, now } => match spec_withdraw(m, amount as int, now as int) {
            Ok(m2) => m2,
            Err(_) => m,
        },
    }
}

/// The vault after a whole history of operations.
pub open spec fn apply_ops(m: VaultModel, ops: Seq<VaultOp>) -> VaultModel
    decreases ops.len(),
{
    if ops.len() == 0 {
        m
    } else {
        apply_ops(apply_op(m, ops[0]), ops.subrange(1, ops.len() as int))
    }
}

/// The net asset movement into the custody account caused by one operation:
/// a deposit moves its amount in, a successful withdrawal moves its amount
/// out, a refused withdrawal moves nothing.
pub open spec fn op_flow(m: VaultModel, op: VaultOp) -> int {
    match op {
        VaultOp::Deposit { amount, now: _ } => amount as int,
        VaultOp::Withdraw { amount, now } => if spec_withdraw(m, amount as int, now as int) is Ok {
            -(amount as int)
        } else {
            0
        },
    }
}

/// The net asset movement into the custody account over a whole history.
pub open spec fn net_flow(m: VaultModel, ops: Seq<VaultOp>) -> int
    decreases ops.len(),
{
    if ops.len() == 0 {
        0
    } else {
        op_flow(m, ops[0]) + net_flow(apply_op(m, ops[0]), ops.subrange(1, ops.len() as int))
    }
}

/// Conservation: over any history of deposits and withdrawals, the recorded
/// balance moves in lockstep with the net asset movement into the custody
/// account, so the two agree at every observation point.
pub proof fn lemma_conservation(m: VaultModel, ops: Seq<VaultOp>)
    ensures
        apply_ops(m, ops).amount_locked == m.amount_locked + net_flow(m, ops),
    decreases ops.len(),
{
    if ops.len() == 0 {
    } else {
        lemma_conservation(apply_op(m, ops[0]), ops.subrange(1, ops.len() as int));
    }
}

/// From creation onward, at every observation point, the recorded balance
/// is exactly the net asset movement into the custody account.
pub proof fn lemma_conservation_from_creation(
    owner: Seq<u8>,
    mint: Seq<u8>,
    vault_token_account: Seq<u8>,
    lock_duration: int,
    vault_bump: u8,
    ops: Seq<VaultOp>,
)
    ensures
        ({
            let created = spec_initialize(owner, mint, vault_token_account, lock_duration, vault_bump);
            apply_ops(created, ops).amount_locked == net_flow(created, ops)
        }),
{
    lemma_conservation(
        spec_initialize(owner, mint, vault_token_account, lock_duration, vault_bump),
        ops,
    );
}

/// A deposit re-arms the lock unconditionally: afterwards the vault is
/// locked, the lock window runs from the deposit's clock reading, and the
/// balance has grown by the deposited amount. The identities, the lock
/// period and the bump are untouched.
pub proof fn lemma_deposit_arms_lock(m: VaultModel, amount: int, now: int)
    ensures
        spec_deposit(m, amount, now).is_locked,
        spec_deposit(m, amount, now).locked_at == now,
        spec_deposit(m, amount, now).amount_locked == m.amount_locked + amount,
        spec_deposit(m, amount, now).owner == m.owner,
        spec_deposit(m, amount, now).mint == m.mint,
        spec_deposit(m, amount, now).vault_token_account == m.vault_token_account,
        spec_deposit(m, amount, now).lock_duration == m.lock_duration,
        spec_deposit(m, amount, now).vault_bump == m.vault_bump,
{
}

/// A withdrawal attempted before the lock period has elapsed is refused with
/// `TokensStillLocked`; the checks that run earlier are assumed to pass. A
/// refused withdrawal leaves the record unchanged, as `withdraw_tokens`
/// states of every error.
pub proof fn lemma_withdraw_too_early(m: VaultModel, amount: int, now: int)
    requires
        m.is_locked,
        amount <= m.amount_locked,
        now < m.locked_at + m.lock_duration,
    ensures
        spec_withdraw(m, amount, now) == Err::<VaultModel, VaultError>(VaultError::TokensStillLocked),
{
}

/// A withdrawal of more than the custodied balance is refused with
/// `InsufficientFunds`, regardless of timing, as long as a lock is active
/// (without one, the inactive lock is reported first).
pub proof fn lemma_withdraw_insufficient(m: VaultModel, amount: int, now: int)
    requires
        m.is_locked,
        amount > m.amount_locked,
    ensures
        spec_withdraw(m, amount, now) == Err::<VaultModel, VaultError>(VaultError::InsufficientFunds),
{
}

/// Idempotent drain: once the lock period has elapsed, withdrawing the
/// remaining balance exactly reaches an empty, unlocked vault, and every
/// further withdrawal, of any amount and at any time, is refused with
/// `VaultNotLocked` until another deposit re-arms the lock.
pub proof fn lemma_idempotent_drain(m: VaultModel, now: int, amount2: int, now2: int)
    requires
        m.is_locked,
        now >= m.locked_at + m.lock_duration,
    ensures
        spec_withdraw(m, m.amount_locked, now) matches Ok(drained)
            && drained.amount_locked == 0
            && !drained.is_locked
            && spec_withdraw(drained, amount2, now2)
                == Err::<VaultModel, VaultError>(VaultError::VaultNotLocked),
{
}

} // verus!
