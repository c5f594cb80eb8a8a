//! Deposits: the ledger moves the units into escrow first, then the
//! depositor's record and the reserve are credited, both or neither.

use vstd::prelude::*;
use anchor_lang::prelude::Pubkey;
use crate::accounting::UserVaultState;
use crate::error::TokenSwapError;
use crate::ledger::TransferOutcome;
use crate::reserves::shift_reserve;

verus! {

/// What a record slot tracks: the amount of its record, nothing where the
/// depositor has no record yet.
pub open spec fn tracked_amount(record: Option<UserVaultState>) -> u64 {
    match record {
        Some(state) => state.amount,
        None => 0,
    }
}

/// The reserve and the depositor's record after a deposit of `amount`
/// whose inbound leg the ledger answered with `inbound`.
///
/// A rejected leg is `TransferFailed` with the ledger's reason. After a
/// settled leg the record, opened empty where there was none, takes the
/// amount and the depositor's name, and the reserve takes the amount; where
/// either would pass `u64::MAX` the deposit is `Overflow`.
pub open spec fn deposit_result(
    user: Pubkey,
    reserve: u64,
    record: Option<UserVaultState>,
    amount: u64,
    inbound: TransferOutcome,
) -> Result<(u64, UserVaultState), TokenSwapError> {
    match inbound {
        TransferOutcome::Rejected(reason) => Err(TokenSwapError::TransferFailed(reason)),
        TransferOutcome::Settled => if tracked_amount(record) + amount > u64::MAX || reserve
            + amount > u64::MAX {
            Err(TokenSwapError::Overflow)
        } else {
            Ok(
                (
                    (reserve + amount) as u64,
                    UserVaultState {
                        owner: user,
                        amount: (tracked_amount(record) + amount) as u64,
                    },
                ),
            )
        },
    }
}

/// Books one deposit on plain values; the two entry points below write the
/// result into their records.
fn book_deposit(
    user: Pubkey,
    reserve: u64,
    record: Option<UserVaultState>,
    amount: u64,
    inbound: TransferOutcome,
) -> (r: Result<(u64, UserVaultState), TokenSwapError>)
    ensures
        r == deposit_result(user, reserve, record, amount, inbound),
{
    match inbound {
        TransferOutcome::Rejected(reason) => {
            return Err(TokenSwapError::TransferFailed(reason));
        },
        TransferOutcome::Settled => {},
    }
    let mut state = match record {
        Some(state) => state,
        None => UserVaultState::new(user),
    };
    state.owner = user;
    match state.deposit(amount) {
        Ok(()) => {},
        Err(e) => {
            return Err(e);
        },
    }
    let credited = match shift_reserve(reserve, amount as i128) {
        Ok(x) => x,
        Err(e) => {
            return Err(e);
        },
    };
    Ok((credited, state))
}

/// The records that one deposit of asset A touches: the depositor, the
/// reserve of A, and the depositor's record for A where there is one.
#[derive(Clone, Copy, Debug, PartialEq, Eq)]
pub struct DepositToVaultTokenA {
    pub user: Pubkey,
    pub vault_token_account: u64,
    pub user_vault_state_a: Option<UserVaultState>,
}

/// The records that one deposit of asset B touches.
#[derive(Clone, Copy, Debug, PartialEq, Eq)]
pub struct DepositToVaultTokenB {
    pub user: Pubkey,
    pub vault_token_account: u64,
    pub user_vault_state_b: Option<UserVaultState>,
}

/// Books a deposit of `amount` of asset A once the ledger has answered its
/// inbound leg. On any failure the records are left as they were.
pub fn token_a_deposit_in_pda_vault(
    ctx: &mut DepositToVaultTokenA,
    amount: u64,
    inbound: TransferOutcome,
) -> (r: Result<(), TokenSwapError>)
    ensures
        match deposit_result(
            old(ctx).user,
            old(ctx).vault_token_account,
            old(ctx).user_vault_state_a,
            amount,
            inbound,
        ) {
            Ok((reserve, state)) => r is Ok && *final(ctx) == (DepositToVaultTokenA {
                user: old(ctx).user,
                vault_token_account: reserve,
                user_vault_state_a: Some(state),
            }),
            Err(e) => r == Err::<(), TokenSwapError>(e) && *final(ctx) == *old(ctx),
        },
{
    match book_deposit(ctx.user, ctx.vault_token_account, ctx.user_vault_state_a, amount, inbound) {
        Ok((reserve, state)) => {
            ctx.vault_token_account = reserve;
            ctx.user_vault_state_a = Some(state);
            Ok(())
        },
        Err(e) => Err(e),
    }
}

/// Books a deposit of `amount` of asset B once the ledger has answered its
/// inbound leg. On any failure the records are left as they were.
pub fn token_b_deposit_in_pda_vault(
    ctx: &mut DepositToVaultTokenB,
    amount: u64,
    inbound: TransferOutcome,
) -> (r: Result<(), TokenSwapError>)
    ensures
        match deposit_result(
            old(ctx).user,
            old(ctx).vault_token_account,
            old(ctx).user_vault_state_b,
            amount,
            inbound,
        ) {
            Ok((reserve, state)) => r is Ok && *final(ctx) == (DepositToVaultTokenB {
                user: old(ctx).user,
                vault_token_account: reserve,
                user_vault_state_b: Some(state),
            }),
            Err(e) => r == Err::<(), TokenSwapError>(e) && *final(ctx) == *old(ctx),
        },
{
    match book_deposit(ctx.user, ctx.vault_token_account, ctx.user_vault_state_b, amount, inbound) {
        Ok((reserve, state)) => {
            ctx.vault_token_account = reserve;
            ctx.user_vault_state_b = Some(state);
            Ok(())
        },
        Err(e) => Err(e),
    }
}

/// A deposit keeps a record within its reserve: where the tracked amount
/// was covered by the reserve before, it is covered after.
pub proof fn lemma_deposit_keeps_cover(
    user: Pubkey,
    reserve: u64,
    record: Option<UserVaultState>,
    amount: u64,
)
    requires
        tracked_amount(record) <= reserve,
        deposit_result(user, reserve, record, amount, TransferOutcome::Settled) is Ok,
    ensures
        ({
            let (after, state) = deposit_result(
                user,
                reserve,
                record,
                amount,
                TransferOutcome::Settled,
            )->Ok_0;
            state.amount <= after
        }),
{
}

} // verus!
