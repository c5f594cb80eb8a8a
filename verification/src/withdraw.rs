//! Withdrawals: both amounts are checked against reserves and tracked
//! balances before anything moves; then each asset is paid out and booked,
//! A before B. A leg is booked whole or not at all, but the two legs are
//! not one: where the second fails, the first stays done.

use vstd::prelude::*;
use anchor_lang::prelude::Pubkey;
use crate::accounting::UserVaultState;
use crate::deposit::deposit_result;
use crate::deposit::tracked_amount;
use crate::error::TokenSwapError;
use crate::ledger::outbound_leg;
use crate::ledger::pay_out;
use crate::ledger::AssetKind;
use crate::ledger::TransferOutcome;
use crate::ledger::TransferRequest;
use crate::reserves::ReservePair;

verus! {

/// The records that one withdrawal touches: the depositor, the reserves of
/// the pair, and the depositor's record for each asset.
#[derive(Clone, Copy, Debug, PartialEq, Eq)]
pub struct WithdrawFromVault {
    pub user: Pubkey,
    pub reserves: ReservePair,
    pub user_vault_state_a: UserVaultState,
    pub user_vault_state_b: UserVaultState,
}

/// A withdrawal that has been accepted and awaits the ledger's answer to
/// one of its payout legs. It holds the records for itself until its last
/// leg is booked, so that no other operation can read or move them in
/// between.
#[derive(Debug)]
pub struct PendingWithdrawal<'a> {
    pub records: &'a mut WithdrawFromVault,
    /// The asset of the leg that is awaited.
    pub leg: AssetKind,
    pub amount_a: u64,
    pub amount_b: u64,
}

impl WithdrawFromVault {
    /// The depositor's record for one asset.
    pub open spec fn record_of(self, asset: AssetKind) -> UserVaultState {
        match asset {
            AssetKind::A => self.user_vault_state_a,
            AssetKind::B => self.user_vault_state_b,
        }
    }

    /// Whether a withdrawal of the two amounts is accepted: each reserve
    /// must cover its amount, A looked at before B, and then each tracked
    /// balance must.
    pub open spec fn check(self, amount_a: u64, amount_b: u64) -> Result<(), TokenSwapError> {
        if amount_a > self.reserves.reserve_a {
            Err(TokenSwapError::InsufficientTokenA)
        } else if amount_b > self.reserves.reserve_b {
            Err(TokenSwapError::InsufficientTokenB)
        } else if amount_a > self.user_vault_state_a.amount || amount_b
            > self.user_vault_state_b.amount {
            Err(TokenSwapError::InsufficientBalance)
        } else {
            Ok(())
        }
    }

    /// The records after the payout of `amount` of `asset` is booked: the
    /// tracked balance and the reserve of that asset both give the amount.
    /// `InsufficientBalance` where the balance does not cover it, else
    /// `Underflow` where the reserve does not.
    pub open spec fn after_leg(self, asset: AssetKind, amount: u64) -> Result<
        WithdrawFromVault,
        TokenSwapError,
    > {
        if amount > self.record_of(asset).amount {
            Err(TokenSwapError::InsufficientBalance)
        } else if amount > self.reserves.reserve_of(asset) {
            Err(TokenSwapError::Underflow)
        } else {
            let state = UserVaultState {
                owner: self.record_of(asset).owner,
                amount: (self.record_of(asset).amount - amount) as u64,
            };
            let rest = (self.reserves.reserve_of(asset) - amount) as u64;
            Ok(
                match asset {
                    AssetKind::A => WithdrawFromVault {
                        reserves: ReservePair { reserve_a: rest, ..self.reserves },
                        user_vault_state_a: state,
                        ..self
                    },
                    AssetKind::B => WithdrawFromVault {
                        reserves: ReservePair { reserve_b: rest, ..self.reserves },
                        user_vault_state_b: state,
                        ..self
                    },
                },
            )
        }
    }
}

/// Books the payout of `amount` of `asset` on the records, balance and
/// reserve both or neither.
fn book_leg(records: &mut WithdrawFromVault, asset: AssetKind, amount: u64) -> (r: Result<
    (),
    TokenSwapError,
>)
    ensures
        match old(records).after_leg(asset, amount) {
            Ok(after) => r is Ok && *final(records) == after,
            Err(e) => r == Err::<(), TokenSwapError>(e) && *final(records) == *old(records),
        },
{
    let mut state = match asset {
        AssetKind::A => records.user_vault_state_a,
        AssetKind::B => records.user_vault_state_b,
    };
    match state.withdraw(amount) {
        Ok(()) => {},
        Err(e) => {
            return Err(e);
        },
    }
    let mut reserves = records.reserves;
    let debit = -(amount as i128);
    let booked = match asset {
        AssetKind::A => reserves.apply_delta(debit, 0),
        AssetKind::B => reserves.apply_delta(0, debit),
    };
    match booked {
        Ok(()) => {},
        Err(e) => {
            return Err(e);
        },
    }
    records.reserves = reserves;
    match asset {
        AssetKind::A => {
            records.user_vault_state_a = state;
        },
        AssetKind::B => {
            records.user_vault_state_b = state;
        },
    }
    Ok(())
}

/// Begins a withdrawal of the two amounts.
///
/// It is refused, before any transfer is asked for and with the records
/// unchanged, where a reserve or a tracked balance does not cover its
/// amount. Else it is pending on its leg for asset A, the records unchanged
/// and held by it, and the booking of either leg after a settled payout
/// cannot fail.
pub fn withdraw_from_vault<'a>(
    ctx: &'a mut WithdrawFromVault,
    amount_of_token_a: u64,
    amount_of_token_b: u64,
) -> (r: Result<PendingWithdrawal<'a>, TokenSwapError>)
    ensures
        match old(ctx).check(amount_of_token_a, amount_of_token_b) {
            Ok(()) => r matches Ok(pending) && pending.leg == AssetKind::A && pending.amount_a
                == amount_of_token_a && pending.amount_b == amount_of_token_b && *pending.records
                == *old(ctx) && *final(ctx) == *final(pending.records),
            Err(e) => r matches Err(x) && x == e && *final(ctx) == *old(ctx),
        },
        r is Ok ==> old(ctx).after_leg(AssetKind::A, amount_of_token_a) is Ok && old(
            ctx,
        ).after_leg(AssetKind::A, amount_of_token_a)->Ok_0.after_leg(
            AssetKind::B,
            amount_of_token_b,
        ) is Ok,
{
    if amount_of_token_a > ctx.reserves.reserve_a {
        return Err(TokenSwapError::InsufficientTokenA);
    }
    if amount_of_token_b > ctx.reserves.reserve_b {
        return Err(TokenSwapError::InsufficientTokenB);
    }
    if amount_of_token_a > ctx.user_vault_state_a.amount {
        return Err(TokenSwapError::InsufficientBalance);
    }
    if amount_of_token_b > ctx.user_vault_state_b.amount {
        return Err(TokenSwapError::InsufficientBalance);
    }
    Ok(
        PendingWithdrawal {
            records: ctx,
            leg: AssetKind::A,
            amount_a: amount_of_token_a,
            amount_b: amount_of_token_b,
        },
    )
}

impl<'a> PendingWithdrawal<'a> {
    /// The amount of the leg that is awaited.
    pub open spec fn spec_amount(&self) -> u64 {
        match self.leg {
            AssetKind::A => self.amount_a,
            AssetKind::B => self.amount_b,
        }
    }

    /// The amount of the leg that is awaited.
    #[verifier::when_used_as_spec(spec_amount)]
    pub fn amount(&self) -> (r: u64)
        ensures
            r == self.spec_amount(),
    {
        match self.leg {
            AssetKind::A => self.amount_a,
            AssetKind::B => self.amount_b,
        }
    }

    /// The leg to ask of the ledger now: the payout of the awaited asset.
    pub fn payout_leg(&self) -> (r: TransferRequest)
        ensures
            r == outbound_leg(old(self.records).user, self.leg, self.amount()),
    {
        pay_out(self.records.user, self.leg, self.amount())
    }

    /// Books the awaited leg once the ledger has answered it.
    ///
    /// A rejected leg is `TransferFailed` with the ledger's reason. After a
    /// settled leg the tracked balance and the reserve of its asset both
    /// give the amount, or the error of the booking is returned. On any
    /// failure the records are left as the leg found them, and the
    /// withdrawal lets go of them. After the leg for asset A the withdrawal
    /// is pending on the leg for asset B; after that one it is done.
    pub fn settle_leg(self, outcome: TransferOutcome) -> (r: Result<
        Option<PendingWithdrawal<'a>>,
        TokenSwapError,
    >)
        ensures
            outcome matches TransferOutcome::Rejected(reason) ==> (r matches Err(e) && e
                == TokenSwapError::TransferFailed(reason) && *final(self.records) == *old(
                self.records,
            )),
            outcome == TransferOutcome::Settled ==> match old(self.records).after_leg(
                self.leg,
                self.amount(),
            ) {
                Ok(after) => match self.leg {
                    AssetKind::A => r matches Ok(Some(next)) && next.leg == AssetKind::B
                        && next.amount_a == self.amount_a && next.amount_b == self.amount_b
                        && *next.records == after && *final(self.records) == *final(next.records),
                    AssetKind::B => r matches Ok(None) && *final(self.records) == after,
                },
                Err(e) => r matches Err(x) && x == e && *final(self.records) == *old(
                    self.records,
                ),
            },
    {
        match outcome {
            TransferOutcome::Rejected(reason) => {
                return Err(TokenSwapError::TransferFailed(reason));
            },
            TransferOutcome::Settled => {},
        }
        let amount = self.amount();
        match book_leg(self.records, self.leg, amount) {
            Ok(()) => {},
            Err(e) => {
                return Err(e);
            },
        }
        match self.leg {
            AssetKind::A => Ok(
                Some(
                    PendingWithdrawal {
                        records: self.records,
                        leg: AssetKind::B,
                        amount_a: self.amount_a,
                        amount_b: self.amount_b,
                    },
                ),
            ),
            AssetKind::B => Ok(None),
        }
    }
}

/// A deposit withdrawn again in full restores the books. Let a deposit of
/// `amount` of `asset` have been booked, and let a withdrawal find the
/// reserve and the record as that deposit left them. Then the withdrawal of
/// `amount` of that asset, and of nothing of the other, is accepted, and
/// once its leg is booked the tracked amount and the reserve are what they
/// were before the deposit, while the other asset's reserve and record are
/// untouched throughout.
pub proof fn lemma_deposit_then_withdraw_restores(
    user: Pubkey,
    reserve: u64,
    record: Option<UserVaultState>,
    asset: AssetKind,
    amount: u64,
    found: WithdrawFromVault,
)
    requires
        deposit_result(user, reserve, record, amount, TransferOutcome::Settled) is Ok,
        found.reserves.reserve_of(asset) == deposit_result(
            user,
            reserve,
            record,
            amount,
            TransferOutcome::Settled,
        )->Ok_0.0,
        found.record_of(asset) == deposit_result(
            user,
            reserve,
            record,
            amount,
            TransferOutcome::Settled,
        )->Ok_0.1,
    ensures
        asset == AssetKind::A ==> found.check(amount, 0) is Ok,
        asset == AssetKind::B ==> found.check(0, amount) is Ok,
        found.after_leg(asset, amount) is Ok,
        found.after_leg(asset, amount)->Ok_0.record_of(asset).amount == tracked_amount(record),
        found.after_leg(asset, amount)->Ok_0.record_of(asset).owner == user,
        found.after_leg(asset, amount)->Ok_0.reserves.reserve_of(asset) == reserve,
        found.after_leg(asset, amount)->Ok_0.reserves.reserve_of(asset.other())
            == found.reserves.reserve_of(asset.other()),
        found.after_leg(asset, amount)->Ok_0.record_of(asset.other()) == found.record_of(
            asset.other(),
        ),
        found.after_leg(asset, amount)->Ok_0.after_leg(asset.other(), 0) == found.after_leg(
            asset,
            amount,
        ),
{
}

/// A booked payout keeps a record within its reserve: where the tracked
/// amount was covered by the reserve before, it is covered after.
pub proof fn lemma_withdraw_keeps_cover(found: WithdrawFromVault, asset: AssetKind, amount: u64)
    requires
        found.record_of(asset).amount <= found.reserves.reserve_of(asset),
        found.after_leg(asset, amount) is Ok,
    ensures
        found.after_leg(asset, amount)->Ok_0.record_of(asset).amount <= found.after_leg(
            asset,
            amount,
        )->Ok_0.reserves.reserve_of(asset),
{
}

} // verus!
