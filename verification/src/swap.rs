//! Swaps: price the trade on the reserves as they stand, take the input
//! into escrow, move the reserves, pay the output.

use vstd::prelude::*;
use anchor_lang::prelude::Pubkey;
use crate::error::TokenSwapError;
use crate::ledger::inbound_leg;
use crate::ledger::outbound_leg;
use crate::ledger::pay_in;
use crate::ledger::pay_out;
use crate::ledger::AssetKind;
use crate::ledger::TransferOutcome;
use crate::ledger::TransferRequest;
use crate::pricing::quote;
use crate::pricing::quote_amount;
use crate::reserves::ReservePair;

verus! {

/// What one swap moves: `amount_in` of `asset_in` into the pool, and
/// `amount_out` of the other asset out of it.
#[derive(Clone, Copy, Debug, PartialEq, Eq, Structural)]
pub struct SwapQuote {
    pub asset_in: AssetKind,
    pub amount_in: u64,
    pub amount_out: u64,
}

impl SwapQuote {
    /// The reserves once the swap is booked: the input reserve takes
    /// `amount_in`, the output reserve gives `amount_out`, both or neither.
    pub open spec fn applied_to(self, reserves: ReservePair) -> Result<
        ReservePair,
        TokenSwapError,
    > {
        match self.asset_in {
            AssetKind::A => reserves.after_delta(
                self.amount_in as i128,
                (-(self.amount_out as int)) as i128,
            ),
            AssetKind::B => reserves.after_delta(
                (-(self.amount_out as int)) as i128,
                self.amount_in as i128,
            ),
        }
    }
}

/// The swap that `amount_in` of `asset_in` buys on `reserves`: the payout
/// is the pricing engine's, and the swap is refused with `Overflow` where
/// the input reserve cannot take the amount.
pub open spec fn swap_plan(reserves: ReservePair, asset_in: AssetKind, amount_in: u64) -> Result<
    SwapQuote,
    TokenSwapError,
> {
    if reserves.reserve_of(asset_in) + amount_in > u64::MAX {
        Err(TokenSwapError::Overflow)
    } else {
        Ok(
            SwapQuote {
                asset_in,
                amount_in,
                amount_out: quote_amount(
                    reserves.reserve_of(asset_in) as nat,
                    reserves.reserve_of(asset_in.other()) as nat,
                    amount_in as nat,
                ) as u64,
            },
        )
    }
}

/// The records that one swap touches: the trader and the reserves of the
/// pair.
#[derive(Clone, Copy, Debug, PartialEq, Eq)]
pub struct TokenSwap {
    pub user: Pubkey,
    pub reserves: ReservePair,
}

/// A swap that has been priced and awaits the ledger's answer to its
/// inbound leg. It holds the records for itself until that answer is
/// booked, so that no other operation can read or move the reserves in
/// between.
#[derive(Debug)]
pub struct PendingSwap<'a> {
    pub records: &'a mut TokenSwap,
    pub quote: SwapQuote,
}

/// Prices a swap on the reserves as they stand and checks that they can
/// book it. Nothing is changed, and no transfer has been asked for yet.
fn plan_swap<'a>(ctx: &'a mut TokenSwap, asset_in: AssetKind, amount_in: u64) -> (r: Result<
    PendingSwap<'a>,
    TokenSwapError,
>)
    ensures
        match swap_plan(old(ctx).reserves, asset_in, amount_in) {
            Ok(q) => r matches Ok(pending) && pending.quote == q && *pending.records == *old(ctx)
                && *final(ctx) == *final(pending.records),
            Err(e) => r matches Err(x) && x == e && *final(ctx) == *old(ctx),
        },
        r matches Ok(pending) ==> pending.quote.amount_out <= old(ctx).reserves.reserve_of(
            asset_in.other(),
        ) && pending.quote.applied_to(old(ctx).reserves) is Ok,
{
    let reserve_in = ctx.reserves.reserve_of(asset_in);
    let reserve_out = ctx.reserves.reserve_of(asset_in.other());
    let amount_out = match quote(reserve_in, reserve_out, amount_in) {
        Ok(x) => x,
        Err(e) => {
            return Err(e);
        },
    };
    // The engine never quotes more than the reserve holds; the guard stays
    // in front of the first transfer all the same.
    if amount_out > reserve_out {
        return Err(
            match asset_in {
                AssetKind::A => TokenSwapError::InsufficientTokenB,
                AssetKind::B => TokenSwapError::InsufficientTokenA,
            },
        );
    }
    let planned = SwapQuote { asset_in, amount_in, amount_out };
    let mut after = ctx.reserves;
    match book_swap(&mut after, &planned) {
        Ok(()) => Ok(PendingSwap { records: ctx, quote: planned }),
        Err(e) => Err(e),
    }
}

/// Moves the reserves by one swap, both sides or neither.
fn book_swap(reserves: &mut ReservePair, planned: &SwapQuote) -> (r: Result<(), TokenSwapError>)
    ensures
        match planned.applied_to(*old(reserves)) {
            Ok(pair) => r is Ok && *final(reserves) == pair,
            Err(e) => r == Err::<(), TokenSwapError>(e) && *final(reserves) == *old(reserves),
        },
{
    let credit = planned.amount_in as i128;
    let debit = -(planned.amount_out as i128);
    match planned.asset_in {
        AssetKind::A => reserves.apply_delta(credit, debit),
        AssetKind::B => reserves.apply_delta(debit, credit),
    }
}

/// Begins a swap of `amount_of_token_a` of asset A for asset B.
///
/// The swap is priced on the reserves as they stand. It is refused with
/// `Overflow`, before any transfer is asked for, where the reserve of A
/// cannot take the amount; else it is pending, the records unchanged and
/// held by it, and its booking after a settled inbound leg cannot fail.
pub fn swap_a_for_b<'a>(ctx: &'a mut TokenSwap, amount_of_token_a: u64) -> (r: Result<
    PendingSwap<'a>,
    TokenSwapError,
>)
    ensures
        match swap_plan(old(ctx).reserves, AssetKind::A, amount_of_token_a) {
            Ok(q) => r matches Ok(pending) && pending.quote == q && *pending.records == *old(ctx)
                && *final(ctx) == *final(pending.records),
            Err(e) => r matches Err(x) && x == e && *final(ctx) == *old(ctx),
        },
        r is Err <==> old(ctx).reserves.reserve_a + amount_of_token_a > u64::MAX,
        r matches Ok(pending) ==> pending.quote.amount_out <= old(ctx).reserves.reserve_b
            && pending.quote.applied_to(old(ctx).reserves) is Ok,
{
    plan_swap(ctx, AssetKind::A, amount_of_token_a)
}

/// Begins a swap of `amount_of_token_b` of asset B for asset A.
///
/// The swap is priced on the reserves as they stand. It is refused with
/// `Overflow`, before any transfer is asked for, where the reserve of B
/// cannot take the amount; else it is pending, the records unchanged and
/// held by it, and its booking after a settled inbound leg cannot fail.
pub fn swap_b_for_a<'a>(ctx: &'a mut TokenSwap, amount_of_token_b: u64) -> (r: Result<
    PendingSwap<'a>,
    TokenSwapError,
>)
    ensures
        match swap_plan(old(ctx).reserves, AssetKind::B, amount_of_token_b) {
            Ok(q) => r matches Ok(pending) && pending.quote == q && *pending.records == *old(ctx)
                && *final(ctx) == *final(pending.records),
            Err(e) => r matches Err(x) && x == e && *final(ctx) == *old(ctx),
        },
        r is Err <==> old(ctx).reserves.reserve_b + amount_of_token_b > u64::MAX,
        r matches Ok(pending) ==> pending.quote.amount_out <= old(ctx).reserves.reserve_a
            && pending.quote.applied_to(old(ctx).reserves) is Ok,
{
    plan_swap(ctx, AssetKind::B, amount_of_token_b)
}

impl<'a> PendingSwap<'a> {
    /// What the swap will move.
    pub fn quote(&self) -> (r: SwapQuote)
        ensures
            r == self.quote,
    {
        self.quote
    }

    /// The leg that brings the trader's input into escrow. It is the first
    /// thing to ask of the ledger.
    pub fn inbound_leg(&self) -> (r: TransferRequest)
        ensures
            r == inbound_leg(old(self.records).user, self.quote.asset_in, self.quote.amount_in),
    {
        pay_in(self.records.user, self.quote.asset_in, self.quote.amount_in)
    }

    /// Books the swap once the ledger has answered its inbound leg, and
    /// names the leg that pays the trader out of escrow.
    ///
    /// A rejected leg is `TransferFailed` with the ledger's reason. After a
    /// settled leg the reserves move by the swap, or the error of the reserve ledger is returned. On
    /// any failure the records are left as they were. Either way the swap
    /// lets go of the records.
    pub fn settle_inbound(self, inbound: TransferOutcome) -> (r: Result<
        TransferRequest,
        TokenSwapError,
    >)
        ensures
            final(self.records).user == old(self.records).user,
            inbound matches TransferOutcome::Rejected(reason) ==> r == Err::<
                TransferRequest,
                TokenSwapError,
            >(TokenSwapError::TransferFailed(reason)) && *final(self.records) == *old(
                self.records,
            ),
            inbound == TransferOutcome::Settled ==> match self.quote.applied_to(
                old(self.records).reserves,
            ) {
                Ok(pair) => final(self.records).reserves == pair && r == Ok::<
                    TransferRequest,
                    TokenSwapError,
                >(
                    outbound_leg(
                        old(self.records).user,
                        self.quote.asset_in.other(),
                        self.quote.amount_out,
                    ),
                ),
                Err(e) => r == Err::<TransferRequest, TokenSwapError>(e) && *final(self.records)
                    == *old(self.records),
            },
    {
        match inbound {
            TransferOutcome::Rejected(reason) => {
                return Err(TokenSwapError::TransferFailed(reason));
            },
            TransferOutcome::Settled => {},
        }
        let mut reserves = self.records.reserves;
        match book_swap(&mut reserves, &self.quote) {
            Ok(()) => {},
            Err(e) => {
                return Err(e);
            },
        }
        self.records.reserves = reserves;
        Ok(pay_out(self.records.user, self.quote.asset_in.other(), self.quote.amount_out))
    }
}

} // verus!
