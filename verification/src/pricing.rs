//! The pricing engine: constant-product swap amounts in integer arithmetic.

use vstd::prelude::*;
use vstd::arithmetic::div_mod::lemma_fundamental_div_mod;
use vstd::arithmetic::div_mod::lemma_mod_bound;
use vstd::arithmetic::div_mod::lemma_multiply_divide_le;
use vstd::arithmetic::div_mod::lemma_multiply_divide_lt;
use vstd::arithmetic::div_mod::lemma_div_multiples_vanish;
use vstd::arithmetic::div_mod::lemma_div_pos_is_pos;
use vstd::arithmetic::div_mod::lemma_div_is_ordered_by_denominator;
use crate::error::TokenSwapError;

verus! {

/// What the pool keeps of the output asset after a trade of `amount_in`:
/// the product of the reserves before the trade, divided by the input
/// reserve after it, rounded down.
pub open spec fn retained_amount(reserve_in: nat, reserve_out: nat, amount_in: nat) -> nat
    recommends
        reserve_in + amount_in > 0,
{
    ((reserve_in * reserve_out) / (reserve_in + amount_in)) as nat
}

/// What a trade of `amount_in` pays out: the output reserve less what the
/// pool keeps. A trade of nothing pays nothing, whatever the reserves.
pub open spec fn quote_amount(reserve_in: nat, reserve_out: nat, amount_in: nat) -> nat {
    if amount_in == 0 {
        0
    } else {
        (reserve_out - retained_amount(reserve_in, reserve_out, amount_in)) as nat
    }
}

/// What the division of the product of the reserves leaves over in a trade
/// of `amount_in`: zero where the trade involves no rounding.
pub open spec fn rounding_remainder(reserve_in: nat, reserve_out: nat, amount_in: nat) -> nat
    recommends
        reserve_in + amount_in > 0,
{
    ((reserve_in * reserve_out) % (reserve_in + amount_in)) as nat
}

/// The pool never keeps more of the output asset than it holds.
pub proof fn lemma_retained_within_reserve(reserve_in: nat, reserve_out: nat, amount_in: nat)
    requires
        reserve_in + amount_in > 0,
    ensures
        retained_amount(reserve_in, reserve_out, amount_in) <= reserve_out,
{
    let d = (reserve_in + amount_in) as int;
    let k = (reserve_in * reserve_out) as int;
    lemma_fundamental_div_mod(k, d);
    lemma_mod_bound(k, d);
    assert(0 <= k <= d * reserve_out) by (nonlinear_arith)
        requires
            k == reserve_in * reserve_out,
            d == reserve_in + amount_in,
    ;
    assert(k / d <= reserve_out) by (nonlinear_arith)
        requires
            d > 0,
            0 <= k <= d * reserve_out,
            k == d * (k / d) + k % d,
            0 <= k % d,
    ;
}

/// The product of two 64-bit reserves, in 128 bits.
pub fn amm_calculation(token_a_quantity: u64, token_b_quantity: u64) -> (r: Result<
    u128,
    TokenSwapError,
>)
    ensures
        token_a_quantity * token_b_quantity <= u128::MAX,
        r == Ok::<u128, TokenSwapError>((token_a_quantity * token_b_quantity) as u128),
{
    let token_a_128 = token_a_quantity as u128;
    let token_b_128 = token_b_quantity as u128;
    assert(token_a_128 * token_b_128 <= u128::MAX) by (nonlinear_arith)
        requires
            token_a_128 <= u64::MAX,
            token_b_128 <= u64::MAX,
    ;
    match token_a_128.checked_mul(token_b_128) {
        Some(x) => Ok(x),
        None => Err(TokenSwapError::CalculationOverflow),
    }
}

/// The amount of the output asset that `amount_in` buys from a pool holding
/// `reserve_in` and `reserve_out`.
///
/// Every step is checked, and one that left the range of its type would be
/// `CalculationOverflow`. For 64-bit amounts none of the checks can fire:
/// the call always succeeds with `quote_amount` of its arguments.
pub fn quote(reserve_in: u64, reserve_out: u64, amount_in: u64) -> (r: Result<u64, TokenSwapError>)
    ensures
        r == Ok::<u64, TokenSwapError>(
            quote_amount(reserve_in as nat, reserve_out as nat, amount_in as nat) as u64,
        ),
        quote_amount(reserve_in as nat, reserve_out as nat, amount_in as nat) <= reserve_out,
        amount_in == 0 ==> r == Ok::<u64, TokenSwapError>(0u64),
{
    if amount_in == 0 {
        return Ok(0);
    }
    let k = match amm_calculation(reserve_in, reserve_out) {
        Ok(k) => k,
        Err(e) => {
            return Err(e);
        },
    };
    let denominator = match (reserve_in as u128).checked_add(amount_in as u128) {
        Some(d) => d,
        None => {
            return Err(TokenSwapError::CalculationOverflow);
        },
    };
    let amount_out_before_floor = k / denominator;
    proof {
        lemma_retained_within_reserve(reserve_in as nat, reserve_out as nat, amount_in as nat);
    }
    let amount_out = match (reserve_out as u128).checked_sub(amount_out_before_floor) {
        Some(x) => x,
        None => {
            return Err(TokenSwapError::CalculationOverflow);
        },
    };
    match u64::try_from(amount_out) {
        Ok(x) => Ok(x),
        Err(_) => Err(TokenSwapError::CalculationOverflow),
    }
}

/// The payout times the input reserve after the trade is the output reserve
/// times the amount paid in, plus what the division of the product left over.
proof fn lemma_quote_scaled(reserve_in: nat, reserve_out: nat, amount_in: nat)
    requires
        amount_in > 0,
    ensures
        quote_amount(reserve_in, reserve_out, amount_in) * (reserve_in + amount_in) == reserve_out
            * amount_in + rounding_remainder(reserve_in, reserve_out, amount_in),
        rounding_remainder(reserve_in, reserve_out, amount_in) < reserve_in + amount_in,
        retained_amount(reserve_in, reserve_out, amount_in) * (reserve_in + amount_in)
            + rounding_remainder(reserve_in, reserve_out, amount_in) == reserve_in * reserve_out,
        retained_amount(reserve_in, reserve_out, amount_in) + quote_amount(
            reserve_in,
            reserve_out,
            amount_in,
        ) == reserve_out,
{
    let d = (reserve_in + amount_in) as int;
    let k = (reserve_in * reserve_out) as int;
    let q = k / d;
    let rem = k % d;
    lemma_fundamental_div_mod(k, d);
    lemma_mod_bound(k, d);
    lemma_retained_within_reserve(reserve_in, reserve_out, amount_in);
    assert(0 <= q) by (nonlinear_arith)
        requires
            d > 0,
            k >= 0,
            k == d * q + rem,
            rem < d,
    ;
    assert((reserve_out - q) * d == reserve_out * amount_in + rem) by (nonlinear_arith)
        requires
            k == reserve_in * reserve_out,
            d == reserve_in + amount_in,
            k == d * q + rem,
    ;
    assert(q * d == d * q) by (nonlinear_arith);
}

/// A larger input never buys less.
pub proof fn lemma_quote_monotonic(reserve_in: nat, reserve_out: nat, smaller: nat, larger: nat)
    requires
        smaller <= larger,
    ensures
        quote_amount(reserve_in, reserve_out, smaller) <= quote_amount(
            reserve_in,
            reserve_out,
            larger,
        ),
{
    if smaller > 0 {
        let k = (reserve_in * reserve_out) as int;
        lemma_retained_within_reserve(reserve_in, reserve_out, smaller);
        lemma_retained_within_reserve(reserve_in, reserve_out, larger);
        assert(k >= 0) by (nonlinear_arith)
            requires
                k == reserve_in * reserve_out,
        ;
        lemma_div_is_ordered_by_denominator(
            k,
            (reserve_in + smaller) as int,
            (reserve_in + larger) as int,
        );
    }
}

/// For all reserves and amounts, the price per unit paid in at the larger
/// amount is above the price at the smaller one by less than one unit of
/// output: with `p` and `q` the payouts for `smaller` and `larger`,
/// `(q - 1) / larger < p / smaller`.
pub proof fn lemma_quote_unit_price_bound(
    reserve_in: nat,
    reserve_out: nat,
    smaller: nat,
    larger: nat,
)
    requires
        0 < smaller <= larger,
    ensures
        quote_amount(reserve_in, reserve_out, larger) * smaller < quote_amount(
            reserve_in,
            reserve_out,
            smaller,
        ) * larger + smaller,
{
    let d1 = (reserve_in + smaller) as int;
    let d2 = (reserve_in + larger) as int;
    let p = quote_amount(reserve_in, reserve_out, smaller) as int;
    let q = quote_amount(reserve_in, reserve_out, larger) as int;
    let r1 = rounding_remainder(reserve_in, reserve_out, smaller) as int;
    let r2 = rounding_remainder(reserve_in, reserve_out, larger) as int;
    lemma_quote_scaled(reserve_in, reserve_out, smaller);
    lemma_quote_scaled(reserve_in, reserve_out, larger);
    let common = reserve_out * smaller * larger;
    assert((q * smaller) * (d1 * d2) == (q * d2) * (smaller * d1)) by (nonlinear_arith);
    assert((p * larger + smaller) * (d1 * d2) == (p * d1) * (larger * d2) + smaller * d1 * d2)
        by (nonlinear_arith);
    assert((reserve_out * larger + r2) * (smaller * d1) < common * d1 + smaller * d1 * d2)
        by (nonlinear_arith)
        requires
            common == reserve_out * smaller * larger,
            0 <= r2 < d2,
            smaller > 0,
            d1 > 0,
    ;
    assert(common * d1 <= (reserve_out * smaller + r1) * (larger * d2)) by (nonlinear_arith)
        requires
            common == reserve_out * smaller * larger,
            0 <= r1,
            0 < d1 <= d2,
            larger > 0,
    ;
    assert(q * smaller < p * larger + smaller) by (nonlinear_arith)
        requires
            (q * smaller) * (d1 * d2) < (p * larger + smaller) * (d1 * d2),
            d1 > 0,
            d2 > 0,
    ;
}

/// Diminishing returns, and where they hold. The price per unit paid in at
/// the larger amount is at most the price at the smaller one exactly where
/// the rounding of the larger trade does not outweigh the rounding of the
/// smaller trade and the fall of the unrounded price; so it is wherever the
/// larger trade involves no rounding.
pub proof fn lemma_quote_diminishing_returns(
    reserve_in: nat,
    reserve_out: nat,
    smaller: nat,
    larger: nat,
)
    requires
        0 < smaller <= larger,
    ensures
        ({
            let price_falls = quote_amount(reserve_in, reserve_out, larger) * smaller
                <= quote_amount(reserve_in, reserve_out, smaller) * larger;
            let left_smaller = rounding_remainder(reserve_in, reserve_out, smaller);
            let left_larger = rounding_remainder(reserve_in, reserve_out, larger);
            &&& price_falls <==> left_larger * smaller * (reserve_in + smaller) <= left_smaller
                * larger * (reserve_in + larger) + reserve_out * smaller * larger * (larger
                - smaller)
            &&& left_larger == 0 ==> price_falls
        }),
{
    let d1 = (reserve_in + smaller) as int;
    let d2 = (reserve_in + larger) as int;
    let p = quote_amount(reserve_in, reserve_out, smaller) as int;
    let q = quote_amount(reserve_in, reserve_out, larger) as int;
    let r1 = rounding_remainder(reserve_in, reserve_out, smaller) as int;
    let r2 = rounding_remainder(reserve_in, reserve_out, larger) as int;
    lemma_quote_scaled(reserve_in, reserve_out, smaller);
    lemma_quote_scaled(reserve_in, reserve_out, larger);
    let common = reserve_out * smaller * larger;
    let gap = (larger - smaller) as int;
    let scaled_q = (q * smaller) * (d1 * d2);
    let scaled_p = (p * larger) * (d1 * d2);
    assert(scaled_q == (q * d2) * (smaller * d1)) by (nonlinear_arith)
        requires
            scaled_q == (q * smaller) * (d1 * d2),
    ;
    assert(scaled_p == (p * d1) * (larger * d2)) by (nonlinear_arith)
        requires
            scaled_p == (p * larger) * (d1 * d2),
    ;
    assert((reserve_out * larger + r2) * (smaller * d1) == common * d1 + r2 * smaller * d1)
        by (nonlinear_arith)
        requires
            common == reserve_out * smaller * larger,
    ;
    assert((reserve_out * smaller + r1) * (larger * d2) == common * d1 + common * gap + r1 * larger
        * d2) by (nonlinear_arith)
        requires
            common == reserve_out * smaller * larger,
            d2 == d1 + gap,
    ;
    assert(scaled_q <= scaled_p <==> r2 * smaller * d1 <= r1 * larger * d2 + common * gap);
    assert(q * smaller <= p * larger <==> scaled_q <= scaled_p) by (nonlinear_arith)
        requires
            scaled_q == (q * smaller) * (d1 * d2),
            scaled_p == (p * larger) * (d1 * d2),
            d1 > 0,
            d2 > 0,
    ;
    assert(0 <= r1 * larger * d2 + common * gap) by (nonlinear_arith)
        requires
            0 <= r1,
            0 < larger,
            0 < d2,
            0 <= common,
            0 <= gap,
    ;
    assert(r2 == 0 ==> r2 * smaller * d1 == 0) by (nonlinear_arith);
}

/// The product of the reserves after a trade is the product before it, less
/// what the division left over: never more, and less by under one input
/// reserve.
pub proof fn lemma_product_after_trade(reserve_in: nat, reserve_out: nat, amount_in: nat)
    requires
        amount_in > 0,
    ensures
        quote_amount(reserve_in, reserve_out, amount_in) <= reserve_out,
        (reserve_in + amount_in) * (reserve_out - quote_amount(reserve_in, reserve_out, amount_in))
            <= reserve_in * reserve_out,
        reserve_in * reserve_out < (reserve_in + amount_in) * (reserve_out - quote_amount(
            reserve_in,
            reserve_out,
            amount_in,
        )) + (reserve_in + amount_in),
{
    lemma_quote_scaled(reserve_in, reserve_out, amount_in);
    let d = (reserve_in + amount_in) as int;
    let kept = retained_amount(reserve_in, reserve_out, amount_in) as int;
    assert(d * kept == kept * d) by (nonlinear_arith);
}

/// What comes back when the payout of a trade is traded back at once:
/// `amount` of the first asset buys a payout of the second, the reserves move
/// by both, and that payout then buys the first asset again.
pub open spec fn round_trip_return(reserve_a: nat, reserve_b: nat, amount: nat) -> nat {
    let paid = quote_amount(reserve_a, reserve_b, amount);
    quote_amount((reserve_b - paid) as nat, reserve_a + amount, paid)
}

/// What a round trip returns, case by case: nothing where nothing was paid
/// out, and else the input reserve after the first trade less what the pool
/// keeps of it in the second.
proof fn lemma_round_trip_unfolded(reserve_a: nat, reserve_b: nat, amount: nat)
    requires
        amount > 0,
        reserve_b > 0,
    ensures
        quote_amount(reserve_a, reserve_b, amount) > 0,
        round_trip_return(reserve_a, reserve_b, amount) == reserve_a + amount - (retained_amount(
            reserve_a,
            reserve_b,
            amount,
        ) * (reserve_a + amount)) / reserve_b,
        0 <= (retained_amount(reserve_a, reserve_b, amount) * (reserve_a + amount)) / reserve_b
            <= reserve_a,
{
    let d = reserve_a + amount;
    let kept = retained_amount(reserve_a, reserve_b, amount);
    let paid = quote_amount(reserve_a, reserve_b, amount);
    let rem = rounding_remainder(reserve_a, reserve_b, amount);
    lemma_quote_scaled(reserve_a, reserve_b, amount);
    assert(paid > 0) by (nonlinear_arith)
        requires
            paid * d == reserve_b * amount + rem,
            rem >= 0,
            reserve_b > 0,
            amount > 0,
            d > 0,
    ;
    assert((reserve_b - paid) as nat == kept);
    assert(kept + paid == reserve_b);
    assert(retained_amount(kept, d, paid) == ((kept * d) / reserve_b) as nat);
    lemma_retained_within_reserve(kept, d, paid);
    assert(0 <= kept * d <= (reserve_b as int) * reserve_a) by (nonlinear_arith)
        requires
            kept * d + rem == reserve_a * reserve_b,
            rem >= 0,
            0 <= kept,
            0 <= d,
    ;
    lemma_multiply_divide_le((kept * d) as int, reserve_b as int, reserve_a as int);
    lemma_div_pos_is_pos((kept * d) as int, reserve_b as int);
}

/// A round trip returns no more than was paid in wherever the first trade
/// involves no rounding: the amount is zero, the other reserve is empty, or
/// the input reserve after the trade divides the product of the reserves.
pub proof fn lemma_round_trip_without_rounding(reserve_a: nat, reserve_b: nat, amount: nat)
    requires
        amount == 0 || reserve_b == 0 || rounding_remainder(reserve_a, reserve_b, amount) == 0,
    ensures
        round_trip_return(reserve_a, reserve_b, amount) <= amount,
{
    if amount > 0 {
        if reserve_b == 0 {
            lemma_retained_within_reserve(reserve_a, reserve_b, amount);
        } else {
            let d = reserve_a + amount;
            let kept = retained_amount(reserve_a, reserve_b, amount);
            lemma_quote_scaled(reserve_a, reserve_b, amount);
            lemma_round_trip_unfolded(reserve_a, reserve_b, amount);
            assert(kept * d == (reserve_b as int) * (reserve_a as int)) by (nonlinear_arith)
                requires
                    kept * d == reserve_a * reserve_b,
            ;
            lemma_div_multiples_vanish(reserve_a as int, reserve_b as int);
        }
    }
}

/// Rounding is in the trader's favour: wherever the first trade of a round
/// trip is rounded, the round trip returns more than was paid in.
pub proof fn lemma_round_trip_with_rounding(reserve_a: nat, reserve_b: nat, amount: nat)
    requires
        amount > 0,
        reserve_b > 0,
        rounding_remainder(reserve_a, reserve_b, amount) != 0,
    ensures
        round_trip_return(reserve_a, reserve_b, amount) > amount,
{
    let d = reserve_a + amount;
    let kept = retained_amount(reserve_a, reserve_b, amount);
    let rem = rounding_remainder(reserve_a, reserve_b, amount);
    lemma_quote_scaled(reserve_a, reserve_b, amount);
    lemma_round_trip_unfolded(reserve_a, reserve_b, amount);
    assert(kept * d < (reserve_b as int) * (reserve_a as int)) by (nonlinear_arith)
        requires
            kept * d + rem == reserve_a * reserve_b,
            rem > 0,
    ;
    lemma_multiply_divide_lt((kept * d) as int, reserve_b as int, reserve_a as int);
}

} // verus!
