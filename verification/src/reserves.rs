//! The reserve ledger: the pooled amounts of the two assets of one pair.

use vstd::prelude::*;
use crate::error::TokenSwapError;
use crate::ledger::AssetKind;

verus! {

/// What a reserve becomes when `delta` is added to it: the sum where it is
/// a `u64`, `Overflow` where it is above, `Underflow` where it is below.
pub open spec fn shifted(reserve: u64, delta: i128) -> Result<u64, TokenSwapError> {
    if reserve + delta > u64::MAX {
        Err(TokenSwapError::Overflow)
    } else if reserve + delta < 0 {
        Err(TokenSwapError::Underflow)
    } else {
        Ok((reserve + delta) as u64)
    }
}

/// Adds a signed amount to one reserve, refusing a result outside `u64`.
pub fn shift_reserve(reserve: u64, delta: i128) -> (r: Result<u64, TokenSwapError>)
    ensures
        r == shifted(reserve, delta),
{
    let sum = match (reserve as i128).checked_add(delta) {
        Some(s) => s,
        None => {
            return Err(TokenSwapError::Overflow);
        },
    };
    if sum < 0 {
        return Err(TokenSwapError::Underflow);
    }
    match u64::try_from(sum) {
        Ok(x) => Ok(x),
        Err(_) => Err(TokenSwapError::Overflow),
    }
}

/// The two escrow reserves of one trading pair.
#[derive(Clone, Copy, Debug, PartialEq, Eq, Structural)]
pub struct ReservePair {
    pub reserve_a: u64,
    pub reserve_b: u64,
}

impl ReservePair {
    /// The reserve of one asset.
    pub open spec fn spec_reserve_of(&self, asset: AssetKind) -> u64 {
        match asset {
            AssetKind::A => self.reserve_a,
            AssetKind::B => self.reserve_b,
        }
    }

    /// The pair after both deltas, or the error of the first reserve, A
    /// before B, that would leave the range of `u64`.
    pub open spec fn after_delta(self, delta_a: i128, delta_b: i128) -> Result<
        ReservePair,
        TokenSwapError,
    > {
        match shifted(self.reserve_a, delta_a) {
            Err(e) => Err(e),
            Ok(a) => match shifted(self.reserve_b, delta_b) {
                Err(e) => Err(e),
                Ok(b) => Ok(ReservePair { reserve_a: a, reserve_b: b }),
            },
        }
    }

    /// A pair with the given reserves.
    pub fn new(reserve_a: u64, reserve_b: u64) -> (r: ReservePair)
        ensures
            r == (ReservePair { reserve_a, reserve_b }),
    {
        ReservePair { reserve_a, reserve_b }
    }

    /// Both reserves, A first.
    pub fn current_reserves(&self) -> (r: (u64, u64))
        ensures
            r == (self.reserve_a, self.reserve_b),
    {
        (self.reserve_a, self.reserve_b)
    }

    /// The reserve of one asset.
    #[verifier::when_used_as_spec(spec_reserve_of)]
    pub fn reserve_of(&self, asset: AssetKind) -> (r: u64)
        ensures
            r == self.spec_reserve_of(asset),
    {
        match asset {
            AssetKind::A => self.reserve_a,
            AssetKind::B => self.reserve_b,
        }
    }

    /// Applies both deltas or neither.
    pub fn apply_delta(&mut self, delta_a: i128, delta_b: i128) -> (r: Result<(), TokenSwapError>)
        ensures
            match old(self).after_delta(delta_a, delta_b) {
                Ok(pair) => r is Ok && *final(self) == pair,
                Err(e) => r == Err::<(), TokenSwapError>(e) && *final(self) == *old(self),
            },
    {
        let a = match shift_reserve(self.reserve_a, delta_a) {
            Ok(a) => a,
            Err(e) => {
                return Err(e);
            },
        };
        let b = match shift_reserve(self.reserve_b, delta_b) {
            Ok(b) => b,
            Err(e) => {
                return Err(e);
            },
        };
        self.reserve_a = a;
        self.reserve_b = b;
        Ok(())
    }

    /// The product of the two reserves always fits in 128 bits.
    pub proof fn lemma_product_fits(self)
        ensures
            self.reserve_a * self.reserve_b <= u128::MAX,
    {
        assert(self.reserve_a * self.reserve_b <= u128::MAX) by (nonlinear_arith)
            requires
                self.reserve_a <= u64::MAX,
                self.reserve_b <= u64::MAX,
        ;
    }

    /// A delta taken back restores the pair.
    pub proof fn lemma_delta_undone(self, delta_a: i128, delta_b: i128)
        requires
            self.after_delta(delta_a, delta_b) is Ok,
        ensures
            self.after_delta(delta_a, delta_b)->Ok_0.after_delta(
                (-delta_a) as i128,
                (-delta_b) as i128,
            ) == Ok::<ReservePair, TokenSwapError>(self),
    {
    }
}

} // verus!
