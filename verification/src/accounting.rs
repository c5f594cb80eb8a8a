//! Vault accounting: what each depositor has placed in the vault.
//!
//! A tracked balance is a receipt for the asset that was deposited. Swaps
//! move the reserves and leave every receipt as it is, so a receipt is
//! redeemed only as far as the reserve of its asset still covers it.

use vstd::prelude::*;
use anchor_lang::prelude::Pubkey;
use crate::error::TokenSwapError;

verus! {

/// The tracked balance of one depositor in one asset. Which asset that is
/// follows from where the record is kept.
#[derive(Clone, Copy, Debug, PartialEq, Eq)]
pub struct UserVaultState {
    pub owner: Pubkey,
    pub amount: u64,
}

impl UserVaultState {
    /// The record after a deposit of `amount`.
    pub open spec fn credited(self, amount: u64) -> Result<UserVaultState, TokenSwapError> {
        if self.amount + amount > u64::MAX {
            Err(TokenSwapError::Overflow)
        } else {
            Ok(UserVaultState { owner: self.owner, amount: (self.amount + amount) as u64 })
        }
    }

    /// The record after a withdrawal of `amount`.
    pub open spec fn debited(self, amount: u64) -> Result<UserVaultState, TokenSwapError> {
        if amount > self.amount {
            Err(TokenSwapError::InsufficientBalance)
        } else {
            Ok(UserVaultState { owner: self.owner, amount: (self.amount - amount) as u64 })
        }
    }

    /// A fresh record for `owner`, with nothing deposited.
    pub fn new(owner: Pubkey) -> (r: UserVaultState)
        ensures
            r == (UserVaultState { owner, amount: 0 }),
    {
        UserVaultState { owner, amount: 0 }
    }

    /// Adds `amount` to the tracked balance, or fails with `Overflow` and
    /// leaves the record as it was.
    pub fn deposit(&mut self, amount: u64) -> (r: Result<(), TokenSwapError>)
        ensures
            match old(self).credited(amount) {
                Ok(state) => r is Ok && *final(self) == state,
                Err(e) => r == Err::<(), TokenSwapError>(e) && *final(self) == *old(self),
            },
    {
        match self.amount.checked_add(amount) {
            Some(sum) => {
                self.amount = sum;
                Ok(())
            },
            None => Err(TokenSwapError::Overflow),
        }
    }

    /// Takes `amount` from the tracked balance, or fails with
    /// `InsufficientBalance` and leaves the record as it was.
    pub fn withdraw(&mut self, amount: u64) -> (r: Result<(), TokenSwapError>)
        ensures
            match old(self).debited(amount) {
                Ok(state) => r is Ok && *final(self) == state,
                Err(e) => r == Err::<(), TokenSwapError>(e) && *final(self) == *old(self),
            },
    {
        match self.amount.checked_sub(amount) {
            Some(rest) => {
                self.amount = rest;
                Ok(())
            },
            None => Err(TokenSwapError::InsufficientBalance),
        }
    }

    /// A deposit that succeeds can be withdrawn again in full, and the
    /// record is then what it was.
    pub proof fn lemma_deposit_then_withdraw(self, amount: u64)
        requires
            self.credited(amount) is Ok,
        ensures
            self.credited(amount)->Ok_0.debited(amount) == Ok::<UserVaultState, TokenSwapError>(
                self,
            ),
    {
    }
}

} // verus!
