//! Opening the escrow of each asset.

use vstd::prelude::*;
use crate::error::TokenSwapError;

verus! {

/// An escrow slot after it has been opened: what it held, or an empty
/// reserve where there was none.
pub open spec fn opened(slot: Option<u64>) -> Option<u64> {
    match slot {
        Some(reserve) => Some(reserve),
        None => Some(0u64),
    }
}

/// The escrow of asset A as one opening finds it: its reserve, or nothing
/// where it has not been opened yet.
#[derive(Clone, Copy, Debug, PartialEq, Eq)]
pub struct InitializeVaultTokenA {
    pub vault_token_account: Option<u64>,
}

/// The escrow of asset B as one opening finds it.
#[derive(Clone, Copy, Debug, PartialEq, Eq)]
pub struct InitializeVaultTokenB {
    pub vault_token_account: Option<u64>,
}

/// Opens the escrow of asset A with an empty reserve, unless it is open
/// already: then it is left as it is.
pub fn initialize_vault_token_a(ctx: &mut InitializeVaultTokenA) -> (r: Result<(), TokenSwapError>)
    ensures
        r is Ok,
        final(ctx).vault_token_account == opened(old(ctx).vault_token_account),
{
    if ctx.vault_token_account.is_none() {
        ctx.vault_token_account = Some(0);
    }
    Ok(())
}

/// Opens the escrow of asset B with an empty reserve, unless it is open
/// already: then it is left as it is.
pub fn initialize_vault_token_b(ctx: &mut InitializeVaultTokenB) -> (r: Result<(), TokenSwapError>)
    ensures
        r is Ok,
        final(ctx).vault_token_account == opened(old(ctx).vault_token_account),
{
    if ctx.vault_token_account.is_none() {
        ctx.vault_token_account = Some(0);
    }
    Ok(())
}

/// Opening is idempotent: a second opening changes nothing.
pub proof fn lemma_opening_is_idempotent(slot: Option<u64>)
    ensures
        opened(opened(slot)) == opened(slot),
        opened(slot) is Some,
        slot is Some ==> opened(slot) == slot,
{
}

} // verus!
