//! The face the vault shows to the asset ledger: which transfer it asks for,
//! and what the ledger answered. The ledger itself is outside this library;
//! whoever runs an operation carries each request to it and brings the
//! answer back.

use vstd::prelude::*;
use anchor_lang::prelude::Pubkey;
use crate::error::TokenSwapError;
use crate::error::TransferError;

verus! {

/// `anchor_lang::prelude::Pubkey`, the 32-byte address that names a principal.
/// Nothing is claimed of it: the library stores and hands on such a value and
/// never looks inside.
#[verifier::external_type_specification]
#[verifier::external_body]
pub struct ExPubkey(Pubkey);

/// One of the two assets of a trading pair.
#[derive(Clone, Copy, Debug, PartialEq, Eq, Structural)]
pub enum AssetKind {
    A,
    B,
}

impl AssetKind {
    /// The other asset of the pair.
    pub open spec fn spec_other(self) -> AssetKind {
        match self {
            AssetKind::A => AssetKind::B,
            AssetKind::B => AssetKind::A,
        }
    }

    /// The other asset of the pair.
    #[verifier::when_used_as_spec(spec_other)]
    pub fn other(self) -> (r: AssetKind)
        ensures
            r == self.spec_other(),
    {
        match self {
            AssetKind::A => AssetKind::B,
            AssetKind::B => AssetKind::A,
        }
    }
}

/// Who holds the units that a transfer moves.
#[derive(Clone, Copy, Debug, PartialEq, Eq)]
pub enum Holder {
    /// A principal's own holding of the asset.
    User(Pubkey),
    /// The pool's escrow of the asset.
    Vault,
}

/// Whose authority a transfer is presented under.
#[derive(Clone, Copy, Debug, PartialEq, Eq, Structural)]
pub enum Authority {
    /// The signature of the principal who pays.
    User,
    /// The vault's own custodial authority over its escrow.
    Vault,
}

/// One transfer asked of the asset ledger.
#[derive(Clone, Copy, Debug, PartialEq, Eq)]
pub struct TransferRequest {
    pub from: Holder,
    pub to: Holder,
    pub asset: AssetKind,
    pub amount: u64,
    pub authority: Authority,
}

/// What the asset ledger answered to one request.
#[derive(Clone, Copy, Debug, PartialEq, Eq, Structural)]
pub enum TransferOutcome {
    /// The units have moved.
    Settled,
    /// The ledger refused, for the reason given; nothing moved.
    Rejected(TransferError),
}

/// The transfer that pays `amount` of `asset` from `user` into escrow, under
/// the user's own authority.
pub open spec fn inbound_leg(user: Pubkey, asset: AssetKind, amount: u64) -> TransferRequest {
    TransferRequest {
        from: Holder::User(user),
        to: Holder::Vault,
        asset,
        amount,
        authority: Authority::User,
    }
}

/// The transfer that pays `amount` of `asset` out of escrow to `user`, under
/// the vault's authority.
pub open spec fn outbound_leg(user: Pubkey, asset: AssetKind, amount: u64) -> TransferRequest {
    TransferRequest {
        from: Holder::Vault,
        to: Holder::User(user),
        asset,
        amount,
        authority: Authority::Vault,
    }
}

/// Builds the leg that brings `amount` of `asset` into escrow.
pub fn pay_in(user: Pubkey, asset: AssetKind, amount: u64) -> (r: TransferRequest)
    ensures
        r == inbound_leg(user, asset, amount),
{
    TransferRequest {
        from: Holder::User(user),
        to: Holder::Vault,
        asset,
        amount,
        authority: Authority::User,
    }
}

/// Builds the leg that pays `amount` of `asset` out of escrow.
pub fn pay_out(user: Pubkey, asset: AssetKind, amount: u64) -> (r: TransferRequest)
    ensures
        r == outbound_leg(user, asset, amount),
{
    TransferRequest {
        from: Holder::Vault,
        to: Holder::User(user),
        asset,
        amount,
        authority: Authority::Vault,
    }
}

/// The transfer that brings `amount` of asset A from `user` into escrow.
pub fn deposit_to_vault_token_a(user: Pubkey, amount: u64) -> (r: TransferRequest)
    ensures
        r == inbound_leg(user, AssetKind::A, amount),
{
    pay_in(user, AssetKind::A, amount)
}

/// The transfer that brings `amount` of asset B from `user` into escrow.
pub fn deposit_to_vault_token_b(user: Pubkey, amount: u64) -> (r: TransferRequest)
    ensures
        r == inbound_leg(user, AssetKind::B, amount),
{
    pay_in(user, AssetKind::B, amount)
}

/// Closes a leg after which nothing is left to record: a settled leg ends
/// the operation well, and a refusal by the ledger is the operation's
/// failure, with the ledger's reason unchanged.
pub fn acknowledge(outcome: TransferOutcome) -> (r: Result<(), TokenSwapError>)
    ensures
        outcome == TransferOutcome::Settled ==> r == Ok::<(), TokenSwapError>(()),
        outcome matches TransferOutcome::Rejected(reason) ==> r == Err::<(), TokenSwapError>(
            TokenSwapError::TransferFailed(reason),
        ),
{
    match outcome {
        TransferOutcome::Settled => Ok(()),
        TransferOutcome::Rejected(reason) => Err(TokenSwapError::TransferFailed(reason)),
    }
}

} // verus!
