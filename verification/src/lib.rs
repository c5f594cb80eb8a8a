//! Accounting and pricing core of a two-asset liquidity vault.
//!
//! The vault holds two assets in escrow, prices swaps between them by the
//! constant product of its reserves, and tracks what each depositor has
//! placed in it. The units themselves are moved by an asset ledger outside
//! this library: an operation names each transfer it needs, whoever runs it
//! carries the request to the ledger, and the operation books the answer.

pub mod error;
pub mod ledger;
pub mod pricing;
pub mod reserves;
pub mod accounting;
pub mod initialize;
pub mod deposit;
pub mod swap;
pub mod withdraw;

pub use crate::accounting::UserVaultState;
pub use crate::deposit::token_a_deposit_in_pda_vault;
pub use crate::deposit::token_b_deposit_in_pda_vault;
pub use crate::deposit::DepositToVaultTokenA;
pub use crate::deposit::DepositToVaultTokenB;
pub use crate::error::TokenSwapError;
pub use crate::error::TransferError;
pub use crate::initialize::initialize_vault_token_a;
pub use crate::initialize::initialize_vault_token_b;
pub use crate::initialize::InitializeVaultTokenA;
pub use crate::initialize::InitializeVaultTokenB;
pub use crate::ledger::acknowledge;
pub use crate::ledger::deposit_to_vault_token_a;
pub use crate::ledger::deposit_to_vault_token_b;
pub use crate::ledger::AssetKind;
pub use crate::ledger::Authority;
pub use crate::ledger::Holder;
pub use crate::ledger::TransferOutcome;
pub use crate::ledger::TransferRequest;
pub use crate::pricing::amm_calculation;
pub use crate::pricing::quote;
pub use crate::reserves::ReservePair;
pub use crate::swap::swap_a_for_b;
pub use crate::swap::swap_b_for_a;
pub use crate::swap::PendingSwap;
pub use crate::swap::SwapQuote;
pub use crate::swap::TokenSwap;
pub use crate::withdraw::withdraw_from_vault;
pub use crate::withdraw::PendingWithdrawal;
pub use crate::withdraw::WithdrawFromVault;
