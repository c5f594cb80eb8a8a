use vstd::prelude::*;

verus! {

/// The asset ledger's reason for refusing a transfer, as the ledger numbers
/// it. The library hands it on and never reads it.
#[derive(Clone, Copy, Debug, PartialEq, Eq, Structural)]
pub struct TransferError {
    pub code: u64,
}

/// Why an operation on the vault was refused.
#[derive(Clone, Copy, Debug, PartialEq, Eq, Structural)]
pub enum TokenSwapError {
    /// The pool holds less of asset A than the operation would pay out.
    InsufficientTokenA,
    /// The pool holds less of asset B than the operation would pay out.
    InsufficientTokenB,
    /// A step of the price computation left the range of its integer type.
    CalculationOverflow,
    /// A credit would carry a balance or a reserve past `u64::MAX`.
    Overflow,
    /// A debit would carry a reserve below zero.
    Underflow,
    /// A withdrawal asks for more than the depositor's tracked balance.
    InsufficientBalance,
    /// The asset ledger rejected a transfer, for the reason it gave.
    TransferFailed(TransferError),
}

} // verus!
