//! The failures a vault operation can report.

use vstd::prelude::*;

verus! {

/// Why the transfer gateway did not move the assets. A failed transfer has
/// moved nothing.
#[derive(Clone, Copy, Debug, PartialEq, Eq, Structural)]
pub enum TransferError {
    /// The source account holds less than the requested amount.
    InsufficientBalance,
    /// The authorizing identity may not move funds out of the source account.
    Unauthorized,
    /// The gateway could not complete this attempt (timeouts included).
    Unavailable,
}

/// Why a vault operation was refused.
#[derive(Clone, Copy, Debug, PartialEq, Eq, Structural)]
pub enum VaultError {
    /// The requested amount is zero.
    InvalidAmount,
    /// The source account or the tracked balance is below the requested amount.
    InsufficientFunds,
    /// The caller has no tracked balance.
    NoSuchDepositor,
    /// The caller does not own the balance or account acted on.
    Unauthorized,
    /// A tracked balance would leave the range of `u64`.
    ArithmeticOverflow,
    /// The deployment already has a vault.
    AlreadyInitialized,
    /// The transfer gateway could not complete this attempt.
    Unavailable,
}

impl VaultError {
    /// The vault error that reports a gateway failure.
    pub open spec fn spec_from_transfer(e: TransferError) -> VaultError {
        match e {
            TransferError::InsufficientBalance => VaultError::InsufficientFunds,
            TransferError::Unauthorized => VaultError::Unauthorized,
            TransferError::Unavailable => VaultError::Unavailable,
        }
    }

    /// Reports a gateway failure as a vault error.
    pub fn from_transfer(e: TransferError) -> (err: VaultError)
        ensures
            err == Self::spec_from_transfer(e),
    {
        match e {
            TransferError::InsufficientBalance => VaultError::InsufficientFunds,
            TransferError::Unauthorized => VaultError::Unauthorized,
            TransferError::Unavailable => VaultError::Unavailable,
        }
    }

    /// Whether the same request may succeed if it is simply sent again.
    pub open spec fn spec_is_retryable(self) -> bool {
        self == VaultError::Unavailable
    }

    /// Whether the same request may succeed if it is simply sent again: only
    /// `Unavailable` is retryable, every other failure needs a changed request.
    pub fn is_retryable(&self) -> (retryable: bool)
        ensures
            retryable == self.spec_is_retryable(),
    {
        match self {
            VaultError::Unavailable => true,
            _ => false,
        }
    }
}

} // verus!
