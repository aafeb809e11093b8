//! The error classes a ledger transition can fail with.

use vstd::prelude::*;

verus! {

/// Why a transition was refused. Every failure leaves the ledger state
/// exactly as it was: a transition either commits in full or not at all.
#[derive(Clone, Copy, Debug, PartialEq, Eq, Structural)]
pub enum ErrorCode {
    /// The mint backing the vault is not the expected token.
    InvalidMint,
    /// A zero amount was passed where a positive one is required.
    InvalidAmount,
    /// The caller identity is already on the authorization list.
    AuthorizationAlreadyExists,
    /// The authorization list is at its capacity.
    AuthorizedProgramsCapacity,
    /// The caller is not on the authorization list, or is not executable.
    Unauthorized,
    /// The available balance does not cover the requested amount.
    InsufficientFunds,
    /// Funds are locked: the operation needs `locked_balance == 0`.
    ActivePosition,
    /// The locked balance does not cover the requested amount.
    InsufficientLockedFunds,
    /// A counter would exceed its 64-bit range.
    Overflow,
    /// A balance would fall below zero.
    Underflow,
    /// An identity check failed: null identity, or wrong account owner.
    InvalidAuthority,
    /// The withdrawal request's time lock has not elapsed yet.
    WithdrawalDelayNotMet,
    /// The withdrawal request was already executed.
    AlreadyExecuted,
    /// The vault and its authority record do not belong together.
    InvalidVaultAuthority,
    /// The withdrawal request does not belong to this vault.
    InvalidWithdrawalRequest,
}

} // verus!
