//! Events returned by successful transitions, for off-chain indexing.

use vstd::prelude::*;
use crate::account::AccountId;

verus! {

#[derive(Clone, Copy, Debug, PartialEq, Eq, Structural)]
pub struct VaultInitialized {
    pub user: AccountId,
    pub vault: AccountId,
    pub amount: u64,
    pub timestamp: i64,
}

#[derive(Clone, Copy, Debug, PartialEq, Eq, Structural)]
pub struct DepositEvent {
    pub user: AccountId,
    pub amount: u64,
    pub new_balance: u64,
    pub timestamp: i64,
}

#[derive(Clone, Copy, Debug, PartialEq, Eq, Structural)]
pub struct WithdrawEvent {
    pub user: AccountId,
    pub amount: u64,
    pub new_balance: u64,
    pub timestamp: i64,
}

#[derive(Clone, Copy, Debug, PartialEq, Eq, Structural)]
pub struct CollateralLocked {
    pub user: AccountId,
    pub amount: u64,
    pub new_locked_balance: u64,
    pub timestamp: i64,
}

#[derive(Clone, Copy, Debug, PartialEq, Eq, Structural)]
pub struct CollateralUnlocked {
    pub user: AccountId,
    pub amount: u64,
    pub new_available_balance: u64,
    pub timestamp: i64,
}

#[derive(Clone, Copy, Debug, PartialEq, Eq, Structural)]
pub struct CollateralTransferred {
    pub from_vault: AccountId,
    pub to_vault: AccountId,
    pub amount: u64,
    pub timestamp: i64,
}

#[derive(Clone, Copy, Debug, PartialEq, Eq, Structural)]
pub struct AuthorizedProgramAdded {
    pub vault: AccountId,
    pub program: AccountId,
    pub timestamp: i64,
}

#[derive(Clone, Copy, Debug, PartialEq, Eq, Structural)]
pub struct AuthorizedProgramRemoved {
    pub vault: AccountId,
    pub program: AccountId,
    pub timestamp: i64,
}

#[derive(Clone, Copy, Debug, PartialEq, Eq, Structural)]
pub struct WithdrawalRequested {
    pub user: AccountId,
    pub vault: AccountId,
    pub amount: u64,
    pub available_at: i64,
    pub timestamp: i64,
}

#[derive(Clone, Copy, Debug, PartialEq, Eq, Structural)]
pub struct WithdrawalExecuted {
    pub user: AccountId,
    pub vault: AccountId,
    pub amount: u64,
    pub timestamp: i64,
}

#[derive(Clone, Copy, Debug, PartialEq, Eq, Structural)]
pub struct MultisigInitialized {
    pub vault: AccountId,
    pub threshold: u8,
    pub signers: u8,
    pub timestamp: i64,
}

} // verus!
