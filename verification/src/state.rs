//! The ledger-side account model: vaults, authorization lists, withdrawal
//! requests, and their well-formedness invariants.

use vstd::prelude::*;
use crate::account::AccountId;

verus! {

/// The most callers an authorization list may hold.
pub const MAX_AUTHORIZED_PROGRAMS: usize = 16;

/// Seconds a requested withdrawal must wait before it may execute.
pub const WITHDRAWAL_DELAY_SECONDS: i64 = 86_400;

/// Per-owner collateral account. `total_balance` always equals
/// `locked_balance + available_balance`; the two monotonic counters record
/// the deposit and withdrawal history.
#[derive(Clone, Copy, Debug, PartialEq, Eq, Structural)]
pub struct CollateralVault {
    pub owner: AccountId,
    pub token_account: AccountId,
    pub vault_authority: AccountId,
    pub total_balance: u64,
    pub locked_balance: u64,
    pub available_balance: u64,
    pub total_deposited: u64,
    pub total_withdrawn: u64,
    pub created_at: i64,
}

impl CollateralVault {
    /// The one balance invariant every reachable vault state satisfies.
    pub open spec fn balanced(self) -> bool {
        self.total_balance == self.locked_balance + self.available_balance
    }
}

/// The per-vault allow-list of caller identities permitted to invoke the
/// privileged transitions (lock, unlock, transfer).
#[derive(Clone, Debug)]
pub struct VaultAuthority {
    pub vault: AccountId,
    pub authorized_programs: Vec<AccountId>,
}

impl VaultAuthority {
    /// Well-formed list: within capacity, no duplicates, no null identity.
    pub open spec fn wf(self) -> bool {
        &&& self.authorized_programs@.len() <= MAX_AUTHORIZED_PROGRAMS
        &&& forall|i: int, j: int|
            0 <= i < j < self.authorized_programs@.len()
                ==> self.authorized_programs@[i] != self.authorized_programs@[j]
        &&& forall|i: int|
            0 <= i < self.authorized_programs@.len()
                ==> !self.authorized_programs@[i].is_zero()
    }

    /// Whether `caller` is on the allow-list.
    pub fn is_authorized(&self, caller: &AccountId) -> (r: bool)
        ensures
            r == self.authorized_programs@.contains(*caller),
    {
        let r = contains_id(&self.authorized_programs, self.authorized_programs.len(), caller);
        proof {
            assert(self.authorized_programs@.subrange(0, self.authorized_programs@.len() as int)
                =~= self.authorized_programs@);
        }
        r
    }
}

/// Whether `id` occurs among the first `n` entries of `v`.
pub fn contains_id(v: &Vec<AccountId>, n: usize, id: &AccountId) -> (r: bool)
    requires
        n <= v@.len(),
    ensures
        r == v@.subrange(0, n as int).contains(*id),
{
    let mut i: usize = 0;
    while i < n
        invariant
            i <= n <= v@.len(),
            !v@.subrange(0, i as int).contains(*id),
        decreases n - i,
    {
        if v[i].w0 == id.w0 && v[i].w1 == id.w1 && v[i].w2 == id.w2 && v[i].w3 == id.w3 {
            proof {
                assert(v@.subrange(0, n as int)[i as int] == *id);
            }
            return true;
        }
        proof {
            assert forall|k: int| 0 <= k < i + 1 implies #[trigger] v@.subrange(0, i + 1)[k] != *id by {
                if k < i {
                    assert(v@.subrange(0, i as int)[k] == v@.subrange(0, i + 1)[k]);
                }
            }
        }
        i = i + 1;
    }
    proof {
        assert(v@.subrange(0, n as int) == v@.subrange(0, i as int));
    }
    false
}

/// One pending two-phase withdrawal. `available_at` is fixed at creation;
/// `executed` moves from `false` to `true` exactly once.
#[derive(Clone, Copy, Debug, PartialEq, Eq, Structural)]
pub struct WithdrawalRequest {
    pub vault: AccountId,
    pub user: AccountId,
    pub amount: u64,
    pub requested_at: i64,
    pub available_at: i64,
    pub request_id: u64,
    pub executed: bool,
}

/// A multi-signer configuration attached to a vault.
#[derive(Clone, Debug)]
pub struct MultisigConfig {
    pub vault: AccountId,
    pub signers: Vec<AccountId>,
    pub threshold: u8,
}

/// Reserved per-vault list of addresses cleared to receive withdrawals.
#[derive(Clone, Debug)]
pub struct WithdrawalWhitelist {
    pub vault: AccountId,
    pub addresses: Vec<AccountId>,
}

} // verus!
