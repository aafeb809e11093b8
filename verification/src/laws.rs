//! The laws the ledger state machine obeys, each proved once and for all
//! over the spec-level transitions in [`crate::instructions`].
//!
//! A vault state is reachable when it arises from a freshly initialized
//! vault (all balances zero, so trivially balanced) by some sequence of
//! transitions; [`lemma_reachable_states_balanced`] covers every such
//! state at once.

use vstd::prelude::*;
use crate::account::AccountId;
use crate::errors::ErrorCode;
use crate::instructions::{
    add_authorized_spec, deposit_spec, execute_withdrawal_spec, lock_spec,
    remove_authorized_spec, request_withdrawal_spec, transfer_spec, unlock_spec, withdraw_spec,
};
use crate::state::{CollateralVault, WithdrawalRequest};

verus! {

/// One balance-moving transition, seen from a single vault: the
/// arguments of the corresponding spec transition, with the partner
/// state of a transfer carried along.
pub enum VaultOp {
    Deposit { user: AccountId, source_owner: AccountId, amount: u64 },
    Withdraw { user: AccountId, recipient_owner: AccountId, amount: u64 },
    Lock { authorized: Seq<AccountId>, caller: AccountId, caller_executable: bool, amount: u64 },
    Unlock { authorized: Seq<AccountId>, caller: AccountId, caller_executable: bool, amount: u64 },
    TransferOut {
        to_vault: CollateralVault,
        operator: AccountId,
        from_authorized: Seq<AccountId>,
        to_authorized: Seq<AccountId>,
        caller: AccountId,
        caller_executable: bool,
        amount: u64,
    },
    TransferIn {
        from_vault: CollateralVault,
        operator: AccountId,
        from_authorized: Seq<AccountId>,
        to_authorized: Seq<AccountId>,
        caller: AccountId,
        caller_executable: bool,
        amount: u64,
    },
    ExecuteWithdrawal {
        request: WithdrawalRequest,
        vault_key: AccountId,
        user: AccountId,
        recipient_owner: AccountId,
        now: i64,
    },
}

/// The vault after one attempted transition: the new state when the
/// transition commits, the old state untouched when it is refused.
pub open spec fn apply_op(v: CollateralVault, op: VaultOp) -> CollateralVault {
    match op {
        VaultOp::Deposit { user, source_owner, amount } => match deposit_spec(
            v,
            user,
            source_owner,
            amount,
        ) {
            Ok(v2) => v2,
            Err(_) => v,
        },
        VaultOp::Withdraw { user, recipient_owner, amount } => match withdraw_spec(
            v,
            user,
            recipient_owner,
            amount,
        ) {
            Ok(v2) => v2,
            Err(_) => v,
        },
        VaultOp::Lock { authorized, caller, caller_executable, amount } => match lock_spec(
            v,
            authorized,
            caller,
            caller_executable,
            amount,
        ) {
            Ok(v2) => v2,
            Err(_) => v,
        },
        VaultOp::Unlock { authorized, caller, caller_executable, amount } => match unlock_spec(
            v,
            authorized,
            caller,
            caller_executable,
            amount,
        ) {
            Ok(v2) => v2,
            Err(_) => v,
        },
        VaultOp::TransferOut {
            to_vault,
            operator,
            from_authorized,
            to_authorized,
            caller,
            caller_executable,
            amount,
        } => match transfer_spec(
            v,
            to_vault,
            operator,
            from_authorized,
            to_authorized,
            caller,
            caller_executable,
            amount,
        ) {
            Ok(pair) => pair.0,
            Err(_) => v,
        },
        VaultOp::TransferIn {
            from_vault,
            operator,
            from_authorized,
            to_authorized,
            caller,
            caller_executable,
            amount,
        } => match transfer_spec(
            from_vault,
            v,
            operator,
            from_authorized,
            to_authorized,
            caller,
            caller_executable,
            amount,
        ) {
            Ok(pair) => pair.1,
            Err(_) => v,
        },
        VaultOp::ExecuteWithdrawal { request, vault_key, user, recipient_owner, now } => match
            execute_withdrawal_spec(v, request, vault_key, user, recipient_owner, now) {
            Ok(pair) => pair.0,
            Err(_) => v,
        },
    }
}

/// The vault after a whole sequence of attempted transitions.
pub open spec fn apply_ops(v: CollateralVault, ops: Seq<VaultOp>) -> CollateralVault
    decreases ops.len(),
{
    if ops.len() == 0 {
        v
    } else {
        apply_op(apply_ops(v, ops.drop_last()), ops.last())
    }
}

/// Law: one attempted transition, committed or refused, preserves the
/// balance invariant and never decreases the two lifetime counters.
pub proof fn lemma_step_preserves_invariant(v: CollateralVault, op: VaultOp)
    requires
        v.balanced(),
    ensures
        apply_op(v, op).balanced(),
        apply_op(v, op).total_deposited >= v.total_deposited,
        apply_op(v, op).total_withdrawn >= v.total_withdrawn,
{
}

/// Law: `total_balance == locked_balance + available_balance` holds in
/// every reachable vault state — whatever sequence of transitions is
/// attempted from a balanced state (initialization starts at all-zero
/// balances), and however many of them are refused. Along the way the
/// lifetime deposit and withdrawal counters only ever grow.
pub proof fn lemma_reachable_states_balanced(v0: CollateralVault, ops: Seq<VaultOp>)
    requires
        v0.balanced(),
    ensures
        apply_ops(v0, ops).balanced(),
        apply_ops(v0, ops).total_deposited >= v0.total_deposited,
        apply_ops(v0, ops).total_withdrawn >= v0.total_withdrawn,
    decreases ops.len(),
{
    if ops.len() > 0 {
        lemma_reachable_states_balanced(v0, ops.drop_last());
        lemma_step_preserves_invariant(apply_ops(v0, ops.drop_last()), ops.last());
    }
}

/// Law: a deposit preserves `total_balance == locked_balance + available_balance`.
pub proof fn lemma_deposit_preserves_balance(
    vault: CollateralVault,
    user: AccountId,
    source_owner: AccountId,
    amount: u64,
)
    requires
        vault.balanced(),
    ensures
        deposit_spec(vault, user, source_owner, amount) matches Ok(v) ==> v.balanced(),
{
}

/// Law: an immediate withdrawal preserves the balance invariant.
pub proof fn lemma_withdraw_preserves_balance(
    vault: CollateralVault,
    user: AccountId,
    recipient_owner: AccountId,
    amount: u64,
)
    requires
        vault.balanced(),
    ensures
        withdraw_spec(vault, user, recipient_owner, amount) matches Ok(v) ==> v.balanced(),
{
}

/// Law: a lock moves funds between the two halves and preserves the
/// balance invariant; the total balance is untouched.
pub proof fn lemma_lock_preserves_balance(
    vault: CollateralVault,
    authorized: Seq<AccountId>,
    caller: AccountId,
    caller_executable: bool,
    amount: u64,
)
    requires
        vault.balanced(),
    ensures
        lock_spec(vault, authorized, caller, caller_executable, amount) matches Ok(v) ==> {
            &&& v.balanced()
            &&& v.total_balance == vault.total_balance
        },
{
}

/// Law: an unlock is the mirror of a lock: balance invariant preserved,
/// total balance untouched.
pub proof fn lemma_unlock_preserves_balance(
    vault: CollateralVault,
    authorized: Seq<AccountId>,
    caller: AccountId,
    caller_executable: bool,
    amount: u64,
)
    requires
        vault.balanced(),
    ensures
        unlock_spec(vault, authorized, caller, caller_executable, amount) matches Ok(v) ==> {
            &&& v.balanced()
            &&& v.total_balance == vault.total_balance
        },
{
}

/// Law: a transfer preserves the balance invariant of both vaults, and
/// conserves collateral: the sum of the two total balances after equals
/// the sum before.
pub proof fn lemma_transfer_conserves_total(
    from_vault: CollateralVault,
    to_vault: CollateralVault,
    operator: AccountId,
    from_authorized: Seq<AccountId>,
    to_authorized: Seq<AccountId>,
    caller: AccountId,
    caller_executable: bool,
    amount: u64,
)
    requires
        from_vault.balanced(),
        to_vault.balanced(),
    ensures
        transfer_spec(
            from_vault,
            to_vault,
            operator,
            from_authorized,
            to_authorized,
            caller,
            caller_executable,
            amount,
        ) matches Ok((f, t)) ==> {
            &&& f.balanced()
            &&& t.balanced()
            &&& f.total_balance + t.total_balance == from_vault.total_balance
                + to_vault.total_balance
        },
{
}

/// Law: executing a withdrawal request preserves the balance invariant.
pub proof fn lemma_execute_withdrawal_preserves_balance(
    vault: CollateralVault,
    request: WithdrawalRequest,
    vault_key: AccountId,
    user: AccountId,
    recipient_owner: AccountId,
    now: i64,
)
    requires
        vault.balanced(),
    ensures
        execute_withdrawal_spec(vault, request, vault_key, user, recipient_owner, now) matches Ok(
            (v, _),
        ) ==> v.balanced(),
{
}

/// Law: no transition drives a balance below zero. A withdrawal beyond
/// the available balance is refused before any state is touched.
pub proof fn lemma_withdraw_rejects_underflow(
    vault: CollateralVault,
    user: AccountId,
    recipient_owner: AccountId,
    amount: u64,
)
    requires
        amount > vault.available_balance,
    ensures
        withdraw_spec(vault, user, recipient_owner, amount) is Err,
{
}

/// Law: an unlock beyond the locked balance is refused before any state
/// is touched.
pub proof fn lemma_unlock_rejects_underflow(
    vault: CollateralVault,
    authorized: Seq<AccountId>,
    caller: AccountId,
    caller_executable: bool,
    amount: u64,
)
    requires
        amount > vault.locked_balance,
    ensures
        unlock_spec(vault, authorized, caller, caller_executable, amount) is Err,
{
}

/// Law: executing the same withdrawal request twice succeeds at most
/// once; the second execution is refused as `AlreadyExecuted`, whatever
/// time has passed, and so (by the transition's atomicity) leaves every
/// balance unchanged.
pub proof fn lemma_execute_withdrawal_idempotent(
    vault: CollateralVault,
    request: WithdrawalRequest,
    vault_key: AccountId,
    user: AccountId,
    recipient_owner: AccountId,
    first_now: i64,
    second_now: i64,
)
    ensures
        execute_withdrawal_spec(
            vault,
            request,
            vault_key,
            user,
            recipient_owner,
            first_now,
        ) matches Ok((v, r)) ==> execute_withdrawal_spec(
            v,
            r,
            vault_key,
            user,
            recipient_owner,
            second_now,
        ) == Err::<(CollateralVault, WithdrawalRequest), ErrorCode>(ErrorCode::AlreadyExecuted),
{
}

/// Law: a freshly requested withdrawal cannot execute before its
/// `available_at` time, and executes successfully once that time has
/// come, provided the vault state has not changed in between and the
/// recipient account belongs to the requesting user.
pub proof fn lemma_withdrawal_delay(
    vault: CollateralVault,
    vault_key: AccountId,
    user: AccountId,
    request_id: u64,
    amount: u64,
    request_now: i64,
    execute_now: i64,
    recipient_owner: AccountId,
)
    requires
        vault.balanced(),
        !vault.vault_authority.is_zero(),
        recipient_owner == user,
        vault.total_withdrawn + amount <= u64::MAX,
    ensures
        request_withdrawal_spec(vault, vault_key, user, request_id, amount, request_now) matches
            Ok(request) ==> {
            &&& execute_now < request.available_at ==> execute_withdrawal_spec(
                vault,
                request,
                vault_key,
                user,
                recipient_owner,
                execute_now,
            ) == Err::<(CollateralVault, WithdrawalRequest), ErrorCode>(
                ErrorCode::WithdrawalDelayNotMet,
            )
            &&& execute_now >= request.available_at ==> execute_withdrawal_spec(
                vault,
                request,
                vault_key,
                user,
                recipient_owner,
                execute_now,
            ) is Ok
        },
{
}

/// Law: adding a caller keeps the allow-list well formed: entries stay
/// unique and non-null, and the list stays within capacity.
pub proof fn lemma_add_authorized_preserves_wf(list: Seq<AccountId>, program: AccountId)
    requires
        forall|i: int, j: int| 0 <= i < j < list.len() ==> list[i] != list[j],
        forall|i: int| 0 <= i < list.len() ==> !list[i].is_zero(),
    ensures
        add_authorized_spec(list, program) matches Ok(l) ==> {
            &&& l.len() == list.len() + 1
            &&& forall|i: int, j: int| 0 <= i < j < l.len() ==> l[i] != l[j]
            &&& forall|i: int| 0 <= i < l.len() ==> !l[i].is_zero()
            &&& l.contains(program)
        },
{
    if add_authorized_spec(list, program) is Ok {
        let l = add_authorized_spec(list, program).unwrap();
        assert(l == list.push(program));
        assert(l.contains(program)) by {
            assert(l[list.len() as int] == program);
        }
        assert forall|i: int, j: int| 0 <= i < j < l.len() implies l[i] != l[j] by {
            if j < list.len() {
                assert(l[i] == list[i] && l[j] == list[j]);
            } else {
                assert(l[j] == program && l[i] == list[i]);
                assert(list.contains(list[i]));
            }
        }
    }
}

/// Law: removing a caller keeps the allow-list well formed and shrinks
/// it by one; the removed identity is gone, every other entry remains.
pub proof fn lemma_remove_authorized_preserves_wf(list: Seq<AccountId>, program: AccountId)
    requires
        forall|i: int, j: int| 0 <= i < j < list.len() ==> list[i] != list[j],
        forall|i: int| 0 <= i < list.len() ==> !list[i].is_zero(),
    ensures
        remove_authorized_spec(list, program) matches Ok(l) ==> {
            &&& l.len() == list.len() - 1
            &&& forall|i: int, j: int| 0 <= i < j < l.len() ==> l[i] != l[j]
            &&& forall|i: int| 0 <= i < l.len() ==> !l[i].is_zero()
            &&& !l.contains(program)
            &&& forall|x: AccountId| x != program ==> (#[trigger] l.contains(x) <==> list.contains(
                x,
            ))
        },
{
    if remove_authorized_spec(list, program) is Ok {
        list.index_of_first_ensures(program);
        let k = list.index_of_first(program).unwrap();
        let l = remove_authorized_spec(list, program).unwrap();
        assert(l == list.update(k, list.last()).drop_last());
        assert forall|x: AccountId| l.contains(x) implies x != program && list.contains(x) by {
            let i = choose|i: int| 0 <= i < l.len() && l[i] == x;
            if i == k {
                assert(list[list.len() - 1] == x);
            } else {
                assert(list[i] == x);
            }
        }
        assert forall|x: AccountId| x != program && list.contains(x) implies l.contains(x) by {
            let i = choose|i: int| 0 <= i < list.len() && list[i] == x;
            if i == list.len() - 1 {
                if k < list.len() - 1 {
                    assert(l[k] == x);
                } else {
                    assert(list[k] == program);
                }
            } else {
                assert(l[i] == x);
            }
        }
        assert forall|i: int, j: int| 0 <= i < j < l.len() implies l[i] != l[j] by {
            let vi = if i == k {
                list[list.len() - 1]
            } else {
                list[i]
            };
            let vj = if j == k {
                list[list.len() - 1]
            } else {
                list[j]
            };
            assert(l[i] == vi && l[j] == vj);
        }
        assert forall|i: int| 0 <= i < l.len() implies !l[i].is_zero() by {
            if i == k {
                assert(list[list.len() - 1] == l[i]);
            } else {
                assert(list[i] == l[i]);
            }
        }
    }
}

} // verus!
