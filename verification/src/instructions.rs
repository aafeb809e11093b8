//! The ledger state machine: one function per transition, each atomic.
//!
//! Every transition is specified twice: a `spec` function gives the
//! mathematical transition (including exactly which error each input
//! produces, in the order the checks are made), and the executable
//! function is proved to implement it. On any error the mutable state is
//! left untouched: a transition commits in full or not at all.

use vstd::prelude::*;
use crate::account::AccountId;
use crate::errors::ErrorCode;
use crate::events::{
    AuthorizedProgramAdded, AuthorizedProgramRemoved, CollateralLocked, CollateralTransferred,
    CollateralUnlocked, DepositEvent, MultisigInitialized, VaultInitialized, WithdrawEvent,
    WithdrawalExecuted, WithdrawalRequested,
};
use crate::state::{
    CollateralVault, MultisigConfig, VaultAuthority, WithdrawalRequest, contains_id,
    MAX_AUTHORIZED_PROGRAMS, WITHDRAWAL_DELAY_SECONDS,
};

verus! {

/// The deposit transition: `amount` is credited to the total and
/// available balances and to the lifetime deposit counter.
pub open spec fn deposit_spec(
    vault: CollateralVault,
    user: AccountId,
    source_owner: AccountId,
    amount: u64,
) -> Result<CollateralVault, ErrorCode> {
    if amount == 0 {
        Err(ErrorCode::InvalidAmount)
    } else if source_owner != user {
        Err(ErrorCode::InvalidAuthority)
    } else if vault.total_balance + amount > u64::MAX || vault.available_balance + amount
        > u64::MAX || vault.total_deposited + amount > u64::MAX {
        Err(ErrorCode::Overflow)
    } else {
        Ok(
            CollateralVault {
                total_balance: (vault.total_balance + amount) as u64,
                available_balance: (vault.available_balance + amount) as u64,
                total_deposited: (vault.total_deposited + amount) as u64,
                ..vault
            },
        )
    }
}

/// Deposits `amount` into `vault` on behalf of `user`. `source_owner` is
/// the owner of the funding account and must be `user` itself.
pub fn deposit(
    vault: &mut CollateralVault,
    user: AccountId,
    source_owner: AccountId,
    amount: u64,
    now: i64,
) -> (r: Result<DepositEvent, ErrorCode>)
    ensures
        match r {
            Ok(ev) => {
                &&& deposit_spec(*old(vault), user, source_owner, amount) == Ok::<
                    CollateralVault,
                    ErrorCode,
                >(*final(vault))
                &&& ev == (DepositEvent {
                    user,
                    amount,
                    new_balance: final(vault).total_balance,
                    timestamp: now,
                })
            },
            Err(e) => {
                &&& deposit_spec(*old(vault), user, source_owner, amount) == Err::<
                    CollateralVault,
                    ErrorCode,
                >(e)
                &&& *final(vault) == *old(vault)
            },
        },
{
    if amount == 0 {
        return Err(ErrorCode::InvalidAmount);
    }
    if source_owner != user {
        return Err(ErrorCode::InvalidAuthority);
    }
    let total = match vault.total_balance.checked_add(amount) {
        Some(v) => v,
        None => { return Err(ErrorCode::Overflow) },
    };
    let available = match vault.available_balance.checked_add(amount) {
        Some(v) => v,
        None => { return Err(ErrorCode::Overflow) },
    };
    let deposited = match vault.total_deposited.checked_add(amount) {
        Some(v) => v,
        None => { return Err(ErrorCode::Overflow) },
    };
    vault.total_balance = total;
    vault.available_balance = available;
    vault.total_deposited = deposited;
    Ok(DepositEvent { user, amount, new_balance: total, timestamp: now })
}

/// The immediate withdrawal transition: `amount` leaves the total and
/// available balances, the lifetime withdrawal counter grows, and the
/// transition is refused while any funds are locked.
pub open spec fn withdraw_spec(
    vault: CollateralVault,
    user: AccountId,
    recipient_owner: AccountId,
    amount: u64,
) -> Result<CollateralVault, ErrorCode> {
    if amount == 0 {
        Err(ErrorCode::InvalidAmount)
    } else if vault.available_balance < amount {
        Err(ErrorCode::InsufficientFunds)
    } else if vault.locked_balance > 0 {
        Err(ErrorCode::ActivePosition)
    } else if recipient_owner != user {
        Err(ErrorCode::InvalidAuthority)
    } else if vault.total_balance < amount {
        Err(ErrorCode::Underflow)
    } else if vault.total_withdrawn + amount > u64::MAX {
        Err(ErrorCode::Overflow)
    } else {
        Ok(
            CollateralVault {
                total_balance: (vault.total_balance - amount) as u64,
                available_balance: (vault.available_balance - amount) as u64,
                total_withdrawn: (vault.total_withdrawn + amount) as u64,
                ..vault
            },
        )
    }
}

/// Withdraws `amount` from `vault` for `user`. `recipient_owner` is the
/// owner of the receiving account and must be `user` itself.
pub fn withdraw(
    vault: &mut CollateralVault,
    user: AccountId,
    recipient_owner: AccountId,
    amount: u64,
    now: i64,
) -> (r: Result<WithdrawEvent, ErrorCode>)
    ensures
        match r {
            Ok(ev) => {
                &&& withdraw_spec(*old(vault), user, recipient_owner, amount) == Ok::<
                    CollateralVault,
                    ErrorCode,
                >(*final(vault))
                &&& ev == (WithdrawEvent {
                    user,
                    amount,
                    new_balance: final(vault).total_balance,
                    timestamp: now,
                })
            },
            Err(e) => {
                &&& withdraw_spec(*old(vault), user, recipient_owner, amount) == Err::<
                    CollateralVault,
                    ErrorCode,
                >(e)
                &&& *final(vault) == *old(vault)
            },
        },
{
    if amount == 0 {
        return Err(ErrorCode::InvalidAmount);
    }
    if vault.available_balance < amount {
        return Err(ErrorCode::InsufficientFunds);
    }
    if vault.locked_balance > 0 {
        return Err(ErrorCode::ActivePosition);
    }
    if recipient_owner != user {
        return Err(ErrorCode::InvalidAuthority);
    }
    let total = match vault.total_balance.checked_sub(amount) {
        Some(v) => v,
        None => { return Err(ErrorCode::Underflow) },
    };
    let available = match vault.available_balance.checked_sub(amount) {
        Some(v) => v,
        None => { return Err(ErrorCode::Underflow) },
    };
    let withdrawn = match vault.total_withdrawn.checked_add(amount) {
        Some(v) => v,
        None => { return Err(ErrorCode::Overflow) },
    };
    vault.total_balance = total;
    vault.available_balance = available;
    vault.total_withdrawn = withdrawn;
    Ok(WithdrawEvent { user, amount, new_balance: total, timestamp: now })
}

/// The lock transition: an authorized, executable caller moves `amount`
/// from the available balance to the locked balance.
pub open spec fn lock_spec(
    vault: CollateralVault,
    authorized: Seq<AccountId>,
    caller: AccountId,
    caller_executable: bool,
    amount: u64,
) -> Result<CollateralVault, ErrorCode> {
    if amount == 0 {
        Err(ErrorCode::InvalidAmount)
    } else if !authorized.contains(caller) {
        Err(ErrorCode::Unauthorized)
    } else if !caller_executable {
        Err(ErrorCode::Unauthorized)
    } else if vault.available_balance < amount {
        Err(ErrorCode::InsufficientFunds)
    } else if vault.locked_balance + amount > u64::MAX {
        Err(ErrorCode::Overflow)
    } else {
        Ok(
            CollateralVault {
                available_balance: (vault.available_balance - amount) as u64,
                locked_balance: (vault.locked_balance + amount) as u64,
                ..vault
            },
        )
    }
}

/// Locks `amount` of `vault`'s available balance. `caller` must be on the
/// vault's allow-list and be a currently executable identity; the two
/// checks are separate and both required.
pub fn lock_collateral(
    vault: &mut CollateralVault,
    authority: &VaultAuthority,
    user: AccountId,
    caller: AccountId,
    caller_executable: bool,
    amount: u64,
    now: i64,
) -> (r: Result<CollateralLocked, ErrorCode>)
    ensures
        match r {
            Ok(ev) => {
                &&& lock_spec(
                    *old(vault),
                    authority.authorized_programs@,
                    caller,
                    caller_executable,
                    amount,
                ) == Ok::<CollateralVault, ErrorCode>(*final(vault))
                &&& ev == (CollateralLocked {
                    user,
                    amount,
                    new_locked_balance: final(vault).locked_balance,
                    timestamp: now,
                })
            },
            Err(e) => {
                &&& lock_spec(
                    *old(vault),
                    authority.authorized_programs@,
                    caller,
                    caller_executable,
                    amount,
                ) == Err::<CollateralVault, ErrorCode>(e)
                &&& *final(vault) == *old(vault)
            },
        },
{
    if amount == 0 {
        return Err(ErrorCode::InvalidAmount);
    }
    if !authority.is_authorized(&caller) {
        return Err(ErrorCode::Unauthorized);
    }
    if !caller_executable {
        return Err(ErrorCode::Unauthorized);
    }
    if vault.available_balance < amount {
        return Err(ErrorCode::InsufficientFunds);
    }
    let locked = match vault.locked_balance.checked_add(amount) {
        Some(v) => v,
        None => { return Err(ErrorCode::Overflow) },
    };
    vault.available_balance = vault.available_balance - amount;
    vault.locked_balance = locked;
    Ok(CollateralLocked { user, amount, new_locked_balance: locked, timestamp: now })
}

/// The unlock transition: an authorized, executable caller moves `amount`
/// from the locked balance back to the available balance.
pub open spec fn unlock_spec(
    vault: CollateralVault,
    authorized: Seq<AccountId>,
    caller: AccountId,
    caller_executable: bool,
    amount: u64,
) -> Result<CollateralVault, ErrorCode> {
    if amount == 0 {
        Err(ErrorCode::InvalidAmount)
    } else if !authorized.contains(caller) {
        Err(ErrorCode::Unauthorized)
    } else if !caller_executable {
        Err(ErrorCode::Unauthorized)
    } else if vault.locked_balance < amount {
        Err(ErrorCode::InsufficientLockedFunds)
    } else if vault.available_balance + amount > u64::MAX {
        Err(ErrorCode::Overflow)
    } else {
        Ok(
            CollateralVault {
                locked_balance: (vault.locked_balance - amount) as u64,
                available_balance: (vault.available_balance + amount) as u64,
                ..vault
            },
        )
    }
}

/// Unlocks `amount` of `vault`'s locked balance; the mirror of
/// [`lock_collateral`], gated by the same two authorization checks.
pub fn unlock_collateral(
    vault: &mut CollateralVault,
    authority: &VaultAuthority,
    user: AccountId,
    caller: AccountId,
    caller_executable: bool,
    amount: u64,
    now: i64,
) -> (r: Result<CollateralUnlocked, ErrorCode>)
    ensures
        match r {
            Ok(ev) => {
                &&& unlock_spec(
                    *old(vault),
                    authority.authorized_programs@,
                    caller,
                    caller_executable,
                    amount,
                ) == Ok::<CollateralVault, ErrorCode>(*final(vault))
                &&& ev == (CollateralUnlocked {
                    user,
                    amount,
                    new_available_balance: final(vault).available_balance,
                    timestamp: now,
                })
            },
            Err(e) => {
                &&& unlock_spec(
                    *old(vault),
                    authority.authorized_programs@,
                    caller,
                    caller_executable,
                    amount,
                ) == Err::<CollateralVault, ErrorCode>(e)
                &&& *final(vault) == *old(vault)
            },
        },
{
    if amount == 0 {
        return Err(ErrorCode::InvalidAmount);
    }
    if !authority.is_authorized(&caller) {
        return Err(ErrorCode::Unauthorized);
    }
    if !caller_executable {
        return Err(ErrorCode::Unauthorized);
    }
    if vault.locked_balance < amount {
        return Err(ErrorCode::InsufficientLockedFunds);
    }
    let available = match vault.available_balance.checked_add(amount) {
        Some(v) => v,
        None => { return Err(ErrorCode::Overflow) },
    };
    vault.locked_balance = vault.locked_balance - amount;
    vault.available_balance = available;
    Ok(CollateralUnlocked { user, amount, new_available_balance: available, timestamp: now })
}

/// The internal transfer transition: `amount` moves out of one vault's
/// available and total balances and into the other's. This is the one
/// transition touching two aggregates, and it commits as a unit.
pub open spec fn transfer_spec(
    from_vault: CollateralVault,
    to_vault: CollateralVault,
    operator: AccountId,
    from_authorized: Seq<AccountId>,
    to_authorized: Seq<AccountId>,
    caller: AccountId,
    caller_executable: bool,
    amount: u64,
) -> Result<(CollateralVault, CollateralVault), ErrorCode> {
    if amount == 0 {
        Err(ErrorCode::InvalidAmount)
    } else if operator != from_vault.owner && operator != to_vault.owner {
        Err(ErrorCode::InvalidAuthority)
    } else if !from_authorized.contains(caller) {
        Err(ErrorCode::Unauthorized)
    } else if !to_authorized.contains(caller) {
        Err(ErrorCode::Unauthorized)
    } else if !caller_executable {
        Err(ErrorCode::Unauthorized)
    } else if from_vault.available_balance < amount {
        Err(ErrorCode::InsufficientFunds)
    } else if from_vault.total_balance < amount {
        Err(ErrorCode::Underflow)
    } else if to_vault.available_balance + amount > u64::MAX || to_vault.total_balance + amount
        > u64::MAX {
        Err(ErrorCode::Overflow)
    } else {
        Ok(
            (
                CollateralVault {
                    available_balance: (from_vault.available_balance - amount) as u64,
                    total_balance: (from_vault.total_balance - amount) as u64,
                    ..from_vault
                },
                CollateralVault {
                    available_balance: (to_vault.available_balance + amount) as u64,
                    total_balance: (to_vault.total_balance + amount) as u64,
                    ..to_vault
                },
            ),
        )
    }
}

/// Moves `amount` from `from_vault` to `to_vault`. The operator must own
/// one of the two vaults, and `caller` must be authorized on both and be
/// executable. `from_key` and `to_key` are the two vaults' addresses,
/// reported in the event.
pub fn transfer_collateral(
    from_vault: &mut CollateralVault,
    to_vault: &mut CollateralVault,
    from_authority: &VaultAuthority,
    to_authority: &VaultAuthority,
    from_key: AccountId,
    to_key: AccountId,
    operator: AccountId,
    caller: AccountId,
    caller_executable: bool,
    amount: u64,
    now: i64,
) -> (r: Result<CollateralTransferred, ErrorCode>)
    ensures
        match r {
            Ok(ev) => {
                &&& transfer_spec(
                    *old(from_vault),
                    *old(to_vault),
                    operator,
                    from_authority.authorized_programs@,
                    to_authority.authorized_programs@,
                    caller,
                    caller_executable,
                    amount,
                ) == Ok::<_, ErrorCode>((*final(from_vault), *final(to_vault)))
                &&& ev == (CollateralTransferred {
                    from_vault: from_key,
                    to_vault: to_key,
                    amount,
                    timestamp: now,
                })
            },
            Err(e) => {
                &&& transfer_spec(
                    *old(from_vault),
                    *old(to_vault),
                    operator,
                    from_authority.authorized_programs@,
                    to_authority.authorized_programs@,
                    caller,
                    caller_executable,
                    amount,
                ) == Err::<(CollateralVault, CollateralVault), ErrorCode>(e)
                &&& *final(from_vault) == *old(from_vault)
                &&& *final(to_vault) == *old(to_vault)
            },
        },
{
    if amount == 0 {
        return Err(ErrorCode::InvalidAmount);
    }
    if operator != from_vault.owner && operator != to_vault.owner {
        return Err(ErrorCode::InvalidAuthority);
    }
    if !from_authority.is_authorized(&caller) {
        return Err(ErrorCode::Unauthorized);
    }
    if !to_authority.is_authorized(&caller) {
        return Err(ErrorCode::Unauthorized);
    }
    if !caller_executable {
        return Err(ErrorCode::Unauthorized);
    }
    if from_vault.available_balance < amount {
        return Err(ErrorCode::InsufficientFunds);
    }
    let from_available = match from_vault.available_balance.checked_sub(amount) {
        Some(v) => v,
        None => { return Err(ErrorCode::Underflow) },
    };
    let from_total = match from_vault.total_balance.checked_sub(amount) {
        Some(v) => v,
        None => { return Err(ErrorCode::Underflow) },
    };
    let to_available = match to_vault.available_balance.checked_add(amount) {
        Some(v) => v,
        None => { return Err(ErrorCode::Overflow) },
    };
    let to_total = match to_vault.total_balance.checked_add(amount) {
        Some(v) => v,
        None => { return Err(ErrorCode::Overflow) },
    };
    from_vault.available_balance = from_available;
    from_vault.total_balance = from_total;
    to_vault.available_balance = to_available;
    to_vault.total_balance = to_total;
    Ok(CollateralTransferred { from_vault: from_key, to_vault: to_key, amount, timestamp: now })
}

/// The allow-list extension: a new, non-null caller identity is appended,
/// refused on duplicates and past capacity.
pub open spec fn add_authorized_spec(list: Seq<AccountId>, program: AccountId) -> Result<
    Seq<AccountId>,
    ErrorCode,
> {
    if program.is_zero() {
        Err(ErrorCode::InvalidAuthority)
    } else if list.contains(program) {
        Err(ErrorCode::AuthorizationAlreadyExists)
    } else if list.len() >= MAX_AUTHORIZED_PROGRAMS {
        Err(ErrorCode::AuthorizedProgramsCapacity)
    } else {
        Ok(list.push(program))
    }
}

/// Adds `program` to the vault's allow-list. Only the vault owner may
/// call this; the caller's signature is checked before this runs.
pub fn add_authorized_program(
    authority: &mut VaultAuthority,
    vault_key: AccountId,
    program: AccountId,
    now: i64,
) -> (r: Result<AuthorizedProgramAdded, ErrorCode>)
    ensures
        match r {
            Ok(ev) => {
                &&& add_authorized_spec(old(authority).authorized_programs@, program) == Ok::<
                    _,
                    ErrorCode,
                >(final(authority).authorized_programs@)
                &&& final(authority).vault == old(authority).vault
                &&& ev == (AuthorizedProgramAdded { vault: vault_key, program, timestamp: now })
            },
            Err(e) => {
                &&& add_authorized_spec(old(authority).authorized_programs@, program) == Err::<
                    Seq<AccountId>,
                    ErrorCode,
                >(e)
                &&& *final(authority) == *old(authority)
            },
        },
{
    if program.eq_zero() {
        return Err(ErrorCode::InvalidAuthority);
    }
    if authority.is_authorized(&program) {
        return Err(ErrorCode::AuthorizationAlreadyExists);
    }
    if authority.authorized_programs.len() >= MAX_AUTHORIZED_PROGRAMS {
        return Err(ErrorCode::AuthorizedProgramsCapacity);
    }
    authority.authorized_programs.push(program);
    Ok(AuthorizedProgramAdded { vault: vault_key, program, timestamp: now })
}

/// The allow-list removal: the first occurrence of the identity is taken
/// out by swapping the last entry into its place.
pub open spec fn remove_authorized_spec(list: Seq<AccountId>, program: AccountId) -> Result<
    Seq<AccountId>,
    ErrorCode,
> {
    if !list.contains(program) {
        Err(ErrorCode::Unauthorized)
    } else {
        let i = list.index_of_first(program).unwrap();
        Ok(list.update(i, list.last()).drop_last())
    }
}

/// Removes `program` from the vault's allow-list; refused if it is not
/// there. Only the vault owner may call this.
pub fn remove_authorized_program(
    authority: &mut VaultAuthority,
    vault_key: AccountId,
    program: AccountId,
    now: i64,
) -> (r: Result<AuthorizedProgramRemoved, ErrorCode>)
    ensures
        match r {
            Ok(ev) => {
                &&& remove_authorized_spec(old(authority).authorized_programs@, program) == Ok::<
                    _,
                    ErrorCode,
                >(final(authority).authorized_programs@)
                &&& final(authority).vault == old(authority).vault
                &&& ev == (AuthorizedProgramRemoved { vault: vault_key, program, timestamp: now })
            },
            Err(e) => {
                &&& remove_authorized_spec(old(authority).authorized_programs@, program) == Err::<
                    Seq<AccountId>,
                    ErrorCode,
                >(e)
                &&& *final(authority) == *old(authority)
            },
        },
{
    let n = authority.authorized_programs.len();
    let mut i: usize = 0;
    while i < n
        invariant
            n == authority.authorized_programs@.len(),
            i <= n,
            *authority == *old(authority),
            forall|j: int| 0 <= j < i ==> authority.authorized_programs@[j] != program,
        decreases n - i,
    {
        let cand = authority.authorized_programs[i];
        if cand.w0 == program.w0 && cand.w1 == program.w1 && cand.w2 == program.w2 && cand.w3
            == program.w3 {
            proof {
                let list = authority.authorized_programs@;
                list.index_of_first_ensures(program);
                assert(list.contains(program));
                assert(list.index_of_first(program) == Some(i as int));
            }
            authority.authorized_programs.swap_remove(i);
            return Ok(AuthorizedProgramRemoved { vault: vault_key, program, timestamp: now });
        }
        i = i + 1;
    }
    proof {
        assert(!authority.authorized_programs@.contains(program));
    }
    Err(ErrorCode::Unauthorized)
}

/// Scans a seeded caller list from position `i` on: the first null
/// identity is refused as `InvalidAuthority`, the first repeat of an
/// earlier entry as `AuthorizationAlreadyExists`.
pub open spec fn validate_callers_from(s: Seq<AccountId>, i: int) -> Result<(), ErrorCode>
    decreases s.len() - i,
{
    if i < 0 || i >= s.len() {
        Ok(())
    } else if s[i].is_zero() {
        Err(ErrorCode::InvalidAuthority)
    } else if s.subrange(0, i).contains(s[i]) {
        Err(ErrorCode::AuthorizationAlreadyExists)
    } else {
        validate_callers_from(s, i + 1)
    }
}

/// The admission checks of vault initialization, in the order they are
/// made: the mint's decimals, the seed list's size, then the seed list
/// entry by entry.
pub open spec fn initialize_vault_checks(mint_decimals: u8, authorized: Seq<AccountId>) -> Result<
    (),
    ErrorCode,
> {
    if mint_decimals != 6 {
        Err(ErrorCode::InvalidMint)
    } else if authorized.len() > MAX_AUTHORIZED_PROGRAMS {
        Err(ErrorCode::AuthorizedProgramsCapacity)
    } else {
        validate_callers_from(authorized, 0)
    }
}

/// Creates a vault with all balances zero and its authorization list
/// seeded with `authorized_programs`, which must hold no null identity
/// and no duplicate and at most [`MAX_AUTHORIZED_PROGRAMS`] entries.
/// `vault_key`, `authority_key` and `token_account_key` are the freshly
/// derived addresses of the three accounts.
pub fn initialize_vault(
    user: AccountId,
    vault_key: AccountId,
    authority_key: AccountId,
    token_account_key: AccountId,
    mint_decimals: u8,
    authorized_programs: Vec<AccountId>,
    now: i64,
) -> (r: Result<(CollateralVault, VaultAuthority, VaultInitialized), ErrorCode>)
    ensures
        match r {
            Ok((vault, authority, ev)) => {
                &&& initialize_vault_checks(mint_decimals, authorized_programs@) == Ok::<
                    (),
                    ErrorCode,
                >(())
                &&& vault == (CollateralVault {
                    owner: user,
                    token_account: token_account_key,
                    vault_authority: authority_key,
                    total_balance: 0,
                    locked_balance: 0,
                    available_balance: 0,
                    total_deposited: 0,
                    total_withdrawn: 0,
                    created_at: now,
                })
                &&& authority.vault == vault_key
                &&& authority.authorized_programs@ == authorized_programs@
                &&& authority.wf()
                &&& ev == (VaultInitialized { user, vault: vault_key, amount: 0, timestamp: now })
            },
            Err(e) => initialize_vault_checks(mint_decimals, authorized_programs@) == Err::<
                (),
                ErrorCode,
            >(e),
        },
{
    if mint_decimals != 6 {
        return Err(ErrorCode::InvalidMint);
    }
    let n = authorized_programs.len();
    if n > MAX_AUTHORIZED_PROGRAMS {
        return Err(ErrorCode::AuthorizedProgramsCapacity);
    }
    let mut i: usize = 0;
    while i < n
        invariant
            mint_decimals == 6,
            n == authorized_programs@.len(),
            n <= MAX_AUTHORIZED_PROGRAMS,
            i <= n,
            validate_callers_from(authorized_programs@, 0) == validate_callers_from(
                authorized_programs@,
                i as int,
            ),
            forall|j: int, k: int|
                0 <= j < k < i ==> authorized_programs@[j] != authorized_programs@[k],
            forall|j: int| 0 <= j < i ==> !authorized_programs@[j].is_zero(),
        decreases n - i,
    {
        let entry = authorized_programs[i];
        if entry.eq_zero() {
            proof {
                let s = authorized_programs@;
                assert(s[i as int].is_zero());
                assert(validate_callers_from(s, i as int) == Err::<(), ErrorCode>(
                    ErrorCode::InvalidAuthority,
                ));
            }
            return Err(ErrorCode::InvalidAuthority);
        }
        if contains_id(&authorized_programs, i, &entry) {
            proof {
                let s = authorized_programs@;
                assert(s.subrange(0, i as int).contains(s[i as int]));
                assert(validate_callers_from(s, i as int) == Err::<(), ErrorCode>(
                    ErrorCode::AuthorizationAlreadyExists,
                ));
            }
            return Err(ErrorCode::AuthorizationAlreadyExists);
        }
        proof {
            let s = authorized_programs@;
            assert forall|j: int, k: int| 0 <= j < k < i + 1 implies #[trigger] s[j]
                != #[trigger] s[k] by {
                if k == i as int {
                    assert(s.subrange(0, i as int)[j] == s[j]);
                }
            }
        }
        i = i + 1;
    }
    let vault = CollateralVault {
        owner: user,
        token_account: token_account_key,
        vault_authority: authority_key,
        total_balance: 0,
        locked_balance: 0,
        available_balance: 0,
        total_deposited: 0,
        total_withdrawn: 0,
        created_at: now,
    };
    let authority = VaultAuthority { vault: vault_key, authorized_programs };
    Ok((vault, authority, VaultInitialized { user, vault: vault_key, amount: 0, timestamp: now }))
}

/// The first phase of a delayed withdrawal: funds are not moved, but a
/// request with a fixed execution time `now + WITHDRAWAL_DELAY_SECONDS`
/// is recorded. No request may be opened while funds are locked.
pub open spec fn request_withdrawal_spec(
    vault: CollateralVault,
    vault_key: AccountId,
    user: AccountId,
    request_id: u64,
    amount: u64,
    now: i64,
) -> Result<WithdrawalRequest, ErrorCode> {
    if amount == 0 {
        Err(ErrorCode::InvalidAmount)
    } else if vault.available_balance < amount {
        Err(ErrorCode::InsufficientFunds)
    } else if vault.locked_balance > 0 {
        Err(ErrorCode::ActivePosition)
    } else if now + WITHDRAWAL_DELAY_SECONDS > i64::MAX {
        Err(ErrorCode::Overflow)
    } else {
        Ok(
            WithdrawalRequest {
                vault: vault_key,
                user,
                amount,
                requested_at: now,
                available_at: (now + WITHDRAWAL_DELAY_SECONDS) as i64,
                request_id,
                executed: false,
            },
        )
    }
}

/// Opens a delayed-withdrawal request against `vault` (whose address is
/// `vault_key`). The vault itself is unchanged.
pub fn request_withdrawal(
    vault: &CollateralVault,
    vault_key: AccountId,
    user: AccountId,
    request_id: u64,
    amount: u64,
    now: i64,
) -> (r: Result<(WithdrawalRequest, WithdrawalRequested), ErrorCode>)
    ensures
        match r {
            Ok((request, ev)) => {
                &&& request_withdrawal_spec(*vault, vault_key, user, request_id, amount, now)
                    == Ok::<_, ErrorCode>(request)
                &&& ev == (WithdrawalRequested {
                    user,
                    vault: vault_key,
                    amount,
                    available_at: request.available_at,
                    timestamp: now,
                })
            },
            Err(e) => request_withdrawal_spec(*vault, vault_key, user, request_id, amount, now)
                == Err::<WithdrawalRequest, ErrorCode>(e),
        },
{
    if amount == 0 {
        return Err(ErrorCode::InvalidAmount);
    }
    if vault.available_balance < amount {
        return Err(ErrorCode::InsufficientFunds);
    }
    if vault.locked_balance > 0 {
        return Err(ErrorCode::ActivePosition);
    }
    let available_at = match now.checked_add(WITHDRAWAL_DELAY_SECONDS) {
        Some(v) => v,
        None => { return Err(ErrorCode::Overflow) },
    };
    let request = WithdrawalRequest {
        vault: vault_key,
        user,
        amount,
        requested_at: now,
        available_at,
        request_id,
        executed: false,
    };
    Ok(
        (
            request,
            WithdrawalRequested { user, vault: vault_key, amount, available_at, timestamp: now },
        ),
    )
}

/// The second phase of a delayed withdrawal: once the time lock has
/// elapsed the funds move exactly as in [`withdraw_spec`], and the
/// request is closed. All conditions are judged at execution time.
pub open spec fn execute_withdrawal_spec(
    vault: CollateralVault,
    request: WithdrawalRequest,
    vault_key: AccountId,
    user: AccountId,
    recipient_owner: AccountId,
    now: i64,
) -> Result<(CollateralVault, WithdrawalRequest), ErrorCode> {
    if vault.vault_authority.is_zero() {
        Err(ErrorCode::InvalidVaultAuthority)
    } else if request.executed {
        Err(ErrorCode::AlreadyExecuted)
    } else if request.user != user {
        Err(ErrorCode::Unauthorized)
    } else if request.vault != vault_key {
        Err(ErrorCode::InvalidWithdrawalRequest)
    } else if now < request.available_at {
        Err(ErrorCode::WithdrawalDelayNotMet)
    } else if vault.available_balance < request.amount {
        Err(ErrorCode::InsufficientFunds)
    } else if vault.locked_balance > 0 {
        Err(ErrorCode::ActivePosition)
    } else if recipient_owner != user {
        Err(ErrorCode::InvalidAuthority)
    } else if vault.total_balance < request.amount {
        Err(ErrorCode::Underflow)
    } else if vault.total_withdrawn + request.amount > u64::MAX {
        Err(ErrorCode::Overflow)
    } else {
        Ok(
            (
                CollateralVault {
                    total_balance: (vault.total_balance - request.amount) as u64,
                    available_balance: (vault.available_balance - request.amount) as u64,
                    total_withdrawn: (vault.total_withdrawn + request.amount) as u64,
                    ..vault
                },
                WithdrawalRequest { executed: true, ..request },
            ),
        )
    }
}

/// Executes a pending withdrawal request. `vault_key` is the vault's
/// address, `user` the signing caller, and `recipient_owner` the owner
/// of the account receiving the funds.
pub fn execute_withdrawal(
    vault: &mut CollateralVault,
    request: &mut WithdrawalRequest,
    vault_key: AccountId,
    user: AccountId,
    recipient_owner: AccountId,
    now: i64,
) -> (r: Result<WithdrawalExecuted, ErrorCode>)
    ensures
        match r {
            Ok(ev) => {
                &&& execute_withdrawal_spec(
                    *old(vault),
                    *old(request),
                    vault_key,
                    user,
                    recipient_owner,
                    now,
                ) == Ok::<_, ErrorCode>((*final(vault), *final(request)))
                &&& ev == (WithdrawalExecuted {
                    user,
                    vault: vault_key,
                    amount: old(request).amount,
                    timestamp: now,
                })
            },
            Err(e) => {
                &&& execute_withdrawal_spec(
                    *old(vault),
                    *old(request),
                    vault_key,
                    user,
                    recipient_owner,
                    now,
                ) == Err::<(CollateralVault, WithdrawalRequest), ErrorCode>(e)
                &&& *final(vault) == *old(vault)
                &&& *final(request) == *old(request)
            },
        },
{
    if vault.vault_authority.eq_zero() {
        return Err(ErrorCode::InvalidVaultAuthority);
    }
    if request.executed {
        return Err(ErrorCode::AlreadyExecuted);
    }
    if request.user != user {
        return Err(ErrorCode::Unauthorized);
    }
    if request.vault != vault_key {
        return Err(ErrorCode::InvalidWithdrawalRequest);
    }
    if now < request.available_at {
        return Err(ErrorCode::WithdrawalDelayNotMet);
    }
    if vault.available_balance < request.amount {
        return Err(ErrorCode::InsufficientFunds);
    }
    if vault.locked_balance > 0 {
        return Err(ErrorCode::ActivePosition);
    }
    if recipient_owner != user {
        return Err(ErrorCode::InvalidAuthority);
    }
    let total = match vault.total_balance.checked_sub(request.amount) {
        Some(v) => v,
        None => { return Err(ErrorCode::Underflow) },
    };
    let available = match vault.available_balance.checked_sub(request.amount) {
        Some(v) => v,
        None => { return Err(ErrorCode::Underflow) },
    };
    let withdrawn = match vault.total_withdrawn.checked_add(request.amount) {
        Some(v) => v,
        None => { return Err(ErrorCode::Overflow) },
    };
    vault.total_balance = total;
    vault.available_balance = available;
    vault.total_withdrawn = withdrawn;
    request.executed = true;
    Ok(WithdrawalExecuted { user, vault: vault_key, amount: request.amount, timestamp: now })
}

/// Attaches a multi-signer configuration to a vault: the threshold must
/// be positive and within the signer list.
pub open spec fn initialize_multisig_checks(threshold: u8, signers: Seq<AccountId>) -> Result<
    (),
    ErrorCode,
> {
    if threshold == 0 {
        Err(ErrorCode::InvalidAmount)
    } else if threshold > signers.len() {
        Err(ErrorCode::InvalidAmount)
    } else {
        Ok(())
    }
}

/// Creates the multi-signer configuration for the vault at `vault_key`.
pub fn initialize_multisig(
    vault_key: AccountId,
    signers: Vec<AccountId>,
    threshold: u8,
    now: i64,
) -> (r: Result<(MultisigConfig, MultisigInitialized), ErrorCode>)
    requires
        signers@.len() <= u8::MAX as int,
    ensures
        match r {
            Ok((config, ev)) => {
                &&& initialize_multisig_checks(threshold, signers@) == Ok::<(), ErrorCode>(())
                &&& config.vault == vault_key
                &&& config.signers@ == signers@
                &&& config.threshold == threshold
                &&& ev == (MultisigInitialized {
                    vault: vault_key,
                    threshold,
                    signers: signers@.len() as u8,
                    timestamp: now,
                })
            },
            Err(e) => initialize_multisig_checks(threshold, signers@) == Err::<(), ErrorCode>(e),
        },
{
    if threshold == 0 {
        return Err(ErrorCode::InvalidAmount);
    }
    if threshold as usize > signers.len() {
        return Err(ErrorCode::InvalidAmount);
    }
    let count = signers.len() as u8;
    let config = MultisigConfig { vault: vault_key, signers, threshold };
    Ok(
        (
            config,
            MultisigInitialized { vault: vault_key, threshold, signers: count, timestamp: now },
        ),
    )
}

} // verus!
