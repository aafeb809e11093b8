use collateral_vault::account::AccountId;
use collateral_vault::addresses::{authority_address, vault_address, withdrawal_address};
use collateral_vault::errors::ErrorCode;
use collateral_vault::instructions::{
    add_authorized_program, deposit, execute_withdrawal, initialize_multisig, initialize_vault,
    lock_collateral, remove_authorized_program, request_withdrawal, transfer_collateral,
    unlock_collateral, withdraw,
};
use collateral_vault::state::{CollateralVault, VaultAuthority, WITHDRAWAL_DELAY_SECONDS};

fn id(n: u64) -> AccountId {
    AccountId { w0: n, w1: n.wrapping_mul(7).wrapping_add(13), w2: n ^ 0xfeed, w3: n + 1 }
}

fn zero_id() -> AccountId {
    AccountId { w0: 0, w1: 0, w2: 0, w3: 0 }
}

fn fresh_vault(owner: AccountId, available: u64, locked: u64) -> CollateralVault {
    CollateralVault {
        owner,
        token_account: id(900),
        vault_authority: id(901),
        total_balance: available + locked,
        locked_balance: locked,
        available_balance: available,
        total_deposited: available + locked,
        total_withdrawn: 0,
        created_at: 0,
    }
}

fn authority_for(vault_key: AccountId, callers: Vec<AccountId>) -> VaultAuthority {
    VaultAuthority { vault: vault_key, authorized_programs: callers }
}

#[test]
fn test_balance_calculations() {
    let total_balance: u64 = 1000;
    let locked_balance: u64 = 300;
    let available_balance = total_balance - locked_balance;

    assert_eq!(available_balance, 700, "Available balance calculation incorrect");

    let max_balance: u64 = u64::MAX;
    let result = max_balance.checked_add(1);
    assert!(result.is_none(), "Should detect overflow");
}

#[test]
fn test_lock_unlock_logic() {
    let owner = id(1);
    let caller = id(2);
    let mut vault = fresh_vault(owner, 1000, 0);
    let authority = authority_for(id(901), vec![caller]);

    let lock_amount: u64 = 300;
    assert!(vault.available_balance >= lock_amount, "Insufficient available balance");
    lock_collateral(&mut vault, &authority, owner, caller, true, lock_amount, 10).unwrap();

    assert_eq!(vault.locked_balance, 300);
    assert_eq!(vault.available_balance, 700);
    assert_eq!(vault.total_balance, vault.locked_balance + vault.available_balance);

    let unlock_amount: u64 = 100;
    assert!(vault.locked_balance >= unlock_amount, "Insufficient locked balance");
    unlock_collateral(&mut vault, &authority, owner, caller, true, unlock_amount, 11).unwrap();

    assert_eq!(vault.locked_balance, 200);
    assert_eq!(vault.available_balance, 800);
    assert_eq!(vault.total_balance, vault.locked_balance + vault.available_balance);
}

#[test]
fn test_unauthorized_withdrawal_protection() {
    let vault_owner = id(11);
    let attacker = id(12);

    let is_authorized = vault_owner == attacker;
    assert!(!is_authorized, "Attacker should not be authorized");
}

#[test]
fn test_integer_overflow_protection() {
    let balance: u64 = u64::MAX - 100;
    let deposit_amount: u64 = 200;

    let result = balance.checked_add(deposit_amount);
    assert!(result.is_none(), "Should detect overflow");
}

#[test]
fn test_integer_underflow_protection() {
    let balance: u64 = 100;
    let withdrawal: u64 = 200;

    let result = balance.checked_sub(withdrawal);
    assert!(result.is_none(), "Should detect underflow");
}

#[test]
fn test_withdrawal_with_locked_funds() {
    let owner = id(3);
    let mut vault = fresh_vault(owner, 500, 500);
    let withdrawal_amount: u64 = 600;

    let can_withdraw = vault.available_balance >= withdrawal_amount;
    assert!(!can_withdraw, "Should not allow withdrawal exceeding available balance");

    let before = vault;
    let r = withdraw(&mut vault, owner, owner, withdrawal_amount, 5);
    assert_eq!(r.unwrap_err(), ErrorCode::InsufficientFunds);
    assert_eq!(vault, before);
}

#[test]
fn test_cpi_lock_flow() {
    let owner = id(4);
    let caller = id(5);
    let lock_amount: u64 = 1000;
    let mut vault = fresh_vault(owner, 5000, 0);
    let authority = authority_for(id(901), vec![caller]);

    assert!(
        vault.available_balance >= lock_amount,
        "Insufficient available balance for lock"
    );
    lock_collateral(&mut vault, &authority, owner, caller, true, lock_amount, 20).unwrap();

    assert_eq!(vault.locked_balance, lock_amount);
    assert_eq!(vault.available_balance, 4000);
}

#[test]
fn test_cpi_unlock_flow() {
    let owner = id(6);
    let caller = id(7);
    let unlock_amount: u64 = 1000;
    let mut vault = fresh_vault(owner, 4000, 1000);
    let authority = authority_for(id(901), vec![caller]);

    assert!(
        vault.locked_balance >= unlock_amount,
        "Insufficient locked balance for unlock"
    );
    unlock_collateral(&mut vault, &authority, owner, caller, true, unlock_amount, 21).unwrap();

    assert_eq!(vault.locked_balance, 0);
    assert_eq!(vault.available_balance, 5000);
}

#[test]
fn test_transfer_between_vaults() {
    let user1 = id(8);
    let user2 = id(9);
    let operator = user1;
    let caller = id(10);
    let transfer_amount: u64 = 500;

    let mut from_vault = fresh_vault(user1, 1000, 0);
    let mut to_vault = fresh_vault(user2, 500, 0);
    let from_authority = authority_for(id(902), vec![caller]);
    let to_authority = authority_for(id(903), vec![caller]);
    let sum_before = from_vault.total_balance + to_vault.total_balance;

    assert!(
        from_vault.available_balance >= transfer_amount,
        "Insufficient funds for transfer"
    );
    transfer_collateral(
        &mut from_vault,
        &mut to_vault,
        &from_authority,
        &to_authority,
        id(902),
        id(903),
        operator,
        caller,
        true,
        transfer_amount,
        30,
    )
    .unwrap();

    assert_eq!(from_vault.available_balance, 500);
    assert_eq!(to_vault.available_balance, 1000);
    assert_eq!(from_vault.total_balance + to_vault.total_balance, sum_before);
}

#[test]
fn test_invalid_amount_error() {
    let owner = id(13);
    let mut vault = fresh_vault(owner, 1000, 0);

    let amount: u64 = 0;
    let is_valid = amount > 0;
    assert!(!is_valid, "Zero amount should be invalid");
    assert_eq!(
        deposit(&mut vault, owner, owner, amount, 1).unwrap_err(),
        ErrorCode::InvalidAmount
    );
}

#[test]
fn test_insufficient_funds_error() {
    let owner = id(14);
    let mut vault = fresh_vault(owner, 500, 0);
    let withdrawal: u64 = 1000;

    let has_funds = vault.available_balance >= withdrawal;
    assert!(!has_funds, "Should detect insufficient funds");
    assert_eq!(
        withdraw(&mut vault, owner, owner, withdrawal, 1).unwrap_err(),
        ErrorCode::InsufficientFunds
    );
}

#[test]
fn test_active_position_error() {
    let owner = id(15);
    let mut vault = fresh_vault(owner, 1000, 1000);

    let has_open_position = vault.locked_balance > 0;
    assert!(has_open_position, "Should detect active position");
    let before = vault;
    assert_eq!(
        withdraw(&mut vault, owner, owner, 100, 1).unwrap_err(),
        ErrorCode::ActivePosition
    );
    assert_eq!(vault, before, "a refused withdrawal moves nothing");
}

#[test]
fn test_initialize_vault() {
    let user = id(16);
    let program = id(500);

    let vault_pda = vault_address(&user, &program).expect("derivation should find an address");
    assert!(vault_pda != zero_id(), "Vault PDA should be valid");

    let authority_pda =
        authority_address(&vault_pda, &program).expect("derivation should find an address");
    let (vault, authority, event) = initialize_vault(
        user,
        vault_pda,
        authority_pda,
        id(700),
        6,
        vec![id(17)],
        1000,
    )
    .unwrap();
    assert_eq!(vault.owner, user);
    assert_eq!(vault.total_balance, 0);
    assert_eq!(vault.available_balance, 0);
    assert_eq!(vault.locked_balance, 0);
    assert_eq!(authority.vault, vault_pda);
    assert_eq!(authority.authorized_programs, vec![id(17)]);
    assert_eq!(event.vault, vault_pda);
}

#[test]
fn test_vault_pda_derivation() {
    let user = id(18);
    let program = id(500);

    let vault_pda_1 = vault_address(&user, &program);
    let vault_pda_2 = vault_address(&user, &program);

    assert_eq!(vault_pda_1, vault_pda_2, "PDA derivation should be deterministic");
    assert!(vault_pda_1.is_some());
}

#[test]
fn address_derivation_transforms_its_inputs() {
    let user = id(19);
    let program = id(500);

    let vault_pda = vault_address(&user, &program).unwrap();
    assert_ne!(vault_pda, user);
    assert_ne!(vault_pda, program);
    assert_ne!(vault_pda, zero_id());

    let other = vault_address(&id(20), &program).unwrap();
    assert_ne!(vault_pda, other, "different owners get different addresses");

    let request_pda = withdrawal_address(&vault_pda, 1, &program).unwrap();
    let request_pda_other = withdrawal_address(&vault_pda, 2, &program).unwrap();
    assert_ne!(request_pda, request_pda_other, "request number is part of the seeds");
}

#[test]
fn test_pda_derivation_performance() {
    let program = id(500);
    let iterations: u64 = 1000;

    let start = std::time::Instant::now();
    for i in 0..iterations {
        let user = id(1000 + i);
        let _ = vault_address(&user, &program);
    }
    let duration = start.elapsed();

    let avg_time = duration.as_micros() / iterations as u128;
    assert!(avg_time < 1000, "PDA derivation should be fast");
}

#[test]
fn test_balance_calculation_performance() {
    let iterations = 100_000;
    let start = std::time::Instant::now();

    for _ in 0..iterations {
        let total: u64 = 10000;
        let locked: u64 = 3000;
        let available = total - locked;
        assert_eq!(available, 7000);
    }

    let _duration = start.elapsed();
}

#[test]
fn deposit_updates_all_three_counters() {
    let owner = id(21);
    let mut vault = fresh_vault(owner, 0, 0);

    let event = deposit(&mut vault, owner, owner, 2500, 77).unwrap();
    assert_eq!(vault.total_balance, 2500);
    assert_eq!(vault.available_balance, 2500);
    assert_eq!(vault.total_deposited, 2500);
    assert_eq!(vault.locked_balance, 0);
    assert_eq!(event.new_balance, 2500);
    assert_eq!(event.timestamp, 77);
}

#[test]
fn deposit_rejects_foreign_funding_account() {
    let owner = id(22);
    let mut vault = fresh_vault(owner, 0, 0);
    let before = vault;

    let r = deposit(&mut vault, owner, id(23), 100, 1);
    assert_eq!(r.unwrap_err(), ErrorCode::InvalidAuthority);
    assert_eq!(vault, before);
}

#[test]
fn deposit_overflow_leaves_vault_unchanged() {
    let owner = id(24);
    let mut vault = fresh_vault(owner, 0, 0);
    vault.total_balance = u64::MAX - 100;
    vault.available_balance = u64::MAX - 100;
    let before = vault;

    let r = deposit(&mut vault, owner, owner, 200, 1);
    assert_eq!(r.unwrap_err(), ErrorCode::Overflow);
    assert_eq!(vault, before);
}

#[test]
fn withdraw_underflow_on_inconsistent_totals() {
    let owner = id(25);
    let mut vault = fresh_vault(owner, 0, 0);
    vault.available_balance = 500;
    vault.total_balance = 100;

    let r = withdraw(&mut vault, owner, owner, 300, 1);
    assert_eq!(r.unwrap_err(), ErrorCode::Underflow);
}

#[test]
fn lock_requires_listed_and_executable_caller() {
    let owner = id(26);
    let listed = id(27);
    let unlisted = id(28);
    let mut vault = fresh_vault(owner, 1000, 0);
    let authority = authority_for(id(901), vec![listed]);

    assert_eq!(
        lock_collateral(&mut vault, &authority, owner, unlisted, true, 100, 1).unwrap_err(),
        ErrorCode::Unauthorized
    );
    assert_eq!(
        lock_collateral(&mut vault, &authority, owner, listed, false, 100, 1).unwrap_err(),
        ErrorCode::Unauthorized
    );
    assert_eq!(vault.locked_balance, 0);
    lock_collateral(&mut vault, &authority, owner, listed, true, 100, 1).unwrap();
    assert_eq!(vault.locked_balance, 100);
}

#[test]
fn unlock_beyond_locked_fails() {
    let owner = id(29);
    let caller = id(30);
    let mut vault = fresh_vault(owner, 500, 200);
    let authority = authority_for(id(901), vec![caller]);

    assert_eq!(
        unlock_collateral(&mut vault, &authority, owner, caller, true, 300, 1).unwrap_err(),
        ErrorCode::InsufficientLockedFunds
    );
}

#[test]
fn initialize_vault_rejects_bad_seed_lists() {
    let user = id(31);
    assert_eq!(
        initialize_vault(user, id(1), id(2), id(3), 5, vec![], 0).unwrap_err(),
        ErrorCode::InvalidMint
    );
    assert_eq!(
        initialize_vault(user, id(1), id(2), id(3), 6, vec![zero_id()], 0).unwrap_err(),
        ErrorCode::InvalidAuthority
    );
    assert_eq!(
        initialize_vault(user, id(1), id(2), id(3), 6, vec![id(4), id(4)], 0).unwrap_err(),
        ErrorCode::AuthorizationAlreadyExists
    );
    let too_many: Vec<AccountId> = (0..17).map(|i| id(40 + i)).collect();
    assert_eq!(
        initialize_vault(user, id(1), id(2), id(3), 6, too_many, 0).unwrap_err(),
        ErrorCode::AuthorizedProgramsCapacity
    );
}

#[test]
fn authority_list_add_and_remove() {
    let mut authority = authority_for(id(901), vec![id(50), id(51), id(52)]);

    assert_eq!(
        add_authorized_program(&mut authority, id(901), zero_id(), 1).unwrap_err(),
        ErrorCode::InvalidAuthority
    );
    assert_eq!(
        add_authorized_program(&mut authority, id(901), id(51), 1).unwrap_err(),
        ErrorCode::AuthorizationAlreadyExists
    );
    add_authorized_program(&mut authority, id(901), id(53), 1).unwrap();
    assert!(authority.is_authorized(&id(53)));

    // The removal swaps the last entry into the removed slot.
    remove_authorized_program(&mut authority, id(901), id(50), 2).unwrap();
    assert!(!authority.is_authorized(&id(50)));
    assert!(authority.is_authorized(&id(51)));
    assert!(authority.is_authorized(&id(52)));
    assert!(authority.is_authorized(&id(53)));
    assert_eq!(authority.authorized_programs, vec![id(53), id(51), id(52)]);

    assert_eq!(
        remove_authorized_program(&mut authority, id(901), id(50), 3).unwrap_err(),
        ErrorCode::Unauthorized
    );
}

#[test]
fn authority_list_capacity_is_sixteen() {
    let mut authority = authority_for(id(901), (0..16).map(|i| id(60 + i)).collect());
    assert_eq!(
        add_authorized_program(&mut authority, id(901), id(99), 1).unwrap_err(),
        ErrorCode::AuthorizedProgramsCapacity
    );
}

#[test]
fn delayed_withdrawal_two_phases() {
    let owner = id(70);
    let vault_key = id(71);
    let mut vault = fresh_vault(owner, 10_000, 0);
    let requested_at: i64 = 1_000_000;

    let (mut request, event) =
        request_withdrawal(&vault, vault_key, owner, 1, 4_000, requested_at).unwrap();
    assert_eq!(request.available_at, requested_at + WITHDRAWAL_DELAY_SECONDS);
    assert_eq!(event.available_at, request.available_at);
    assert!(!request.executed);
    assert_eq!(vault.available_balance, 10_000, "no funds move at request time");

    // Too early: one second before the lock elapses.
    let too_early = request.available_at - 1;
    let r = execute_withdrawal(&mut vault, &mut request, vault_key, owner, owner, too_early);
    assert_eq!(r.unwrap_err(), ErrorCode::WithdrawalDelayNotMet);
    assert_eq!(vault.available_balance, 10_000);

    // On time: the funds move exactly once.
    let when = request.available_at;
    execute_withdrawal(&mut vault, &mut request, vault_key, owner, owner, when).unwrap();
    assert!(request.executed);
    assert_eq!(vault.available_balance, 6_000);
    assert_eq!(vault.total_balance, 6_000);
    assert_eq!(vault.total_withdrawn, 4_000);

    // Again: refused, balances unchanged.
    let r = execute_withdrawal(&mut vault, &mut request, vault_key, owner, owner, when + 10);
    assert_eq!(r.unwrap_err(), ErrorCode::AlreadyExecuted);
    assert_eq!(vault.available_balance, 6_000);
    assert_eq!(vault.total_balance, 6_000);
    assert_eq!(vault.total_withdrawn, 4_000);
}

#[test]
fn request_withdrawal_refused_while_locked() {
    let owner = id(72);
    let vault = fresh_vault(owner, 1000, 50);

    let r = request_withdrawal(&vault, id(73), owner, 1, 100, 0);
    assert_eq!(r.unwrap_err(), ErrorCode::ActivePosition);
}

#[test]
fn execute_withdrawal_binding_checks() {
    let owner = id(74);
    let vault_key = id(75);
    let mut vault = fresh_vault(owner, 1000, 0);
    let (request, _) = request_withdrawal(&vault, vault_key, owner, 1, 100, 0).unwrap();
    let when = request.available_at;

    // Wrong signer.
    let mut req = request;
    assert_eq!(
        execute_withdrawal(&mut vault, &mut req, vault_key, id(76), id(76), when).unwrap_err(),
        ErrorCode::Unauthorized
    );

    // Wrong vault address.
    let mut req = request;
    assert_eq!(
        execute_withdrawal(&mut vault, &mut req, id(77), owner, owner, when).unwrap_err(),
        ErrorCode::InvalidWithdrawalRequest
    );

    // Recipient account owned by someone else.
    let mut req = request;
    assert_eq!(
        execute_withdrawal(&mut vault, &mut req, vault_key, owner, id(78), when).unwrap_err(),
        ErrorCode::InvalidAuthority
    );

    // A vault with no authority record set.
    let mut broken = vault;
    broken.vault_authority = zero_id();
    let mut req = request;
    assert_eq!(
        execute_withdrawal(&mut broken, &mut req, vault_key, owner, owner, when).unwrap_err(),
        ErrorCode::InvalidVaultAuthority
    );
}

#[test]
fn transfer_authorization_paths() {
    let user1 = id(84);
    let user2 = id(85);
    let caller = id(86);
    let outsider = id(87);

    let mut from_vault = fresh_vault(user1, 1000, 0);
    let mut to_vault = fresh_vault(user2, 0, 0);
    let from_authority = authority_for(id(902), vec![caller]);
    let to_authority = authority_for(id(903), vec![caller]);

    // The operator must own one of the two vaults.
    assert_eq!(
        transfer_collateral(
            &mut from_vault,
            &mut to_vault,
            &from_authority,
            &to_authority,
            id(902),
            id(903),
            outsider,
            caller,
            true,
            100,
            1,
        )
        .unwrap_err(),
        ErrorCode::InvalidAuthority
    );

    // The caller must be authorized on both vaults.
    let empty_authority = authority_for(id(903), vec![]);
    assert_eq!(
        transfer_collateral(
            &mut from_vault,
            &mut to_vault,
            &from_authority,
            &empty_authority,
            id(902),
            id(903),
            user1,
            caller,
            true,
            100,
            1,
        )
        .unwrap_err(),
        ErrorCode::Unauthorized
    );
    assert_eq!(from_vault.available_balance, 1000, "refused transfers move nothing");
    assert_eq!(to_vault.available_balance, 0);
}

#[test]
fn request_withdrawal_near_the_end_of_time() {
    let owner = id(88);
    let vault = fresh_vault(owner, 1000, 0);

    let r = request_withdrawal(&vault, id(89), owner, 1, 100, i64::MAX - 10);
    assert_eq!(r.unwrap_err(), ErrorCode::Overflow);
}

#[test]
fn multisig_threshold_checks() {
    assert_eq!(
        initialize_multisig(id(80), vec![id(81)], 0, 1).unwrap_err(),
        ErrorCode::InvalidAmount
    );
    assert_eq!(
        initialize_multisig(id(80), vec![id(81)], 2, 1).unwrap_err(),
        ErrorCode::InvalidAmount
    );
    let (config, event) = initialize_multisig(id(80), vec![id(81), id(82), id(83)], 2, 1).unwrap();
    assert_eq!(config.threshold, 2);
    assert_eq!(config.signers.len(), 3);
    assert_eq!(event.signers, 3);
}

#[test]
fn account_id_byte_round_trip() {
    let a = id(90);
    let bytes = a.to_le_bytes();
    assert_eq!(bytes.len(), 32);
    let back = AccountId::from_le_bytes(bytes.as_slice());
    assert_eq!(a, back);
}
