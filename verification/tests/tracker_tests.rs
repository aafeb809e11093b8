use collateral_vault::account::AccountId;
use collateral_vault::api::{AlertsResponse, BalanceResponse, TransactionsResponse, VaultRequest};
use collateral_vault::instructions::{deposit, lock_collateral};
use collateral_vault::monitor::{alert_severity, Severity, VaultMonitor};
use collateral_vault::records::{
    AuditLog, BalanceSnapshot, Database, TransactionRecord, TransactionStatus, TransactionType,
};
use collateral_vault::state::VaultAuthority;
use collateral_vault::tracker::{
    is_high_locked_ratio, is_low_balance, AlertType, BalanceAlert, BalanceTracker,
    ReconciliationStatus, VaultBalance,
};

fn id(n: u64) -> AccountId {
    AccountId { w0: n, w1: n + 5, w2: n + 6, w3: n + 7 }
}

fn balance_of(owner: AccountId, total: u64, locked: u64, available: u64) -> VaultBalance {
    VaultBalance {
        owner,
        total_balance: total,
        locked_balance: locked,
        available_balance: available,
        total_deposited: total,
        total_withdrawn: 0,
        created_at: 0,
    }
}

#[test]
fn test_low_balance_alert() {
    let available_balance: u64 = 500_000;
    let threshold: u64 = 1_000_000;

    let should_alert = available_balance < threshold && available_balance > 0;
    assert!(should_alert, "Should trigger low balance alert");
    assert!(is_low_balance(available_balance));
    assert_eq!(alert_severity(AlertType::LowBalance), Severity::Medium);
}

#[test]
fn test_high_locked_ratio_alert() {
    let total_balance: u64 = 1000;
    let locked_balance: u64 = 850;

    let should_alert = is_high_locked_ratio(total_balance, locked_balance);
    assert!(should_alert, "Should trigger high locked ratio alert");
    assert_eq!(alert_severity(AlertType::HighLockedRatio), Severity::High);
}

#[test]
fn test_tvl_calculation() {
    let mut tracker = BalanceTracker::new();
    let amounts: [u64; 4] = [1000, 2000, 3000, 5000];
    for (i, total) in amounts.iter().enumerate() {
        tracker.record_balance(balance_of(id(i as u64), *total, 0, *total), 0);
    }

    let tvl = tracker.calculate_tvl();
    assert_eq!(tvl, 11000, "TVL calculation incorrect");
}

#[test]
fn test_balance_reconciliation_match() {
    let owner = id(40);
    let mut tracker = BalanceTracker::new();
    tracker.record_balance(balance_of(owner, 5000, 0, 5000), 0);

    let outcome = tracker.reconcile(owner, balance_of(owner, 5000, 0, 5000), 1);
    assert!(outcome.matched, "Balances should match");
    assert_eq!(outcome.record.status, ReconciliationStatus::Matched);
    assert_eq!(outcome.record.discrepancy, 0);
}

#[test]
fn test_balance_reconciliation_mismatch() {
    let owner = id(41);
    let mut tracker = BalanceTracker::new();
    tracker.record_balance(balance_of(owner, 4500, 0, 4500), 0);

    let outcome = tracker.reconcile(owner, balance_of(owner, 5000, 0, 5000), 1);
    assert!(!outcome.matched, "Balances should NOT match");

    let discrepancy = outcome.record.discrepancy;
    assert_eq!(discrepancy, 500);
    assert_eq!(outcome.record.onchain_balance, 5000);
    assert_eq!(outcome.record.offchain_balance, 4500);
    assert_eq!(outcome.record.status, ReconciliationStatus::Mismatched);
    let last = outcome.alerts.last().unwrap();
    assert_eq!(last.alert_type, AlertType::Discrepancy);
    assert_eq!(last.vault, owner);
    assert_eq!(alert_severity(last.alert_type), Severity::Critical);
}

#[test]
fn deposit_of_one_million_raises_no_low_balance_alert() {
    let owner = id(42);
    let mut vault = collateral_vault::state::CollateralVault {
        owner,
        token_account: id(900),
        vault_authority: id(901),
        total_balance: 0,
        locked_balance: 0,
        available_balance: 0,
        total_deposited: 0,
        total_withdrawn: 0,
        created_at: 0,
    };
    deposit(&mut vault, owner, owner, 1_000_000, 1).unwrap();
    assert_eq!(vault.available_balance, 1_000_000);

    let mut tracker = BalanceTracker::new();
    let raised = tracker.record_balance(
        balance_of(owner, vault.total_balance, vault.locked_balance, vault.available_balance),
        2,
    );
    assert!(
        raised.iter().all(|a| a.alert_type != AlertType::LowBalance),
        "exactly the threshold is not below it"
    );
    assert!(raised.is_empty());
}

#[test]
fn just_below_threshold_raises_low_balance_alert() {
    let owner = id(43);
    let mut tracker = BalanceTracker::new();
    let raised = tracker.record_balance(balance_of(owner, 999_999, 0, 999_999), 2);
    assert_eq!(raised.len(), 1);
    assert_eq!(raised[0].alert_type, AlertType::LowBalance);
    assert_eq!(raised[0].vault, owner);
}

#[test]
fn lock_of_85_percent_raises_high_locked_ratio_alert() {
    let owner = id(44);
    let caller = id(45);
    let mut vault = collateral_vault::state::CollateralVault {
        owner,
        token_account: id(900),
        vault_authority: id(901),
        total_balance: 0,
        locked_balance: 0,
        available_balance: 0,
        total_deposited: 0,
        total_withdrawn: 0,
        created_at: 0,
    };
    deposit(&mut vault, owner, owner, 1_000_000, 1).unwrap();
    let authority = VaultAuthority { vault: id(901), authorized_programs: vec![caller] };
    lock_collateral(&mut vault, &authority, owner, caller, true, 850_000, 2).unwrap();
    assert_eq!(vault.locked_balance, 850_000);
    assert_eq!(vault.available_balance, 150_000);

    let mut tracker = BalanceTracker::new();
    let raised = tracker.record_balance(
        balance_of(owner, vault.total_balance, vault.locked_balance, vault.available_balance),
        3,
    );
    assert!(raised.iter().any(|a| a.alert_type == AlertType::HighLockedRatio));
}

#[test]
fn exactly_80_percent_is_not_high_ratio() {
    assert!(!is_high_locked_ratio(1000, 800));
    assert!(is_high_locked_ratio(1000, 801));
    assert!(!is_high_locked_ratio(0, 0));
}

#[test]
fn alert_buffer_keeps_the_newest_hundred() {
    let mut tracker = BalanceTracker::new();
    for i in 0..120u64 {
        // Each pass raises exactly one low-balance alert.
        tracker.record_balance(balance_of(id(i), 500, 0, 500), i as i64);
    }
    let alerts = tracker.get_alerts();
    assert_eq!(alerts.len(), 100);
    assert_eq!(alerts[0].timestamp, 20);
    assert_eq!(alerts[99].timestamp, 119);
}

#[test]
fn reconcile_with_no_cached_entry_counts_as_match() {
    let owner = id(61);
    let mut tracker = BalanceTracker::new();

    let outcome = tracker.reconcile(owner, balance_of(owner, 5000, 0, 5000), 1);
    assert!(outcome.matched, "with nothing cached there is no staleness to report");
    assert_eq!(outcome.record.onchain_balance, 5000);
    assert_eq!(outcome.record.offchain_balance, 5000);
    assert_eq!(outcome.record.discrepancy, 0);
    assert_eq!(
        tracker.get_cached_balance(&owner).unwrap().total_balance,
        5000,
        "the fetch still refreshes the cache"
    );
}

#[test]
fn tvl_saturates_at_the_64_bit_maximum() {
    let mut tracker = BalanceTracker::new();
    tracker.record_balance(balance_of(id(62), u64::MAX, 0, u64::MAX), 0);
    tracker.record_balance(balance_of(id(63), u64::MAX, 0, u64::MAX), 1);
    assert_eq!(tracker.calculate_tvl(), u64::MAX);
}

#[test]
fn cache_overwrites_per_owner() {
    let owner = id(46);
    let mut tracker = BalanceTracker::new();
    tracker.record_balance(balance_of(owner, 1000, 0, 1000), 0);
    tracker.record_balance(balance_of(owner, 7000, 0, 7000), 1);
    tracker.record_balance(balance_of(id(47), 11, 0, 11), 2);

    let cached = tracker.get_cached_balance(&owner).unwrap();
    assert_eq!(cached.total_balance, 7000);
    assert_eq!(tracker.calculate_tvl(), 7011);
    assert!(tracker.get_cached_balance(&id(48)).is_none());
}

#[test]
fn monitor_metrics_history_is_capped() {
    let mut monitor = VaultMonitor::new();
    for i in 0..1500u64 {
        monitor.collect_metrics(i, 3, i as i64);
    }
    let history = monitor.get_metrics_history(2000);
    assert_eq!(history.len(), 1440);
    assert_eq!(history[0].timestamp, 60);
    assert_eq!(monitor.get_current_metrics().unwrap().timestamp, 1499);

    let short = monitor.get_metrics_history(5);
    assert_eq!(short.len(), 5);
    assert_eq!(short[4].timestamp, 1499);
}

#[test]
fn monitor_escalates_only_unauthorized_access() {
    let mut monitor = VaultMonitor::new();
    let alerts = vec![
        BalanceAlert {
            vault: id(49),
            alert_type: AlertType::LowBalance,
            message: "low",
            timestamp: 1,
        },
        BalanceAlert {
            vault: id(50),
            alert_type: AlertType::UnauthorizedAccess,
            message: "unauthorized",
            timestamp: 2,
        },
        BalanceAlert {
            vault: id(51),
            alert_type: AlertType::Discrepancy,
            message: "mismatch",
            timestamp: 3,
        },
    ];
    let count = monitor.security_check(&alerts);
    assert_eq!(count, 1);
    let escalated = monitor.get_security_alerts();
    assert_eq!(escalated.len(), 1);
    assert!(matches!(escalated[0].severity, Severity::Critical));
    assert_eq!(escalated[0].vault, Some(id(50)));
    assert_eq!(escalated[0].timestamp, 2);
}

#[test]
fn database_filters_by_user() {
    let mut db = Database::new();
    let tx = |n: u64, user: AccountId| TransactionRecord {
        id: format!("tx-{}", n),
        user,
        tx_type: TransactionType::Deposit,
        amount: n,
        signature: format!("sig-{}", n),
        status: TransactionStatus::Confirmed,
        timestamp: n as i64,
    };
    db.insert_transaction(tx(1, id(52)));
    db.insert_transaction(tx(2, id(53)));
    db.insert_transaction(tx(3, id(52)));

    let mine = db.get_user_transactions(&id(52));
    assert_eq!(mine.len(), 2);
    assert_eq!(mine[0].amount, 1);
    assert_eq!(mine[1].amount, 3);
    assert_eq!(db.get_all_transactions().len(), 3);
    assert!(db.get_user_transactions(&id(54)).is_empty());
}

#[test]
fn database_snapshot_queries() {
    let mut db = Database::new();
    let snap = |n: u64, user: AccountId| BalanceSnapshot {
        id: format!("snap-{}", n),
        user,
        total_balance: n * 100,
        locked_balance: 0,
        available_balance: n * 100,
        timestamp: n as i64,
    };
    db.insert_snapshot(snap(1, id(64)));
    db.insert_snapshot(snap(2, id(65)));
    db.insert_snapshot(snap(3, id(64)));

    let mine = db.get_snapshots(&id(64));
    assert_eq!(mine.len(), 2);
    assert_eq!(mine[1].total_balance, 300);
    assert!(db.get_snapshots(&id(66)).is_empty());
}

#[test]
fn database_audit_log_queries() {
    let mut db = Database::new();
    let log = |n: u64, user: AccountId| AuditLog {
        id: format!("log-{}", n),
        user,
        action: "DEPOSIT".to_string(),
        details: format!("details {}", n),
        ip_address: None,
        timestamp: n as i64,
    };
    db.insert_audit_log(log(1, id(55)));
    db.insert_audit_log(log(2, id(56)));

    assert_eq!(db.get_audit_logs(Some(&id(55))).len(), 1);
    assert_eq!(db.get_audit_logs(None).len(), 2);
}

#[test]
fn record_transaction_leaves_a_record_and_an_audit_line() {
    let mut db = Database::new();
    db.record_transaction(
        "tx-1".to_string(),
        "audit-1".to_string(),
        id(60),
        TransactionType::Withdraw,
        123,
        "sig-1".to_string(),
        "WITHDRAW".to_string(),
        "withdrawal confirmed".to_string(),
        44,
    );
    let txs = db.get_all_transactions();
    assert_eq!(txs.len(), 1);
    assert_eq!(txs[0].amount, 123);
    assert!(matches!(txs[0].status, TransactionStatus::Confirmed));
    let logs = db.get_audit_logs(Some(&id(60)));
    assert_eq!(logs.len(), 1);
    assert_eq!(logs[0].action, "WITHDRAW");
    assert_eq!(logs[0].timestamp, 44);
}

#[test]
fn health_answer_is_ok() {
    let health = collateral_vault::api::HealthResponse::ok();
    assert_eq!(health.status, "ok");
}

#[test]
fn api_request_checks() {
    let req = VaultRequest {
        user_pubkey: id(57),
        amount: Some(0),
        to_pubkey: None,
        request_id: Some(9),
        authorized_programs: None,
    };
    assert_eq!(req.checked_amount(), None, "a zero amount is refused");
    assert_eq!(req.checked_request_id(), Some(9));
    assert_eq!(req.checked_to_pubkey(), None);

    let ok = VaultRequest { amount: Some(25), ..req };
    assert_eq!(ok.checked_amount(), Some(25));
}

#[test]
fn api_response_counts() {
    let alerts = vec![
        BalanceAlert { vault: id(58), alert_type: AlertType::LowBalance, message: "m", timestamp: 0 },
    ];
    let resp = AlertsResponse::new(alerts);
    assert_eq!(resp.count, 1);

    let txs = TransactionsResponse::new(Vec::new());
    assert_eq!(txs.count, 0);

    let b = balance_of(id(59), 10, 4, 6);
    let br = BalanceResponse::from_balance(&b);
    assert_eq!(br.owner, id(59));
    assert_eq!(br.locked_balance, 4);
}
