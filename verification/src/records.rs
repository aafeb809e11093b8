//! Persistent-record types and the in-memory store behind the service.
//!
//! The store keeps transaction records, balance snapshots, audit logs,
//! reconciliation records and alerts, all append-only, and answers the
//! queries the service needs. A database-backed mirror, when one is
//! configured, is the caller's concern; identifiers (one per record) are
//! likewise generated by the caller.

use vstd::prelude::*;
use crate::account::AccountId;
use crate::tracker::ReconciliationRecord;

verus! {

/// What kind of transition a transaction record documents.
#[derive(Clone, Copy, Debug, PartialEq, Eq, Structural)]
pub enum TransactionType {
    Initialize,
    Deposit,
    Withdraw,
    Lock,
    Unlock,
    Transfer,
    WithdrawalRequest,
    WithdrawalExecute,
}

/// Where a recorded transaction stands.
#[derive(Clone, Copy, Debug, PartialEq, Eq, Structural)]
pub enum TransactionStatus {
    Pending,
    Confirmed,
    Failed,
}

/// One submitted ledger transaction, as recorded by the service.
#[derive(Debug)]
pub struct TransactionRecord {
    pub id: String,
    pub user: AccountId,
    pub tx_type: TransactionType,
    pub amount: u64,
    pub signature: String,
    pub status: TransactionStatus,
    pub timestamp: i64,
}

impl Clone for TransactionRecord {
    fn clone(&self) -> (r: Self)
        ensures
            r == *self,
    {
        TransactionRecord {
            id: self.id.clone(),
            user: self.user,
            tx_type: self.tx_type,
            amount: self.amount,
            signature: self.signature.clone(),
            status: self.status,
            timestamp: self.timestamp,
        }
    }
}

/// One point-in-time copy of a vault's balances.
#[derive(Debug)]
pub struct BalanceSnapshot {
    pub id: String,
    pub user: AccountId,
    pub total_balance: u64,
    pub locked_balance: u64,
    pub available_balance: u64,
    pub timestamp: i64,
}

impl Clone for BalanceSnapshot {
    fn clone(&self) -> (r: Self)
        ensures
            r == *self,
    {
        BalanceSnapshot {
            id: self.id.clone(),
            user: self.user,
            total_balance: self.total_balance,
            locked_balance: self.locked_balance,
            available_balance: self.available_balance,
            timestamp: self.timestamp,
        }
    }
}

/// One line of the action audit trail.
#[derive(Debug)]
pub struct AuditLog {
    pub id: String,
    pub user: AccountId,
    pub action: String,
    pub details: String,
    pub ip_address: Option<String>,
    pub timestamp: i64,
}

impl Clone for AuditLog {
    fn clone(&self) -> (r: Self)
        ensures
            r == *self,
    {
        AuditLog {
            id: self.id.clone(),
            user: self.user,
            action: self.action.clone(),
            details: self.details.clone(),
            ip_address: match &self.ip_address {
                Some(ip) => Some(ip.clone()),
                None => None,
            },
            timestamp: self.timestamp,
        }
    }
}

/// One persisted alert, as the store keeps it.
#[derive(Debug)]
pub struct Alert {
    pub id: String,
    pub alert_type: String,
    pub severity: String,
    pub user: Option<AccountId>,
    pub message: String,
    pub timestamp: i64,
}

impl Clone for Alert {
    fn clone(&self) -> (r: Self)
        ensures
            r == *self,
    {
        Alert {
            id: self.id.clone(),
            alert_type: self.alert_type.clone(),
            severity: self.severity.clone(),
            user: self.user,
            message: self.message.clone(),
            timestamp: self.timestamp,
        }
    }
}

/// The in-memory store: five append-only tables.
pub struct Database {
    pub transactions: Vec<TransactionRecord>,
    pub balance_snapshots: Vec<BalanceSnapshot>,
    pub audit_logs: Vec<AuditLog>,
    pub reconciliations: Vec<ReconciliationRecord>,
    pub alerts: Vec<Alert>,
}

impl Database {
    /// An empty store.
    pub fn new() -> (r: Database)
        ensures
            r.transactions@ == Seq::<TransactionRecord>::empty(),
            r.balance_snapshots@ == Seq::<BalanceSnapshot>::empty(),
            r.audit_logs@ == Seq::<AuditLog>::empty(),
            r.reconciliations@ == Seq::<ReconciliationRecord>::empty(),
            r.alerts@ == Seq::<Alert>::empty(),
    {
        Database {
            transactions: Vec::new(),
            balance_snapshots: Vec::new(),
            audit_logs: Vec::new(),
            reconciliations: Vec::new(),
            alerts: Vec::new(),
        }
    }

    /// Appends one transaction record.
    pub fn insert_transaction(&mut self, tx: TransactionRecord)
        ensures
            final(self).transactions@ == old(self).transactions@.push(tx),
            final(self).balance_snapshots@ == old(self).balance_snapshots@,
            final(self).audit_logs@ == old(self).audit_logs@,
            final(self).reconciliations@ == old(self).reconciliations@,
            final(self).alerts@ == old(self).alerts@,
    {
        self.transactions.push(tx);
    }

    /// Every transaction of one user, oldest first.
    pub fn get_user_transactions(&self, user: &AccountId) -> (r: Vec<TransactionRecord>)
        ensures
            ({
                let u = *user;
                r@ == self.transactions@.filter(|t: TransactionRecord| t.user == u)
            }),
    {
        let ghost u = *user;
        let ghost pred = |t: TransactionRecord| t.user == u;
        let n = self.transactions.len();
        let mut r: Vec<TransactionRecord> = Vec::new();
        let mut i: usize = 0;
        while i < n
            invariant
                n == self.transactions@.len(),
                i <= n,
                u == *user,
                r@ == self.transactions@.take(i as int).filter(pred),
                pred == (|t: TransactionRecord| t.user == u),
            decreases n - i,
        {
            let t = &self.transactions[i];
            if t.user.w0 == user.w0 && t.user.w1 == user.w1 && t.user.w2 == user.w2 && t.user.w3
                == user.w3 {
                r.push(t.clone());
            }
            proof {
                let s = self.transactions@;
                assert(s.take(i + 1).drop_last() =~= s.take(i as int));
                assert(s.take(i + 1).last() == s[i as int]);
                reveal_with_fuel(Seq::<TransactionRecord>::filter, 2);
                if pred(s[i as int]) {
                    assert(s.take(i + 1).filter(pred) == s.take(i as int).filter(pred).push(
                        s[i as int],
                    ));
                } else {
                    assert(s.take(i + 1).filter(pred) == s.take(i as int).filter(pred));
                }
            }
            i = i + 1;
        }
        proof {
            assert(self.transactions@.take(n as int) =~= self.transactions@);
        }
        r
    }

    /// A copy of every transaction record, oldest first.
    pub fn get_all_transactions(&self) -> (r: Vec<TransactionRecord>)
        ensures
            r@ == self.transactions@,
    {
        let n = self.transactions.len();
        let mut r: Vec<TransactionRecord> = Vec::new();
        let mut i: usize = 0;
        while i < n
            invariant
                n == self.transactions@.len(),
                i <= n,
                r@ == self.transactions@.take(i as int),
            decreases n - i,
        {
            r.push(self.transactions[i].clone());
            proof {
                assert(r@ =~= self.transactions@.take(i + 1));
            }
            i = i + 1;
        }
        proof {
            assert(self.transactions@.take(n as int) =~= self.transactions@);
        }
        r
    }

    /// Appends one balance snapshot.
    pub fn insert_snapshot(&mut self, snapshot: BalanceSnapshot)
        ensures
            final(self).balance_snapshots@ == old(self).balance_snapshots@.push(snapshot),
            final(self).transactions@ == old(self).transactions@,
            final(self).audit_logs@ == old(self).audit_logs@,
            final(self).reconciliations@ == old(self).reconciliations@,
            final(self).alerts@ == old(self).alerts@,
    {
        self.balance_snapshots.push(snapshot);
    }

    /// Every snapshot of one user, oldest first.
    pub fn get_snapshots(&self, user: &AccountId) -> (r: Vec<BalanceSnapshot>)
        ensures
            ({
                let u = *user;
                r@ == self.balance_snapshots@.filter(|s: BalanceSnapshot| s.user == u)
            }),
    {
        let ghost u = *user;
        let ghost pred = |s: BalanceSnapshot| s.user == u;
        let n = self.balance_snapshots.len();
        let mut r: Vec<BalanceSnapshot> = Vec::new();
        let mut i: usize = 0;
        while i < n
            invariant
                n == self.balance_snapshots@.len(),
                i <= n,
                u == *user,
                r@ == self.balance_snapshots@.take(i as int).filter(pred),
                pred == (|s: BalanceSnapshot| s.user == u),
            decreases n - i,
        {
            let s = &self.balance_snapshots[i];
            if s.user.w0 == user.w0 && s.user.w1 == user.w1 && s.user.w2 == user.w2 && s.user.w3
                == user.w3 {
                r.push(s.clone());
            }
            proof {
                let v = self.balance_snapshots@;
                assert(v.take(i + 1).drop_last() =~= v.take(i as int));
                assert(v.take(i + 1).last() == v[i as int]);
                reveal_with_fuel(Seq::<BalanceSnapshot>::filter, 2);
                if pred(v[i as int]) {
                    assert(v.take(i + 1).filter(pred) == v.take(i as int).filter(pred).push(
                        v[i as int],
                    ));
                } else {
                    assert(v.take(i + 1).filter(pred) == v.take(i as int).filter(pred));
                }
            }
            i = i + 1;
        }
        proof {
            assert(self.balance_snapshots@.take(n as int) =~= self.balance_snapshots@);
        }
        r
    }

    /// Appends one audit log line.
    pub fn insert_audit_log(&mut self, log: AuditLog)
        ensures
            final(self).audit_logs@ == old(self).audit_logs@.push(log),
            final(self).transactions@ == old(self).transactions@,
            final(self).balance_snapshots@ == old(self).balance_snapshots@,
            final(self).reconciliations@ == old(self).reconciliations@,
            final(self).alerts@ == old(self).alerts@,
    {
        self.audit_logs.push(log);
    }

    /// The audit trail, filtered to one user when one is given.
    pub fn get_audit_logs(&self, user: Option<&AccountId>) -> (r: Vec<AuditLog>)
        ensures
            match user {
                Some(u) => ({
                    let uu = *u;
                    r@ == self.audit_logs@.filter(|l: AuditLog| l.user == uu)
                }),
                None => r@ == self.audit_logs@,
            },
    {
        let n = self.audit_logs.len();
        let mut r: Vec<AuditLog> = Vec::new();
        match user {
            Some(u) => {
                let ghost uu = *u;
                let ghost pred = |l: AuditLog| l.user == uu;
                let mut i: usize = 0;
                while i < n
                    invariant
                        n == self.audit_logs@.len(),
                        i <= n,
                        uu == *u,
                        r@ == self.audit_logs@.take(i as int).filter(pred),
                        pred == (|l: AuditLog| l.user == uu),
                    decreases n - i,
                {
                    let l = &self.audit_logs[i];
                    if l.user.w0 == u.w0 && l.user.w1 == u.w1 && l.user.w2 == u.w2 && l.user.w3
                        == u.w3 {
                        r.push(l.clone());
                    }
                    proof {
                        let v = self.audit_logs@;
                        assert(v.take(i + 1).drop_last() =~= v.take(i as int));
                        assert(v.take(i + 1).last() == v[i as int]);
                        reveal_with_fuel(Seq::<AuditLog>::filter, 2);
                        if pred(v[i as int]) {
                            assert(v.take(i + 1).filter(pred) == v.take(i as int).filter(
                                pred,
                            ).push(v[i as int]));
                        } else {
                            assert(v.take(i + 1).filter(pred) == v.take(i as int).filter(pred));
                        }
                    }
                    i = i + 1;
                }
                proof {
                    assert(self.audit_logs@.take(n as int) =~= self.audit_logs@);
                }
            },
            None => {
                let mut i: usize = 0;
                while i < n
                    invariant
                        n == self.audit_logs@.len(),
                        i <= n,
                        r@ == self.audit_logs@.take(i as int),
                    decreases n - i,
                {
                    r.push(self.audit_logs[i].clone());
                    proof {
                        assert(r@ =~= self.audit_logs@.take(i + 1));
                    }
                    i = i + 1;
                }
                proof {
                    assert(self.audit_logs@.take(n as int) =~= self.audit_logs@);
                }
            },
        }
        r
    }

    /// Appends one reconciliation record to the audit trail.
    pub fn log_reconciliation(&mut self, record: ReconciliationRecord)
        ensures
            final(self).reconciliations@ == old(self).reconciliations@.push(record),
            final(self).transactions@ == old(self).transactions@,
            final(self).balance_snapshots@ == old(self).balance_snapshots@,
            final(self).audit_logs@ == old(self).audit_logs@,
            final(self).alerts@ == old(self).alerts@,
    {
        self.reconciliations.push(record);
    }

    /// Appends one alert.
    pub fn create_alert(&mut self, alert: Alert)
        ensures
            final(self).alerts@ == old(self).alerts@.push(alert),
            final(self).transactions@ == old(self).transactions@,
            final(self).balance_snapshots@ == old(self).balance_snapshots@,
            final(self).audit_logs@ == old(self).audit_logs@,
            final(self).reconciliations@ == old(self).reconciliations@,
    {
        self.alerts.push(alert);
    }

    /// Stores what one submitted transaction leaves behind: a confirmed
    /// transaction record and one audit line. The two identifiers and
    /// the timestamp come from the caller.
    pub fn record_transaction(
        &mut self,
        tx_id: String,
        audit_id: String,
        user: AccountId,
        tx_type: TransactionType,
        amount: u64,
        signature: String,
        action: String,
        details: String,
        now: i64,
    )
        ensures
            final(self).transactions@ == old(self).transactions@.push(
                TransactionRecord {
                    id: tx_id,
                    user,
                    tx_type,
                    amount,
                    signature,
                    status: TransactionStatus::Confirmed,
                    timestamp: now,
                },
            ),
            final(self).audit_logs@ == old(self).audit_logs@.push(
                AuditLog { id: audit_id, user, action, details, ip_address: None, timestamp: now },
            ),
            final(self).balance_snapshots@ == old(self).balance_snapshots@,
            final(self).reconciliations@ == old(self).reconciliations@,
            final(self).alerts@ == old(self).alerts@,
    {
        self.transactions.push(
            TransactionRecord {
                id: tx_id,
                user,
                tx_type,
                amount,
                signature,
                status: TransactionStatus::Confirmed,
                timestamp: now,
            },
        );
        self.audit_logs.push(
            AuditLog { id: audit_id, user, action, details, ip_address: None, timestamp: now },
        );
    }

    /// A copy of every stored alert, oldest first.
    pub fn get_active_alerts(&self) -> (r: Vec<Alert>)
        ensures
            r@ == self.alerts@,
    {
        let n = self.alerts.len();
        let mut r: Vec<Alert> = Vec::new();
        let mut i: usize = 0;
        while i < n
            invariant
                n == self.alerts@.len(),
                i <= n,
                r@ == self.alerts@.take(i as int),
            decreases n - i,
        {
            r.push(self.alerts[i].clone());
            proof {
                assert(r@ =~= self.alerts@.take(i + 1));
            }
            i = i + 1;
        }
        proof {
            assert(self.alerts@.take(n as int) =~= self.alerts@);
        }
        r
    }
}

} // verus!
