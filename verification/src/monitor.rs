//! The periodic monitor: a capped rolling history of system metrics and
//! the escalation of unauthorized-access alerts into security alerts.
//!
//! The caller runs the two loops (metrics and security sweeps) and hands
//! in what they observe; the aggregation and escalation rules live here.

use vstd::prelude::*;
use crate::account::AccountId;
use crate::tracker::{keep_last, AlertType, BalanceAlert};

verus! {

/// How many metrics samples the rolling history retains
/// (one day at one sample per minute).
pub const METRICS_HISTORY_LIMIT: usize = 1440;

/// One sample of system-level metrics.
#[derive(Clone, Copy, Debug, PartialEq, Eq, Structural)]
pub struct VaultMetrics {
    pub total_vaults: usize,
    pub total_tvl: u64,
    pub average_balance: u64,
    pub total_transactions: usize,
    pub active_vaults: usize,
    pub timestamp: i64,
}

/// How urgent a security alert is.
#[derive(Clone, Copy, Debug, PartialEq, Eq, Structural)]
pub enum Severity {
    Low,
    Medium,
    High,
    Critical,
}

/// How urgent each tracker alert condition is when persisted or
/// escalated: a low balance is medium, a high locked ratio high, and
/// unauthorized access or a cache discrepancy critical.
pub fn alert_severity(alert_type: AlertType) -> (r: Severity)
    ensures
        r == match alert_type {
            AlertType::LowBalance => Severity::Medium,
            AlertType::HighLockedRatio => Severity::High,
            AlertType::UnauthorizedAccess => Severity::Critical,
            AlertType::Discrepancy => Severity::Critical,
        },
{
    match alert_type {
        AlertType::LowBalance => Severity::Medium,
        AlertType::HighLockedRatio => Severity::High,
        AlertType::UnauthorizedAccess => Severity::Critical,
        AlertType::Discrepancy => Severity::Critical,
    }
}

/// A system-level security alert, escalated from a tracker alert.
#[derive(Clone, Copy, Debug)]
pub struct SecurityAlert {
    pub severity: Severity,
    pub message: &'static str,
    pub vault: Option<AccountId>,
    pub timestamp: i64,
}

/// The security alerts that a sweep over `alerts` escalates: one
/// critical alert for each unauthorized-access alert, in order.
pub open spec fn escalations(alerts: Seq<BalanceAlert>) -> Seq<SecurityAlert>
    decreases alerts.len(),
{
    if alerts.len() == 0 {
        Seq::empty()
    } else {
        escalations(alerts.drop_last()) + if alerts.last().alert_type
            == AlertType::UnauthorizedAccess {
            seq![
                SecurityAlert {
                    severity: Severity::Critical,
                    message: alerts.last().message,
                    vault: Some(alerts.last().vault),
                    timestamp: alerts.last().timestamp,
                },
            ]
        } else {
            Seq::empty()
        }
    }
}

/// The monitor's state: the rolling metrics history (newest last,
/// capped) and the accumulated security alerts.
pub struct VaultMonitor {
    pub metrics_history: Vec<VaultMetrics>,
    pub security_alerts: Vec<SecurityAlert>,
}

impl VaultMonitor {
    pub open spec fn wf(self) -> bool {
        self.metrics_history@.len() <= METRICS_HISTORY_LIMIT
    }

    /// A monitor with no history and no alerts.
    pub fn new() -> (r: VaultMonitor)
        ensures
            r.wf(),
            r.metrics_history@ == Seq::<VaultMetrics>::empty(),
            r.security_alerts@ == Seq::<SecurityAlert>::empty(),
    {
        VaultMonitor { metrics_history: Vec::new(), security_alerts: Vec::new() }
    }

    /// Records one metrics sample from the observed total value locked
    /// and transaction count, dropping the oldest samples past the cap.
    pub fn collect_metrics(&mut self, tvl: u64, total_transactions: usize, now: i64) -> (m:
        VaultMetrics)
        requires
            old(self).wf(),
        ensures
            final(self).wf(),
            m == (VaultMetrics {
                total_vaults: 0,
                total_tvl: tvl,
                average_balance: 0,
                total_transactions,
                active_vaults: 0,
                timestamp: now,
            }),
            final(self).metrics_history@ == keep_last(
                old(self).metrics_history@.push(m),
                METRICS_HISTORY_LIMIT as int,
            ),
            final(self).security_alerts@ == old(self).security_alerts@,
    {
        let m = VaultMetrics {
            total_vaults: 0,
            total_tvl: tvl,
            average_balance: 0,
            total_transactions,
            active_vaults: 0,
            timestamp: now,
        };
        self.metrics_history.push(m);
        while self.metrics_history.len() > METRICS_HISTORY_LIMIT
            invariant
                keep_last(self.metrics_history@, METRICS_HISTORY_LIMIT as int) == keep_last(
                    old(self).metrics_history@.push(m),
                    METRICS_HISTORY_LIMIT as int,
                ),
                self.security_alerts@ == old(self).security_alerts@,
            decreases self.metrics_history@.len(),
        {
            self.metrics_history.remove(0);
        }
        m
    }

    /// Sweeps tracker alerts for unauthorized access and escalates each
    /// into a critical security alert. Returns how many were escalated.
    pub fn security_check(&mut self, alerts: &Vec<BalanceAlert>) -> (count: usize)
        ensures
            final(self).security_alerts@ == old(self).security_alerts@ + escalations(alerts@),
            final(self).metrics_history@ == old(self).metrics_history@,
            count == escalations(alerts@).len(),
    {
        let n = alerts.len();
        let mut count: usize = 0;
        let mut i: usize = 0;
        while i < n
            invariant
                n == alerts@.len(),
                i <= n,
                count <= i,
                self.security_alerts@ == old(self).security_alerts@ + escalations(
                    alerts@.take(i as int),
                ),
                count == escalations(alerts@.take(i as int)).len(),
                self.metrics_history@ == old(self).metrics_history@,
            decreases n - i,
        {
            proof {
                assert(alerts@.take(i + 1).drop_last() =~= alerts@.take(i as int));
                assert(alerts@.take(i + 1).last() == alerts@[i as int]);
            }
            let a = &alerts[i];
            if matches!(a.alert_type, AlertType::UnauthorizedAccess) {
                self.security_alerts.push(
                    SecurityAlert {
                        severity: Severity::Critical,
                        message: a.message,
                        vault: Some(a.vault),
                        timestamp: a.timestamp,
                    },
                );
                count = count + 1;
            }
            i = i + 1;
        }
        proof {
            assert(alerts@.take(n as int) =~= alerts@);
        }
        count
    }

    /// The most recent metrics sample, if any.
    pub fn get_current_metrics(&self) -> (r: Option<VaultMetrics>)
        ensures
            r == if self.metrics_history@.len() == 0 {
                Option::<VaultMetrics>::None
            } else {
                Some(self.metrics_history@.last())
            },
    {
        let n = self.metrics_history.len();
        if n == 0 {
            None
        } else {
            Some(self.metrics_history[n - 1])
        }
    }

    /// The newest `limit` metrics samples, oldest of them first.
    pub fn get_metrics_history(&self, limit: usize) -> (r: Vec<VaultMetrics>)
        ensures
            r@ == keep_last(self.metrics_history@, limit as int),
    {
        let n = self.metrics_history.len();
        let start = if n > limit {
            n - limit
        } else {
            0
        };
        let mut r: Vec<VaultMetrics> = Vec::new();
        let mut i: usize = start;
        while i < n
            invariant
                start <= i <= n,
                n == self.metrics_history@.len(),
                r@ == self.metrics_history@.subrange(start as int, i as int),
            decreases n - i,
        {
            r.push(self.metrics_history[i]);
            proof {
                assert(r@ =~= self.metrics_history@.subrange(start as int, i + 1));
            }
            i = i + 1;
        }
        proof {
            assert(keep_last(self.metrics_history@, limit as int) =~= self.metrics_history@.subrange(
                start as int,
                n as int,
            ));
        }
        r
    }

    /// A copy of the accumulated security alerts, oldest first.
    pub fn get_security_alerts(&self) -> (r: Vec<SecurityAlert>)
        ensures
            r@ == self.security_alerts@,
    {
        let n = self.security_alerts.len();
        let mut r: Vec<SecurityAlert> = Vec::new();
        let mut i: usize = 0;
        while i < n
            invariant
                n == self.security_alerts@.len(),
                i <= n,
                r@ == self.security_alerts@.take(i as int),
            decreases n - i,
        {
            r.push(self.security_alerts[i]);
            proof {
                assert(r@ =~= self.security_alerts@.take(i + 1));
            }
            i = i + 1;
        }
        proof {
            assert(self.security_alerts@.take(n as int) =~= self.security_alerts@);
        }
        r
    }
}

} // verus!
