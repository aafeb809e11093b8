//! The off-chain balance tracker: an owner-keyed cache of vault
//! balances, alert evaluation, and cache-vs-ledger reconciliation.
//!
//! The cache is advisory and never authorizes a ledger mutation. The
//! caller fetches a fresh [`VaultBalance`] from the ledger and hands it
//! in; everything from there on — cache update, alert rules, the
//! reconciliation verdict — is computed here.

use vstd::prelude::*;
use crate::account::AccountId;

verus! {

/// Balances below this (but above zero) raise a `LowBalance` alert.
pub const LOW_BALANCE_THRESHOLD: u64 = 1_000_000;

/// How many alerts the rolling in-memory buffer retains.
pub const MAX_ALERTS: usize = 100;

/// A snapshot of one vault's balances, as fetched from the ledger.
#[derive(Clone, Copy, Debug, PartialEq, Eq, Structural)]
pub struct VaultBalance {
    pub owner: AccountId,
    pub total_balance: u64,
    pub locked_balance: u64,
    pub available_balance: u64,
    pub total_deposited: u64,
    pub total_withdrawn: u64,
    pub created_at: i64,
}

/// The four alert conditions the tracker can raise.
#[derive(Clone, Copy, Debug, PartialEq, Eq, Structural)]
pub enum AlertType {
    LowBalance,
    HighLockedRatio,
    UnauthorizedAccess,
    Discrepancy,
}

/// One raised alert. The message is a fixed description of the
/// condition; the fields carry the data.
#[derive(Clone, Copy, Debug)]
pub struct BalanceAlert {
    pub vault: AccountId,
    pub alert_type: AlertType,
    pub message: &'static str,
    pub timestamp: i64,
}

/// The verdict of one reconciliation pass.
#[derive(Clone, Copy, Debug, PartialEq, Eq, Structural)]
pub enum ReconciliationStatus {
    Matched,
    Mismatched,
}

/// One line of the append-only reconciliation audit trail.
/// `discrepancy` is the signed difference `onchain - offchain`.
#[derive(Clone, Copy, Debug, PartialEq, Eq, Structural)]
pub struct ReconciliationRecord {
    pub user: AccountId,
    pub onchain_balance: u64,
    pub offchain_balance: u64,
    pub discrepancy: i128,
    pub status: ReconciliationStatus,
    pub timestamp: i64,
}

/// What one reconciliation pass produced: the verdict, the audit
/// record, and every alert raised along the way (to be persisted by the
/// caller, best-effort).
#[derive(Clone, Debug)]
pub struct ReconcileOutcome {
    pub matched: bool,
    pub record: ReconciliationRecord,
    pub alerts: Vec<BalanceAlert>,
}

/// The last `n` elements of `s` (all of them if `s` is no longer).
pub open spec fn keep_last<T>(s: Seq<T>, n: int) -> Seq<T> {
    if s.len() > n {
        s.skip(s.len() - n)
    } else {
        s
    }
}

/// The low-balance rule: strictly between zero and the threshold.
pub open spec fn spec_low_balance(available: u64) -> bool {
    0 < available < LOW_BALANCE_THRESHOLD
}

/// The high-locked-ratio rule: more than 80% of a nonzero total is
/// locked. The comparison is exact: `locked / total > 4/5` as rationals.
pub open spec fn spec_high_locked_ratio(total: u64, locked: u64) -> bool {
    total > 0 && 5 * locked > 4 * total
}

/// Whether an available balance trips the low-balance alert.
pub fn is_low_balance(available: u64) -> (r: bool)
    ensures
        r == spec_low_balance(available),
{
    available > 0 && available < LOW_BALANCE_THRESHOLD
}

/// Whether a locked/total pair trips the high-locked-ratio alert.
pub fn is_high_locked_ratio(total: u64, locked: u64) -> (r: bool)
    ensures
        r == spec_high_locked_ratio(total, locked),
{
    total > 0 && (locked as u128) * 5 > (total as u128) * 4
}

/// The owner-unique cache entry for `owner`, if one is present.
pub open spec fn cached_for(cache: Seq<VaultBalance>, owner: AccountId) -> Option<VaultBalance> {
    if exists|i: int| 0 <= i < cache.len() && cache[i].owner == owner {
        Some(cache[choose|i: int| 0 <= i < cache.len() && cache[i].owner == owner])
    } else {
        None
    }
}

/// The cache after recording `b`: the entry for `b.owner` is
/// overwritten in place, or appended if the owner is new.
pub open spec fn upsert_balance(cache: Seq<VaultBalance>, b: VaultBalance) -> Seq<VaultBalance> {
    if exists|i: int| 0 <= i < cache.len() && cache[i].owner == b.owner {
        cache.update(choose|i: int| 0 <= i < cache.len() && cache[i].owner == b.owner, b)
    } else {
        cache.push(b)
    }
}

/// The running total of `total_balance` over a cache, as an unbounded
/// integer.
pub open spec fn sum_totals(s: Seq<VaultBalance>) -> int
    decreases s.len(),
{
    if s.len() == 0 {
        0
    } else {
        sum_totals(s.drop_last()) + s.last().total_balance
    }
}

/// The off-chain balance tracker state: the owner-keyed cache and the
/// rolling alert buffer (newest last). Mutate it only through its
/// methods; [`BalanceTracker::wf`] is their invariant.
pub struct BalanceTracker {
    pub cache: Vec<VaultBalance>,
    pub alerts: Vec<BalanceAlert>,
}

impl BalanceTracker {
    /// Each owner appears at most once in the cache, and the alert
    /// buffer respects its cap.
    pub open spec fn wf(self) -> bool {
        &&& forall|i: int, j: int|
            0 <= i < j < self.cache@.len() ==> self.cache@[i].owner != self.cache@[j].owner
        &&& self.alerts@.len() <= MAX_ALERTS
    }

    /// An empty tracker: nothing cached, no alerts.
    pub fn new() -> (r: BalanceTracker)
        ensures
            r.wf(),
            r.cache@ == Seq::<VaultBalance>::empty(),
            r.alerts@ == Seq::<BalanceAlert>::empty(),
    {
        BalanceTracker { cache: Vec::new(), alerts: Vec::new() }
    }

    /// The index of `owner`'s cache entry, if present.
    fn find_cached(&self, owner: &AccountId) -> (r: Option<usize>)
        requires
            self.wf(),
        ensures
            match r {
                Some(i) => i < self.cache@.len() && self.cache@[i as int].owner == *owner,
                None => forall|i: int| 0 <= i < self.cache@.len() ==> self.cache@[i].owner != *owner,
            },
    {
        let n = self.cache.len();
        let mut i: usize = 0;
        while i < n
            invariant
                n == self.cache@.len(),
                i <= n,
                forall|j: int| 0 <= j < i ==> self.cache@[j].owner != *owner,
            decreases n - i,
        {
            let c = self.cache[i].owner;
            if c.w0 == owner.w0 && c.w1 == owner.w1 && c.w2 == owner.w2 && c.w3 == owner.w3 {
                return Some(i);
            }
            i = i + 1;
        }
        None
    }

    /// The cached balance for `owner` — fast, possibly stale.
    pub fn get_cached_balance(&self, owner: &AccountId) -> (r: Option<VaultBalance>)
        requires
            self.wf(),
        ensures
            r == cached_for(self.cache@, *owner),
    {
        match self.find_cached(owner) {
            Some(i) => Some(self.cache[i]),
            None => None,
        }
    }

    /// Drops the oldest alerts until the buffer is back at its cap.
    fn trim_alerts(&mut self)
        ensures
            final(self).alerts@ == keep_last(old(self).alerts@, MAX_ALERTS as int),
            final(self).cache@ == old(self).cache@,
    {
        while self.alerts.len() > MAX_ALERTS
            invariant
                keep_last(self.alerts@, MAX_ALERTS as int) == keep_last(
                    old(self).alerts@,
                    MAX_ALERTS as int,
                ),
                self.cache@ == old(self).cache@,
            decreases self.alerts@.len(),
        {
            self.alerts.remove(0);
        }
    }

    /// Records a freshly fetched balance: overwrites the owner's cache
    /// entry, evaluates the two alert rules, and appends what they
    /// raise to the rolling buffer (oldest alerts dropped past the
    /// cap). Returns the newly raised alerts, for best-effort
    /// persistence by the caller.
    pub fn record_balance(&mut self, balance: VaultBalance, now: i64) -> (raised: Vec<
        BalanceAlert,
    >)
        requires
            old(self).wf(),
        ensures
            final(self).wf(),
            final(self).cache@ == upsert_balance(old(self).cache@, balance),
            final(self).alerts@ == keep_last(
                old(self).alerts@ + raised@,
                MAX_ALERTS as int,
            ),
            raised@.len() == (if spec_low_balance(balance.available_balance) {
                1int
            } else {
                0int
            }) + (if spec_high_locked_ratio(balance.total_balance, balance.locked_balance) {
                1int
            } else {
                0int
            }),
            spec_low_balance(balance.available_balance) ==> {
                &&& raised@[0].vault == balance.owner
                &&& raised@[0].alert_type == AlertType::LowBalance
                &&& raised@[0].timestamp == now
            },
            spec_high_locked_ratio(balance.total_balance, balance.locked_balance) ==> {
                &&& raised@.last().vault == balance.owner
                &&& raised@.last().alert_type == AlertType::HighLockedRatio
                &&& raised@.last().timestamp == now
            },
    {
        match self.find_cached(&balance.owner) {
            Some(i) => {
                self.cache[i] = balance;
                proof {
                    let oc = old(self).cache@;
                    let w = choose|k: int| 0 <= k < oc.len() && oc[k].owner == balance.owner;
                    assert(oc[w].owner == balance.owner);
                    assert(w == i as int);
                }
            },
            None => {
                self.cache.push(balance);
            },
        }
        let mut raised: Vec<BalanceAlert> = Vec::new();
        if is_low_balance(balance.available_balance) {
            raised.push(
                BalanceAlert {
                    vault: balance.owner,
                    alert_type: AlertType::LowBalance,
                    message: "available balance below the low-balance threshold",
                    timestamp: now,
                },
            );
        }
        if is_high_locked_ratio(balance.total_balance, balance.locked_balance) {
            raised.push(
                BalanceAlert {
                    vault: balance.owner,
                    alert_type: AlertType::HighLockedRatio,
                    message: "more than 80% of the total balance is locked",
                    timestamp: now,
                },
            );
        }
        let mut i: usize = 0;
        let n = raised.len();
        while i < n
            invariant
                n == raised@.len(),
                i <= n,
                self.alerts@ == old(self).alerts@ + raised@.take(i as int),
                self.cache@ == upsert_balance(old(self).cache@, balance),
            decreases n - i,
        {
            self.alerts.push(raised[i]);
            proof {
                assert(raised@.take(i + 1).drop_last() =~= raised@.take(i as int));
                assert(self.alerts@ =~= old(self).alerts@ + raised@.take(i + 1));
            }
            i = i + 1;
        }
        proof {
            assert(raised@.take(n as int) =~= raised@);
        }
        self.trim_alerts();
        raised
    }

    /// The sum of all cached `total_balance` values — the point-in-time
    /// total value locked, saturating at the 64-bit maximum. A view of
    /// the cache, not the ledger.
    pub fn calculate_tvl(&self) -> (r: u64)
        ensures
            r == if sum_totals(self.cache@) > u64::MAX {
                u64::MAX as int
            } else {
                sum_totals(self.cache@)
            },
    {
        let n = self.cache.len();
        let mut acc: u64 = 0;
        let mut i: usize = 0;
        while i < n
            invariant
                n == self.cache@.len(),
                i <= n,
                acc == if sum_totals(self.cache@.take(i as int)) > u64::MAX {
                    u64::MAX as int
                } else {
                    sum_totals(self.cache@.take(i as int))
                },
            decreases n - i,
        {
            proof {
                assert(self.cache@.take(i + 1).drop_last() =~= self.cache@.take(i as int));
                assert(self.cache@.take(i + 1).last() == self.cache@[i as int]);
            }
            acc = acc.saturating_add(self.cache[i].total_balance);
            i = i + 1;
        }
        proof {
            assert(self.cache@.take(n as int) =~= self.cache@);
        }
        acc
    }

    /// A copy of the rolling alert buffer, oldest first.
    pub fn get_alerts(&self) -> (r: Vec<BalanceAlert>)
        ensures
            r@ == self.alerts@,
    {
        let n = self.alerts.len();
        let mut r: Vec<BalanceAlert> = Vec::new();
        let mut i: usize = 0;
        while i < n
            invariant
                n == self.alerts@.len(),
                i <= n,
                r@ == self.alerts@.take(i as int),
            decreases n - i,
        {
            r.push(self.alerts[i]);
            proof {
                assert(self.alerts@.take(i + 1).drop_last() =~= self.alerts@.take(i as int));
                assert(r@ =~= self.alerts@.take(i + 1));
            }
            i = i + 1;
        }
        proof {
            assert(self.alerts@.take(n as int) =~= self.alerts@);
        }
        r
    }

    /// Reconciles the pre-fetch cached balance against a freshly
    /// fetched one. The fresh balance is recorded (cache overwrite and
    /// alert rules included, as in [`Self::record_balance`]); the
    /// verdict compares the *pre-fetch* cached `total_balance` with the
    /// fresh one, so it measures cache staleness. A mismatch raises a
    /// `Discrepancy` alert and a `Mismatched` record carrying the
    /// signed difference; a match — or an empty cache — yields a
    /// `Matched` record.
    pub fn reconcile(&mut self, owner: AccountId, fresh: VaultBalance, now: i64) -> (outcome:
        ReconcileOutcome)
        requires
            old(self).wf(),
        ensures
            final(self).wf(),
            final(self).cache@ == upsert_balance(old(self).cache@, fresh),
            outcome.matched == match cached_for(old(self).cache@, owner) {
                Some(c) => c.total_balance == fresh.total_balance,
                None => true,
            },
            ({
                let offchain = match cached_for(old(self).cache@, owner) {
                    Some(c) => if c.total_balance != fresh.total_balance {
                        c.total_balance
                    } else {
                        fresh.total_balance
                    },
                    None => fresh.total_balance,
                };
                outcome.record == (ReconciliationRecord {
                    user: owner,
                    onchain_balance: fresh.total_balance,
                    offchain_balance: offchain,
                    discrepancy: (fresh.total_balance - offchain) as i128,
                    status: if outcome.matched {
                        ReconciliationStatus::Matched
                    } else {
                        ReconciliationStatus::Mismatched
                    },
                    timestamp: now,
                })
            }),
            !outcome.matched ==> {
                &&& outcome.alerts@.len() >= 1
                &&& outcome.alerts@.last().vault == owner
                &&& outcome.alerts@.last().alert_type == AlertType::Discrepancy
                &&& outcome.alerts@.last().timestamp == now
            },
            final(self).alerts@ == keep_last(
                old(self).alerts@ + outcome.alerts@,
                MAX_ALERTS as int,
            ),
    {
        let cached = self.get_cached_balance(&owner);
        let mut raised = self.record_balance(fresh, now);
        let stale_total: Option<u64> = match cached {
            Some(c) => if c.total_balance != fresh.total_balance {
                Some(c.total_balance)
            } else {
                None
            },
            None => None,
        };
        match stale_total {
            Some(cached_total) => {
                let alert = BalanceAlert {
                    vault: owner,
                    alert_type: AlertType::Discrepancy,
                    message: "cached total balance disagrees with the ledger",
                    timestamp: now,
                };
                self.alerts.push(alert);
                raised.push(alert);
                self.trim_alerts();
                let record = ReconciliationRecord {
                    user: owner,
                    onchain_balance: fresh.total_balance,
                    offchain_balance: cached_total,
                    discrepancy: fresh.total_balance as i128 - cached_total as i128,
                    status: ReconciliationStatus::Mismatched,
                    timestamp: now,
                };
                proof {
                    lemma_keep_last_push(
                        old(self).alerts@,
                        raised@.drop_last(),
                        raised@.last(),
                        MAX_ALERTS as int,
                    );
                    assert(raised@.drop_last().push(raised@.last()) =~= raised@);
                }
                ReconcileOutcome { matched: false, record, alerts: raised }
            },
            None => {
                let record = ReconciliationRecord {
                    user: owner,
                    onchain_balance: fresh.total_balance,
                    offchain_balance: fresh.total_balance,
                    discrepancy: 0,
                    status: ReconciliationStatus::Matched,
                    timestamp: now,
                };
                ReconcileOutcome { matched: true, record, alerts: raised }
            },
        }
    }
}

/// Trimming after appending one element is the same as appending to the
/// trimmed buffer and trimming again.
proof fn lemma_keep_last_push<T>(base: Seq<T>, mid: Seq<T>, x: T, n: int)
    requires
        n >= 1,
    ensures
        keep_last(keep_last(base + mid, n).push(x), n) == keep_last(base + mid.push(x), n),
{
    let a = base + mid;
    let b = base + mid.push(x);
    assert(b =~= a.push(x));
    if a.len() > n {
        assert(keep_last(a, n) == a.skip(a.len() - n));
        assert(keep_last(a, n).push(x) =~= b.skip(b.len() - n - 1));
        assert(keep_last(keep_last(a, n).push(x), n) =~= b.skip(b.len() - n));
    } else {
        if b.len() > n {
            assert(keep_last(keep_last(a, n).push(x), n) =~= b.skip(b.len() - n));
        } else {
            assert(keep_last(keep_last(a, n).push(x), n) =~= b);
        }
    }
}

} // verus!
