//! The service's request and response shapes, and the request checks
//! made before anything is sent to the ledger.
//!
//! Transport, serialization and identity parsing happen at the caller's
//! edge; these types carry the already-parsed values.

use vstd::prelude::*;
use crate::account::AccountId;
use crate::records::TransactionRecord;
use crate::tracker::{BalanceAlert, VaultBalance};

verus! {

/// One incoming vault operation request, fields as the wire carries
/// them; which are required depends on the operation.
#[derive(Clone, Debug)]
pub struct VaultRequest {
    pub user_pubkey: AccountId,
    pub amount: Option<u64>,
    pub to_pubkey: Option<AccountId>,
    pub request_id: Option<u64>,
    pub authorized_programs: Option<Vec<AccountId>>,
}

impl VaultRequest {
    /// The amount, if one was given and is positive — the check every
    /// balance-moving request must pass.
    pub fn checked_amount(&self) -> (r: Option<u64>)
        ensures
            match r {
                Some(a) => self.amount == Some(a) && a > 0,
                None => self.amount matches None || self.amount == Some(0u64),
            },
    {
        match self.amount {
            Some(a) if a > 0 => Some(a),
            _ => None,
        }
    }

    /// The request number, if one was given — required by the two-phase
    /// withdrawal operations.
    pub fn checked_request_id(&self) -> (r: Option<u64>)
        ensures
            r == self.request_id,
    {
        self.request_id
    }

    /// The transfer target, if one was given.
    pub fn checked_to_pubkey(&self) -> (r: Option<AccountId>)
        ensures
            r == self.to_pubkey,
    {
        self.to_pubkey
    }
}

/// A successfully submitted transaction, by its signature.
#[derive(Clone, Debug)]
pub struct TxResponse {
    pub tx_signature: String,
}

/// A failed request, with its reason.
#[derive(Clone, Debug)]
pub struct ErrorResponse {
    pub error: String,
}

/// A vault's balances as returned to a caller.
#[derive(Clone, Copy, Debug, PartialEq, Eq, Structural)]
pub struct BalanceResponse {
    pub owner: AccountId,
    pub total_balance: u64,
    pub locked_balance: u64,
    pub available_balance: u64,
    pub total_deposited: u64,
    pub total_withdrawn: u64,
    pub created_at: i64,
}

impl BalanceResponse {
    /// The response carrying exactly the fetched balance.
    pub fn from_balance(balance: &VaultBalance) -> (r: BalanceResponse)
        ensures
            r == (BalanceResponse {
                owner: balance.owner,
                total_balance: balance.total_balance,
                locked_balance: balance.locked_balance,
                available_balance: balance.available_balance,
                total_deposited: balance.total_deposited,
                total_withdrawn: balance.total_withdrawn,
                created_at: balance.created_at,
            }),
    {
        BalanceResponse {
            owner: balance.owner,
            total_balance: balance.total_balance,
            locked_balance: balance.locked_balance,
            available_balance: balance.available_balance,
            total_deposited: balance.total_deposited,
            total_withdrawn: balance.total_withdrawn,
            created_at: balance.created_at,
        }
    }
}

/// The system-wide total value locked at one point in time.
#[derive(Clone, Copy, Debug, PartialEq, Eq, Structural)]
pub struct TvlResponse {
    pub total_value_locked: u64,
    pub total_vaults: usize,
    pub timestamp: i64,
}

/// A user's transaction history with its count.
#[derive(Clone, Debug)]
pub struct TransactionsResponse {
    pub transactions: Vec<TransactionRecord>,
    pub count: usize,
}

impl TransactionsResponse {
    /// Wraps a transaction list; the count is its length.
    pub fn new(transactions: Vec<TransactionRecord>) -> (r: TransactionsResponse)
        ensures
            r.transactions@ == transactions@,
            r.count == transactions@.len(),
    {
        let count = transactions.len();
        TransactionsResponse { transactions, count }
    }
}

/// The current alerts with their count.
#[derive(Clone, Debug)]
pub struct AlertsResponse {
    pub alerts: Vec<BalanceAlert>,
    pub count: usize,
}

impl AlertsResponse {
    /// Wraps an alert list; the count is its length.
    pub fn new(alerts: Vec<BalanceAlert>) -> (r: AlertsResponse)
        ensures
            r.alerts@ == alerts@,
            r.count == alerts@.len(),
    {
        let count = alerts.len();
        AlertsResponse { alerts, count }
    }
}

/// The liveness answer.
#[derive(Clone, Copy, Debug)]
pub struct HealthResponse {
    pub status: &'static str,
}

impl HealthResponse {
    /// The answer of a healthy service.
    pub fn ok() -> (r: HealthResponse)
        ensures
            r.status@ == "ok"@,
    {
        HealthResponse { status: "ok" }
    }
}

/// One event published to connected listeners.
#[derive(Clone, Debug)]
pub enum WsMessage {
    BalanceUpdate { user: AccountId, balance: u64 },
    DepositNotification { user: AccountId, amount: u64, signature: String },
    WithdrawNotification { user: AccountId, amount: u64, signature: String },
    TvlUpdate { tvl: u64 },
}

} // verus!
