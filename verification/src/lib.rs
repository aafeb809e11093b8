//! Collateral accounting and reconciliation engine.
//!
//! The ledger-side state machine (vault balances, authorization, the
//! two-phase delayed withdrawal) lives in [`instructions`], over the
//! account model of [`state`]; the laws it obeys are proved in
//! [`laws`]. The off-chain side — the balance cache, alert rules and
//! reconciliation in [`tracker`], the periodic aggregation in
//! [`monitor`], the record store in [`records`], and the service's
//! request and response shapes in [`api`] — takes freshly fetched
//! ledger state as input and never authorizes a mutation itself.
//! Deterministic account-address derivation is in [`addresses`], and
//! [`account`] holds the identity type everything is keyed by.

pub mod account;
pub mod addresses;
pub mod api;
pub mod errors;
pub mod events;
pub mod instructions;
pub mod laws;
pub mod monitor;
pub mod records;
pub mod state;
pub mod tracker;

pub use account::AccountId;
