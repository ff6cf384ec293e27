//! Deposit handler: tracks, per position identifier, the lifecycle of funds
//! moving through a two-asset bond/unbond process that is fulfilled
//! asynchronously by two independent router agents, one per denomination.
//!
//! The ledger must stay consistent across a user-initiated command and two
//! out-of-order, independently arriving confirmations, enforce a
//! single-in-flight start-unbond rule, and resolve a time-locked withdrawal
//! queue holding partially matured, multi-denomination entries.

pub mod contract;
pub mod contract_callback;
pub mod contract_execute;
pub mod contract_query;
pub mod error;
pub mod laws;
pub mod msg;
pub mod state;
pub mod typing;
pub mod unbonding;

pub use crate::error::ContractError;
