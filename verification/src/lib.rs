//! An order book for an automated trading system: asks and bids for a base
//! denomination against quote denominations, matched by authorised
//! executors, with fees, approvals of convertible bases, and migration of
//! the stored contract data between versions.

pub mod ask_order;
pub mod bid_order;
pub mod common;
pub mod contract;
pub mod contract_info;
pub mod decimal;
pub mod error;
pub mod execute;
pub mod laws;
pub mod match_totals;
pub mod msg;
pub mod profiler;
pub mod response;
pub mod settlement_laws;
pub mod store;
pub mod version_info;
