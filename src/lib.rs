//! Verified core of an Ethereum chain indexer: the rules that shape chain data
//! into rows, classify contracts, decode token transfers, merge rows on
//! conflict, and schedule and sequence the per-block work.
pub mod hex;
pub mod types;
pub mod abi;
pub mod logs;
pub mod rows;
pub mod store;
pub mod scheduler;
pub mod workflow;
pub mod explorer;
pub mod subflows;
pub mod config;
