//! Surveillance pipeline for newly deployed smart contracts.
//!
//! A stream of raw blocks is reduced to the set of contracts created in each
//! block, every contract is enriched with its balance at a fixed reference
//! height and, optionally, with verified source listings, and a closed set of
//! vulnerability detectors is evaluated over every surviving contract,
//! producing textual risk reports with a stable format and ordering.
//!
//! All chain and registry access happens outside this crate: callers fetch
//! blocks, transactions, receipts, balances and source listings themselves and
//! hand the plain values to the functions here.

pub mod block_scanner;
pub mod contract;
pub mod helper;
pub mod report;
pub mod text;
pub mod types;
pub mod vulnerability;
