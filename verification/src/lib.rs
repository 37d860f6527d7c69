//! A bilateral commodity-futures clearing engine.
//!
//! Two counterparties (a producer, called the farmer, and a buyer) open a
//! collateralized forward contract on a physical commodity, post margin, and
//! settle either in cash against an oracle price or physically against a
//! Merkle-gated delivery proof.  This crate holds the settlement and risk
//! logic itself: oracle price ingestion with a time-weighted-average
//! accumulator, margin calls and liquidation flagging, the cash fee-and-PnL
//! waterfall, partial physical delivery, and timelocked rotation of the
//! oracle-publisher role.  Every operation is a pure transition over the
//! `Market` and `Deal` records plus the vault balances handed in by the
//! caller; moving the funds, reading the clock, and persisting the records
//! belong to the ledger runtime around this crate.

use vstd::prelude::*;

pub mod cash;
pub mod cft;
pub mod deal;
pub mod errors;
pub mod margin;
pub mod market;
pub mod math;
pub mod merkle;
pub mod oracle;
pub mod physical;
pub mod rotation;

verus! {

/// Schema version stamped into every record and checked by every operation.
pub const PROGRAM_VERSION: u8 = 1;

/// Capacity of a deal's asset basket.
pub const MAX_ASSETS: usize = 4;

/// Longest accepted Merkle proof, in 32-byte hashes.
pub const MAX_PROOF_HASHES: usize = 16;

/// Smallest accepted TWAP window, in seconds.
pub const MIN_TWAP_WINDOW: u64 = 1;

} // verus!
