//! A verified ledger for auctions, together with a time oracle.
//!
//! The [`auction`] service keeps participants, their items, and the auctions in
//! which those items are sold. The [`time`] service consolidates the clocks of a
//! group of validators into one time that only moves forward.

pub mod auction;
pub mod crypto;
pub mod execution;
pub mod routing;
pub mod storage;
pub mod time;
