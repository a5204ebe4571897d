//! Auctions of items between registered participants.

pub mod api;
pub mod data;
pub mod error;
pub mod laws;
pub mod ledger;
pub mod outcomes;
pub mod schema;
pub mod service;
pub mod transactions;
