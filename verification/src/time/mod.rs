//! The time oracle service.
//!
//! Validators report their clocks, and the service consolidates what they report into
//! one time that a limited number of dishonest validators cannot move out of the range
//! of the honest ones.

pub mod api;
pub mod clock;
pub mod error;
pub mod laws;
pub mod outcomes;
pub mod provider;
pub mod schema;
pub mod service;
pub mod transactions;
