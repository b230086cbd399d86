//! A single-actor marketplace ledger.
//!
//! An administrator lists products with quantity and price, buyers purchase
//! against on-hand stock by attaching payment, and the ledger records purchase
//! history per buyer. The host (dispatcher) supplies the caller's identity,
//! the attached value and the minimum-transferable-value threshold with each
//! request, and performs the value transfers the ledger requests.

pub mod types;
pub mod model;
pub mod market;
pub mod laws;
