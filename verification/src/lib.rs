//! Stock reservation for an order pipeline: an inventory ledger, an
//! append-only outbox of domain events, and the two engines that reserve and
//! release stock for a whole order or not at all.

pub mod consumers;
pub mod driver;
pub mod events;
pub mod laws;
pub mod ledger;
pub mod models;
pub mod protocol;
pub mod routes;
pub mod store;
