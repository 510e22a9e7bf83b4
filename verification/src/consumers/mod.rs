//! Handlers for the order events this service consumes.

pub mod inventory;
