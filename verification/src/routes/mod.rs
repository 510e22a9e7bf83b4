//! What the read API takes from its callers.

pub mod products;
