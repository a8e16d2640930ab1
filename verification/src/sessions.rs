//! Sessions: their identifiers, their states and the store that keeps them.

pub mod adapters;
pub mod port;
