//! The owner: the side that creates a session and anchors it.

pub mod handlers;
pub mod messages;
pub mod proofs;
