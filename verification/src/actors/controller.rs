//! The controller: the side that asks to join a session and sends commands.

pub mod handlers;
pub mod messages;
pub mod proofs;
