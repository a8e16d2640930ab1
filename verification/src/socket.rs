//! What the protocol asks of the socket layer.

pub mod port;
pub mod wire;
