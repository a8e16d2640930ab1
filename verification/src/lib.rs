//! Pairing of a controlled device (the owner of a session) with a remote
//! operator (the controller) through a relay.
//!
//! An owner starts a session and waits. A controller asks to join it; the
//! owner is asked for permission; once it has accepted, the commands of the
//! controller are relayed to the owner until one of the two disconnects.
//!
//! The library holds the decisions of the protocol and proves what they
//! guarantee. It never talks to the network or to the key-value backend:
//! each handler and each operation of the store is a transition that is
//! told what happened and answers with what has to be done next. The runtime
//! around the library carries that out and comes back with the outcome.
//!
//! - [`actors`]: the choice of a side for a connection, the handlers of the
//!   owner and of the controller, and the model of the world against which
//!   their guarantees are stated;
//! - [`sessions`]: the identifier and the states of a session, what a store
//!   owes its callers, and the store over a key-value backend;
//! - [`socket`]: the events of the protocol and the form of its messages on
//!   the wire;
//! - [`configuration`]: the settings that the protocol reads.

pub mod actors;
pub mod configuration;
pub mod sessions;
pub mod socket;
