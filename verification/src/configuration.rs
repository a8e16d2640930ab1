//! The settings that the protocol reads.

use vstd::prelude::*;

verus! {

/// Settings of the controller side.
#[derive(Clone, Copy, Debug, PartialEq, Eq, Structural)]
pub struct ControllerConfig {
    /// How long, in seconds, a join request waits for the owner's answer.
    pub session_join_request_timeout: u64,
}

/// The settings of the relay.
#[derive(Clone, Copy, Debug, PartialEq, Eq, Structural)]
pub struct Config {
    pub controller: ControllerConfig,
    /// The lifetime of a stored session in seconds; unbounded if absent.
    pub session_ttl: Option<i64>,
}

} // verus!
