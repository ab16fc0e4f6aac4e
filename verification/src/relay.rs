//! Relay control types: the commands and responses exchanged with a
//! relay thread, its direction and its configuration. The pumping logic
//! itself is the conduit; the thread that runs it lives at the process
//! edge.

use vstd::prelude::*;
use crate::types::Statistics;

verus! {

/// Commands that can be sent to a relay.
#[derive(Debug, Clone, Copy, PartialEq, Eq, Structural)]
pub enum RelayCommand {
    /// Stop the relay
    Stop,
    /// Report statistics
    GetStats,
}

/// Responses from a relay.
#[derive(Debug, Clone)]
pub enum RelayResponse {
    /// Relay stopped
    Stopped,
    /// Statistics response
    Stats(Statistics),
    /// An error occurred; the text describes it
    Error(String),
}

/// Direction of data flow.
#[derive(Debug, Clone, Copy, PartialEq, Eq, Structural)]
pub enum RelayDirection {
    /// Data flows from ground to payload
    GroundToPayload,
    /// Data flows from payload to ground
    PayloadToGround,
}

/// Relay configuration.
#[derive(Debug, Clone, Copy, PartialEq, Eq, Structural)]
pub struct RelayConfig {
    /// Direction of data flow
    pub direction: RelayDirection,
    /// Buffer size
    pub buffer_size: usize,
    /// Whether the source is a stream
    pub is_stream: bool,
}

impl Default for RelayConfig {
    /// The stock relay: ground to payload, a 4096-byte buffer, datagram
    /// semantics.
    fn default() -> (r: Self)
        ensures
            r.direction == RelayDirection::GroundToPayload,
            r.buffer_size == 4096,
            !r.is_stream,
    {
        Self { direction: RelayDirection::GroundToPayload, buffer_size: 4096, is_stream: false }
    }
}

} // verus!
