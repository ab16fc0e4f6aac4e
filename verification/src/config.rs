//! Configuration for the interpreter and for individual data handlers.

use vstd::prelude::*;
use crate::types::{BeaconTime, EndpointDelayConfig, StreamEPDelay};

verus! {

/// Main configuration of the command interpreter. The listen address is
/// kept as text; the process edge parses it when binding the socket.
#[derive(Debug, Clone)]
pub struct TcspecialConfig {
    /// Address to listen on for commands, as `host:port` text
    pub listen_addr: String,
    /// Beacon interval
    pub beacon_interval: BeaconTime,
    /// Endpoint retry delay configuration
    pub endpoint_delay: EndpointDelayConfig,
    /// Stream endpoint coalescing delay
    pub stream_delay: StreamEPDelay,
    /// Maximum number of data handlers
    pub max_data_handlers: usize,
    /// Command queue size
    pub command_queue_size: usize,
    /// Telemetry queue size
    pub telemetry_queue_size: usize,
}

impl TcspecialConfig {
    /// The stock configuration: listen on every interface at port 5000,
    /// beacon every ten seconds, at most eight data handlers.
    pub fn new_default() -> (r: Self)
        ensures
            r.beacon_interval.0 == 10000,
            r.max_data_handlers == 8,
            r.command_queue_size == 16,
            r.telemetry_queue_size == 64,
            r.endpoint_delay.init_ms == 100,
            r.endpoint_delay.max_ms == 10000,
            r.stream_delay.0 == 10,
    {
        Self {
            listen_addr: String::from_str("0.0.0.0:5000"),
            beacon_interval: BeaconTime::default(),
            endpoint_delay: EndpointDelayConfig::default(),
            stream_delay: StreamEPDelay::default(),
            max_data_handlers: 8,
            command_queue_size: 16,
            telemetry_queue_size: 64,
        }
    }

    /// Beacon interval in milliseconds.
    pub fn beacon_duration_ms(&self) -> (r: u64)
        ensures
            r == self.beacon_interval.0,
    {
        self.beacon_interval.0
    }

    /// Initial endpoint retry delay in milliseconds.
    pub fn endpoint_delay_init_ms(&self) -> (r: u64)
        ensures
            r == self.endpoint_delay.init_ms,
    {
        self.endpoint_delay.init_ms
    }

    /// Maximum endpoint retry delay in milliseconds.
    pub fn endpoint_delay_max_ms(&self) -> (r: u64)
        ensures
            r == self.endpoint_delay.max_ms,
    {
        self.endpoint_delay.max_ms
    }

    /// Stream coalescing delay in milliseconds.
    pub fn stream_delay_ms(&self) -> (r: u64)
        ensures
            r == self.stream_delay.0,
    {
        self.stream_delay.0
    }
}

impl Default for TcspecialConfig {
    fn default() -> (r: Self)
        ensures
            r.beacon_interval.0 == 10000,
            r.max_data_handlers == 8,
    {
        Self::new_default()
    }
}

/// Per-data-handler configuration: buffer sizes and I/O semantics.
#[derive(Debug, Clone, Copy, PartialEq, Eq, Structural)]
pub struct DHConfig {
    /// Buffer size for reads
    pub read_buffer_size: usize,
    /// Buffer size for writes
    pub write_buffer_size: usize,
    /// Whether to use stream semantics
    pub is_stream: bool,
    /// Stream coalescing delay in milliseconds; used only with streams
    pub stream_delay_ms: Option<u64>,
}

impl DHConfig {
    /// Stream semantics with the stock coalescing delay.
    pub fn stream() -> (r: Self)
        ensures
            r.is_stream,
            r.stream_delay_ms == Some(10u64),
            r.read_buffer_size == 4096,
            r.write_buffer_size == 4096,
    {
        Self {
            read_buffer_size: 4096,
            write_buffer_size: 4096,
            is_stream: true,
            stream_delay_ms: Some(10),
        }
    }

    /// Datagram semantics.
    pub fn datagram() -> (r: Self)
        ensures
            !r.is_stream,
            r.stream_delay_ms is None,
            r.read_buffer_size == 4096,
            r.write_buffer_size == 4096,
    {
        Self {
            read_buffer_size: 4096,
            write_buffer_size: 4096,
            is_stream: false,
            stream_delay_ms: None,
        }
    }
}

impl Default for DHConfig {
    fn default() -> (r: Self)
        ensures
            !r.is_stream,
            r.stream_delay_ms is None,
            r.read_buffer_size == 4096,
            r.write_buffer_size == 4096,
    {
        Self::datagram()
    }
}

} // verus!
