//! Error type shared across the library, and its mapping onto the wire
//! error codes carried in telemetry replies.

use vstd::prelude::*;
use crate::types::ErrorCode;

verus! {

/// Main error type for library operations.
#[derive(Debug, Clone)]
pub enum TcsError {
    /// An I/O operation failed; the text describes it.
    Io(String),
    /// A message could not be serialized or deserialized.
    Serialization(String),
    /// The peer broke the wire protocol.
    Protocol(String),
    /// A data handler operation failed.
    DataHandler(String),
    /// A command failed with a specific wire error code.
    Command { code: ErrorCode, message: String },
    /// A configuration value was rejected.
    Configuration(String),
    /// A resource could not be allocated.
    ResourceAllocation(String),
    /// An operation timed out.
    Timeout,
    /// The connection was closed by the peer.
    ConnectionClosed,
    /// An operation was attempted in the wrong state.
    InvalidState(String),
}

impl TcsError {
    pub fn protocol(msg: String) -> (r: Self)
        ensures
            r matches TcsError::Protocol(m) && m@ == msg@,
    {
        Self::Protocol(msg)
    }

    pub fn data_handler(msg: String) -> (r: Self)
        ensures
            r matches TcsError::DataHandler(m) && m@ == msg@,
    {
        Self::DataHandler(msg)
    }

    pub fn command(code: ErrorCode, msg: String) -> (r: Self)
        ensures
            r matches TcsError::Command { code: c, message: m } && c == code && m@ == msg@,
    {
        Self::Command { code, message: msg }
    }

    pub fn configuration(msg: String) -> (r: Self)
        ensures
            r matches TcsError::Configuration(m) && m@ == msg@,
    {
        Self::Configuration(msg)
    }

    pub fn resource_allocation(msg: String) -> (r: Self)
        ensures
            r matches TcsError::ResourceAllocation(m) && m@ == msg@,
    {
        Self::ResourceAllocation(msg)
    }

    pub fn invalid_state(msg: String) -> (r: Self)
        ensures
            r matches TcsError::InvalidState(m) && m@ == msg@,
    {
        Self::InvalidState(msg)
    }

    /// The wire error code that each error maps to.
    pub open spec fn spec_error_code(self) -> ErrorCode {
        match self {
            TcsError::Io(_) => ErrorCode::IoError,
            TcsError::Serialization(_) => ErrorCode::InvalidCommand,
            TcsError::Protocol(_) => ErrorCode::InvalidCommand,
            TcsError::DataHandler(_) => ErrorCode::DHNotFound,
            TcsError::Command { code, .. } => code,
            TcsError::Configuration(_) => ErrorCode::InvalidConfiguration,
            TcsError::ResourceAllocation(_) => ErrorCode::ResourceAllocationFailed,
            TcsError::Timeout => ErrorCode::IoError,
            TcsError::ConnectionClosed => ErrorCode::IoError,
            TcsError::InvalidState(_) => ErrorCode::Unknown,
        }
    }

    /// Convert to an error code for telemetry responses.
    pub fn to_error_code(&self) -> (r: ErrorCode)
        ensures
            r == self.spec_error_code(),
    {
        match self {
            TcsError::Io(_) => ErrorCode::IoError,
            TcsError::Serialization(_) => ErrorCode::InvalidCommand,
            TcsError::Protocol(_) => ErrorCode::InvalidCommand,
            TcsError::DataHandler(_) => ErrorCode::DHNotFound,
            TcsError::Command { code, .. } => *code,
            TcsError::Configuration(_) => ErrorCode::InvalidConfiguration,
            TcsError::ResourceAllocation(_) => ErrorCode::ResourceAllocationFailed,
            TcsError::Timeout => ErrorCode::IoError,
            TcsError::ConnectionClosed => ErrorCode::IoError,
            TcsError::InvalidState(_) => ErrorCode::Unknown,
        }
    }
}

/// Result type alias for library operations.
pub type TcsResult<T> = Result<T, TcsError>;

} // verus!
