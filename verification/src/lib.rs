//! Spacecraft-side command interpreter and data-handler relay fabric.
//!
//! The crate models and verifies the core of a small command/telemetry
//! system: a wire codec for framed command and telemetry messages, the
//! command dispatcher with its arm/restart state machine, a registry of
//! data handlers, the one-way byte relay engine, and the beacon driver.

use vstd::prelude::*;

pub mod beacon;
pub mod ci;
pub mod codec;
pub mod commands;
pub mod conduit;
pub mod config;
pub mod dh;
pub mod endpoint;
pub mod error;
pub mod indicator;
pub mod moc;
pub mod protocol;
pub mod relay;
pub mod sim;
pub mod telemetry;
pub mod types;
pub mod wire;

verus! {

/// Milliseconds in the arm window: a RESTART is honoured only within this
/// long after the RESTART_ARM that armed it.
pub const ARM_WINDOW_MS: u64 = 60000;

/// Seconds in the arm window.
pub const ARM_WINDOW_SECS: u64 = 60;

} // verus!
