//! A software-in-the-loop telemetry bridge library.
//!
//! The crate models the logic of a bidirectional flight-telemetry bridge:
//! a framed message connection to a remote flight-control process, a
//! three-bucket cadence scheduler that decides which sensor message groups
//! are due on every simulated-time tick, shared simulation state written by
//! the feedback side and read by the reporting side, and the normalization
//! of inbound actuator commands.
//!
//! Transport I/O (TCP sockets, threads) and floating-point payload
//! synthesis live outside this crate; the library works on plain values
//! and byte frames, and every function here carries a verified contract.

pub mod actuator;
pub mod cadence;
pub mod connection;
pub mod feedback;
pub mod frame;
pub mod messages;
pub mod reporting;
pub mod state;

use vstd::prelude::*;

verus! {

/// The error taxonomy of the bridge, from connection setup to framing.
#[derive(Clone, Copy, PartialEq, Eq, Structural, Debug)]
pub enum ConnectionError {
    /// The connection descriptor's scheme prefix is not recognized.
    ProtocolUnsupported,
    /// The host or bind address could not be resolved.
    AddressResolution,
    /// No frame became available within the configured window; retryable.
    Timeout,
    /// The transport failed terminally (reset, broken pipe).
    TransportFatal,
    /// A frame header failed validation or the payload was truncated.
    FrameDecode,
}

/// A timeout is the only error a loop may retry; every other error is
/// fatal to the operation that met it.
pub open spec fn spec_is_retryable(e: ConnectionError) -> bool {
    e is Timeout
}

/// Classifies an error as retryable (a timeout) or fatal.
pub fn is_retryable(e: &ConnectionError) -> (r: bool)
    ensures
        r == spec_is_retryable(*e),
{
    match e {
        ConnectionError::Timeout => true,
        _ => false,
    }
}

} // verus!
