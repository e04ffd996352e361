//! Error taxonomy. Every fault is terminal for the current run: the core
//! performs no retry and no compensating action, and each failure propagates
//! unchanged to the caller.

use vstd::prelude::*;

verus! {

/// The serial device could not be opened or the Modbus session could not be
/// established. Fatal before any coil operation is attempted.
#[derive(Clone, Debug, PartialEq, Eq)]
pub struct ConnectionError {
    pub detail: String,
}

/// A read-coils or write-coil transaction failed: transport fault, device
/// timeout, or a malformed response. Fatal at the point of failure; the
/// sequence aborts with no partial-state recovery.
#[derive(Clone, Debug, PartialEq, Eq)]
pub enum TransactionError {
    /// The transport reported a fault or the device did not answer.
    Transport { detail: String },
    /// The device answered a bank read with the wrong number of coils.
    MalformedResponse { coil_count: usize },
}

/// Everything a full actuation run can fail with.
#[derive(Clone, Debug, PartialEq, Eq)]
pub enum RunError {
    /// The channel could not be opened; no coil operation was attempted.
    Connection(ConnectionError),
    /// The requested relay index lies outside the eight-coil bank; rejected
    /// before any wire operation.
    RelayIndexOutOfRange { index: u8 },
    /// A coil transaction failed mid-sequence.
    Transaction(TransactionError),
}

} // verus!
