//! The ways in which one request to the service can fail.

use vstd::prelude::*;

verus! {

/// Why a single call to the service produced no value.
#[derive(Debug, Clone, Copy, PartialEq, Eq, Structural)]
pub enum ModisError {
    /// No reply was received: name resolution, connection or timeout failed.
    TransportError,
    /// The service replied with a status outside the 2xx range.
    ServiceError { status: u16 },
    /// The reply's body did not have the expected shape.
    ParseError,
}

} // verus!
