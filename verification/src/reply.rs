//! How the outcome of one round trip to the service is read.

use crate::error::ModisError;
use crate::structs::ModisData;
use vstd::prelude::*;

verus! {

/// What one round trip to the service brought back.
pub enum Reply<T> {
    /// Nothing came back.
    Unreachable,
    /// The service answered with `status`; `body` is what its body decoded
    /// to, or `None` where it did not have the expected shape.
    Answered { status: u16, body: Option<T> },
}

/// A status in the 2xx range.
pub open spec fn spec_is_success(status: u16) -> bool {
    200 <= status < 300
}

/// Whether `status` is in the 2xx range.
#[verifier::when_used_as_spec(spec_is_success)]
pub fn is_success(status: u16) -> (ok: bool)
    ensures
        ok == spec_is_success(status),
{
    200 <= status && status < 300
}

/// The result of a call whose round trip brought back `reply`.
///
/// A missing reply is a transport error. A status outside the 2xx range is a
/// service error, whatever the body holds. A body of the wrong shape under a
/// 2xx status is a parse error.
pub open spec fn spec_conclude<T>(reply: Reply<T>) -> Result<T, ModisError> {
    match reply {
        Reply::Unreachable => Err(ModisError::TransportError),
        Reply::Answered { status, body } => if !spec_is_success(status) {
            Err(ModisError::ServiceError { status })
        } else {
            match body {
                Some(value) => Ok(value),
                None => Err(ModisError::ParseError),
            }
        },
    }
}

/// Reads the outcome of one round trip: the decoded body, or the error that
/// ends the call.
pub fn conclude<T>(reply: Reply<T>) -> (result: Result<T, ModisError>)
    ensures
        result == spec_conclude(reply),
{
    match reply {
        Reply::Unreachable => Err(ModisError::TransportError),
        Reply::Answered { status, body } => {
            if !is_success(status) {
                Err(ModisError::ServiceError { status })
            } else {
                match body {
                    Some(value) => Ok(value),
                    None => Err(ModisError::ParseError),
                }
            }
        },
    }
}

/// The result of a request for a subset whose round trip brought back
/// `reply`: as for any call, and a decoded record that is not well formed is a
/// body of the wrong shape.
pub open spec fn spec_conclude_subset(reply: Reply<ModisData>) -> Result<ModisData, ModisError> {
    match spec_conclude(reply) {
        Ok(data) => if data.well_formed() {
            Ok(data)
        } else {
            Err(ModisError::ParseError)
        },
        Err(error) => Err(error),
    }
}

/// Reads the outcome of a request for a subset. A record that comes out of it
/// holds, in each of its time slices, exactly `nrows * ncols` values.
pub fn conclude_subset(reply: Reply<ModisData>) -> (result: Result<ModisData, ModisError>)
    ensures
        result == spec_conclude_subset(reply),
        result matches Ok(data) ==> forall|k: int|
            0 <= k < data.subset@.len() ==> (#[trigger] data.subset@[k]).data@.len() == data.nrows
                * data.ncols,
{
    match conclude(reply) {
        Ok(data) => {
            if data.is_well_formed() {
                Ok(data)
            } else {
                Err(ModisError::ParseError)
            }
        },
        Err(error) => Err(error),
    }
}

} // verus!
