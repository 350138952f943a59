//! The error type of the cache's handlers.

use vstd::prelude::*;

verus! {

/// Why a handler could not complete.
#[derive(Debug)]
pub enum ApplicationError {
    /// A setting the handler needs is missing.
    InitError(String),
    /// A call to DynamoDB or to the origin failed.
    ClientError(String),
    /// Anything else.
    InternalError(String),
}

} // verus!
