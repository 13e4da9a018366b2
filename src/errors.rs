use vstd::prelude::*;

verus! {

/// Why a call to one of the upstream services failed.
#[derive(Clone, Copy, Debug, PartialEq, Eq, Structural)]
pub enum ResponseError {
    /// The request could not be sent or its response could not be read.
    ReqwestError,
    /// A request or response body was not valid JSON of the expected shape.
    SerdeJsonError,
    /// A count that should have been a decimal number was not one.
    ParseIntError,
    /// The analytics session token was missing, expired or refused.
    UnauthorizedError,
    /// The upstream service has no record of what was asked for.
    NotFoundError,
}

/// How a read of the cache fails, as seen by its callers.
#[derive(Clone, Copy, Debug, PartialEq, Eq, Structural)]
pub enum Failure {
    /// The slug is not among the published posts.
    NotFound,
    /// An upstream service failed; cached data was kept as it was.
    ServiceUnavailable,
}

} // verus!
