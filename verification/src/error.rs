//! The error surface of a fetch.
//!
//! Every failure of the conditional-GET protocol is reported through one
//! discriminated result; nothing is swallowed and nothing is retried.  A
//! failed call leaves the cache exactly as it was.

use vstd::prelude::*;

verus! {

/// Why a fetch failed.
#[derive(Clone, Copy, Debug, PartialEq, Eq, Structural)]
pub enum Error {
    /// The request never produced a response (connection, DNS or send
    /// failure).  Not retried by this layer.
    TransportFailure,
    /// A response header value (the `ETag`) was not valid text.
    HeaderDecodeFailure,
    /// The response body did not decode into the endpoint's value type.
    BodyDecodeFailure,
    /// The response status neither served the request nor revalidated a
    /// cached entry; carries the status code.
    BadResponse(u16),
}

impl Error {
    /// A short description of the failure.
    pub fn describe(&self) -> (r: &'static str)
        ensures
            r@ == match self {
                Error::TransportFailure => "send request failure"@,
                Error::HeaderDecodeFailure => "header value is not valid text"@,
                Error::BodyDecodeFailure => "response body did not decode"@,
                Error::BadResponse(_) => "unexpected response status"@,
            },
    {
        match self {
            Error::TransportFailure => "send request failure",
            Error::HeaderDecodeFailure => "header value is not valid text",
            Error::BodyDecodeFailure => "response body did not decode",
            Error::BadResponse(_) => "unexpected response status",
        }
    }
}

} // verus!
