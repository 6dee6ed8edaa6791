//! The two reportable failure kinds of the fetch stage, and the error
//! body returned for them.
//!
//! Everything past a successful fetch (malformed HTML, absent fields,
//! absent attributes) is normal data and never an error.

use vstd::prelude::*;

verus! {

/// A fetch-stage failure: either the request could not be dispatched at
/// all, or a response arrived whose body could not be decoded as text.
/// Both are equally fatal to the request and map to the same HTTP status.
#[derive(Clone, Copy, PartialEq, Eq, Structural, Debug)]
pub enum FetchError {
    /// The request could not be dispatched (DNS, connection or TLS failure).
    Dispatch,
    /// A response arrived but its body could not be decoded as text.
    BodyDecode,
}

/// The error body sent when a request fails: a single static message.
pub struct ErrorResponse {
    pub message: String,
}

impl FetchError {
    /// The static message reported for this failure kind.
    pub open spec fn spec_message(self) -> Seq<char> {
        match self {
            FetchError::Dispatch => "Invalid response"@,
            FetchError::BodyDecode => "Unable to read body"@,
        }
    }

    /// The message of the error body for this failure kind.
    pub fn message(&self) -> (r: &'static str)
        ensures
            r@ == self.spec_message(),
    {
        match self {
            FetchError::Dispatch => "Invalid response",
            FetchError::BodyDecode => "Unable to read body",
        }
    }

    /// The HTTP status under which this failure is reported: both kinds
    /// are mapped to 500 Internal Server Error.
    pub fn status_code(&self) -> (r: u16)
        ensures
            r == 500,
    {
        500
    }
}

/// Builds the error body for a failed request.
pub fn make_error_response(message: &str) -> (r: ErrorResponse)
    ensures
        r.message@ == message@,
{
    ErrorResponse { message: message.to_owned() }
}

} // verus!
