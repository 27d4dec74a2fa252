use vstd::prelude::*;

verus! {

/// Every way in which preparing a request or accepting a response can fail.
#[derive(Debug)]
pub enum Error {
    /// The API key holds a character that an HTTP header value cannot carry.
    NetworkInvalidHeaderValue,
    /// The API answered with a status other than 200; holds the code in decimal.
    NetworkUnexpectedStatusCode(String),
    /// The brand id is longer than the allowed bound; holds the raw text.
    ValidateInvalidBrandId(String),
    /// The location id is longer than the allowed bound; holds the raw text.
    ValidateInvalidLocationId(String),
    /// A timestamp is not a base-10 unsigned 64-bit integer; holds the raw text.
    ValidateInvalidTimestamp(String),
    /// The span ends before it starts; holds `(from, to)`.
    ValidateInvalidDateTimeSpan(u64, u64),
}

} // verus!
