use vstd::prelude::*;

verus! {

/// The single error taxonomy of the library: a request either failed at the
/// transport level (connection, timeout, name resolution) or its body could
/// not be decoded as JSON. Callers are not given anything finer.
#[derive(Clone, Copy, Debug, PartialEq, Eq, Structural)]
pub enum RequestError {
    /// The HTTP request itself failed; no body was obtained.
    Transport,
    /// A body was obtained but was not valid JSON.
    Decode,
}

/// What one HTTP exchange produced, as handed back by the caller that
/// performed it: either the full response body as text, or a transport
/// failure with no body at all.
#[derive(Debug)]
pub enum FetchOutcome {
    /// The response body, fully buffered as text.
    Success(String),
    /// The request never yielded a body (connection refused, timeout, ...).
    TransportFailure,
}

} // verus!
