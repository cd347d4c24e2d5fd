use vstd::prelude::*;
use crate::errors::{FetchOutcome, RequestError};
use crate::json::{decode_json, json_parse};
use crate::lines::{line_views, split_lines, split_lines_spec};

verus! {

/// Completes an exchange whose body is expected to be JSON: a transport
/// failure is reported as such, before any decoding is attempted; a body
/// decodes to exactly the value `json_parse` gives it, or to a decode
/// error when it is not valid JSON.
pub fn complete_json(outcome: FetchOutcome) -> (r: Result<serde_json::Value, RequestError>)
    ensures
        outcome is TransportFailure ==> r == Err::<serde_json::Value, RequestError>(
            RequestError::Transport,
        ),
        outcome matches FetchOutcome::Success(body) ==> ({
            &&& (json_parse(body@) matches Some(v) ==> r == Ok::<
                serde_json::Value,
                RequestError,
            >(v))
            &&& (json_parse(body@) is None ==> r == Err::<serde_json::Value, RequestError>(
                RequestError::Decode,
            ))
        }),
{
    match outcome {
        FetchOutcome::TransportFailure => Err(RequestError::Transport),
        FetchOutcome::Success(body) => decode_json(body.as_str()),
    }
}

/// Completes an exchange whose body is plain text split on newlines: a
/// transport failure is reported as such; a body always succeeds, as its
/// ordered segments. No decode error can arise.
pub fn complete_lines(outcome: FetchOutcome) -> (r: Result<Vec<String>, RequestError>)
    ensures
        outcome is TransportFailure ==> r == Err::<Vec<String>, RequestError>(
            RequestError::Transport,
        ),
        outcome matches FetchOutcome::Success(body) ==> (r matches Ok(ls) && line_views(ls@)
            == split_lines_spec(body@)),
{
    match outcome {
        FetchOutcome::TransportFailure => Err(RequestError::Transport),
        FetchOutcome::Success(body) => Ok(split_lines(body.as_str())),
    }
}

/// Completes an exchange whose body is kept as raw text: a transport
/// failure is reported as such; a body is returned unchanged.
pub fn complete_text(outcome: FetchOutcome) -> (r: Result<String, RequestError>)
    ensures
        outcome is TransportFailure ==> r == Err::<String, RequestError>(RequestError::Transport),
        outcome matches FetchOutcome::Success(body) ==> (r matches Ok(t) && t@ == body@),
{
    match outcome {
        FetchOutcome::TransportFailure => Err(RequestError::Transport),
        FetchOutcome::Success(body) => Ok(body),
    }
}

} // verus!
