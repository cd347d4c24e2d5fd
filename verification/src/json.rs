use vstd::prelude::*;
use crate::errors::RequestError;

verus! {

#[verifier::external_type_specification]
#[verifier::external_body]
pub struct ExValue(serde_json::Value);

#[verifier::external_type_specification]
#[verifier::external_body]
pub struct ExJsonError(serde_json::Error);

/// What parsing a body as JSON yields: `Some(v)` exactly when the text is
/// valid JSON reading as the value `v`, `None` when it is not.
pub uninterp spec fn json_parse(s: Seq<char>) -> Option<serde_json::Value>;

/// Relies on serde_json::from_str::<serde_json::Value>: whether parsing
/// succeeds, and the value it yields, depend on the characters of the
/// input alone.
#[verifier::external_body]
fn parse_json(body: &str) -> (r: Result<serde_json::Value, serde_json::Error>)
    ensures
        r is Ok <==> json_parse(body@) is Some,
        r matches Ok(v) ==> json_parse(body@) == Some(v),
{
    serde_json::from_str(body)
}

/// Decodes a response body as JSON, collapsing the parser's error into the
/// library's decode error: exactly the bodies `json_parse` accepts decode,
/// to exactly the value it gives.
pub fn decode_json(body: &str) -> (r: Result<serde_json::Value, RequestError>)
    ensures
        json_parse(body@) matches Some(v) ==> r == Ok::<serde_json::Value, RequestError>(v),
        json_parse(body@) is None ==> r == Err::<serde_json::Value, RequestError>(
            RequestError::Decode,
        ),
{
    match parse_json(body) {
        Ok(v) => Ok(v),
        Err(_) => Err(RequestError::Decode),
    }
}

} // verus!
