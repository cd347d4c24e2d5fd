//! Verified client-side logic for the intranet REST service: URL assembly
//! from a session token and endpoint fragments, newline splitting of text
//! replies, and the decoding decisions applied to every fetched body.
//!
//! The network itself is outside the library: a caller performs one HTTP
//! request per assembled URL and hands the outcome back as a
//! [`errors::FetchOutcome`], which the functions in [`responses`] turn into
//! the final reply.

pub mod client;
pub mod errors;
pub mod json;
pub mod lines;
pub mod responses;
pub mod urls;
