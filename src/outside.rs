use vstd::prelude::*;

verus! {

/// hyper's transport error: connection, parse and TLS failures. Carried, never inspected.
#[verifier::external_type_specification]
#[verifier::external_body]
pub struct ExHyperError(hyper::error::Error);

/// The URI parse error that hyper re-exports. Carried, never inspected.
#[verifier::external_type_specification]
#[verifier::external_body]
pub struct ExUriParseError(hyper::error::ParseError);

/// serde_json's decode error. Carried, never inspected.
#[verifier::external_type_specification]
#[verifier::external_body]
pub struct ExJsonError(serde_json::Error);

/// std's I/O error. Carried, never inspected.
#[verifier::external_type_specification]
#[verifier::external_body]
pub struct ExIoError(std::io::Error);

} // verus!
