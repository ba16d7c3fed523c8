use vstd::prelude::*;
use vstd::string::to_string_from_display_ensures;

use crate::decimal::{append_decimal, decimal};

verus! {

/// The body of an error response of the B2 API: a JSON object with these three fields.
#[derive(Debug)]
pub struct B2ErrorMessage {
    pub code: String,
    pub message: String,
    pub status: u32,
}

/// An error caused while using any of the B2 APIs.
#[derive(Debug)]
pub enum B2Error {
    /// The request could not be sent: a connection, TLS or URI failure.
    HyperError(hyper::error::Error),
    /// Reading or writing a body failed.
    IOError(std::io::Error),
    /// A body that had to be JSON did not decode.
    JsonError(serde_json::Error),
    /// The service answered with this HTTP status and error body.
    B2Error(u16, B2ErrorMessage),
    /// A failure of this library itself.
    LibraryError(String),
}

/// The single-line text of a service failure: `"{status} ({code}): {message}"`,
/// where `status` is the one the transport observed.
pub open spec fn service_text(status: u16, body: B2ErrorMessage) -> Seq<char> {
    decimal(status as nat) + seq![' ', '('] + body.code@ + seq![')', ':', ' '] + body.message@
}

/// The transport error that hyper's `Error::Uri` variant builds around a URI
/// parse error.
pub uninterp spec fn uri_error_of(e: hyper::error::ParseError) -> hyper::error::Error;

/// Relies on hyper's `Error::Uri` variant: wraps the parse error in a transport
/// error that carries it.
#[verifier::external_body]
fn uri_failure(e: hyper::error::ParseError) -> (r: hyper::error::Error)
    ensures
        r == uri_error_of(e),
{
    hyper::error::Error::Uri(e)
}

impl From<serde_json::Error> for B2Error {
    fn from(err: serde_json::Error) -> (r: B2Error)
        ensures
            r == B2Error::JsonError(err),
    {
        B2Error::JsonError(err)
    }
}

impl vstd::std_specs::convert::FromSpecImpl<serde_json::Error> for B2Error {
    open spec fn obeys_from_spec() -> bool {
        true
    }

    open spec fn from_spec(v: serde_json::Error) -> B2Error {
        B2Error::JsonError(v)
    }
}

impl From<hyper::error::Error> for B2Error {
    fn from(err: hyper::error::Error) -> (r: B2Error)
        ensures
            r == B2Error::HyperError(err),
    {
        B2Error::HyperError(err)
    }
}

impl vstd::std_specs::convert::FromSpecImpl<hyper::error::Error> for B2Error {
    open spec fn obeys_from_spec() -> bool {
        true
    }

    open spec fn from_spec(v: hyper::error::Error) -> B2Error {
        B2Error::HyperError(v)
    }
}

impl From<hyper::error::ParseError> for B2Error {
    /// A malformed URI means the request could never be sent, as a failed
    /// connection does: it is a transport failure, not a kind of its own.
    fn from(err: hyper::error::ParseError) -> (r: B2Error)
        ensures
            r == B2Error::HyperError(uri_error_of(err)),
    {
        B2Error::HyperError(uri_failure(err))
    }
}

impl vstd::std_specs::convert::FromSpecImpl<hyper::error::ParseError> for B2Error {
    open spec fn obeys_from_spec() -> bool {
        true
    }

    open spec fn from_spec(v: hyper::error::ParseError) -> B2Error {
        B2Error::HyperError(uri_error_of(v))
    }
}

impl From<std::io::Error> for B2Error {
    fn from(err: std::io::Error) -> (r: B2Error)
        ensures
            r == B2Error::IOError(err),
    {
        B2Error::IOError(err)
    }
}

impl vstd::std_specs::convert::FromSpecImpl<std::io::Error> for B2Error {
    open spec fn obeys_from_spec() -> bool {
        true
    }

    open spec fn from_spec(v: std::io::Error) -> B2Error {
        B2Error::IOError(v)
    }
}

/// What a failed response with this status and this outcome of decoding its
/// body is reported as.
pub open spec fn classify_response(status: u16, decoded: Result<B2ErrorMessage, serde_json::Error>) -> B2Error {
    match decoded {
        Ok(body) => B2Error::B2Error(status, body),
        Err(e) => B2Error::JsonError(e),
    }
}

impl B2Error {
    /// Classifies a failed HTTP response from its status and the outcome of
    /// decoding its body as a `B2ErrorMessage`. A decoded body gives a service
    /// failure under the transport's status, whatever the body's own `status`
    /// field says; a body that did not decode gives the decode failure.
    pub fn from_decoded(status: u16, decoded: Result<B2ErrorMessage, serde_json::Error>) -> (r: B2Error)
        ensures
            r == classify_response(status, decoded),
    {
        match decoded {
            Ok(body) => B2Error::B2Error(status, body),
            Err(json) => B2Error::from(json),
        }
    }

    /// The error as one line of text: the cause's own text for a transport,
    /// I/O or decode failure; `"{status} ({code}): {message}"` for a service
    /// failure; the message itself for a library failure.
    pub fn to_message(&self) -> (r: String)
        ensures
            match self {
                B2Error::HyperError(e) => to_string_from_display_ensures::<hyper::error::Error>(e, r),
                B2Error::IOError(e) => to_string_from_display_ensures::<std::io::Error>(e, r),
                B2Error::JsonError(e) => to_string_from_display_ensures::<serde_json::Error>(e, r),
                B2Error::B2Error(status, body) => r@ == service_text(*status, *body),
                B2Error::LibraryError(msg) => r@ == msg@,
            },
    {
        match self {
            B2Error::HyperError(e) => e.to_string(),
            B2Error::IOError(e) => e.to_string(),
            B2Error::JsonError(e) => e.to_string(),
            B2Error::B2Error(status, body) => {
                let mut out = String::new();
                append_decimal(&mut out, *status);
                out.append(" (");
                out.append(body.code.as_str());
                out.append("): ");
                out.append(body.message.as_str());
                proof {
                    reveal_strlit(" (");
                    reveal_strlit("): ");
                }
                out
            },
            B2Error::LibraryError(msg) => msg.clone(),
        }
    }
}


/// The transport's status is authoritative: two decoded bodies that differ at
/// most in their own `status` field render to the same text under a given
/// transport status.
pub proof fn lemma_transport_status_authoritative(status: u16, a: B2ErrorMessage, b: B2ErrorMessage)
    requires
        a.code@ == b.code@,
        a.message@ == b.message@,
    ensures
        service_text(status, a) == service_text(status, b),
{
}

} // verus!
