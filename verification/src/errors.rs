//! What can go wrong: failures that the service reports, failures of the
//! transport, and foreign errors that integration code wraps.

use reqwest::Error as HttpError;
use serde_json::Error as JsonError;
use vstd::prelude::*;

verus! {

/// A failure that the service itself reported, classified by the symbolic
/// name that came with it.
#[derive(Debug)]
pub enum ApiError {
    /// The session behind the token is no longer valid.
    TokenExpired,
    /// A failure whose name this library does not know.
    Unknown { name: String, message: String },
}

/// What an [`ApiError`] holds.
pub enum ApiErrorView {
    TokenExpired,
    Unknown { name: Seq<char>, message: Seq<char> },
}

impl View for ApiError {
    type V = ApiErrorView;

    open spec fn view(&self) -> ApiErrorView {
        match *self {
            ApiError::TokenExpired => ApiErrorView::TokenExpired,
            ApiError::Unknown { name, message } => ApiErrorView::Unknown {
                name: name@,
                message: message@,
            },
        }
    }
}

/// Why the body of a reply is not an envelope.
#[derive(Debug)]
pub enum DecodeFault {
    /// The body is not JSON text.
    Syntax(JsonError),
    /// The invocation info is missing or does not have its shape.
    InvocationInfo,
    /// The error payload is there but does not have its shape.
    ErrorPayload,
    /// The envelope carries both a result and an error.
    ResultAndError,
}

/// A failure below the envelope: the exchange itself failed, or what came
/// back violates the protocol.
#[derive(Debug)]
pub enum TransportError {
    /// The HTTP layer failed: building the transport, connecting, sending,
    /// or reading the reply.
    Http(HttpError),
    /// A reply arrived with this status, and its body is not an envelope.
    Decode { status: u16, fault: DecodeFault },
}

/// Every failure this library reports.
#[derive(Debug)]
pub enum Error {
    /// The service answered, and the answer is an error it reported.
    ApiError(ApiError),
    /// The transport failed, or the reply violates the protocol.
    Reqwest(TransportError),
    /// A foreign error, kept by its message.
    Other(String),
}

impl From<HttpError> for Error {
    fn from(err: HttpError) -> (r: Self) {
        Error::Reqwest(TransportError::Http(err))
    }
}

impl vstd::std_specs::convert::FromSpecImpl<HttpError> for Error {
    open spec fn obeys_from_spec() -> bool {
        true
    }

    open spec fn from_spec(err: HttpError) -> Self {
        Error::Reqwest(TransportError::Http(err))
    }
}

} // verus!
