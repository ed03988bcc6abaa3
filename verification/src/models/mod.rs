//! The envelope that every reply of the service comes in: invocation
//! metadata, and either a result or an error that the service reports.

pub mod codec;

use crate::errors::{ApiError, ApiErrorView, Error};
use vstd::prelude::*;

verus! {

/// What an [`InvocationInfo`] holds.
pub struct InvocationInfoView {
    pub exec_duration_millis: Option<usize>,
    pub hostname: Seq<char>,
    pub request_id: Seq<char>,
}

/// Request invocation info: how long the service worked on the request,
/// which node served it, and the identifier it gave the request.
#[derive(Debug)]
pub struct InvocationInfo {
    exec_duration_millis: Option<usize>,
    hostname: String,
    request_id: String,
}

impl View for InvocationInfo {
    type V = InvocationInfoView;

    closed spec fn view(&self) -> InvocationInfoView {
        InvocationInfoView {
            exec_duration_millis: self.exec_duration_millis,
            hostname: self.hostname@,
            request_id: self.request_id@,
        }
    }
}

impl InvocationInfo {
    pub fn new(exec_duration_millis: Option<usize>, hostname: String, request_id: String) -> (r:
        Self)
        ensures
            r@ == (InvocationInfoView {
                exec_duration_millis,
                hostname: hostname@,
                request_id: request_id@,
            }),
    {
        InvocationInfo { exec_duration_millis, hostname, request_id }
    }

    pub fn exec_duration_millis(&self) -> (r: Option<usize>)
        ensures
            r == self@.exec_duration_millis,
    {
        self.exec_duration_millis
    }

    pub fn hostname(&self) -> (r: &str)
        ensures
            r@ == self@.hostname,
    {
        self.hostname.as_str()
    }

    pub fn request_id(&self) -> (r: &str)
        ensures
            r@ == self@.request_id,
    {
        self.request_id.as_str()
    }
}

/// What a [`YmApiError`] holds.
pub struct YmApiErrorView {
    pub message: Seq<char>,
    pub name: Seq<char>,
}

/// An error as the service reports it: a message for people and a symbolic
/// name that classifies it.
#[derive(Debug)]
pub struct YmApiError {
    pub message: String,
    pub name: String,
}

impl View for YmApiError {
    type V = YmApiErrorView;

    open spec fn view(&self) -> YmApiErrorView {
        YmApiErrorView { message: self.message@, name: self.name@ }
    }
}

/// The kind of failure that a symbolic error name stands for:
/// `session_expired` is an expired token, and every other name is kept, with
/// its message, as a failure that this library does not know.
pub open spec fn api_error_kind(error: YmApiErrorView) -> ApiErrorView {
    if error.name == "session_expired"@ {
        ApiErrorView::TokenExpired
    } else {
        ApiErrorView::Unknown { name: error.name, message: error.message }
    }
}

/// The failure that a reported error becomes; its view is
/// [`api_error_kind`] of the error's view.
pub open spec fn api_error_of(error: YmApiError) -> ApiError {
    if error.name@ == "session_expired"@ {
        ApiError::TokenExpired
    } else {
        ApiError::Unknown { name: error.name, message: error.message }
    }
}

impl From<YmApiError> for Error {
    fn from(error: YmApiError) -> (r: Self) {
        if error.name == "session_expired".to_owned() {
            Error::ApiError(ApiError::TokenExpired)
        } else {
            Error::ApiError(ApiError::Unknown { name: error.name, message: error.message })
        }
    }
}

impl vstd::std_specs::convert::FromSpecImpl<YmApiError> for Error {
    open spec fn obeys_from_spec() -> bool {
        true
    }

    open spec fn from_spec(error: YmApiError) -> Self {
        Error::ApiError(api_error_of(error))
    }
}

/// What an envelope holds, with the payload as `T`.
pub struct EnvelopeView<T> {
    pub invocation_info: InvocationInfoView,
    pub result: Option<T>,
    pub error: Option<YmApiErrorView>,
}

impl<T> EnvelopeView<T> {
    /// A reply is well formed when it carries a result or an error, and not
    /// both.
    pub open spec fn well_formed(self) -> bool {
        (self.result is Some) != (self.error is Some)
    }
}

/// The envelope of a reply, with a payload of type `T`.
#[derive(Debug)]
pub struct YmApiResponse<T> {
    invocation_info: InvocationInfo,
    result: Option<T>,
    error: Option<YmApiError>,
}

impl<T> View for YmApiResponse<T> {
    type V = EnvelopeView<T>;

    closed spec fn view(&self) -> EnvelopeView<T> {
        EnvelopeView {
            invocation_info: self.invocation_info@,
            result: self.result,
            error: match self.error {
                Some(e) => Some(e@),
                None => None,
            },
        }
    }
}

impl<T> YmApiResponse<T> {
    pub fn new(invocation_info: InvocationInfo, result: Option<T>, error: Option<YmApiError>) -> (r:
        Self)
        ensures
            r@ == (EnvelopeView {
                invocation_info: invocation_info@,
                result,
                error: match error {
                    Some(e) => Some(e@),
                    None => None,
                },
            }),
    {
        YmApiResponse { invocation_info, result, error }
    }

    pub fn result(&self) -> (r: Option<&T>)
        ensures
            match r {
                Some(payload) => self@.result == Some(*payload),
                None => self@.result is None,
            },
    {
        self.result.as_ref()
    }

    pub fn error(&self) -> (r: Option<&YmApiError>)
        ensures
            match r {
                Some(e) => self@.error == Some(e@),
                None => self@.error is None,
            },
    {
        self.error.as_ref()
    }

    pub fn invocation_info(&self) -> (r: &InvocationInfo)
        ensures
            r@ == self@.invocation_info,
    {
        &self.invocation_info
    }

    pub fn is_ok(&self) -> (r: bool)
        ensures
            r == (self@.error is None),
    {
        self.error.is_none()
    }

    /// Whether the envelope carries a result or an error, and not both.
    pub fn is_well_formed(&self) -> (r: bool)
        ensures
            r == self@.well_formed(),
    {
        self.result.is_some() != self.error.is_some()
    }

    /// The three parts of the envelope.
    pub fn into_parts(self) -> (r: (InvocationInfo, Option<T>, Option<YmApiError>))
        ensures
            self@ == (EnvelopeView {
                invocation_info: r.0@,
                result: r.1,
                error: match r.2 {
                    Some(e) => Some(e@),
                    None => None,
                },
            }),
    {
        (self.invocation_info, self.result, self.error)
    }

    /// Takes the envelope apart: the payload on success, the failure that
    /// the service reported otherwise. An envelope with neither is a success
    /// without a payload.
    pub fn into_result(self) -> (r: Result<Option<T>, Error>)
        ensures
            match r {
                Ok(payload) => self@.error is None && payload == self@.result,
                Err(failure) => self@.error matches Some(reported) && failure matches Error::ApiError(
                    kind,
                ) && kind@ == api_error_kind(reported),
            },
    {
        match self.error {
            Some(e) => Err(Error::from(e)),
            None => Ok(self.result),
        }
    }
}

} // verus!
