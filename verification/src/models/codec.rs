//! The envelope on the wire: which JSON values are envelopes, and which
//! envelope each of them is.
//!
//! The top-level object has the members `invocationInfo`, `result` and
//! `error`; the invocation info has `exec-duration-millis`, `hostname` and
//! `req-id`; the error has `message` and `name`. Members that are not named
//! here are ignored. An optional member may be missing or `null`.

use crate::errors::DecodeFault;
use crate::json::{
    json_as_text, json_clone, json_from_text, json_from_unsigned, json_is_null, json_member,
    json_model, json_null, json_parsed, json_set_member, json_unsigned, json_write, json_written,
    parse_json, Json, JsonNumber,
};
use crate::models::{
    EnvelopeView, InvocationInfo, InvocationInfoView, YmApiError, YmApiErrorView, YmApiResponse,
};
use vstd::prelude::*;

verus! {

/// The member under `key` where it is there and not `null`.
pub open spec fn optional_member(object: Json, key: Seq<char>) -> Option<Json> {
    match object.member(key) {
        Some(Json::Null) => None,
        found => found,
    }
}

/// The invocation info that a JSON value stands for, or `None` where it does
/// not have the shape: `hostname` and `req-id` must be strings, and
/// `exec-duration-millis`, where it is there, a non-negative integer that
/// fits `usize`.
pub open spec fn invocation_info_model(value: Json) -> Option<InvocationInfoView> {
    match (value.member("hostname"@), value.member("req-id"@)) {
        (Some(Json::Text(hostname)), Some(Json::Text(request_id))) => {
            match optional_member(value, "exec-duration-millis"@) {
                None => Some(
                    InvocationInfoView { exec_duration_millis: None, hostname, request_id },
                ),
                Some(duration) => match duration.unsigned() {
                    Some(millis) => if millis <= usize::MAX {
                        Some(
                            InvocationInfoView {
                                exec_duration_millis: Some(millis as usize),
                                hostname,
                                request_id,
                            },
                        )
                    } else {
                        None
                    },
                    None => None,
                },
            }
        },
        _ => None,
    }
}

/// The error payload that a JSON value stands for, or `None` where it does
/// not have the shape: `message` and `name` must be strings.
pub open spec fn api_error_model(value: Json) -> Option<YmApiErrorView> {
    match (value.member("message"@), value.member("name"@)) {
        (Some(Json::Text(message)), Some(Json::Text(name))) => Some(
            YmApiErrorView { message, name },
        ),
        _ => None,
    }
}

/// The envelope that a JSON value stands for, or the reason why it stands
/// for none. The invocation info is looked at first, then the error, then
/// the pair of result and error.
pub open spec fn envelope_model(value: Json) -> Result<EnvelopeView<Json>, DecodeFault> {
    match value.member("invocationInfo"@) {
        None => Err(DecodeFault::InvocationInfo),
        Some(info) => match invocation_info_model(info) {
            None => Err(DecodeFault::InvocationInfo),
            Some(invocation_info) => {
                let result = optional_member(value, "result"@);
                match optional_member(value, "error"@) {
                    None => Ok(EnvelopeView { invocation_info, result, error: None }),
                    Some(reported) => match api_error_model(reported) {
                        None => Err(DecodeFault::ErrorPayload),
                        Some(error) => if result is Some {
                            Err(DecodeFault::ResultAndError)
                        } else {
                            Ok(EnvelopeView { invocation_info, result: None, error: Some(error) })
                        },
                    },
                }
            },
        },
    }
}

/// The envelope that a text stands for: the text must be JSON, and the JSON
/// an envelope. `None` stands for a text that is not JSON.
pub open spec fn decoded(text: Seq<u8>) -> Option<Result<EnvelopeView<Json>, DecodeFault>> {
    match json_parsed(text) {
        None => None,
        Some(value) => Some(envelope_model(value)),
    }
}

/// What an envelope with a JSON payload holds, the payload by its model.
pub open spec fn json_envelope(envelope: YmApiResponse<serde_json::Value>) -> EnvelopeView<Json> {
    EnvelopeView {
        invocation_info: envelope@.invocation_info,
        result: match envelope@.result {
            Some(payload) => Some(json_model(payload)),
            None => None,
        },
        error: envelope@.error,
    }
}

fn optional<'a>(object: &'a serde_json::Value, key: &str) -> (r: Option<&'a serde_json::Value>)
    ensures
        match r {
            Some(found) => optional_member(json_model(*object), key@) == Some(json_model(*found)),
            None => optional_member(json_model(*object), key@) is None,
        },
{
    match json_member(object, key) {
        Some(found) => if json_is_null(found) {
            None
        } else {
            Some(found)
        },
        None => None,
    }
}

fn required_text(object: &serde_json::Value, key: &str) -> (r: Option<String>)
    ensures
        match r {
            Some(s) => json_model(*object).member(key@) == Some(Json::Text(s@)),
            None => !(json_model(*object).member(key@) matches Some(Json::Text(_))),
        },
{
    match json_member(object, key) {
        Some(found) => match json_as_text(found) {
            Some(s) => Some(s.to_owned()),
            None => None,
        },
        None => None,
    }
}

impl InvocationInfo {
    /// Reads the invocation info off a JSON value.
    pub fn from_json(value: &serde_json::Value) -> (r: Option<Self>)
        ensures
            match r {
                Some(info) => invocation_info_model(json_model(*value)) == Some(info@),
                None => invocation_info_model(json_model(*value)) is None,
            },
    {
        let hostname = match required_text(value, "hostname") {
            Some(s) => s,
            None => { return None; },
        };
        let request_id = match required_text(value, "req-id") {
            Some(s) => s,
            None => { return None; },
        };
        let exec_duration_millis = match optional(value, "exec-duration-millis") {
            None => None,
            Some(duration) => match json_unsigned(duration) {
                Some(millis) => if millis <= usize::MAX as u64 {
                    Some(millis as usize)
                } else {
                    return None;
                },
                None => { return None; },
            },
        };
        Some(InvocationInfo::new(exec_duration_millis, hostname, request_id))
    }
}

impl YmApiError {
    /// Reads the error payload off a JSON value.
    pub fn from_json(value: &serde_json::Value) -> (r: Option<Self>)
        ensures
            match r {
                Some(error) => api_error_model(json_model(*value)) == Some(error@),
                None => api_error_model(json_model(*value)) is None,
            },
    {
        let message = match required_text(value, "message") {
            Some(s) => s,
            None => { return None; },
        };
        let name = match required_text(value, "name") {
            Some(s) => s,
            None => { return None; },
        };
        Some(YmApiError { message, name })
    }
}

impl YmApiResponse<serde_json::Value> {
    /// Reads the envelope off a JSON value. The payload is the `result`
    /// member as it stands.
    pub fn from_json(value: &serde_json::Value) -> (r: Result<Self, DecodeFault>)
        ensures
            match r {
                Ok(envelope) => envelope_model(json_model(*value)) == Ok::<
                    EnvelopeView<Json>,
                    DecodeFault,
                >(json_envelope(envelope)),
                Err(fault) => envelope_model(json_model(*value)) == Err::<
                    EnvelopeView<Json>,
                    DecodeFault,
                >(fault),
            },
    {
        let invocation_info = match json_member(value, "invocationInfo") {
            None => { return Err(DecodeFault::InvocationInfo); },
            Some(info) => match InvocationInfo::from_json(info) {
                None => { return Err(DecodeFault::InvocationInfo); },
                Some(invocation_info) => invocation_info,
            },
        };
        let result = optional(value, "result");
        match optional(value, "error") {
            None => {
                let payload = match result {
                    Some(found) => Some(json_clone(found)),
                    None => None,
                };
                Ok(YmApiResponse::new(invocation_info, payload, None))
            },
            Some(reported) => match YmApiError::from_json(reported) {
                None => Err(DecodeFault::ErrorPayload),
                Some(error) => if result.is_some() {
                    Err(DecodeFault::ResultAndError)
                } else {
                    Ok(YmApiResponse::new(invocation_info, None, Some(error)))
                },
            },
        }
    }

    /// Decodes the body of a reply: the text must be JSON, and the JSON an
    /// envelope.
    pub fn decode(text: &[u8]) -> (r: Result<Self, DecodeFault>)
        ensures
            match decoded(text@) {
                None => r matches Err(DecodeFault::Syntax(_)),
                Some(Ok(envelope)) => r matches Ok(e) && json_envelope(e) == envelope,
                Some(Err(fault)) => r == Err::<Self, DecodeFault>(fault),
            },
    {
        match parse_json(text) {
            Err(cause) => Err(DecodeFault::Syntax(cause)),
            Ok(value) => YmApiResponse::from_json(&value),
        }
    }
}

/// The JSON value that an invocation info is written as. All three members
/// are written; a missing duration is written as `null`.
pub open spec fn invocation_info_json(info: InvocationInfoView) -> Json {
    Json::Object(
        Map::empty().insert(
            "exec-duration-millis"@,
            match info.exec_duration_millis {
                Some(millis) => Json::Number(JsonNumber::Unsigned(millis as u64)),
                None => Json::Null,
            },
        ).insert("hostname"@, Json::Text(info.hostname)).insert(
            "req-id"@,
            Json::Text(info.request_id),
        ),
    )
}

/// The JSON value that an error payload is written as.
pub open spec fn api_error_json(error: YmApiErrorView) -> Json {
    Json::Object(
        Map::empty().insert("message"@, Json::Text(error.message)).insert(
            "name"@,
            Json::Text(error.name),
        ),
    )
}

/// The JSON value that an envelope is written as. All three members are
/// written; a missing result or error is written as `null`.
pub open spec fn envelope_json(envelope: EnvelopeView<Json>) -> Json {
    Json::Object(
        Map::empty().insert("invocationInfo"@, invocation_info_json(envelope.invocation_info))
            .insert(
            "result"@,
            match envelope.result {
                Some(payload) => payload,
                None => Json::Null,
            },
        ).insert(
            "error"@,
            match envelope.error {
                Some(error) => api_error_json(error),
                None => Json::Null,
            },
        ),
    )
}

impl InvocationInfo {
    /// Writes the invocation info as a JSON value.
    pub fn to_json(&self) -> (r: serde_json::Value)
        ensures
            json_model(r) == invocation_info_json(self@),
    {
        let duration = match self.exec_duration_millis() {
            Some(millis) => json_from_unsigned(millis as u64),
            None => json_null(),
        };
        let mut object = json_null();
        json_set_member(&mut object, "exec-duration-millis", duration);
        json_set_member(&mut object, "hostname", json_from_text(self.hostname()));
        json_set_member(&mut object, "req-id", json_from_text(self.request_id()));
        object
    }
}

impl YmApiError {
    /// Writes the error payload as a JSON value.
    pub fn to_json(&self) -> (r: serde_json::Value)
        ensures
            json_model(r) == api_error_json(self@),
    {
        let mut object = json_null();
        json_set_member(&mut object, "message", json_from_text(self.message.as_str()));
        json_set_member(&mut object, "name", json_from_text(self.name.as_str()));
        object
    }
}

impl YmApiResponse<serde_json::Value> {
    /// Writes the envelope as a JSON value.
    pub fn to_json(&self) -> (r: serde_json::Value)
        ensures
            json_model(r) == envelope_json(json_envelope(*self)),
    {
        let result = match self.result() {
            Some(payload) => json_clone(payload),
            None => json_null(),
        };
        let error = match self.error() {
            Some(reported) => reported.to_json(),
            None => json_null(),
        };
        let mut object = json_null();
        json_set_member(&mut object, "invocationInfo", self.invocation_info().to_json());
        json_set_member(&mut object, "result", result);
        json_set_member(&mut object, "error", error);
        object
    }

    /// Encodes the envelope as JSON text: the text that the JSON writer
    /// gives for the value of [`YmApiResponse::to_json`], or `None` where
    /// the writer fails.
    pub fn encode(&self) -> (r: Option<Vec<u8>>)
        ensures
            exists|value: serde_json::Value|
                #![trigger json_written(value)]
                json_model(value) == envelope_json(json_envelope(*self)) && match r {
                    Some(text) => json_written(value) == Some(text@),
                    None => json_written(value) is None,
                },
    {
        let value = self.to_json();
        json_write(&value)
    }
}

/// The lengths of the member names, which tell all of them apart but
/// `req-id` and `result`; those differ in their third character.
proof fn lemma_member_names()
    ensures
        "invocationInfo"@.len() == 14,
        "result"@.len() == 6,
        "error"@.len() == 5,
        "exec-duration-millis"@.len() == 20,
        "hostname"@.len() == 8,
        "req-id"@.len() == 6,
        "message"@.len() == 7,
        "name"@.len() == 4,
        "req-id"@[2] == 'q',
        "result"@[2] == 's',
{
    reveal_strlit("invocationInfo");
    reveal_strlit("result");
    reveal_strlit("error");
    reveal_strlit("exec-duration-millis");
    reveal_strlit("hostname");
    reveal_strlit("req-id");
    reveal_strlit("message");
    reveal_strlit("name");
}

/// An envelope that was read off a reply never carries both a result and
/// an error; and where the reply has exactly one of the two members, the
/// envelope is well formed: it carries exactly that one, beside its
/// invocation info.
pub proof fn lemma_decoded_envelope_well_formed(value: Json)
    ensures
        envelope_model(value) matches Ok(envelope) ==> {
            &&& !(envelope.result is Some && envelope.error is Some)
            &&& envelope.result is Some <==> optional_member(value, "result"@) is Some
            &&& envelope.error is Some <==> optional_member(value, "error"@) is Some
            &&& (optional_member(value, "result"@) is Some) != (optional_member(value, "error"@)
                is Some) ==> envelope.well_formed()
            &&& value.member("invocationInfo"@) matches Some(info) && invocation_info_model(info)
                == Some(envelope.invocation_info)
        },
{
}

/// Decoding populates every field: an object whose `invocationInfo` has a
/// string `hostname`, a string `req-id` and a duration that is missing,
/// `null` or a number that fits, and which has a `result` and no `error`,
/// is the success envelope with exactly those values, whatever else the
/// objects hold.
pub proof fn lemma_decode_success(
    value: Json,
    info: Json,
    hostname: Seq<char>,
    request_id: Seq<char>,
    duration: Option<usize>,
    payload: Json,
)
    requires
        value.member("invocationInfo"@) == Some(info),
        info.member("hostname"@) == Some(Json::Text(hostname)),
        info.member("req-id"@) == Some(Json::Text(request_id)),
        match duration {
            Some(millis) => info.member("exec-duration-millis"@) == Some(
                Json::Number(JsonNumber::Unsigned(millis as u64)),
            ),
            None => optional_member(info, "exec-duration-millis"@) is None,
        },
        value.member("result"@) == Some(payload),
        payload !is Null,
        optional_member(value, "error"@) is None,
    ensures
        envelope_model(value) == Ok::<EnvelopeView<Json>, DecodeFault>(
            EnvelopeView {
                invocation_info: InvocationInfoView {
                    exec_duration_millis: duration,
                    hostname,
                    request_id,
                },
                result: Some(payload),
                error: None,
            },
        ),
{
}

/// Decoding populates every field: with an `error` that has a string
/// `message` and a string `name`, and without a `result`, the object is the
/// failure envelope with exactly those values.
pub proof fn lemma_decode_failure(
    value: Json,
    info: Json,
    hostname: Seq<char>,
    request_id: Seq<char>,
    duration: Option<usize>,
    reported: Json,
    message: Seq<char>,
    name: Seq<char>,
)
    requires
        value.member("invocationInfo"@) == Some(info),
        info.member("hostname"@) == Some(Json::Text(hostname)),
        info.member("req-id"@) == Some(Json::Text(request_id)),
        match duration {
            Some(millis) => info.member("exec-duration-millis"@) == Some(
                Json::Number(JsonNumber::Unsigned(millis as u64)),
            ),
            None => optional_member(info, "exec-duration-millis"@) is None,
        },
        optional_member(value, "result"@) is None,
        value.member("error"@) == Some(reported),
        reported.member("message"@) == Some(Json::Text(message)),
        reported.member("name"@) == Some(Json::Text(name)),
    ensures
        envelope_model(value) == Ok::<EnvelopeView<Json>, DecodeFault>(
            EnvelopeView {
                invocation_info: InvocationInfoView {
                    exec_duration_millis: duration,
                    hostname,
                    request_id,
                },
                result: None,
                error: Some(YmApiErrorView { message, name }),
            },
        ),
{
}

/// Writing an envelope and reading it back gives the envelope again, for
/// every envelope that does not carry both a result and an error and whose
/// payload is not `null`.
pub proof fn lemma_write_then_read(envelope: EnvelopeView<Json>)
    requires
        !(envelope.result is Some && envelope.error is Some),
        envelope.result != Some(Json::Null),
    ensures
        envelope_model(envelope_json(envelope)) == Ok::<EnvelopeView<Json>, DecodeFault>(envelope),
{
    lemma_member_names();
    let info = invocation_info_json(envelope.invocation_info);
    assert(invocation_info_model(info) == Some(envelope.invocation_info));
    if let Some(error) = envelope.error {
        assert(api_error_model(api_error_json(error)) == Some(error));
    }
}

/// Encoding and decoding are inverse on the wire: a text that the JSON
/// reader takes for the value that an envelope is written as decodes to
/// that envelope. This holds for every envelope that does not carry both a
/// result and an error and whose payload is not `null`.
pub proof fn lemma_encode_then_decode(envelope: EnvelopeView<Json>, text: Seq<u8>)
    requires
        !(envelope.result is Some && envelope.error is Some),
        envelope.result != Some(Json::Null),
        json_parsed(text) == Some(envelope_json(envelope)),
    ensures
        decoded(text) == Some(Ok::<EnvelopeView<Json>, DecodeFault>(envelope)),
{
    lemma_write_then_read(envelope);
}

} // verus!
