use serde_json::Value;
use ymapi::errors::{ApiError, DecodeFault, Error};
use ymapi::models::{InvocationInfo, YmApiError, YmApiResponse};

fn decode(text: &str) -> Result<YmApiResponse<Value>, DecodeFault> {
    YmApiResponse::decode(text.as_bytes())
}

fn json(text: &str) -> Value {
    serde_json::from_str(text).unwrap()
}

const INFO: &str = r#""invocationInfo":{"hostname":"h","req-id":"r"}"#;

#[test]
fn decodes_a_success_envelope() {
    let envelope = decode(
        r#"{"invocationInfo":{"exec-duration-millis":12,"hostname":"vla-01","req-id":"abc"},"result":{"account":{"uid":42}}}"#,
    )
    .unwrap();
    assert!(envelope.is_ok());
    assert!(envelope.is_well_formed());
    assert!(envelope.error().is_none());
    assert_eq!(envelope.invocation_info().request_id(), "abc");
    assert_eq!(envelope.invocation_info().hostname(), "vla-01");
    assert_eq!(envelope.invocation_info().exec_duration_millis(), Some(12));
    assert_eq!(envelope.result(), Some(&json(r#"{"account":{"uid":42}}"#)));
    let uid = envelope.result().unwrap().get("account").unwrap().get("uid").unwrap();
    assert_eq!(uid.as_u64(), Some(42));
}

#[test]
fn decodes_a_failure_envelope() {
    let envelope = decode(
        r#"{"invocationInfo":{"hostname":"h","req-id":"r"},"error":{"message":"x","name":"session_expired"}}"#,
    )
    .unwrap();
    assert!(!envelope.is_ok());
    assert!(envelope.is_well_formed());
    assert!(envelope.result().is_none());
    assert_eq!(envelope.invocation_info().exec_duration_millis(), None);
    assert_eq!(envelope.invocation_info().hostname(), "h");
    assert_eq!(envelope.invocation_info().request_id(), "r");
    let reported = envelope.error().unwrap();
    assert_eq!(reported.message, "x");
    assert_eq!(reported.name, "session_expired");
    assert!(matches!(
        envelope.into_result(),
        Err(Error::ApiError(ApiError::TokenExpired))
    ));
}

#[test]
fn session_expired_is_an_expired_token() {
    let reported = YmApiError {
        message: "x".to_owned(),
        name: "session_expired".to_owned(),
    };
    assert!(matches!(
        Error::from(reported),
        Error::ApiError(ApiError::TokenExpired)
    ));
}

#[test]
fn an_unknown_error_name_is_kept() {
    let reported = YmApiError {
        message: "no such track".to_owned(),
        name: "not_found".to_owned(),
    };
    match Error::from(reported) {
        Error::ApiError(ApiError::Unknown { name, message }) => {
            assert_eq!(name, "not_found");
            assert_eq!(message, "no such track");
        }
        other => panic!("unexpected: {:?}", other),
    }
}

#[test]
fn an_error_name_is_matched_as_a_whole() {
    for name in ["session_expired ", "Session_expired", "session", ""] {
        let reported = YmApiError {
            message: "m".to_owned(),
            name: name.to_owned(),
        };
        assert!(matches!(
            Error::from(reported),
            Error::ApiError(ApiError::Unknown { .. })
        ));
    }
}

#[test]
fn into_result_hands_out_the_payload() {
    let envelope = decode(&format!(r#"{{{},"result":[1,2,3]}}"#, INFO)).unwrap();
    match envelope.into_result() {
        Ok(payload) => assert_eq!(payload, Some(json("[1,2,3]"))),
        Err(other) => panic!("unexpected: {:?}", other),
    }
}

#[test]
fn into_result_of_an_empty_envelope_is_a_success_without_payload() {
    let envelope = decode(&format!("{{{}}}", INFO)).unwrap();
    assert!(envelope.is_ok());
    assert!(!envelope.is_well_formed());
    assert!(matches!(envelope.into_result(), Ok(None)));
}

#[test]
fn a_null_member_counts_as_missing() {
    let envelope = decode(&format!(r#"{{{},"result":7,"error":null}}"#, INFO)).unwrap();
    assert!(envelope.is_ok());
    assert_eq!(envelope.result(), Some(&json("7")));

    let envelope = decode(&format!(
        r#"{{{},"result":null,"error":{{"message":"m","name":"n"}}}}"#,
        INFO
    ))
    .unwrap();
    assert!(!envelope.is_ok());
    assert!(envelope.result().is_none());

    let envelope = decode(
        r#"{"invocationInfo":{"exec-duration-millis":null,"hostname":"h","req-id":"r"},"result":true}"#,
    )
    .unwrap();
    assert_eq!(envelope.invocation_info().exec_duration_millis(), None);
}

#[test]
fn members_that_are_not_named_are_ignored() {
    let envelope = decode(
        r#"{"extra":1,"invocationInfo":{"hostname":"h","req-id":"r","app-version":"1"},"result":"ok"}"#,
    )
    .unwrap();
    assert_eq!(envelope.result(), Some(&json(r#""ok""#)));
    assert_eq!(envelope.invocation_info().hostname(), "h");
}

#[test]
fn the_duration_may_be_zero_or_large() {
    let envelope = decode(
        r#"{"invocationInfo":{"exec-duration-millis":0,"hostname":"h","req-id":"r"},"result":1}"#,
    )
    .unwrap();
    assert_eq!(envelope.invocation_info().exec_duration_millis(), Some(0));
    let envelope = decode(
        r#"{"invocationInfo":{"exec-duration-millis":4294967295,"hostname":"h","req-id":"r"},"result":1}"#,
    )
    .unwrap();
    assert_eq!(
        envelope.invocation_info().exec_duration_millis(),
        Some(4294967295)
    );
}

#[test]
fn text_that_is_not_json_is_a_syntax_fault() {
    for text in ["", "{", "not json", r#"{"invocationInfo":}"#, "{} trailing"] {
        assert!(matches!(decode(text), Err(DecodeFault::Syntax(_))));
    }
}

#[test]
fn a_reply_without_invocation_info_is_refused() {
    for text in [
        "{}",
        "[]",
        "null",
        "42",
        r#""text""#,
        r#"{"result":1}"#,
        r#"{"invocationInfo":null,"result":1}"#,
        r#"{"invocationInfo":"h","result":1}"#,
        r#"{"invocationInfo":["h","r"],"result":1}"#,
        r#"{"invocation_info":{"hostname":"h","req-id":"r"},"result":1}"#,
    ] {
        assert!(matches!(decode(text), Err(DecodeFault::InvocationInfo)));
    }
}

#[test]
fn an_invocation_info_of_the_wrong_shape_is_refused() {
    for info in [
        r#"{"req-id":"r"}"#,
        r#"{"hostname":"h"}"#,
        r#"{"hostname":null,"req-id":"r"}"#,
        r#"{"hostname":1,"req-id":"r"}"#,
        r#"{"hostname":"h","req-id":["r"]}"#,
        r#"{"hostname":"h","request_id":"r"}"#,
        r#"{"hostname":"h","req_id":"r"}"#,
        r#"{"exec-duration-millis":-1,"hostname":"h","req-id":"r"}"#,
        r#"{"exec-duration-millis":1.5,"hostname":"h","req-id":"r"}"#,
        r#"{"exec-duration-millis":"12","hostname":"h","req-id":"r"}"#,
        r#"{"exec-duration-millis":18446744073709551616,"hostname":"h","req-id":"r"}"#,
    ] {
        let text = format!(r#"{{"invocationInfo":{},"result":1}}"#, info);
        assert!(matches!(decode(&text), Err(DecodeFault::InvocationInfo)));
    }
}

#[test]
fn the_dashed_names_are_the_ones_that_count() {
    let envelope = decode(
        r#"{"invocationInfo":{"exec_duration_millis":5,"execDurationMillis":6,"hostname":"h","req-id":"r"},"result":1}"#,
    )
    .unwrap();
    assert_eq!(envelope.invocation_info().exec_duration_millis(), None);
}

#[test]
fn an_error_of_the_wrong_shape_is_refused() {
    for reported in [
        r#""session_expired""#,
        "1",
        "[]",
        "{}",
        r#"{"message":"m"}"#,
        r#"{"name":"n"}"#,
        r#"{"message":null,"name":"n"}"#,
        r#"{"message":"m","name":7}"#,
    ] {
        let text = format!("{{{},\"error\":{}}}", INFO, reported);
        assert!(matches!(decode(&text), Err(DecodeFault::ErrorPayload)));
    }
}

#[test]
fn a_reply_with_result_and_error_is_refused() {
    let text = format!(
        r#"{{{},"result":1,"error":{{"message":"m","name":"n"}}}}"#,
        INFO
    );
    assert!(matches!(decode(&text), Err(DecodeFault::ResultAndError)));
}

#[test]
fn the_invocation_info_is_looked_at_first_and_the_error_before_the_pair() {
    assert!(matches!(
        decode(r#"{"invocationInfo":{},"result":1,"error":{"message":"m","name":"n"}}"#),
        Err(DecodeFault::InvocationInfo)
    ));
    let text = format!(r#"{{{},"result":1,"error":{{"message":"m"}}}}"#, INFO);
    assert!(matches!(decode(&text), Err(DecodeFault::ErrorPayload)));
}

#[test]
fn from_json_reads_a_value() {
    let value = json(r#"{"invocationInfo":{"hostname":"h","req-id":"r"},"result":{"a":[1,null]}}"#);
    let envelope = YmApiResponse::from_json(&value).unwrap();
    assert_eq!(envelope.result(), Some(&json(r#"{"a":[1,null]}"#)));

    let info = InvocationInfo::from_json(&json(
        r#"{"exec-duration-millis":3,"hostname":"host","req-id":"id"}"#,
    ))
    .unwrap();
    assert_eq!(info.exec_duration_millis(), Some(3));
    assert_eq!(info.hostname(), "host");
    assert_eq!(info.request_id(), "id");
    assert!(InvocationInfo::from_json(&json("[]")).is_none());

    let reported = YmApiError::from_json(&json(r#"{"message":"m","name":"n"}"#)).unwrap();
    assert_eq!(reported.message, "m");
    assert_eq!(reported.name, "n");
    assert!(YmApiError::from_json(&json(r#"{"message":"m"}"#)).is_none());
}

#[test]
fn accessors_give_what_the_envelope_was_made_of() {
    let info = InvocationInfo::new(Some(7), "node".to_owned(), "req".to_owned());
    let envelope: YmApiResponse<u32> = YmApiResponse::new(info, Some(5), None);
    assert_eq!(envelope.result(), Some(&5));
    assert!(envelope.error().is_none());
    assert!(envelope.is_ok());
    assert!(envelope.is_well_formed());
    assert_eq!(envelope.invocation_info().exec_duration_millis(), Some(7));
    assert_eq!(envelope.invocation_info().hostname(), "node");
    assert_eq!(envelope.invocation_info().request_id(), "req");

    let info = InvocationInfo::new(None, "node".to_owned(), "req".to_owned());
    let reported = YmApiError {
        message: "m".to_owned(),
        name: "n".to_owned(),
    };
    let envelope: YmApiResponse<u32> = YmApiResponse::new(info, Some(5), Some(reported));
    assert!(!envelope.is_ok());
    assert!(!envelope.is_well_formed());
    assert_eq!(envelope.error().unwrap().name, "n");
    assert_eq!(envelope.result(), Some(&5));
}

#[test]
fn to_json_writes_every_member() {
    let info = InvocationInfo::new(Some(12), "vla-01".to_owned(), "abc".to_owned());
    assert_eq!(
        info.to_json(),
        json(r#"{"exec-duration-millis":12,"hostname":"vla-01","req-id":"abc"}"#)
    );
    let info = InvocationInfo::new(None, "h".to_owned(), "r".to_owned());
    assert_eq!(
        info.to_json(),
        json(r#"{"exec-duration-millis":null,"hostname":"h","req-id":"r"}"#)
    );
    let reported = YmApiError {
        message: "m".to_owned(),
        name: "n".to_owned(),
    };
    assert_eq!(reported.to_json(), json(r#"{"message":"m","name":"n"}"#));

    let envelope = YmApiResponse::new(info, Some(json(r#"{"uid":42}"#)), None);
    assert_eq!(
        envelope.to_json(),
        json(
            r#"{"invocationInfo":{"exec-duration-millis":null,"hostname":"h","req-id":"r"},"result":{"uid":42},"error":null}"#
        )
    );
}

#[test]
fn encoding_and_decoding_give_the_envelope_back() {
    let payload = json(r#"{"account":{"uid":42,"name":"é","tags":["a",1,-2,2.5,true,null]}}"#);
    let info = InvocationInfo::new(Some(12), "vla-01".to_owned(), "abc".to_owned());
    let envelope = YmApiResponse::new(info, Some(payload.clone()), None);
    let text = envelope.encode().unwrap();
    let back = YmApiResponse::decode(&text).unwrap();
    assert_eq!(back.result(), Some(&payload));
    assert!(back.error().is_none());
    assert_eq!(back.invocation_info().exec_duration_millis(), Some(12));
    assert_eq!(back.invocation_info().hostname(), "vla-01");
    assert_eq!(back.invocation_info().request_id(), "abc");
    assert_eq!(back.to_json(), envelope.to_json());

    let info = InvocationInfo::new(None, "h".to_owned(), "r".to_owned());
    let reported = YmApiError {
        message: "m \"quoted\"".to_owned(),
        name: "session_expired".to_owned(),
    };
    let envelope: YmApiResponse<Value> = YmApiResponse::new(info, None, Some(reported));
    let back = YmApiResponse::decode(&envelope.encode().unwrap()).unwrap();
    assert!(back.result().is_none());
    assert_eq!(back.error().unwrap().message, "m \"quoted\"");
    assert_eq!(back.error().unwrap().name, "session_expired");
    assert_eq!(back.invocation_info().exec_duration_millis(), None);
}

#[test]
fn a_null_payload_does_not_come_back() {
    let info = InvocationInfo::new(None, "h".to_owned(), "r".to_owned());
    let envelope = YmApiResponse::new(info, Some(Value::Null), None);
    let back = YmApiResponse::decode(&envelope.encode().unwrap()).unwrap();
    assert!(back.result().is_none());
}

#[test]
fn an_envelope_with_result_and_error_does_not_come_back() {
    let info = InvocationInfo::new(None, "h".to_owned(), "r".to_owned());
    let reported = YmApiError {
        message: "m".to_owned(),
        name: "n".to_owned(),
    };
    let envelope = YmApiResponse::new(info, Some(json("1")), Some(reported));
    assert!(matches!(
        YmApiResponse::decode(&envelope.encode().unwrap()),
        Err(DecodeFault::ResultAndError)
    ));
}

#[test]
fn numbers_in_the_payload_come_out_as_they_went_in() {
    for number in [
        "0",
        "-1",
        "1",
        "1.0",
        "2.5",
        "-2.5",
        "-0.0",
        "1e100",
        "18446744073709551615",
        "18446744073709551616",
        "-9223372036854775808",
    ] {
        let text = format!("{{{},\"result\":{{\"n\":[{}]}}}}", INFO, number);
        let envelope = decode(&text).unwrap();
        let expected = json(&format!("{{\"n\":[{}]}}", number));
        assert_eq!(envelope.result(), Some(&expected));
        let written = envelope.result().unwrap()["n"][0].to_string();
        assert_eq!(written, json(number).to_string());
    }
    let one = decode(&format!("{{{},\"result\":-1}}", INFO)).unwrap();
    let other = decode(&format!("{{{},\"result\":2.5}}", INFO)).unwrap();
    assert_ne!(one.result(), other.result());
    assert_eq!(one.result().unwrap().as_i64(), Some(-1));
    assert_eq!(other.result().unwrap().to_string(), "2.5");
}
