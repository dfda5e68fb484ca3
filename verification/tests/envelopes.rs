use binance_async_api::envelope::{
    classify_response, decode_envelope, settle_decoded, Envelope, RestOutcome, ContentError,
    UnparseableResponse,
};

#[test]
fn error_body_decodes_whatever_the_status() {
    let body = br#"{"code": -1121, "msg": "Invalid symbol"}"#;
    for status in [200u16, 400, 418, 503] {
        match decode_envelope(status, body) {
            Envelope::ApiErr { code, msg } => {
                assert_eq!(code, -1121);
                assert_eq!(msg, b"Invalid symbol".to_vec());
            },
            other => panic!("expected ApiErr, got {:?}", other),
        }
    }
}

#[test]
fn result_body_with_success_status_is_the_payload() {
    let body = br#"{"result": {"symbol": "BTCUSDT", "price": "35000.10"}}"#;
    match decode_envelope(200, body) {
        Envelope::Payload { body } => {
            assert_eq!(body, br#"{"symbol": "BTCUSDT", "price": "35000.10"}"#.to_vec());
        },
        other => panic!("expected Payload, got {:?}", other),
    }
}

#[test]
fn result_body_with_failing_status_is_malformed() {
    let body = br#"{"result": {"x": 1}}"#;
    assert!(matches!(decode_envelope(500, body), Envelope::Malformed));
}

#[test]
fn error_members_accept_either_order() {
    let body = br#"{"msg": "Too many requests", "code": -1003}"#;
    match decode_envelope(429, body) {
        Envelope::ApiErr { code, msg } => {
            assert_eq!(code, -1003);
            assert_eq!(msg, b"Too many requests".to_vec());
        },
        other => panic!("expected ApiErr, got {:?}", other),
    }
}

#[test]
fn error_message_escapes_are_decoded() {
    let body = br#"{"code": 7, "msg": "a \"b\"\n\\c\/d"}"#;
    match decode_envelope(400, body) {
        Envelope::ApiErr { code, msg } => {
            assert_eq!(code, 7);
            assert_eq!(msg, b"a \"b\"\n\\c/d".to_vec());
        },
        other => panic!("expected ApiErr, got {:?}", other),
    }
}

#[test]
fn whitespace_around_the_envelope_is_accepted() {
    let body = b"  {\n\t\"code\"\t: -1 ,\r\n \"msg\" : \"x\" }\n ";
    match decode_envelope(400, body) {
        Envelope::ApiErr { code, msg } => {
            assert_eq!(code, -1);
            assert_eq!(msg, b"x".to_vec());
        },
        other => panic!("expected ApiErr, got {:?}", other),
    }
}

#[test]
fn malformed_bodies_become_a_typed_value_not_a_crash() {
    let cases: [&[u8]; 7] = [
        b"",
        b"not json at all",
        br#"{"code": -1}"#,
        br#"{"code": "x", "msg": "y"}"#,
        br#"{"msg": "y", "msg": "z"}"#,
        br#"{"code": 99999999999999999999999, "msg": "too wide"}"#,
        br#"{"code": 1, "msg": "unterminated"#,
    ];
    for body in cases {
        assert!(matches!(decode_envelope(400, body), Envelope::Malformed));
    }
}

#[test]
fn unknown_escape_is_outside_the_grammar() {
    let body = br#"{"code": 1, "msg": "\u0041"}"#;
    assert!(matches!(decode_envelope(400, body), Envelope::Malformed));
}

#[test]
fn wrapped_error_form_decodes_too() {
    let body = br#"{"error": {"code": -1003, "msg": "Too many requests"}}"#;
    for status in [200u16, 429] {
        match decode_envelope(status, body) {
            Envelope::ApiErr { code, msg } => {
                assert_eq!(code, -1003);
                assert_eq!(msg, b"Too many requests".to_vec());
            },
            other => panic!("expected ApiErr, got {:?}", other),
        }
    }
    match classify_response(418, body.to_vec()) {
        RestOutcome::ApiRejection { status, code, .. } => {
            assert_eq!(status, 418);
            assert_eq!(code, -1003);
        },
        other => panic!("expected ApiRejection, got {:?}", other),
    }
}

#[test]
fn wrapped_error_under_another_key_is_not_an_error() {
    let body = br#"{"failure": {"code": 1, "msg": "x"}}"#;
    assert!(matches!(decode_envelope(400, body), Envelope::Malformed));
}

#[test]
fn extreme_codes_within_i64_are_kept() {
    let body = br#"{"code": -9223372036854775807, "msg": "m"}"#;
    match decode_envelope(400, body) {
        Envelope::ApiErr { code, .. } => assert_eq!(code, i64::MIN + 1),
        other => panic!("expected ApiErr, got {:?}", other),
    }
}

#[test]
fn rest_classification_delivers_success_bodies() {
    let body = br#"[{"a": 1}]"#.to_vec();
    match classify_response(200, body.clone()) {
        RestOutcome::Deliver { status, body: delivered } => {
            assert_eq!(status, 200);
            assert_eq!(delivered, body);
        },
        other => panic!("expected Deliver, got {:?}", other),
    }
}

#[test]
fn rest_classification_surfaces_api_errors_on_any_status() {
    let body = br#"{"code": -2019, "msg": "Margin is insufficient."}"#.to_vec();
    match classify_response(200, body.clone()) {
        RestOutcome::ApiRejection { status, code, msg } => {
            assert_eq!(status, 200);
            assert_eq!(code, -2019);
            assert_eq!(msg, b"Margin is insufficient.".to_vec());
        },
        other => panic!("expected ApiRejection, got {:?}", other),
    }
    assert!(matches!(
        classify_response(400, body),
        RestOutcome::ApiRejection { status: 400, .. }
    ));
}

#[test]
fn rest_classification_marks_strange_failures_unparseable() {
    let body = b"<html>gateway timeout</html>".to_vec();
    match classify_response(504, body) {
        RestOutcome::Unparseable { status } => assert_eq!(status, 504),
        other => panic!("expected Unparseable, got {:?}", other),
    }
}

#[test]
fn settle_decoded_returns_value_or_typed_error() {
    let ok: Result<u32, UnparseableResponse> = settle_decoded(200, Some(7));
    assert_eq!(ok.unwrap(), 7);
    let err: Result<u32, UnparseableResponse> = settle_decoded(200, None);
    assert_eq!(err.unwrap_err(), UnparseableResponse { status: 200 });
}

#[test]
fn content_error_carries_code_and_message() {
    let e = ContentError { code: -1121, msg: "Invalid symbol".to_string() };
    assert_eq!(e.code, -1121);
    assert_eq!(e.msg, "Invalid symbol");
}
