use broker_client::error::Error;
use broker_client::response::{
    attach_http_status, http_error, parse_a_error_body, parse_tw_error_body, ApiErrorBody,
    BareErrorBody, TwEnvelope, TwErrorEnvelope,
};

fn json(text: &str) -> serde_json::Value {
    serde_json::from_str(text).unwrap()
}

#[derive(Debug, PartialEq, Eq)]
struct Health {
    status: String,
}

#[test]
fn tw_success_envelope_decodes_data() {
    // {"code":0,"message":"ok","data":{"status":"ok"}}
    let envelope = TwEnvelope {
        code: 0,
        message: "ok".to_owned(),
        data: Some(Health {
            status: "ok".to_owned(),
        }),
    };
    assert_eq!(
        envelope.into_data().unwrap(),
        Health {
            status: "ok".to_owned()
        }
    );
}

#[test]
fn tw_nonzero_code_maps_to_api_error() {
    // {"code":404,"message":"ORDER_NOT_FOUND","data":null}
    let envelope: TwEnvelope<Health> = TwEnvelope {
        code: 404,
        message: "ORDER_NOT_FOUND".to_owned(),
        data: None,
    };
    let err = envelope.into_data().unwrap_err();
    assert!(matches!(
        err,
        Error::Api { code, message, .. } if code == "404" && message == "ORDER_NOT_FOUND"
    ));
}

#[test]
fn tw_error_envelope_is_recognized() {
    // {"detail":{"code":"RATE_LIMITED","message":"slow down","detail":{"hint":1}}}
    let envelope = TwErrorEnvelope {
        detail: ApiErrorBody {
            code: "RATE_LIMITED".to_owned(),
            message: "slow down".to_owned(),
            detail: json(r#"{"hint":1}"#),
        },
    };
    let err = parse_tw_error_body(Some(envelope)).unwrap();
    assert!(matches!(
        err,
        Error::Api { code, message, detail, .. }
            if code == "RATE_LIMITED" && message == "slow down" && detail == json(r#"{"hint": 1}"#)
    ));
}

#[test]
fn a_error_body_is_recognized() {
    // {"code":"error","message":"bad","detail":{"field":"x"}}
    let body = ApiErrorBody {
        code: "error".to_owned(),
        message: "bad".to_owned(),
        detail: json(r#"{"field":"x"}"#),
    };
    let err = parse_a_error_body(Some(body), None).unwrap();
    assert!(matches!(
        err,
        Error::Api { code, message, detail, .. }
            if code == "error" && message == "bad" && detail == json(r#"{"field": "x"}"#)
    ));
}

#[test]
fn unknown_error_body_becomes_http_error() {
    // "plain text" has none of the documented error shapes.
    let err = http_error(502, "plain text".to_owned(), None, None, None);
    assert!(matches!(
        err,
        Error::Http { status: 502, body } if body == "plain text"
    ));
}

#[test]
fn common_http_statuses_map_to_http_error_without_api_body() {
    for status in [401, 404, 429, 503] {
        let err = http_error(status, "raw body".to_owned(), None, None, None);
        assert!(matches!(
            err,
            Error::Http { status: s, body } if s == status && body == "raw body"
        ));
    }
}

#[test]
fn bare_error_body_maps_to_api_error_like_the_v1_middleware() {
    // {"error": "mock 账户尚未初始化"}
    let raw = r#"{"error": "mock 账户尚未初始化"}"#;
    let bare = BareErrorBody {
        error: "mock 账户尚未初始化".to_owned(),
    };
    let err = http_error(404, raw.to_owned(), None, None, Some(bare));
    assert!(matches!(
        err,
        Error::Api {
            code,
            message,
            detail,
            status,
        } if code == "error"
            && message == "mock 账户尚未初始化"
            && detail == json("{}")
            && status == Some(404)
    ));
}

#[test]
fn tw_success_without_data_is_a_decode_error() {
    let envelope: TwEnvelope<Health> = TwEnvelope {
        code: 0,
        message: "ok".to_owned(),
        data: None,
    };
    assert_eq!(
        envelope.into_data().unwrap_err(),
        Error::Decode {
            body: "missing data field in TW success envelope".to_owned(),
            source: "expected data".to_owned(),
        }
    );
}

#[test]
fn tw_envelope_error_code_is_rendered_in_decimal() {
    let envelope: TwEnvelope<Health> = TwEnvelope {
        code: -17,
        message: "neg".to_owned(),
        data: None,
    };
    assert_eq!(
        envelope.into_data().unwrap_err(),
        Error::Api {
            code: "-17".to_owned(),
            message: "neg".to_owned(),
            detail: serde_json::Value::Null,
            status: None,
        }
    );
}

#[test]
fn tw_unit_envelope_checks_only_the_code() {
    let ok: TwEnvelope<Health> = TwEnvelope {
        code: 0,
        message: "ok".to_owned(),
        data: None,
    };
    assert_eq!(ok.into_unit(), Ok(()));
    let failed: TwEnvelope<Health> = TwEnvelope {
        code: 500,
        message: "LOGOUT_FAILED".to_owned(),
        data: None,
    };
    assert!(matches!(
        failed.into_unit(),
        Err(Error::Api { code, message, status: None, .. }) if code == "500" && message == "LOGOUT_FAILED"
    ));
}

#[test]
fn http_error_prefers_tw_envelope_then_a_body_and_keeps_status() {
    let tw = TwErrorEnvelope {
        detail: ApiErrorBody {
            code: "TW".to_owned(),
            message: "tw".to_owned(),
            detail: serde_json::Value::Null,
        },
    };
    let a = ApiErrorBody {
        code: "A".to_owned(),
        message: "a".to_owned(),
        detail: serde_json::Value::Null,
    };
    let bare = BareErrorBody {
        error: "bare".to_owned(),
    };
    let err = http_error(
        503,
        "body".to_owned(),
        Some(tw),
        Some(a.clone()),
        Some(bare.clone()),
    );
    assert!(matches!(&err, Error::Api { code, status: Some(503), .. } if code == "TW"));
    assert!(err.is_retryable());

    let err = http_error(429, "body".to_owned(), None, Some(a), Some(bare));
    assert!(matches!(&err, Error::Api { code, status: Some(429), .. } if code == "A"));
    assert!(err.is_retryable());
}

#[test]
fn parse_a_error_body_without_either_shape_is_none() {
    assert_eq!(parse_a_error_body(None, None), None);
    assert_eq!(parse_tw_error_body(None), None);
}

#[test]
fn attach_http_status_only_changes_api_errors() {
    let api = Error::Api {
        code: "c".to_owned(),
        message: "m".to_owned(),
        detail: serde_json::Value::Null,
        status: None,
    };
    assert_eq!(
        attach_http_status(api, 418),
        Error::Api {
            code: "c".to_owned(),
            message: "m".to_owned(),
            detail: serde_json::Value::Null,
            status: Some(418),
        }
    );
    assert_eq!(attach_http_status(Error::Timeout, 418), Error::Timeout);
}
