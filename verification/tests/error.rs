use broker_client::error::Error;

fn json(text: &str) -> serde_json::Value {
    serde_json::from_str(text).unwrap()
}

#[test]
fn timeout_display_is_explicit() {
    assert_eq!(Error::Timeout.to_display_string(), "request timed out");
}

#[test]
fn http_error_keeps_status_and_body() {
    let err = Error::Http {
        status: 404,
        body: "not found".to_owned(),
    };
    assert_eq!(err.to_display_string(), "http error 404: not found");
    assert!(matches!(
        err,
        Error::Http { status: 404, body } if body == "not found"
    ));
}

#[test]
fn api_error_keeps_code_message_detail() {
    let err = Error::Api {
        code: "ORDER_NOT_FOUND".to_owned(),
        message: "missing".to_owned(),
        detail: json(r#"{"id": "x"}"#),
        status: None,
    };
    assert!(err.to_display_string().contains("ORDER_NOT_FOUND"));
}

#[test]
fn invalid_request_is_not_retryable_and_has_clear_message() {
    let err = Error::InvalidRequest("replace must set new_price and/or new_quantity".into());
    assert!(err.to_display_string().contains("invalid request"));
    assert!(!err.is_retryable());
}

#[test]
fn retryable_statuses_are_identified() {
    assert!(Error::Timeout.is_retryable());
    assert!(Error::Transport("boom".into()).is_retryable());
    assert!(Error::Http {
        status: 429,
        body: String::new()
    }
    .is_retryable());
    assert!(Error::Http {
        status: 503,
        body: String::new()
    }
    .is_retryable());
    assert!(!Error::Http {
        status: 401,
        body: String::new()
    }
    .is_retryable());
    assert!(!Error::Api {
        code: "X".into(),
        message: "y".into(),
        detail: serde_json::Value::Null,
        status: None,
    }
    .is_retryable());
}

#[test]
fn api_errors_are_retryable_by_their_http_status() {
    let api = |status: Option<u16>| Error::Api {
        code: "RATE_LIMITED".into(),
        message: "slow down".into(),
        detail: serde_json::Value::Null,
        status,
    };
    assert!(api(Some(429)).is_retryable());
    assert!(api(Some(500)).is_retryable());
    assert!(api(Some(503)).is_retryable());
    assert!(!api(Some(404)).is_retryable());
    assert!(!api(Some(499)).is_retryable());
    assert!(!api(None).is_retryable());
}

#[test]
fn http_status_boundaries_for_retry() {
    let http = |status: u16| Error::Http {
        status,
        body: String::new(),
    };
    assert!(!http(428).is_retryable());
    assert!(!http(430).is_retryable());
    assert!(!http(499).is_retryable());
    assert!(http(500).is_retryable());
    assert!(http(599).is_retryable());
}

#[test]
fn other_errors_are_not_retryable() {
    assert!(!Error::WebSocket("closed".into()).is_retryable());
    assert!(!Error::InvalidUrl("x".into()).is_retryable());
    assert!(!Error::decode("body".into(), "bad".into()).is_retryable());
}

#[test]
fn every_variant_has_its_display_text() {
    assert_eq!(
        Error::Transport("boom".into()).to_display_string(),
        "transport error: boom"
    );
    assert_eq!(
        Error::WebSocket("closed".into()).to_display_string(),
        "websocket error: closed"
    );
    assert_eq!(
        Error::InvalidUrl("::".into()).to_display_string(),
        "invalid url: ::"
    );
    assert_eq!(
        Error::InvalidRequest("no".into()).to_display_string(),
        "invalid request: no"
    );
    assert_eq!(
        Error::decode("raw".into(), "expected value".into()).to_display_string(),
        "failed to decode response: expected value; body: raw"
    );
    assert_eq!(
        Error::Http {
            status: 0,
            body: String::new()
        }
        .to_display_string(),
        "http error 0: "
    );
    let api = Error::Api {
        code: "E".into(),
        message: "m".into(),
        detail: json(r#"{"k":1}"#),
        status: Some(400),
    };
    assert_eq!(api.to_display_string(), r#"api error E: m (detail: {"k":1})"#);
}

#[test]
fn decode_keeps_body_and_source() {
    let err = Error::decode("not json".into(), "expected value at line 1".into());
    assert_eq!(
        err,
        Error::Decode {
            body: "not json".into(),
            source: "expected value at line 1".into()
        }
    );
}

#[test]
fn transport_failures_map_to_timeout_or_transport() {
    assert_eq!(
        Error::from_transport_failure(true, "operation timed out".into()),
        Error::Timeout
    );
    assert_eq!(
        Error::from_transport_failure(false, "connection refused".into()),
        Error::Transport("connection refused".into())
    );
}

#[test]
fn api_error_display_includes_the_detail_json() {
    let err = Error::Api {
        code: "ORDER_NOT_FOUND".to_owned(),
        message: "missing".to_owned(),
        detail: json(r#"{"id": "x"}"#),
        status: Some(404),
    };
    assert_eq!(
        err.to_display_string(),
        r#"api error ORDER_NOT_FOUND: missing (detail: {"id":"x"})"#
    );
    let null = Error::Api {
        code: "1".to_owned(),
        message: "m".to_owned(),
        detail: serde_json::Value::Null,
        status: None,
    };
    assert_eq!(null.to_display_string(), "api error 1: m (detail: null)");
}
