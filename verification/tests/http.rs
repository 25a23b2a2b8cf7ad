use broker_client::auth::AuthMethod;
use broker_client::config::ClientConfig;
use broker_client::error::Error;
use broker_client::response::{http_error, ApiErrorBody, TwErrorEnvelope};
use broker_client::http::{
    checked_url, is_success_status, path_with_id, query_pairs, request_headers, request_url,
    RetryState, RetryStep,
};

fn pairs(v: &[(&str, &str)]) -> Vec<(String, String)> {
    v.iter()
        .map(|(k, v)| (k.to_string(), v.to_string()))
        .collect()
}

#[test]
fn bearer_token_is_sent_after_builtin_headers() {
    let config = ClientConfig::new("http://x")
        .token("secret")
        .user_agent("agent/1")
        .default_header("X-Custom", "yes");
    let headers = request_headers(&config, Some("req-1"), "generated", false);
    assert_eq!(
        headers,
        pairs(&[
            ("X-Custom", "yes"),
            ("user-agent", "agent/1"),
            ("x-request-id", "req-1"),
            ("authorization", "Bearer secret"),
        ])
    );
}

#[test]
fn x_auth_token_header_is_supported() {
    let config = ClientConfig::new("http://127.0.0.1:8000")
        .token("secret")
        .auth_method(AuthMethod::XAuthToken);
    let headers = request_headers(&config, None, "gen-1", false);
    assert!(headers.contains(&("x-auth-token".to_owned(), "secret".to_owned())));
    assert!(!headers.iter().any(|(k, _)| k == "authorization"));
    assert_eq!(
        headers,
        pairs(&[
            ("user-agent", "broker_client/0.4.1"),
            ("x-request-id", "gen-1"),
            ("x-auth-token", "secret"),
        ])
    );
}

#[test]
fn empty_or_missing_token_sends_no_auth_header() {
    for config in [ClientConfig::new("http://x").token(""), ClientConfig::new("http://x")] {
        let headers = request_headers(&config, None, "gen", false);
        assert_eq!(
            headers,
            pairs(&[("user-agent", "broker_client/0.4.1"), ("x-request-id", "gen")])
        );
    }
}

#[test]
fn request_id_is_present_even_when_not_supplied() {
    let config = ClientConfig::new("http://127.0.0.1:8000");
    let headers = request_headers(&config, Some("custom-id"), "0b6f-generated", false);
    assert!(headers.iter().any(|(k, v)| k == "x-request-id" && v == "custom-id"));
    let headers = request_headers(&config, None, "0b6f-generated", false);
    assert!(headers
        .iter()
        .any(|(k, v)| k == "x-request-id" && v == "0b6f-generated"));
}

#[test]
fn query_keeps_present_parameters_in_order() {
    let params = vec![
        ("account".to_owned(), Some("S1".to_owned())),
        ("status".to_owned(), None),
        ("limit".to_owned(), Some("50".to_owned())),
        ("symbol".to_owned(), Some(String::new())),
    ];
    assert_eq!(
        query_pairs(params),
        pairs(&[("account", "S1"), ("limit", "50"), ("symbol", "")])
    );
    assert!(query_pairs(vec![("a".to_owned(), None)]).is_empty());
}

#[test]
fn order_paths_percent_encode_the_client_order_id() {
    assert_eq!(path_with_id("/v1/orders/", "C1", ""), "/v1/orders/C1");
    assert_eq!(
        path_with_id("/v1/orders/", "a/b c?d#e%", "/cancel"),
        "/v1/orders/a%2Fb%20c%3Fd%23e%25/cancel"
    );
    assert_eq!(
        path_with_id("/api/v1/orders/", "單-1", ""),
        "/api/v1/orders/%E5%96%AE%2D1"
    );
}

#[test]
fn post_requests_are_not_retried_on_5xx() {
    let config = ClientConfig::new("http://127.0.0.1:8000").retry(3);
    let state = RetryState::start(false, config.retry);
    assert_eq!(state.max_attempts, 1);
    // 503 {"detail": {"code": "CIRCUIT_OPEN", "message": "open", "detail": {}}}
    let envelope = TwErrorEnvelope {
        detail: ApiErrorBody {
            code: "CIRCUIT_OPEN".to_owned(),
            message: "open".to_owned(),
            detail: serde_json::from_str("{}").unwrap(),
        },
    };
    let err = http_error(503, String::new(), Some(envelope), None, None);
    assert!(matches!(err, Error::Api { .. }));
    assert!(err.is_retryable());
    let outcome = Err(err);
    assert_eq!(
        state.on_outcome(outcome.clone()),
        RetryStep::Finish(outcome)
    );
}

#[test]
fn get_requests_retry_on_503_and_then_succeed() {
    let config = ClientConfig::new("http://127.0.0.1:8000").retry(2);
    let state = RetryState::start(true, config.retry);
    assert_eq!(state.max_attempts, 3);
    let mut attempts = 1;
    let busy = Err(Error::Http {
        status: 503,
        body: "busy".to_owned(),
    });
    let next = match state.on_outcome(busy) {
        RetryStep::Wait { delay_ms, next } => {
            assert_eq!(delay_ms, 50);
            next
        }
        other => panic!("expected a retry, got {other:?}"),
    };
    attempts += 1;
    assert_eq!(next.attempt, 1);
    assert_eq!(
        next.on_outcome(Ok("{\"ok\":true}".to_owned())),
        RetryStep::Finish(Ok("{\"ok\":true}".to_owned()))
    );
    assert_eq!(attempts, 2);
}

#[test]
fn get_retries_stop_when_attempts_run_out() {
    let mut state = RetryState::start(true, 2);
    let mut delays = Vec::new();
    loop {
        match state.on_outcome(Err(Error::Timeout)) {
            RetryStep::Wait { delay_ms, next } => {
                delays.push(delay_ms);
                state = next;
            }
            RetryStep::Finish(outcome) => {
                assert_eq!(outcome, Err(Error::Timeout));
                break;
            }
        }
    }
    assert_eq!(delays, vec![50, 100]);
    assert_eq!(state.attempt, 2);
}

#[test]
fn get_requests_do_not_retry_client_errors() {
    let state = RetryState::start(true, 3);
    let not_found = Err(Error::Http {
        status: 404,
        body: "nope".to_owned(),
    });
    assert_eq!(
        state.on_outcome(not_found.clone()),
        RetryStep::Finish(not_found)
    );
    let decode = Err(Error::decode("x".to_owned(), "bad".to_owned()));
    assert_eq!(state.on_outcome(decode.clone()), RetryStep::Finish(decode));
}

#[test]
fn retry_budget_saturates() {
    assert_eq!(RetryState::start(true, u32::MAX).max_attempts, u32::MAX);
    assert_eq!(RetryState::start(true, 0).max_attempts, 1);
    let single = RetryState::start(true, 0);
    assert!(matches!(
        single.on_outcome(Err(Error::Timeout)),
        RetryStep::Finish(Err(Error::Timeout))
    ));
}

#[test]
fn invalid_url_maps_to_error() {
    let config = ClientConfig::new("not a url");
    assert!(matches!(
        request_url(&config.base_url, "/x"),
        Err(Error::InvalidUrl(u)) if u == "not a url/x"
    ));
    assert_eq!(
        request_url("http://127.0.0.1:8000/", "/api/v1/orders"),
        Ok("http://127.0.0.1:8000/api/v1/orders".to_owned())
    );
}

#[test]
fn checked_url_keeps_or_refuses_the_url() {
    assert_eq!(checked_url("u".to_owned(), true), Ok("u".to_owned()));
    assert_eq!(
        checked_url("u".to_owned(), false),
        Err(Error::InvalidUrl("u".to_owned()))
    );
}

#[test]
fn only_2xx_statuses_succeed() {
    assert!(is_success_status(200));
    assert!(is_success_status(204));
    assert!(is_success_status(299));
    assert!(!is_success_status(199));
    assert!(!is_success_status(300));
    assert!(!is_success_status(404));
    assert!(!is_success_status(503));
}

#[test]
fn order_paths_encode_special_client_order_ids_on_both_servers() {
    assert_eq!(path_with_id("/v1/orders/", "a/b?c", ""), "/v1/orders/a%2Fb%3Fc");
    assert_eq!(
        path_with_id("/api/v1/orders/", "a/b?c", ""),
        "/api/v1/orders/a%2Fb%3Fc"
    );
    assert_eq!(
        path_with_id("/api/v1/recovery/", "C 1", "/resolve"),
        "/api/v1/recovery/C%201/resolve"
    );
}

#[test]
fn default_headers_are_sent_once_per_name() {
    let mut config = ClientConfig::new("http://x");
    config.default_headers = pairs(&[("A", "1"), ("B", "2"), ("A", "3")]);
    let headers = request_headers(&config, Some("id"), "gen", false);
    assert_eq!(
        headers,
        pairs(&[
            ("B", "2"),
            ("A", "3"),
            ("user-agent", "broker_client/0.4.1"),
            ("x-request-id", "id"),
        ])
    );
}
