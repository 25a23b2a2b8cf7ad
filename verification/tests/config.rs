use std::time::Duration;

use broker_client::auth::AuthMethod;
use broker_client::config::{join_url, ClientConfig};

#[test]
fn tw_defaults_match_expected_server() {
    let config = ClientConfig::tw_default();
    assert_eq!(config.base_url, "http://127.0.0.1:8000");
    assert_eq!(config.token, None);
    assert_eq!(config.auth_method, AuthMethod::Bearer);
    assert_eq!(config.timeout, Duration::from_secs(10));
    assert_eq!(config.retry, 2);
    assert_eq!(config.ws_max_reconnect_attempts, 5);
    assert_eq!(config.ws_base_backoff_ms, 500);
    assert_eq!(config.ws_base_url, None);
}

#[test]
fn a_defaults_match_expected_server() {
    let config = ClientConfig::a_default();
    assert_eq!(config.base_url, "http://127.0.0.1:8787");
    assert_eq!(config.auth_method, AuthMethod::Bearer);
}

#[test]
fn builder_can_override_every_field() {
    let config = ClientConfig::new("http://localhost:1111")
        .base_url("http://localhost:2222")
        .token("tok")
        .auth_method(AuthMethod::XAuthToken)
        .timeout(Duration::from_millis(1))
        .retry(0)
        .user_agent("test-agent")
        .default_header("X-Custom", "yes");

    assert_eq!(config.base_url, "http://localhost:2222");
    assert_eq!(config.token.as_deref(), Some("tok"));
    assert_eq!(config.auth_method, AuthMethod::XAuthToken);
    assert_eq!(config.timeout, Duration::from_millis(1));
    assert_eq!(config.retry, 0);
    assert_eq!(config.user_agent, "test-agent");
    assert_eq!(config.default_header_value("X-Custom").as_deref(), Some("yes"));
}

#[test]
fn empty_token_is_kept_as_none_by_builder_contract() {
    // The builder is generic; callers that need to clear a token can pass
    // an empty string. The HTTP layer treats empty tokens as "no auth".
    let config = ClientConfig::new("http://x").token("");
    assert_eq!(config.token.as_deref(), Some(""));
}

#[test]
fn join_url_handles_trailing_and_leading_slashes() {
    assert_eq!(
        join_url("http://127.0.0.1:8000/", "/health"),
        "http://127.0.0.1:8000/health"
    );
    assert_eq!(
        join_url("http://127.0.0.1:8000", "v1/health"),
        "http://127.0.0.1:8000/v1/health"
    );
    assert_eq!(
        join_url("http://127.0.0.1:8000/", "v1/health"),
        "http://127.0.0.1:8000/v1/health"
    );
}

#[test]
fn join_url_collapses_repeated_slashes() {
    assert_eq!(join_url("http://h///", "///p"), "http://h/p");
    assert_eq!(join_url("", ""), "/");
}

#[test]
fn default_config_is_tw_default() {
    assert_eq!(ClientConfig::default(), ClientConfig::tw_default());
    assert_eq!(ClientConfig::tw_default().user_agent, "broker_client/0.4.1");
    assert!(ClientConfig::tw_default().default_headers.is_empty());
}

#[test]
fn remaining_builders_override_their_field() {
    let config = ClientConfig::new("http://x")
        .ws_max_reconnect_attempts(0)
        .ws_base_backoff_ms(10)
        .ws_base_url("ws://y");
    assert_eq!(config.ws_max_reconnect_attempts, 0);
    assert_eq!(config.ws_base_backoff_ms, 10);
    assert_eq!(config.ws_base_url.as_deref(), Some("ws://y"));
    assert_eq!(config.base_url, "http://x");
}

#[test]
fn default_header_read_gives_back_last_write() {
    let config = ClientConfig::new("http://x")
        .default_header("A", "1")
        .default_header("B", "2")
        .default_header("A", "3");
    assert_eq!(config.default_header_value("A").as_deref(), Some("3"));
    assert_eq!(config.default_header_value("B").as_deref(), Some("2"));
    assert_eq!(config.default_header_value("a"), None);
    assert_eq!(config.default_headers.len(), 2);
}

#[test]
fn default_headers_replaces_all_and_last_pair_wins() {
    let config = ClientConfig::new("http://x")
        .default_header("Old", "1")
        .default_headers(vec![
            ("K".to_owned(), "v1".to_owned()),
            ("L".to_owned(), "w".to_owned()),
            ("K".to_owned(), "v2".to_owned()),
        ]);
    assert_eq!(config.default_header_value("Old"), None);
    assert_eq!(config.default_header_value("K").as_deref(), Some("v2"));
    assert_eq!(config.default_header_value("L").as_deref(), Some("w"));
    assert_eq!(config.default_headers.len(), 2);
}

#[test]
fn configs_with_the_same_headers_in_another_order_are_equal() {
    let a = ClientConfig::new("http://x")
        .default_header("A", "1")
        .default_header("B", "2");
    let b = ClientConfig::new("http://x")
        .default_header("B", "2")
        .default_header("A", "1");
    assert_eq!(a, b);
    let c = ClientConfig::new("http://x")
        .default_header("B", "2")
        .default_header("A", "9");
    assert_ne!(a, c);
    assert_ne!(a, ClientConfig::new("http://x").default_header("A", "1"));
    assert_ne!(
        ClientConfig::new("http://x"),
        ClientConfig::new("http://x").timeout(Duration::from_secs(11))
    );
    assert_ne!(ClientConfig::new("http://x"), ClientConfig::new("http://x").token(""));
}
