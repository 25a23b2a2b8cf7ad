use broker_client::auth::AuthMethod;

#[test]
fn bearer_uses_authorization_header() {
    assert_eq!(AuthMethod::Bearer.header_name(), "authorization");
    assert_eq!(AuthMethod::Bearer.header_value("secret"), "Bearer secret");
}

#[test]
fn x_auth_token_uses_dedicated_header() {
    assert_eq!(AuthMethod::XAuthToken.header_name(), "x-auth-token");
    assert_eq!(AuthMethod::XAuthToken.header_value("secret"), "secret");
}

#[test]
fn default_auth_method_is_bearer() {
    assert_eq!(AuthMethod::default(), AuthMethod::Bearer);
}

#[test]
fn auth_method_display_names() {
    assert_eq!(AuthMethod::Bearer.to_display_string(), "Bearer");
    assert_eq!(AuthMethod::XAuthToken.to_display_string(), "XAuthToken");
}

#[test]
fn bearer_value_of_empty_token_is_prefix_only() {
    assert_eq!(AuthMethod::Bearer.header_value(""), "Bearer ");
    assert_eq!(AuthMethod::XAuthToken.header_value(""), "");
}
