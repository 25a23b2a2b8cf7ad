//! Authentication header styles.

use vstd::prelude::*;
use vstd::string::*;

verus! {

/// Supported authentication header styles.
#[derive(Debug, Clone, Copy, PartialEq, Eq, Structural)]
pub enum AuthMethod {
    /// `Authorization: Bearer <token>`
    Bearer,
    /// `X-Auth-Token: <token>`
    XAuthToken,
}

impl Default for AuthMethod {
    /// `Bearer` is the default style.
    fn default() -> (r: Self)
        ensures
            r == AuthMethod::Bearer,
    {
        AuthMethod::Bearer
    }
}

impl AuthMethod {
    /// The header name that carries the token.
    pub open spec fn spec_header_name(self) -> Seq<char> {
        match self {
            AuthMethod::Bearer => "authorization"@,
            AuthMethod::XAuthToken => "x-auth-token"@,
        }
    }

    /// The header value sent for `token`.
    pub open spec fn spec_header_value(self, token: Seq<char>) -> Seq<char> {
        match self {
            AuthMethod::Bearer => "Bearer "@ + token,
            AuthMethod::XAuthToken => token,
        }
    }

    /// The name under which the style is displayed.
    pub open spec fn spec_display(self) -> Seq<char> {
        match self {
            AuthMethod::Bearer => "Bearer"@,
            AuthMethod::XAuthToken => "XAuthToken"@,
        }
    }

    /// Returns the header name used by this authentication style.
    pub fn header_name(self) -> (r: &'static str)
        ensures
            r@ == self.spec_header_name(),
    {
        match self {
            AuthMethod::Bearer => "authorization",
            AuthMethod::XAuthToken => "x-auth-token",
        }
    }

    /// Builds the header value for a token.
    pub fn header_value(self, token: &str) -> (r: String)
        ensures
            r@ == self.spec_header_value(token@),
    {
        match self {
            AuthMethod::Bearer => String::from_str("Bearer ").concat(token),
            AuthMethod::XAuthToken => String::from_str(token),
        }
    }

    /// The display text of the style (`Bearer` or `XAuthToken`).
    pub fn to_display_string(self) -> (r: String)
        ensures
            r@ == self.spec_display(),
    {
        match self {
            AuthMethod::Bearer => String::from_str("Bearer"),
            AuthMethod::XAuthToken => String::from_str("XAuthToken"),
        }
    }
}

} // verus!
