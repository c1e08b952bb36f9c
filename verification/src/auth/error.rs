//! Errors surfaced by authentication and credential management routines.

use vstd::prelude::*;

use crate::config::ConfigError;
use crate::strutil::dec_of;

verus! {

/// Errors surfaced by authentication and credential management routines.
/// Every kind carries enough detail for a distinct, human-readable message.
#[derive(Debug, Clone)]
pub enum AuthError {
    /// Configuration-directory discovery or creation failed.
    Config(ConfigError),
    /// A filesystem read or write failed.
    Io(String),
    /// A stored envelope or a token-endpoint body could not be decoded.
    Deserialize(String),
    /// An HTTP request could not be performed at all.
    Http(String),
    /// The token endpoint answered with a non-success status.
    TokenEndpoint { status: u16, body: String },
    /// The token endpoint returned a token type other than `bearer`.
    InvalidTokenType(String),
    /// The session has no refresh token, so it cannot be refreshed.
    RefreshUnavailable,
    /// A piece of text could not be read as a URL.
    Url(String),
    /// The authorization listener terminated before receiving the redirect.
    ListenerClosed,
    /// The authorization flow was cancelled.
    Cancelled,
    /// The authorization server denied the request; the payload is the
    /// server's `error` value.
    AccessDenied(String),
    /// The authorization response carried no `code` parameter.
    MissingAuthorizationCode,
    /// The authorization response's `state` differs from the one sent.
    StateMismatch,
    /// The system browser could not be launched.
    BrowserLaunch(String),
    /// The authorization response was malformed.
    InvalidAuthorizationResponse(String),
    /// No port in the configured loopback range could be bound.
    NoAvailablePort,
    /// The requested flow is not supported in this build.
    UnsupportedFlow(String),
}

/// The message text for an error value.
pub open spec fn spec_message(e: &AuthError) -> Seq<char> {
    match e {
        AuthError::Config(c) => crate::config::spec_config_message(c),
        AuthError::Io(m) => "I/O error: "@ + m@,
        AuthError::Deserialize(m) => "serialization error: "@ + m@,
        AuthError::Http(m) => "HTTP error: "@ + m@,
        AuthError::TokenEndpoint { status, body } => "token endpoint error "@ + dec_of(
            *status as int,
        ) + ": "@ + body@,
        AuthError::InvalidTokenType(t) => "invalid token type '"@ + t@ + "'"@,
        AuthError::RefreshUnavailable => "token refresh unavailable"@,
        AuthError::Url(m) => "invalid URL: "@ + m@,
        AuthError::ListenerClosed => "authorization listener terminated before receiving redirect"@,
        AuthError::Cancelled => "authorization flow cancelled"@,
        AuthError::AccessDenied(m) => "authorization request denied ("@ + m@ + ")"@,
        AuthError::MissingAuthorizationCode => "authorization response missing code parameter"@,
        AuthError::StateMismatch => "authorization state mismatch"@,
        AuthError::BrowserLaunch(m) => "failed to launch system browser: "@ + m@,
        AuthError::InvalidAuthorizationResponse(m) => "invalid authorization response: "@ + m@,
        AuthError::NoAvailablePort => "no available loopback port in the configured range"@,
        AuthError::UnsupportedFlow(m) => "unsupported auth flow: "@ + m@,
    }
}

impl AuthError {
    /// A human-readable description of the error, distinct for each kind.
    pub fn message(&self) -> (r: String)
        ensures
            r@ == spec_message(self),
    {
        match self {
            AuthError::Config(c) => c.message(),
            AuthError::Io(m) => concat_lit("I/O error: ", m.as_str()),
            AuthError::Deserialize(m) => concat_lit("serialization error: ", m.as_str()),
            AuthError::Http(m) => concat_lit("HTTP error: ", m.as_str()),
            AuthError::TokenEndpoint { status, body } => {
                let mut s = String::from_str("token endpoint error ");
                let num = crate::strutil::u64_to_string(*status as u64);
                s.append(num.as_str());
                s.append(": ");
                s.append(body.as_str());
                s
            },
            AuthError::InvalidTokenType(t) => {
                let mut s = String::from_str("invalid token type '");
                s.append(t.as_str());
                s.append("'");
                s
            },
            AuthError::RefreshUnavailable => String::from_str("token refresh unavailable"),
            AuthError::Url(m) => concat_lit("invalid URL: ", m.as_str()),
            AuthError::ListenerClosed => String::from_str(
                "authorization listener terminated before receiving redirect",
            ),
            AuthError::Cancelled => String::from_str("authorization flow cancelled"),
            AuthError::AccessDenied(m) => {
                let mut s = String::from_str("authorization request denied (");
                s.append(m.as_str());
                s.append(")");
                s
            },
            AuthError::MissingAuthorizationCode => String::from_str(
                "authorization response missing code parameter",
            ),
            AuthError::StateMismatch => String::from_str("authorization state mismatch"),
            AuthError::BrowserLaunch(m) => concat_lit(
                "failed to launch system browser: ",
                m.as_str(),
            ),
            AuthError::InvalidAuthorizationResponse(m) => concat_lit(
                "invalid authorization response: ",
                m.as_str(),
            ),
            AuthError::NoAvailablePort => String::from_str(
                "no available loopback port in the configured range",
            ),
            AuthError::UnsupportedFlow(m) => concat_lit("unsupported auth flow: ", m.as_str()),
        }
    }
}

/// The literal followed by the payload.
fn concat_lit(lit: &str, tail: &str) -> (r: String)
    ensures
        r@ == lit@ + tail@,
{
    let mut s = String::from_str(lit);
    s.append(tail);
    s
}

} // verus!
