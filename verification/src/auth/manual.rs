//! The verified half of the manual copy/paste flow: reading the user's pasted
//! input as either a full redirect URL or a bare authorization code, and
//! checking the echoed state. Prompting and reading the line itself is
//! ordinary I/O and lives outside the library.

use vstd::prelude::*;

use crate::auth::error::AuthError;
use crate::auth::urlenc::{
    parse_url_query, spec_authorization_pairs, url_query_pairs_of, AuthErrorShape,
};
use crate::strutil::{chars_to_string, str_chars, trim, trim_chars};

verus! {

/// A recovered authorization response: the code and, when the input was a
/// full redirect URL carrying one, the echoed state.
#[derive(Debug, Clone, PartialEq, Eq)]
pub struct AuthorizationResponse {
    pub code: String,
    pub state: Option<String>,
}

/// What a piece of pasted input means: empty input is malformed; input that
/// parses as a URL is read like a redirect (an `error` parameter denies, a
/// missing `code` is an error); anything else is a bare code with no state.
pub ghost enum ManualOutcome {
    /// A code and an optional state.
    Response(Seq<char>, Option<Seq<char>>),
    /// The trimmed input was empty.
    Empty,
    /// The URL's query denied the request; the payload is the server's value.
    Denied(Seq<char>),
    /// The URL carried no `code` parameter.
    MissingCode,
}

/// The outcome of parsing pasted input.
pub open spec fn spec_manual_outcome(input: Seq<char>) -> ManualOutcome {
    let t = trim_chars(input);
    if t.len() == 0 {
        ManualOutcome::Empty
    } else {
        match url_query_pairs_of(t) {
            None => ManualOutcome::Response(t, None),
            Some(pairs) => match spec_authorization_pairs(pairs) {
                Err(AuthErrorShape::Denied(e)) => ManualOutcome::Denied(e),
                Err(AuthErrorShape::MissingCode) => ManualOutcome::MissingCode,
                Ok((code, state)) => ManualOutcome::Response(code, state),
            },
        }
    }
}

/// Parse the trimmed pasted input: a full redirect URL yields its `code` and
/// `state` query values (an `error` value denies the attempt); any other
/// non-empty text is taken as the bare authorization code, with no state to
/// check; empty input is malformed.
pub fn parse_manual_input(input: &str) -> (r: Result<AuthorizationResponse, AuthError>)
    ensures
        match spec_manual_outcome(input@) {
            ManualOutcome::Response(c, st) => r matches Ok(resp) && resp.code@ == c && (match st {
                Some(s) => resp.state matches Some(q) && q@ == s,
                None => resp.state is None,
            }),
            ManualOutcome::Empty => r matches Err(e) && (e matches
                AuthError::InvalidAuthorizationResponse(m) && m@ == "empty input"@),
            ManualOutcome::Denied(v) => r matches Err(e) && (e matches AuthError::AccessDenied(d)
                && d@ == v),
            ManualOutcome::MissingCode => r matches Err(e) && e matches
                AuthError::MissingAuthorizationCode,
        },
{
    let chars = str_chars(input);
    let trimmed = trim(&chars);
    if trimmed.len() == 0 {
        return Err(AuthError::InvalidAuthorizationResponse(String::from_str("empty input")));
    }
    let trimmed_str = chars_to_string(&trimmed);
    match parse_url_query(trimmed_str.as_str()) {
        None => Ok(AuthorizationResponse { code: trimmed_str, state: None }),
        Some(pairs) => {
            match crate::auth::urlenc::authorization_from_pairs(&pairs) {
                Ok((code, state)) => Ok(AuthorizationResponse { code, state }),
                Err(e) => Err(e),
            }
        },
    }
}

/// Check the echoed state of a manual response against the generated one: a
/// response without a state passes (a bare pasted code has nothing to
/// validate), and a present state must match exactly.
pub fn check_state_matches(resp: &AuthorizationResponse, expected_state: &str) -> (r: Result<
    (),
    AuthError,
>)
    ensures
        match resp.state {
            None => r is Ok,
            Some(st) => if st@ == expected_state@ {
                r is Ok
            } else {
                r matches Err(e) && e matches AuthError::StateMismatch
            },
        },
{
    match &resp.state {
        None => Ok(()),
        Some(st) => {
            if crate::strutil::chars_eq_str(&str_chars(st.as_str()), expected_state) {
                Ok(())
            } else {
                Err(AuthError::StateMismatch)
            }
        },
    }
}

} // verus!
