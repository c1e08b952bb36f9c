//! The verified half of the browser loopback flow: reading the callback
//! request, validating its query against the expected state, and building the
//! HTTP response pages. The listener itself (bind, accept, read, write) is
//! ordinary I/O and lives outside the library; it hands the raw request text
//! in and sends the response text back.

use vstd::prelude::*;

use crate::auth::error::AuthError;
use crate::auth::urlenc::{
    parse_url_query, spec_authorization_pairs, url_query_pairs_of, AuthErrorShape,
};
use crate::strutil::{
    chars_to_string, dec_of, split_whitespace, split_ws, str_chars, u64_to_string,
};

verus! {

pub const SUCCESS_HTML: &'static str = "<html><body><h1>Authentication complete</h1><p>You may close this window and return to the terminal.</p></body></html>";

pub const ERROR_HTML: &'static str = "<html><body><h1>Authentication failed</h1><p>Please return to the terminal for details.</p></body></html>";

/// The characters of `s` before its first line feed.
pub open spec fn request_line(s: Seq<char>) -> Seq<char>
    decreases s.len(),
{
    if s.len() == 0 {
        seq![]
    } else if s[0] == '\n' {
        seq![]
    } else {
        seq![s[0]] + request_line(s.drop_first())
    }
}

/// `l` without a single trailing carriage return.
pub open spec fn strip_cr(l: Seq<char>) -> Seq<char> {
    if l.len() > 0 && l.last() == '\r' {
        l.drop_last()
    } else {
        l
    }
}

/// The path of an HTTP request: the second word of its first line. The
/// result is the path, or the message describing what was missing.
pub open spec fn spec_request_path(s: Seq<char>) -> Result<Seq<char>, Seq<char>> {
    if s.len() == 0 {
        Err("missing request line"@)
    } else {
        let words = split_ws(strip_cr(request_line(s)));
        if words.len() == 0 {
            Err("missing method"@)
        } else if words.len() == 1 {
            Err("missing path"@)
        } else {
            Ok(words[1])
        }
    }
}

proof fn lemma_request_line_prefix(s: Seq<char>, i: int)
    requires
        0 <= i <= s.len(),
        forall|k: int| 0 <= k < i ==> s[k] != '\n',
        i == s.len() || s[i] == '\n',
    ensures
        request_line(s) == s.take(i),
    decreases i,
{
    if s.len() == 0 {
        assert(request_line(s) =~= s.take(i));
    } else if i == 0 {
        assert(request_line(s) =~= s.take(0));
    } else {
        lemma_request_line_prefix(s.drop_first(), i - 1);
        assert(request_line(s) == seq![s[0]] + request_line(s.drop_first()));
        assert(seq![s[0]] + s.drop_first().take(i - 1) =~= s.take(i));
    }
}

/// Extract the request path from the first chunk of an HTTP request, as the
/// second whitespace-separated word of its first line.
pub fn parse_request_path(request: &str) -> (r: Result<String, AuthError>)
    ensures
        match spec_request_path(request@) {
            Ok(p) => r matches Ok(s) && s@ == p,
            Err(msg) => r matches Err(e) && (e matches AuthError::InvalidAuthorizationResponse(m)
                && m@ == msg),
        },
{
    let chars = str_chars(request);
    if chars.len() == 0 {
        return Err(
            AuthError::InvalidAuthorizationResponse(String::from_str("missing request line")),
        );
    }
    let mut i: usize = 0;
    while i < chars.len() && chars[i] != '\n'
        invariant
            i <= chars@.len(),
            forall|k: int| 0 <= k < i ==> chars@[k] != '\n',
        decreases chars@.len() - i,
    {
        i += 1;
    }
    proof {
        lemma_request_line_prefix(chars@, i as int);
    }
    let mut line: Vec<char> = Vec::new();
    let mut k: usize = 0;
    let end: usize = if i > 0 && chars[i - 1] == '\r' {
        i - 1
    } else {
        i
    };
    proof {
        assert(chars@.take(i as int).len() == i);
        if i > 0 && chars@[i - 1] == '\r' {
            assert(chars@.take(i as int).last() == chars@[i - 1]);
            assert(strip_cr(chars@.take(i as int)) =~= chars@.take(end as int));
        } else {
            assert(strip_cr(chars@.take(i as int)) =~= chars@.take(end as int));
        }
    }
    while k < end
        invariant
            k <= end <= chars@.len(),
            line@ == chars@.take(end as int).take(k as int),
        decreases end - k,
    {
        line.push(chars[k]);
        k += 1;
        proof {
            assert(line@ =~= chars@.take(end as int).take(k as int));
        }
    }
    proof {
        assert(line@ =~= chars@.take(end as int));
        assert(line@ == strip_cr(request_line(request@)));
    }
    let words = split_whitespace(&line);
    if words.len() == 0 {
        Err(AuthError::InvalidAuthorizationResponse(String::from_str("missing method")))
    } else if words.len() == 1 {
        Err(AuthError::InvalidAuthorizationResponse(String::from_str("missing path")))
    } else {
        proof {
            assert(words.deep_view()[1] == words@[1]@);
        }
        Ok(chars_to_string(&words[1]))
    }
}

/// What the callback listener concludes from a request, given the expected
/// state: the authorization code, or the error to report. A `state` that is
/// absent or different from the expected one is a mismatch.
pub ghost enum CallbackOutcome {
    /// The code to exchange.
    Code(Seq<char>),
    /// The request line was unusable; the payload is the message.
    Invalid(Seq<char>),
    /// The reconstructed path was not a URL.
    BadUrl,
    /// The server reported an error; the payload is its value.
    Denied(Seq<char>),
    /// No `code` parameter was present.
    MissingCode,
    /// The `state` parameter was absent or did not match.
    StateMismatch,
}

/// The outcome of a callback request for an expected state.
pub open spec fn spec_callback_outcome(request: Seq<char>, expected_state: Seq<char>)
    -> CallbackOutcome {
    match spec_request_path(request) {
        Err(msg) => CallbackOutcome::Invalid(msg),
        Ok(path) => match url_query_pairs_of("http://localhost"@ + path) {
            None => CallbackOutcome::BadUrl,
            Some(pairs) => match spec_authorization_pairs(pairs) {
                Err(AuthErrorShape::Denied(e)) => CallbackOutcome::Denied(e),
                Err(AuthErrorShape::MissingCode) => CallbackOutcome::MissingCode,
                Ok((code, state)) => if state == Some(expected_state) {
                    CallbackOutcome::Code(code)
                } else {
                    CallbackOutcome::StateMismatch
                },
            },
        },
    }
}

/// Read the one callback request of the loopback listener: parse its request
/// line, reconstruct the path as a URL, and check the query. An `error`
/// parameter denies the attempt; a missing `code` is an error; a `state`
/// absent or different from the one generated for this attempt is a
/// mismatch.
pub fn callback_code_from_request(request: &str, expected_state: &str) -> (r: Result<
    String,
    AuthError,
>)
    ensures
        match spec_callback_outcome(request@, expected_state@) {
            CallbackOutcome::Code(c) => r matches Ok(s) && s@ == c,
            CallbackOutcome::Invalid(msg) => r matches Err(e) && (e matches
                AuthError::InvalidAuthorizationResponse(m) && m@ == msg),
            CallbackOutcome::BadUrl => r matches Err(e) && e matches AuthError::Url(_),
            CallbackOutcome::Denied(v) => r matches Err(e) && (e matches AuthError::AccessDenied(
                d,
            ) && d@ == v),
            CallbackOutcome::MissingCode => r matches Err(e) && e matches
                AuthError::MissingAuthorizationCode,
            CallbackOutcome::StateMismatch => r matches Err(e) && e matches
                AuthError::StateMismatch,
        },
{
    let path = match parse_request_path(request) {
        Ok(p) => p,
        Err(e) => {
            return Err(e);
        },
    };
    let mut url = String::from_str("http://localhost");
    url.append(path.as_str());
    let pairs = match parse_url_query(url.as_str()) {
        Some(p) => p,
        None => {
            return Err(AuthError::Url(String::from_str("invalid callback request path")));
        },
    };
    let (code, state) = match crate::auth::urlenc::authorization_from_pairs(&pairs) {
        Ok(cs) => cs,
        Err(e) => {
            return Err(e);
        },
    };
    match state {
        Some(st) => {
            if crate::strutil::chars_eq_str(&str_chars(st.as_str()), expected_state) {
                Ok(code)
            } else {
                Err(AuthError::StateMismatch)
            }
        },
        None => Err(AuthError::StateMismatch),
    }
}

/// The status line written for each response status.
pub open spec fn spec_status_line(status: u16) -> Seq<char> {
    if status == 200 {
        "HTTP/1.1 200 OK"@
    } else if status == 400 {
        "HTTP/1.1 400 Bad Request"@
    } else {
        "HTTP/1.1 500 Internal Server Error"@
    }
}

/// The full HTTP response for a callback: the status line, a text/html
/// content type, the body's exact byte length, `Connection: close`, and the
/// body.
pub open spec fn spec_http_response(status: u16, body: Seq<char>) -> Seq<char> {
    spec_status_line(status) + "\r\nContent-Type: text/html; charset=utf-8\r\nContent-Length: "@
        + dec_of(vstd::utf8::encode_utf8(body).len() as usize as int)
        + "\r\nConnection: close\r\n\r\n"@ + body
}

/// Build the HTTP response the listener writes before closing the socket, so
/// the user's browser tab always shows a terminal message.
pub fn http_response(status: u16, body: &str) -> (r: String)
    ensures
        r@ == spec_http_response(status, body@),
{
    let mut s = if status == 200 {
        String::from_str("HTTP/1.1 200 OK")
    } else if status == 400 {
        String::from_str("HTTP/1.1 400 Bad Request")
    } else {
        String::from_str("HTTP/1.1 500 Internal Server Error")
    };
    s.append("\r\nContent-Type: text/html; charset=utf-8\r\nContent-Length: ");
    let len = u64_to_string(body.len() as u64);
    s.append(len.as_str());
    s.append("\r\nConnection: close\r\n\r\n");
    s.append(body);
    proof {
        assert(s@ =~= spec_http_response(status, body@));
    }
    s
}

} // verus!
