//! The OAuth client: authorization-URL construction, the request forms for
//! the three grant exchanges, and the shared token-endpoint response handler.
//!
//! The HTTP transport itself is outside the library; callers send the forms
//! built here and hand the endpoint's status and body back to
//! [`handle_token_response`].

use vstd::prelude::*;

use crate::auth::error::AuthError;
use crate::auth::pkce::PkcePair;
use crate::auth::session::{AuthSession, SessionView, TokenType};
use crate::auth::urlenc::{form_enc_str, form_urlencode};
use crate::strutil::{
    chars_to_string, clone_strings, dec_of, join_space, join_with, lower_chars, split_whitespace,
    split_ws, str_chars, str_contains_char, strings_of_words, to_ascii_lower, u64_to_string,
};
use crate::time::{clamp_ts_wide, Duration, Timestamp};

verus! {

pub const DEFAULT_CLIENT_ID: &'static str = "linear-rs-public";

pub const DEFAULT_REDIRECT_HOST: &'static str = "127.0.0.1";

pub const DEFAULT_REDIRECT_PATH: &'static str = "/callback";

pub const DEFAULT_REDIRECT_PORT_START: u16 = 9000;

pub const DEFAULT_REDIRECT_PORT_END: u16 = 9999;

/// The scopes requested when none are configured.
pub fn default_scopes() -> (r: Vec<String>)
    ensures
        r.deep_view() =~= seq!["read"@, "write"@],
{
    let mut v: Vec<String> = Vec::new();
    v.push(String::from_str("read"));
    v.push(String::from_str("write"));
    proof {
        assert(v.deep_view() =~~= seq!["read"@, "write"@]);
    }
    v
}

/// The fixed inclusive port range tried by the port-iterating loopback
/// binding strategy.
pub fn default_redirect_ports() -> (r: core::ops::RangeInclusive<u16>)
    ensures
        r@.start == DEFAULT_REDIRECT_PORT_START,
        r@.end == DEFAULT_REDIRECT_PORT_END,
        !r@.exhausted,
{
    core::ops::RangeInclusive::new(DEFAULT_REDIRECT_PORT_START, DEFAULT_REDIRECT_PORT_END)
}

/// The loopback redirect URI for a port.
pub open spec fn spec_redirect_uri(port: u16) -> Seq<char> {
    "http://127.0.0.1:"@ + dec_of(port as int) + "/callback"@
}

/// The loopback redirect URI for a port: `http://127.0.0.1:<port>/callback`.
pub fn default_redirect_uri(port: u16) -> (r: String)
    ensures
        r@ == spec_redirect_uri(port),
{
    let mut s = String::from_str("http://127.0.0.1:");
    let num = u64_to_string(port as u64);
    s.append(num.as_str());
    s.append("/callback");
    s
}

/// OAuth client configuration supplied by consumers.
#[derive(Debug, Clone)]
pub struct OAuthConfig {
    pub client_id: String,
    pub client_secret: Option<String>,
    pub redirect_uri: String,
    pub scopes: Vec<String>,
}

/// The mathematical content of a configuration.
#[verifier::ext_equal]
pub ghost struct OAuthConfigView {
    pub client_id: Seq<char>,
    pub client_secret: Option<Seq<char>>,
    pub redirect_uri: Seq<char>,
    pub scopes: Seq<Seq<char>>,
}

impl View for OAuthConfig {
    type V = OAuthConfigView;

    open spec fn view(&self) -> OAuthConfigView {
        OAuthConfigView {
            client_id: self.client_id@,
            client_secret: match self.client_secret {
                Some(s) => Some(s@),
                None => None,
            },
            redirect_uri: self.redirect_uri@,
            scopes: self.scopes.deep_view(),
        }
    }
}

impl OAuthConfig {
    /// A configuration with the given client id and redirect URI, no secret
    /// and no scopes.
    pub fn new(client_id: String, redirect_uri: String) -> (r: OAuthConfig)
        ensures
            r@.client_id == client_id@,
            r@.client_secret is None,
            r@.redirect_uri == redirect_uri@,
            r@.scopes == Seq::<Seq<char>>::empty(),
    {
        let r = OAuthConfig { client_id, client_secret: None, redirect_uri, scopes: Vec::new() };
        proof {
            assert(r@.scopes =~= Seq::<Seq<char>>::empty());
        }
        r
    }

    /// The production default: the public client id, the first fixed-range
    /// loopback redirect URI, and the read/write scopes.
    pub fn with_defaults() -> (r: OAuthConfig)
        ensures
            r@.client_id == DEFAULT_CLIENT_ID@,
            r@.client_secret is None,
            r@.redirect_uri == spec_redirect_uri(DEFAULT_REDIRECT_PORT_START),
            r@.scopes =~= seq!["read"@, "write"@],
    {
        let redirect_uri = default_redirect_uri(DEFAULT_REDIRECT_PORT_START);
        let mut config = OAuthConfig::new(String::from_str(DEFAULT_CLIENT_ID), redirect_uri);
        config.scopes = default_scopes();
        config
    }

    /// The same configuration with a client secret.
    pub fn with_secret(self, secret: String) -> (r: OAuthConfig)
        ensures
            r@.client_id == self@.client_id,
            r@.client_secret == Some(secret@),
            r@.redirect_uri == self@.redirect_uri,
            r@.scopes == self@.scopes,
    {
        OAuthConfig { client_secret: Some(secret), ..self }
    }

    /// The same configuration with the given scopes.
    pub fn with_scopes(self, scopes: Vec<String>) -> (r: OAuthConfig)
        ensures
            r@.client_id == self@.client_id,
            r@.client_secret == self@.client_secret,
            r@.redirect_uri == self@.redirect_uri,
            r@.scopes == scopes.deep_view(),
    {
        OAuthConfig { scopes, ..self }
    }
}

/// OAuth endpoints used for browser/manual flows.
#[derive(Debug, Clone)]
pub struct OAuthEndpoints {
    pub authorization_url: String,
    pub token_url: String,
}

/// The mathematical content of an endpoint pair.
#[verifier::ext_equal]
pub ghost struct OAuthEndpointsView {
    pub authorization_url: Seq<char>,
    pub token_url: Seq<char>,
}

impl View for OAuthEndpoints {
    type V = OAuthEndpointsView;

    open spec fn view(&self) -> OAuthEndpointsView {
        OAuthEndpointsView {
            authorization_url: self.authorization_url@,
            token_url: self.token_url@,
        }
    }
}

impl Default for OAuthEndpoints {
    /// The production endpoints.
    fn default() -> (r: OAuthEndpoints)
        ensures
            r@.authorization_url == "https://linear.app/oauth/authorize"@,
            r@.token_url == "https://api.linear.app/oauth/token"@,
    {
        OAuthEndpoints {
            authorization_url: String::from_str("https://linear.app/oauth/authorize"),
            token_url: String::from_str("https://api.linear.app/oauth/token"),
        }
    }
}

/// Bundles the results of a token exchange.
#[derive(Debug, Clone)]
pub struct TokenExchangeResult {
    pub session: AuthSession,
    pub received_at: Timestamp,
}

/// Builds authorization URLs and token-endpoint request forms, and interprets
/// the endpoint's responses.
#[derive(Debug, Clone)]
pub struct OAuthClient {
    config: OAuthConfig,
    endpoints: OAuthEndpoints,
}

impl OAuthClient {
    /// The configuration, for specifications.
    pub closed spec fn config_view(&self) -> OAuthConfigView {
        self.config@
    }

    /// The endpoints, for specifications.
    pub closed spec fn endpoints_view(&self) -> OAuthEndpointsView {
        self.endpoints@
    }

    /// A client for the production endpoints.
    pub fn new(config: OAuthConfig) -> (r: OAuthClient)
        ensures
            r.config_view() == config@,
            r.endpoints_view().authorization_url == "https://linear.app/oauth/authorize"@,
            r.endpoints_view().token_url == "https://api.linear.app/oauth/token"@,
    {
        OAuthClient { config, endpoints: Default::default() }
    }

    /// A client for caller-chosen endpoints.
    pub fn with_endpoints(config: OAuthConfig, endpoints: OAuthEndpoints) -> (r: OAuthClient)
        ensures
            r.config_view() == config@,
            r.endpoints_view() == endpoints@,
    {
        OAuthClient { config, endpoints }
    }

    /// Clone the client while overriding the redirect URI; nothing else
    /// changes.
    pub fn clone_with_redirect(&self, redirect_uri: String) -> (r: OAuthClient)
        ensures
            r.config_view().client_id == self.config_view().client_id,
            r.config_view().client_secret == self.config_view().client_secret,
            r.config_view().redirect_uri == redirect_uri@,
            r.config_view().scopes == self.config_view().scopes,
            r.endpoints_view() == self.endpoints_view(),
    {
        let config = OAuthConfig {
            client_id: self.config.client_id.clone(),
            client_secret: clone_opt_string(&self.config.client_secret),
            redirect_uri,
            scopes: clone_strings(&self.config.scopes),
        };
        let endpoints = OAuthEndpoints {
            authorization_url: self.endpoints.authorization_url.clone(),
            token_url: self.endpoints.token_url.clone(),
        };
        proof {
            assert(endpoints@ =~= self.endpoints_view());
        }
        OAuthClient { config, endpoints }
    }

    /// The client's configuration.
    pub fn config(&self) -> (r: &OAuthConfig)
        ensures
            r@ == self.config_view(),
    {
        &self.config
    }

    /// The client's endpoints.
    pub fn endpoints(&self) -> (r: &OAuthEndpoints)
        ensures
            r@ == self.endpoints_view(),
    {
        &self.endpoints
    }

    /// Build the authorization URL for a PKCE pair and state value.
    pub fn authorization_url(&self, pkce: &PkcePair, state: &str) -> (r: String)
        ensures
            r@ == spec_authorization_url(
                self.config_view(),
                self.endpoints_view().authorization_url,
                pkce.challenge_view(),
                state@,
            ),
    {
        let mut url = self.endpoints.authorization_url.clone();
        if str_contains_char(url.as_str(), '?') {
            url.append("&");
        } else {
            url.append("?");
        }
        url.append("response_type=code&client_id=");
        append_encoded(&mut url, self.config.client_id.as_str());
        url.append("&redirect_uri=");
        append_encoded(&mut url, self.config.redirect_uri.as_str());
        if self.config.scopes.len() > 0 {
            url.append("&scope=");
            let joined = join_space(&self.config.scopes);
            append_encoded(&mut url, joined.as_str());
        }
        url.append("&code_challenge=");
        append_encoded(&mut url, pkce.challenge());
        url.append("&code_challenge_method=S256&state=");
        append_encoded(&mut url, state);
        url
    }

    /// The form for exchanging an authorization code, with the optional
    /// client secret and scope fields exactly when configured.
    pub fn exchange_code_form(&self, code: &str, pkce: &PkcePair) -> (r: Vec<(String, String)>)
        ensures
            r.deep_view() == spec_exchange_code_form(
                self.config_view(),
                code@,
                pkce.verifier_view(),
            ),
    {
        let mut form: Vec<(String, String)> = Vec::new();
        push_pair_lit(&mut form, "grant_type", "authorization_code");
        push_pair(&mut form, "code", String::from_str(code));
        push_pair(&mut form, "redirect_uri", self.config.redirect_uri.clone());
        push_pair(&mut form, "code_verifier", String::from_str(pkce.code_verifier()));
        push_pair(&mut form, "client_id", self.config.client_id.clone());
        match &self.config.client_secret {
            Some(secret) => {
                push_pair(&mut form, "client_secret", secret.clone());
            },
            None => {},
        }
        if self.config.scopes.len() > 0 {
            push_pair(&mut form, "scope", join_space(&self.config.scopes));
        }
        proof {
            assert(form.deep_view() =~~= spec_exchange_code_form(
                self.config_view(),
                code@,
                pkce.verifier_view(),
            ));
        }
        form
    }

    /// The form for refreshing a session, or `RefreshUnavailable` exactly
    /// when the session has no refresh token. Nothing is sent anywhere on
    /// that failure.
    pub fn refresh_form(&self, existing: &AuthSession) -> (r: Result<
        Vec<(String, String)>,
        AuthError,
    >)
        ensures
            existing@.refresh_token is None <==> r is Err,
            r matches Err(e) ==> e matches AuthError::RefreshUnavailable,
            (existing@.refresh_token matches Some(rt) ==> r matches Ok(f) && f.deep_view()
                == spec_refresh_form(self.config_view(), rt)),
    {
        match &existing.refresh_token {
            None => Err(AuthError::RefreshUnavailable),
            Some(refresh_token) => {
                let mut form: Vec<(String, String)> = Vec::new();
                push_pair_lit(&mut form, "grant_type", "refresh_token");
                push_pair(&mut form, "refresh_token", refresh_token.clone());
                push_pair(&mut form, "client_id", self.config.client_id.clone());
                match &self.config.client_secret {
                    Some(secret) => {
                        push_pair(&mut form, "client_secret", secret.clone());
                    },
                    None => {},
                }
                proof {
                    assert(form.deep_view() =~~= spec_refresh_form(
                        self.config_view(),
                        existing@.refresh_token->Some_0,
                    ));
                }
                Ok(form)
            },
        }
    }

    /// The form for a client-credentials grant, with the optional client
    /// secret and scope fields exactly when present.
    pub fn client_credentials_form(&self, scopes: &Vec<String>) -> (r: Vec<(String, String)>)
        ensures
            r.deep_view() == spec_client_credentials_form(self.config_view(), scopes.deep_view()),
    {
        let mut form: Vec<(String, String)> = Vec::new();
        push_pair_lit(&mut form, "grant_type", "client_credentials");
        push_pair(&mut form, "client_id", self.config.client_id.clone());
        match &self.config.client_secret {
            Some(secret) => {
                push_pair(&mut form, "client_secret", secret.clone());
            },
            None => {},
        }
        if scopes.len() > 0 {
            push_pair(&mut form, "scope", join_space(scopes));
        }
        proof {
            assert(form.deep_view() =~~= spec_client_credentials_form(
                self.config_view(),
                scopes.deep_view(),
            ));
        }
        form
    }
}

/// A copy of an optional string, with the same characters.
fn clone_opt_string(o: &Option<String>) -> (r: Option<String>)
    ensures
        match o {
            Some(s) => r matches Some(t) && t@ == s@,
            None => r is None,
        },
{
    match o {
        Some(s) => Some(s.clone()),
        None => None,
    }
}

/// Append the form encoding of `piece` to `url`.
fn append_encoded(url: &mut String, piece: &str)
    ensures
        final(url)@ == old(url)@ + form_enc_str(piece@),
{
    let encoded = form_urlencode(piece);
    let encoded_str = chars_to_string(&encoded);
    url.append(encoded_str.as_str());
}

/// Append the pair `(key, value)`.
fn push_pair(form: &mut Vec<(String, String)>, key: &str, value: String)
    ensures
        final(form).deep_view() =~= old(form).deep_view().push((key@, value@)),
{
    let ghost old_dv = form.deep_view();
    form.push((String::from_str(key), value));
    proof {
        assert(form.deep_view() =~~= old_dv.push((key@, value@)));
    }
}

/// Append the pair `(key, value)` of two literals.
fn push_pair_lit(form: &mut Vec<(String, String)>, key: &str, value: &str)
    ensures
        final(form).deep_view() =~= old(form).deep_view().push((key@, value@)),
{
    push_pair(form, key, String::from_str(value));
}

/// The query string appended to the authorization endpoint: every parameter
/// of RFC 7636's authorization request, with `scope` omitted entirely when
/// the scope set is empty.
pub open spec fn spec_authorization_query(
    cfg: OAuthConfigView,
    challenge: Seq<char>,
    state: Seq<char>,
) -> Seq<char> {
    "response_type=code&client_id="@ + form_enc_str(cfg.client_id) + "&redirect_uri="@
        + form_enc_str(cfg.redirect_uri) + (if cfg.scopes.len() == 0 {
        Seq::<char>::empty()
    } else {
        "&scope="@ + form_enc_str(join_with(cfg.scopes, " "@))
    }) + "&code_challenge="@ + form_enc_str(challenge) + "&code_challenge_method=S256&state="@
        + form_enc_str(state)
}

/// The full authorization URL: the endpoint, a `?` (or `&` when the endpoint
/// already carries a query), and the query parameters.
pub open spec fn spec_authorization_url(
    cfg: OAuthConfigView,
    base: Seq<char>,
    challenge: Seq<char>,
    state: Seq<char>,
) -> Seq<char> {
    base + (if base.contains('?') {
        "&"@
    } else {
        "?"@
    }) + spec_authorization_query(cfg, challenge, state)
}

/// The authorization-code exchange form.
pub open spec fn spec_exchange_code_form(
    cfg: OAuthConfigView,
    code: Seq<char>,
    verifier: Seq<char>,
) -> Seq<(Seq<char>, Seq<char>)> {
    seq![
        ("grant_type"@, "authorization_code"@),
        ("code"@, code),
        ("redirect_uri"@, cfg.redirect_uri),
        ("code_verifier"@, verifier),
        ("client_id"@, cfg.client_id),
    ] + (match cfg.client_secret {
        Some(s) => seq![("client_secret"@, s)],
        None => seq![],
    }) + (if cfg.scopes.len() == 0 {
        seq![]
    } else {
        seq![("scope"@, join_with(cfg.scopes, " "@))]
    })
}

/// The refresh-token exchange form.
pub open spec fn spec_refresh_form(cfg: OAuthConfigView, refresh_token: Seq<char>) -> Seq<
    (Seq<char>, Seq<char>),
> {
    seq![("grant_type"@, "refresh_token"@), ("refresh_token"@, refresh_token), ("client_id"@, cfg.client_id)]
        + (match cfg.client_secret {
        Some(s) => seq![("client_secret"@, s)],
        None => seq![],
    })
}

/// The client-credentials exchange form.
pub open spec fn spec_client_credentials_form(
    cfg: OAuthConfigView,
    scopes: Seq<Seq<char>>,
) -> Seq<(Seq<char>, Seq<char>)> {
    seq![("grant_type"@, "client_credentials"@), ("client_id"@, cfg.client_id)] + (
    match cfg.client_secret {
        Some(s) => seq![("client_secret"@, s)],
        None => seq![],
    }) + (if scopes.len() == 0 {
        seq![]
    } else {
        seq![("scope"@, join_with(scopes, " "@))]
    })
}

/// A decoded token-endpoint success body.
#[derive(Debug, Clone)]
pub struct TokenResponse {
    pub access_token: String,
    pub refresh_token: Option<String>,
    pub token_type: String,
    pub expires_in: Option<i64>,
    pub scope: Option<String>,
}

impl View for TokenResponse {
    type V = (Seq<char>, Option<Seq<char>>, Seq<char>, Option<i64>, Option<Seq<char>>);

    open spec fn view(&self) -> (
        Seq<char>,
        Option<Seq<char>>,
        Seq<char>,
        Option<i64>,
        Option<Seq<char>>,
    ) {
        (
            self.access_token@,
            match self.refresh_token {
                Some(t) => Some(t@),
                None => None,
            },
            self.token_type@,
            self.expires_in,
            match self.scope {
                Some(s) => Some(s@),
                None => None,
            },
        )
    }
}

/// The fields serde_json reads from a token-endpoint body: access token,
/// optional refresh token, token type, optional expiry in seconds, optional
/// scope text. Fixed by the body alone; `None` where the body is not such a
/// JSON object.
pub uninterp spec fn token_fields_of(body: Seq<char>) -> Option<
    (Seq<char>, Option<Seq<char>>, Seq<char>, Option<i64>, Option<Seq<char>>),
>;

/// Relies on `serde_json::from_str::<Value>` and `Value`'s accessors:
/// the decoded fields are fixed by the body text alone. `refresh_token`,
/// `expires_in` and `scope` may each be absent or `null`; any other type
/// mismatch is a decoding failure.
#[verifier::external_body]
fn parse_token_fields(body: &str) -> (r: Option<TokenResponse>)
    ensures
        match r {
            Some(tr) => token_fields_of(body@) == Some(tr@),
            None => token_fields_of(body@) is None,
        },
{
    let v: serde_json::Value = serde_json::from_str(body).ok()?;
    let access_token = v.get("access_token")?.as_str()?.to_string();
    let token_type = v.get("token_type")?.as_str()?.to_string();
    let refresh_token = match v.get("refresh_token") { Some(x) if !x.is_null() => Some(x.as_str()?.to_string()), _ => None };
    let expires_in = match v.get("expires_in") { Some(x) if !x.is_null() => Some(x.as_i64()?), _ => None };
    let scope = match v.get("scope") { Some(x) if !x.is_null() => Some(x.as_str()?.to_string()), _ => None };
    Some(TokenResponse { access_token, refresh_token, token_type, expires_in, scope })
}

/// The session a token response denotes, received at `received_at`: the
/// expiry is `received_at` plus `expires_in` seconds (never a
/// server-supplied absolute time), the scope text is split on blanks, and a
/// token type other than case-insensitive `bearer` is rejected with its
/// folded spelling.
pub open spec fn spec_session_of_response(
    tr: (Seq<char>, Option<Seq<char>>, Seq<char>, Option<i64>, Option<Seq<char>>),
    received_at: i64,
) -> Result<SessionView, Seq<char>> {
    if lower_chars(tr.2) == "bearer"@ {
        Ok(
            SessionView {
                access_token: tr.0,
                refresh_token: tr.1,
                token_type: TokenType::Bearer,
                expires_at: match tr.3 {
                    Some(seconds) => Some(
                        clamp_ts_wide(received_at + crate::time::sat_i64(seconds * 1000)),
                    ),
                    None => None,
                },
                scope: match tr.4 {
                    Some(text) => split_ws(text),
                    None => Seq::<Seq<char>>::empty(),
                },
                created_at: received_at,
            },
        )
    } else {
        Err(lower_chars(tr.2))
    }
}

/// Build the session a token response describes. Fails with
/// `InvalidTokenType` exactly when the response's token type is not
/// case-insensitive `bearer`.
pub fn session_from_token_response(tr: &TokenResponse, received_at: Timestamp) -> (r: Result<
    AuthSession,
    AuthError,
>)
    ensures
        match spec_session_of_response(tr@, received_at.spec_millis()) {
            Ok(sv) => r matches Ok(s) && s@ == sv,
            Err(folded) => r matches Err(e) && (e matches AuthError::InvalidTokenType(t) && t@
                == folded),
        },
{
    let tt_chars = str_chars(self_token_type(tr));
    let lowered = to_ascii_lower(&tt_chars);
    if crate::strutil::chars_eq_str(&lowered, "bearer") {
        let expires_at: Option<Timestamp> = match &tr.expires_in {
            Some(seconds) => Some(received_at.plus(Duration::seconds(*seconds))),
            None => None,
        };
        let scope: Vec<String> = match &tr.scope {
            Some(text) => {
                let chars = str_chars(text.as_str());
                let words = split_whitespace(&chars);
                strings_of_words(&words)
            },
            None => Vec::new(),
        };
        let session = AuthSession {
            access_token: tr.access_token.clone(),
            refresh_token: tr.refresh_token.clone(),
            token_type: TokenType::Bearer,
            expires_at,
            scope,
            created_at: received_at,
        };
        proof {
            let sv = spec_session_of_response(tr@, received_at.spec_millis())->Ok_0;
            assert(session@.scope =~= sv.scope);
            assert(session@ =~= sv);
        }
        Ok(session)
    } else {
        Err(AuthError::InvalidTokenType(chars_to_string(&lowered)))
    }
}

/// The response's token-type text.
fn self_token_type(tr: &TokenResponse) -> (r: &str)
    ensures
        r@ == tr@.2,
{
    tr.token_type.as_str()
}

/// Interpret a token-endpoint response: a non-success status is reported
/// with the raw status and body; a success body is decoded and turned into
/// a bearer session whose expiry is computed from `received_at`.
pub fn handle_token_response(status: u16, body: &str, received_at: Timestamp) -> (r: Result<
    TokenExchangeResult,
    AuthError,
>)
    ensures
        !(200 <= status < 300) ==> (r matches Err(e) && e matches AuthError::TokenEndpoint {
            status: st,
            body: b,
        } && st == status && b@ == body@),
        (200 <= status < 300) ==> match token_fields_of(body@) {
            None => r matches Err(e) && e matches AuthError::Deserialize(_),
            Some(fields) => match spec_session_of_response(fields, received_at.spec_millis()) {
                Ok(sv) => r matches Ok(t) && t.session@ == sv && t.received_at
                    == received_at,
                Err(folded) => r matches Err(e) && (e matches AuthError::InvalidTokenType(t)
                    && t@ == folded),
            },
        },
{
    if !(200 <= status && status < 300) {
        return Err(AuthError::TokenEndpoint { status, body: String::from_str(body) });
    }
    match parse_token_fields(body) {
        None => Err(
            AuthError::Deserialize(String::from_str("unexpected token endpoint response body")),
        ),
        Some(tr) => {
            match session_from_token_response(&tr, received_at) {
                Ok(session) => Ok(TokenExchangeResult { session, received_at }),
                Err(e) => Err(e),
            }
        },
    }
}

/// A server that omits `refresh_token` on refresh does not revoke the old
/// one: carry the previous refresh token forward in that case, and keep the
/// fresh one otherwise.
pub fn carry_refresh_token(previous: &AuthSession, fresh: AuthSession) -> (r: AuthSession)
    ensures
        fresh@.refresh_token is Some ==> r@ == fresh@,
        fresh@.refresh_token is None ==> r@ == (SessionView {
            refresh_token: previous@.refresh_token,
            ..fresh@
        }),
{
    match &fresh.refresh_token {
        Some(_) => fresh,
        None => {
            let r = AuthSession { refresh_token: previous.refresh_token.clone(), ..fresh };
            r
        },
    }
}

} // verus!
