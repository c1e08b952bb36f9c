//! The authentication session model: the unit of identity handed to API
//! callers, with its expiry bookkeeping.

use vstd::prelude::*;

use crate::time::{Duration, Timestamp};

verus! {

/// Type of token held by a session.
#[derive(Debug, Clone, Copy, PartialEq, Eq, Structural)]
pub enum TokenType {
    Bearer,
    ApiKey,
}

/// A persisted authentication session.
#[derive(Debug, Clone)]
pub struct AuthSession {
    pub access_token: String,
    pub refresh_token: Option<String>,
    pub token_type: TokenType,
    pub expires_at: Option<Timestamp>,
    pub scope: Vec<String>,
    pub created_at: Timestamp,
}

/// The mathematical content of a session.
#[verifier::ext_equal]
pub ghost struct SessionView {
    pub access_token: Seq<char>,
    pub refresh_token: Option<Seq<char>>,
    pub token_type: TokenType,
    pub expires_at: Option<i64>,
    pub scope: Seq<Seq<char>>,
    pub created_at: i64,
}

impl View for AuthSession {
    type V = SessionView;

    open spec fn view(&self) -> SessionView {
        SessionView {
            access_token: self.access_token@,
            refresh_token: match self.refresh_token {
                Some(t) => Some(t@),
                None => None,
            },
            token_type: self.token_type,
            expires_at: match self.expires_at {
                Some(t) => Some(t.spec_millis()),
                None => None,
            },
            scope: self.scope.deep_view(),
            created_at: self.created_at.spec_millis(),
        }
    }
}

impl SessionView {
    /// An API-key session never carries an expiry or a refresh token.
    pub open spec fn wf(self) -> bool {
        self.token_type == TokenType::ApiKey ==> self.expires_at is None
            && self.refresh_token is None
    }

    /// True when the session is past its expiry at instant `now`.
    pub open spec fn expired_at(self, now: i64) -> bool {
        match self.expires_at {
            Some(ts) => now >= ts,
            None => false,
        }
    }

    /// True when the session will be past its expiry within `window`
    /// milliseconds of instant `now`.
    pub open spec fn expires_within(self, window: i64, now: i64) -> bool {
        match self.expires_at {
            Some(ts) => now + window >= ts,
            None => false,
        }
    }
}

impl AuthSession {
    /// A fresh bearer-token session created now.
    pub fn new_access_token(
        access_token: String,
        refresh_token: Option<String>,
        expires_at: Timestamp,
        scope: Vec<String>,
    ) -> (r: AuthSession)
        ensures
            r@.access_token == access_token@,
            r@.refresh_token == match refresh_token {
                Some(t) => Some(t@),
                None => None::<Seq<char>>,
            },
            r@.token_type == TokenType::Bearer,
            r@.expires_at == Some(expires_at.spec_millis()),
            r@.scope == scope.deep_view(),
            r@.wf(),
    {
        AuthSession {
            access_token,
            refresh_token,
            token_type: TokenType::Bearer,
            expires_at: Some(expires_at),
            scope,
            created_at: Timestamp::now(),
        }
    }

    /// A static API-key session created now; it has no expiry and no refresh
    /// token.
    pub fn new_api_key(key: String) -> (r: AuthSession)
        ensures
            r@.access_token == key@,
            r@.refresh_token is None,
            r@.token_type == TokenType::ApiKey,
            r@.expires_at is None,
            r@.scope == Seq::<Seq<char>>::empty(),
            r@.wf(),
    {
        let r = AuthSession {
            access_token: key,
            refresh_token: None,
            token_type: TokenType::ApiKey,
            expires_at: None,
            scope: Vec::new(),
            created_at: Timestamp::now(),
        };
        proof {
            assert(r@.scope =~= Seq::<Seq<char>>::empty());
        }
        r
    }

    /// True when the session is past its expiry at instant `now`.
    pub fn is_expired_at(&self, now: Timestamp) -> (r: bool)
        ensures
            r == self@.expired_at(now.spec_millis()),
    {
        match &self.expires_at {
            Some(ts) => now.millis() >= ts.millis(),
            None => false,
        }
    }

    /// True when the session will be past its expiry within `window` of
    /// instant `now`.
    pub fn will_expire_within_at(&self, window: Duration, now: Timestamp) -> (r: bool)
        ensures
            r == self@.expires_within(window.spec_millis(), now.spec_millis()),
    {
        match &self.expires_at {
            Some(ts) => now.millis() as i128 + window.millis() as i128 >= ts.millis() as i128,
            None => false,
        }
    }

    /// True when the session is past its expiry at the present instant. A
    /// session without an expiry is never expired.
    pub fn is_expired(&self) -> (r: bool)
        ensures
            self@.expires_at is None ==> !r,
            self@.expires_at is Some ==> exists|now: i64| r == self@.expired_at(now),
    {
        let now = Timestamp::now();
        let r = self.is_expired_at(now);
        proof {
            if self@.expires_at is Some {
                assert(r == self@.expired_at(now.spec_millis()));
            }
        }
        r
    }

    /// True when the session will be past its expiry within `window` of the
    /// present instant. A session without an expiry never expires.
    pub fn will_expire_within(&self, window: Duration) -> (r: bool)
        ensures
            self@.expires_at is None ==> !r,
            self@.expires_at is Some ==> exists|now: i64|
                r == self@.expires_within(window.spec_millis(), now),
    {
        let now = Timestamp::now();
        let r = self.will_expire_within_at(window, now);
        proof {
            if self@.expires_at is Some {
                assert(r == self@.expires_within(window.spec_millis(), now.spec_millis()));
            }
        }
        r
    }
}

/// A copy of a session with the same mathematical content.
pub fn clone_session(s: &AuthSession) -> (r: AuthSession)
    ensures
        r@ == s@,
{
    let r = AuthSession {
        access_token: s.access_token.clone(),
        refresh_token: match &s.refresh_token {
            Some(t) => Some(t.clone()),
            None => None,
        },
        token_type: s.token_type,
        expires_at: s.expires_at,
        scope: crate::strutil::clone_strings(&s.scope),
        created_at: s.created_at,
    };
    proof {
        assert(r@ =~= s@);
    }
    r
}

/// A well-formed API-key session is never expired and never reports an
/// upcoming expiry, whatever the instant and whatever the window.
pub proof fn lemma_api_key_never_expires(s: SessionView)
    requires
        s.wf(),
        s.token_type == TokenType::ApiKey,
    ensures
        forall|now: i64| !s.expired_at(now),
        forall|window: i64, now: i64| !s.expires_within(window, now),
{
}

/// A bearer session expiring sixty seconds from `now` reports an expiry
/// within a two-minute window but not within a thirty-second window.
pub proof fn lemma_bearer_expiry_window(s: SessionView, now: i64)
    requires
        s.expires_at == Some((now + 60_000) as i64),
        -1_000_000_000_000 < now < 1_000_000_000_000,
    ensures
        s.expires_within(120_000, now),
        !s.expires_within(30_000, now),
{
}

} // verus!
